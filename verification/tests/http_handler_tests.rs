use protify_server::http::games::{
    download_item, get_item_info, item_id_param, item_info_query, showcase_query, store_showcase,
};
use protify_server::http::handler::{
    DefaultResponse, Endpoint, ErrorStruct, HandlerAction, HandlerEvent, Method, RequestHandler,
};
use protify_server::json::{JsonValue, Reply, ReplyBody};
use protify_server::source::database::Row;
use protify_server::string_map::StringMap;

fn render(j: &JsonValue) -> String {
    match j {
        JsonValue::Null => "null".to_string(),
        JsonValue::Bool(b) => b.to_string(),
        JsonValue::Int(n) => n.to_string(),
        JsonValue::Text(t) => format!("{:?}", t),
        JsonValue::ArrayText(t) => t.clone(),
        JsonValue::List(l) => {
            let items: Vec<String> = l.iter().map(render).collect();
            format!("[{}]", items.join(","))
        }
        JsonValue::Object(f) => {
            let items: Vec<String> = f.iter().map(|(k, v)| format!("{:?}:{}", k, render(v))).collect();
            format!("{{{}}}", items.join(","))
        }
    }
}

fn reply_text(r: &Reply) -> String {
    match &r.body {
        ReplyBody::Plain(t) => t.clone(),
        ReplyBody::Json(j) => render(j),
    }
}

fn map(pairs: &[(&str, &str)]) -> StringMap<String> {
    let mut m = StringMap::new();
    for (k, v) in pairs {
        m.insert(k.to_string(), v.to_string());
    }
    m
}

fn row(pairs: &[(&str, &str)]) -> Row {
    map(pairs)
}

fn handler(url: &str, method: Method, headers: &[(&str, &str)], query: &[(&str, &str)]) -> RequestHandler {
    RequestHandler::new(url.to_string(), method, map(headers), map(query), String::new())
}

fn expect_reply(a: HandlerAction) -> Reply {
    match a {
        HandlerAction::Respond(r) => r,
        HandlerAction::ConnectDatabase => panic!("expected a reply, got ConnectDatabase"),
        HandlerAction::Query(q) => panic!("expected a reply, got query {}", q.query_text()),
    }
}

fn expect_query(a: HandlerAction) -> String {
    match a {
        HandlerAction::Query(q) => q.query_text(),
        HandlerAction::ConnectDatabase => panic!("expected a query, got ConnectDatabase"),
        HandlerAction::Respond(r) => panic!("expected a query, got reply {}", reply_text(&r)),
    }
}

fn expect_connect(a: HandlerAction) {
    match a {
        HandlerAction::ConnectDatabase => {}
        HandlerAction::Query(q) => panic!("expected ConnectDatabase, got {}", q.query_text()),
        HandlerAction::Respond(r) => panic!("expected ConnectDatabase, got {}", reply_text(&r)),
    }
}

#[test]
fn error_replies_have_their_codes() {
    let r = ErrorStruct::not_found();
    assert_eq!(r.status, 404);
    assert_eq!(reply_text(&r), r#"{"MESSAGE":"not_found_cannot_find_the_specific_url"}"#);
    let r = ErrorStruct::size_limit();
    assert_eq!(r.status, 406);
    assert_eq!(reply_text(&r), r#"{"MESSAGE":"size_limit"}"#);
    let r = ErrorStruct::internal_server_error("boom".to_string());
    assert_eq!(r.status, 500);
    assert_eq!(reply_text(&r), r#"{"MESSAGE":"boom"}"#);
    let r = ErrorStruct::authentication_required();
    assert_eq!(r.status, 511);
    assert_eq!(reply_text(&r), r#"{"MESSAGE":"user_dont_have_access_to_this_action"}"#);
    let r = ErrorStruct::invalid_parameters();
    assert_eq!(r.status, 511);
    assert_eq!(reply_text(&r), r#"{"MESSAGE":"invalid_parameters"}"#);
}

#[test]
fn default_response_keeps_body_and_status() {
    let r = DefaultResponse::new(JsonValue::Int(3), 201).build_response();
    assert_eq!(r.status, 201);
    assert_eq!(reply_text(&r), "3");
}

#[test]
fn routing_by_method_and_url() {
    assert_eq!(handler("/store_showcase", Method::Get, &[], &[]).endpoint(), Endpoint::StoreShowcase);
    assert_eq!(handler("/get_item_info", Method::Get, &[], &[]).endpoint(), Endpoint::GetItemInfo);
    assert_eq!(handler("/download_item", Method::Get, &[], &[]).endpoint(), Endpoint::DownloadItem);
    assert_eq!(handler("/change_username", Method::Patch, &[], &[]).endpoint(), Endpoint::ChangeUsername);
    assert_eq!(handler("/change_username", Method::Get, &[], &[]).endpoint(), Endpoint::NotFound);
    assert_eq!(handler("/limit_overflow", Method::Post, &[], &[]).endpoint(), Endpoint::LimitOverflow);
    assert_eq!(handler("/store_showcase", Method::Other, &[], &[]).endpoint(), Endpoint::NotFound);
}

#[test]
fn unknown_url_is_not_found_at_once() {
    let mut h = handler("/nothing", Method::Get, &[], &[]);
    let r = expect_reply(h.handle_request(HandlerEvent::Begin));
    assert_eq!(r.status, 404);
}

#[test]
fn limit_overflow_answers_size_limit() {
    let mut h = handler("/limit_overflow", Method::Get, &[], &[]);
    let r = expect_reply(h.handle_request(HandlerEvent::Begin));
    assert_eq!(r.status, 406);
}

#[test]
fn change_username_needs_a_login() {
    let mut h = handler("/change_username", Method::Patch, &[], &[]);
    let r = expect_reply(h.handle_request(HandlerEvent::Begin));
    assert_eq!(r.status, 511);
    assert_eq!(reply_text(&r), r#"{"MESSAGE":"user_dont_have_access_to_this_action"}"#);
    let mut h = handler("/change_username", Method::Patch, &[("username", "anonymous")], &[]);
    expect_connect(h.handle_request(HandlerEvent::Begin));
    let r = expect_reply(h.handle_request(HandlerEvent::Connected(true)));
    assert_eq!(r.status, 511);
}

#[test]
fn change_username_succeeds_for_logged_user() {
    let mut h = handler(
        "/change_username",
        Method::Patch,
        &[("username", "leandro"), ("token", "abc")],
        &[],
    );
    expect_connect(h.handle_request(HandlerEvent::Begin));
    expect_query(h.handle_request(HandlerEvent::Connected(true)));
    let rows = vec![row(&[("ID", "1"), ("TOKEN", "abc")])];
    let r = expect_reply(h.handle_request(HandlerEvent::Rows(rows)));
    assert_eq!(r.status, 200);
    assert_eq!(reply_text(&r), r#"{"message":"SUCCESS"}"#);
}

#[test]
fn request_without_username_is_refused_at_once() {
    let mut h = handler("/store_showcase", Method::Get, &[], &[]);
    let r = expect_reply(h.handle_request(HandlerEvent::Begin));
    assert_eq!(r.status, 511);
    assert_eq!(reply_text(&r), r#"{"MESSAGE":"user_dont_have_access_to_this_action"}"#);
    let mut h = handler("/get_item_info", Method::Get, &[("username", "leandro")], &[("item", "1")]);
    let r = expect_reply(h.handle_request(HandlerEvent::Begin));
    assert_eq!(r.status, 511);
}

#[test]
fn token_query_escapes_the_username() {
    let mut h = handler(
        "/download_item",
        Method::Get,
        &[("username", "x' OR '1'='1"), ("token", "abc")],
        &[],
    );
    expect_connect(h.handle_request(HandlerEvent::Begin));
    let q = expect_query(h.handle_request(HandlerEvent::Connected(true)));
    assert_eq!(q, "SELECT * FROM USERS WHERE ID = 1 AND USERNAME = 'x'' OR ''1''=''1'");
}

#[test]
fn anonymous_showcase_flow() {
    let mut h = handler("/store_showcase", Method::Get, &[("username", "anonymous")], &[]);
    expect_connect(h.handle_request(HandlerEvent::Begin));
    expect_connect(h.handle_request(HandlerEvent::Connected(true)));
    assert_eq!(expect_query(h.handle_request(HandlerEvent::Connected(true))), "SELECT * FROM SHOWCASE");
    let rows = vec![row(&[("ID", "3")]), row(&[("ID", "x")]), row(&[])];
    let r = expect_reply(h.handle_request(HandlerEvent::Rows(rows)));
    assert_eq!(r.status, 200);
    assert_eq!(reply_text(&r), r#"{"MESSAGE":"SUCCESS","CONTENT":[3,0,0]}"#);
}

#[test]
fn database_down_gives_internal_error() {
    let mut h = handler("/store_showcase", Method::Get, &[("username", "anonymous")], &[]);
    expect_connect(h.handle_request(HandlerEvent::Begin));
    let r = expect_reply(h.handle_request(HandlerEvent::Connected(false)));
    assert_eq!(r.status, 500);
    assert_eq!(reply_text(&r), r#"{"MESSAGE":"connection_to_database_failed"}"#);
}

#[test]
fn second_connection_failure_gives_connection_failed() {
    let mut h = handler("/store_showcase", Method::Get, &[("username", "anonymous")], &[]);
    expect_connect(h.handle_request(HandlerEvent::Begin));
    expect_connect(h.handle_request(HandlerEvent::Connected(true)));
    let r = expect_reply(h.handle_request(HandlerEvent::Connected(false)));
    assert_eq!(r.status, 500);
    assert_eq!(reply_text(&r), r#"{"MESSAGE":"Connection Failed"}"#);
}

#[test]
fn anonymous_download_is_refused() {
    let mut h = handler("/download_item", Method::Get, &[("username", "anonymous")], &[("item", "1")]);
    expect_connect(h.handle_request(HandlerEvent::Begin));
    let r = expect_reply(h.handle_request(HandlerEvent::Connected(true)));
    assert_eq!(r.status, 511);
    assert_eq!(reply_text(&r), r#"{"MESSAGE":"user_dont_have_access_to_this_action"}"#);
}

#[test]
fn logged_user_with_confirmed_token_downloads() {
    let mut h = handler(
        "/download_item",
        Method::Get,
        &[("username", "leandro"), ("token", "abc")],
        &[("item", "1")],
    );
    expect_connect(h.handle_request(HandlerEvent::Begin));
    let q = expect_query(h.handle_request(HandlerEvent::Connected(true)));
    assert_eq!(q, "SELECT * FROM USERS WHERE ID = 1 AND USERNAME = 'leandro'");
    let rows = vec![row(&[("ID", "0"), ("TOKEN", "abc")])];
    let r = expect_reply(h.handle_request(HandlerEvent::Rows(rows)));
    assert_eq!(r.status, 200);
    assert_eq!(reply_text(&r), r#"{"MESSAGE":"SUCCESS"}"#);
}

#[test]
fn logged_user_with_wrong_token_is_refused() {
    let mut h = handler(
        "/download_item",
        Method::Get,
        &[("username", "leandro"), ("token", "abc")],
        &[],
    );
    expect_connect(h.handle_request(HandlerEvent::Begin));
    expect_query(h.handle_request(HandlerEvent::Connected(true)));
    let rows = vec![row(&[("ID", "0"), ("TOKEN", "other")])];
    let r = expect_reply(h.handle_request(HandlerEvent::Rows(rows)));
    assert_eq!(r.status, 511);
}

#[test]
fn token_query_error_is_refused() {
    let mut h = handler("/store_showcase", Method::Get, &[("username", "leandro"), ("token", "abc")], &[]);
    expect_connect(h.handle_request(HandlerEvent::Begin));
    expect_query(h.handle_request(HandlerEvent::Connected(true)));
    let rows = vec![row(&[("error_message", "Connection aborted during the query")])];
    let r = expect_reply(h.handle_request(HandlerEvent::Rows(rows)));
    assert_eq!(r.status, 511);
}

#[test]
fn item_info_flow() {
    let mut h = handler("/get_item_info", Method::Get, &[("username", "anonymous")], &[("item", "7")]);
    expect_connect(h.handle_request(HandlerEvent::Begin));
    expect_connect(h.handle_request(HandlerEvent::Connected(true)));
    let q = expect_query(h.handle_request(HandlerEvent::Connected(true)));
    assert_eq!(q, "SELECT * FROM STORE WHERE ID = 7");
    let rows = vec![row(&[("ID", "7"), ("NAME", "Game"), ("LANGUAGES", "[\"en\",\"pt\"]")])];
    let r = expect_reply(h.handle_request(HandlerEvent::Rows(rows)));
    assert_eq!(r.status, 200);
    assert_eq!(
        reply_text(&r),
        r#"{"MESSAGE":"SUCCESS","CONTENT":{"ID":7,"NAME":"Game","LANGUAGES":["en","pt"]}}"#
    );
}

#[test]
fn item_info_without_item_is_invalid() {
    let mut h = handler("/get_item_info", Method::Get, &[("username", "anonymous")], &[("item", "abc")]);
    expect_connect(h.handle_request(HandlerEvent::Begin));
    let r = expect_reply(h.handle_request(HandlerEvent::Connected(true)));
    assert_eq!(r.status, 511);
    assert_eq!(reply_text(&r), r#"{"MESSAGE":"invalid_parameters"}"#);
}

#[test]
fn item_info_of_unknown_item_is_invalid() {
    let r = get_item_info(&vec![]);
    assert_eq!(r.status, 511);
    assert_eq!(reply_text(&r), r#"{"MESSAGE":"invalid_parameters"}"#);
}

#[test]
fn item_info_passes_database_error() {
    let r = get_item_info(&vec![row(&[("error_message", "Cannot connect to the Database, connection refused")])]);
    assert_eq!(r.status, 500);
    assert_eq!(reply_text(&r), r#"{"MESSAGE":"Cannot connect to the Database, connection refused"}"#);
}

#[test]
fn showcase_passes_database_error() {
    let r = store_showcase(&vec![row(&[("ID", "1")]), row(&[("error_message", "bad")])]);
    assert_eq!(r.status, 500);
    assert_eq!(reply_text(&r), r#"{"MESSAGE":"bad"}"#);
}

#[test]
fn store_queries() {
    assert_eq!(showcase_query().query_text(), "SELECT * FROM SHOWCASE");
    assert_eq!(item_info_query(65535).query_text(), "SELECT * FROM STORE WHERE ID = 65535");
    assert_eq!(item_info_query(3).waiting_params, vec!["ID", "NAME", "CATEGORY", "LANGUAGES", "DESCRIPTION"]);
}

#[test]
fn item_parameter_reads_u16() {
    assert_eq!(item_id_param(&map(&[("item", "65535")])), Some(65535));
    assert_eq!(item_id_param(&map(&[("item", "65536")])), None);
    assert_eq!(item_id_param(&map(&[])), None);
}

#[test]
fn download_item_always_succeeds() {
    let r = download_item(&map(&[]));
    assert_eq!(r.status, 200);
    assert_eq!(reply_text(&r), r#"{"MESSAGE":"SUCCESS"}"#);
}
