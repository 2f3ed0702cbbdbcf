use protify_server::http::handler::Method;
use protify_server::json::{JsonValue, Reply, ReplyBody};
use protify_server::server::authentication::{Authentication, Permissions};
use protify_server::server::games::{download_game, store_main, StoreListing};
use protify_server::server::handler::{
    Endpoint, ErrorStruct, MainAction, MainEvent, RequestHandler,
};
use protify_server::server::service::{
    ServiceDecision, ServiceHandler, MAX_BODY_BYTES, MAX_HEADER_BYTES, MAX_URL_CHARS,
};
use protify_server::server::user::User;
use protify_server::socket::handler::{ResponseHandler, SocketAction};
use protify_server::socket::session::{read_message_text, ServiceRegistry};
use protify_server::source::database::Row;
use protify_server::string_map::StringMap;

fn render(j: &JsonValue) -> String {
    match j {
        JsonValue::Null => "null".to_string(),
        JsonValue::Bool(b) => b.to_string(),
        JsonValue::Int(n) => n.to_string(),
        JsonValue::Text(t) => format!("{:?}", t),
        JsonValue::ArrayText(t) => t.clone(),
        JsonValue::List(l) => {
            let items: Vec<String> = l.iter().map(render).collect();
            format!("[{}]", items.join(","))
        }
        JsonValue::Object(f) => {
            let items: Vec<String> = f.iter().map(|(k, v)| format!("{:?}:{}", k, render(v))).collect();
            format!("{{{}}}", items.join(","))
        }
    }
}

fn reply_text(r: &Reply) -> String {
    match &r.body {
        ReplyBody::Plain(t) => t.clone(),
        ReplyBody::Json(j) => render(j),
    }
}

fn map(pairs: &[(&str, &str)]) -> StringMap<String> {
    let mut m = StringMap::new();
    for (k, v) in pairs {
        m.insert(k.to_string(), v.to_string());
    }
    m
}

fn lookup(m: &StringMap<String>, k: &str) -> Option<String> {
    m.get(&k.to_string()).cloned()
}

fn expect_reply(a: MainAction) -> Reply {
    match a {
        MainAction::Respond(r) => r,
        MainAction::ConnectDatabase => panic!("got ConnectDatabase"),
        MainAction::ListStore => panic!("got ListStore"),
        MainAction::Query(q) => panic!("got query {}", q.query_text()),
    }
}

#[test]
fn readme_query_example() {
    let query = ServiceHandler::parse_query("/test&value=1&othervalue=2");
    assert_eq!(query.len(), 2);
    assert_eq!(lookup(&query, "value"), Some("1".to_string()));
    assert_eq!(lookup(&query, "othervalue"), Some("2".to_string()));
    assert_eq!(ServiceHandler::strip_query("/test&value=1&othervalue=2".to_string()), "/test");
    assert_eq!(ServiceHandler::strip_query("/test".to_string()), "/test");
}

#[test]
fn query_value_keeps_later_equals_signs() {
    let query = ServiceHandler::parse_query("/p&k=a=b&flag");
    assert_eq!(lookup(&query, "k"), Some("a=b".to_string()));
    assert_eq!(lookup(&query, "flag"), None);
}

#[test]
fn service_reads_body_within_limits() {
    let service = ServiceHandler::new("10.1.1.1".to_string());
    match service.handle_service(
        "/store_showcase&a=1".to_string(),
        Method::Get,
        map(&[("username", "x")]),
        100,
        Some(MAX_BODY_BYTES),
    ) {
        ServiceDecision::ReadBody(p) => {
            assert_eq!(p.url, "/store_showcase");
            assert_eq!(p.method, Method::Get);
            assert_eq!(lookup(&p.headers, "host_full"), Some("10.1.1.1".to_string()));
            assert_eq!(lookup(&p.headers, "username"), Some("x".to_string()));
            assert_eq!(lookup(&p.query, "a"), Some("1".to_string()));
            let handler = p.with_body("{}".to_string());
            assert_eq!(handler.endpoint(), protify_server::http::handler::Endpoint::StoreShowcase);
        }
        ServiceDecision::Overflow(_) => panic!("should read the body"),
    }
}

#[test]
fn service_limits_overflow() {
    let service = ServiceHandler::new("10.1.1.1".to_string());
    let long_url = format!("/{}", "a".repeat(MAX_URL_CHARS));
    let ok_url = format!("/{}", "é".repeat(MAX_URL_CHARS - 1));
    let cases = vec![
        (long_url, 0usize, Some(0u64)),
        ("/x".to_string(), MAX_HEADER_BYTES + 1, Some(0u64)),
        ("/x".to_string(), 0, Some(MAX_BODY_BYTES + 1)),
        ("/x".to_string(), 0, None),
    ];
    for (url, header_bytes, hint) in cases {
        match service.handle_service(url, Method::Post, map(&[]), header_bytes, hint) {
            ServiceDecision::Overflow(h) => {
                assert_eq!(h.endpoint(), protify_server::http::handler::Endpoint::LimitOverflow);
            }
            ServiceDecision::ReadBody(_) => panic!("should overflow"),
        }
    }
    assert!(matches!(
        service.handle_service(ok_url, Method::Get, map(&[]), MAX_HEADER_BYTES, Some(0)),
        ServiceDecision::ReadBody(_)
    ));
}

#[test]
fn first_server_routes_and_errors() {
    let r = ErrorStruct::not_found();
    assert_eq!(r.status, 401);
    assert_eq!(reply_text(&r), "Not Found");
    let r = ErrorStruct::size_limit();
    assert_eq!(r.status, 401);
    assert_eq!(reply_text(&r), "Size Limit");
    let h = RequestHandler::new("/store_main_list".to_string(), Method::Get, map(&[]), String::new());
    assert_eq!(h.endpoint(), Endpoint::StoreMainList);
    let mut h = RequestHandler::new("/nope".to_string(), Method::Get, map(&[]), String::new());
    let r = expect_reply(h.handle_request(MainEvent::Begin));
    assert_eq!(reply_text(&r), "Not Found");
    let mut h = RequestHandler::new("/download_game".to_string(), Method::Get, map(&[]), String::new());
    let r = expect_reply(h.handle_request(MainEvent::Begin));
    assert_eq!(reply_text(&r), r#"{"message":"Success"}"#);
}

#[test]
fn first_server_lists_store_for_anonymous() {
    let mut h = RequestHandler::new(
        "/store_main_list".to_string(),
        Method::Get,
        map(&[("username", "anonymous")]),
        String::new(),
    );
    assert!(matches!(h.handle_request(MainEvent::Begin), MainAction::ConnectDatabase));
    assert!(matches!(h.handle_request(MainEvent::Connected(true)), MainAction::ListStore));
    let listing = StoreListing {
        games: vec!["game1".to_string()],
        softwares: vec![],
    };
    let r = expect_reply(h.handle_request(MainEvent::Listed(Some(listing))));
    assert_eq!(r.status, 200);
    assert_eq!(
        reply_text(&r),
        r#"{"message":"Success","content":{"games":["game1"],"softwares":[]}}"#
    );
}

#[test]
fn first_server_missing_folder_and_bad_token() {
    let mut h = RequestHandler::new(
        "/store_main_list".to_string(),
        Method::Get,
        map(&[("username", "anonymous")]),
        String::new(),
    );
    h.handle_request(MainEvent::Begin);
    h.handle_request(MainEvent::Connected(true));
    let r = expect_reply(h.handle_request(MainEvent::Listed(None)));
    assert_eq!(r.status, 500);
    assert_eq!(reply_text(&r), r#"{"MESSAGE":"invalid_store_path_contact_the_server_owner"}"#);
    let mut h = RequestHandler::new("/store_main_list".to_string(), Method::Get, map(&[]), String::new());
    let r = expect_reply(h.handle_request(MainEvent::Begin));
    assert_eq!(r.status, 511);
    let mut h = RequestHandler::new(
        "/store_main_list".to_string(),
        Method::Get,
        map(&[("username", "u"), ("token", "t")]),
        String::new(),
    );
    h.handle_request(MainEvent::Begin);
    assert!(matches!(h.handle_request(MainEvent::Connected(true)), MainAction::Query(_)));
    let rows: Vec<Row> = vec![map(&[("TOKEN", "Invalid Token")])];
    let r = expect_reply(h.handle_request(MainEvent::Rows(rows)));
    assert_eq!(r.status, 511);
}

#[test]
fn store_main_and_download_game_replies() {
    let r = store_main(&StoreListing { games: vec![], softwares: vec!["tool".to_string()] });
    assert_eq!(reply_text(&r), r#"{"message":"Success","content":{"games":[],"softwares":["tool"]}}"#);
    let r = download_game(&map(&[]), &String::new());
    assert_eq!(r.status, 200);
    let r = User::change_username("{}".to_string());
    assert_eq!(reply_text(&r), r#"{"message":"SUCCESS"}"#);
}

#[test]
fn permissions_of_users() {
    assert_eq!(Permissions::check_anoynmous_permission(Permissions::ACTION_STORE_MAIN), "Permission Granted");
    assert_eq!(Permissions::check_anoynmous_permission(Permissions::ACTION_DOWNLOAD_GAME), "No Permission");
    assert_eq!(Permissions::check_anoynmous_permission(Permissions::ACTION_LOGIN), "Permission Granted");
    let user = Authentication::new(&map(&[("username", "u"), ("token", "t")])).unwrap();
    assert_eq!(Permissions::check_user_permission(Permissions::ACTION_LOGIN, &user), "No Permission");
    assert_eq!(Permissions::check_user_permission(Permissions::ACTION_DOWNLOAD_GAME, &user), "Permission Granted");
    let good: Vec<Row> = vec![map(&[("TOKEN", "t")])];
    let bad: Vec<Row> = vec![map(&[("TOKEN", "x")])];
    assert_eq!(user.authenticate(Permissions::ACTION_CHANGE_PASSWORD, &good), "Permission Granted");
    assert_eq!(user.authenticate(Permissions::ACTION_CHANGE_PASSWORD, &bad), "Invalid Token");
    assert_eq!(user.authenticate(Permissions::ACTION_CHANGE_PASSWORD, &vec![]), "Invalid Token");
    assert!(Authentication::new(&map(&[])).is_none());
    assert!(Authentication::new(&map(&[("username", "u")])).is_none());
    let anonymous = Authentication::new(&map(&[("username", "anonymous")])).unwrap();
    assert!(anonymous.is_anonymous());
    assert_eq!(anonymous.username(), "anonymous");
    assert_eq!(anonymous.authenticate(Permissions::ACTION_GET_GAME_INFO, &bad), "Permission Granted");
    assert_eq!(
        user.token_query().query_text(),
        "SELECT * FROM USERS WHERE ID = 1 AND USERNAME = 'u'"
    );
}

#[test]
fn socket_messages() {
    let mut h = ResponseHandler::new("1.1.1.1".to_string());
    assert!(matches!(h.handle_response(), SocketAction::Nothing));
    let (body, action) = read_message_text(r#"{"ACTION": "AUTHENTICATE", "OTHER": "x", "ID": 3}"#);
    assert_eq!(action, "AUTHENTICATE");
    assert_eq!(body.len(), 0);
    h.set_body_action(body, action);
    match h.handle_response() {
        SocketAction::Send(j) => assert_eq!(render(&j), r#"{"MESSAGE":"AUTHENTICATED"}"#),
        _ => panic!("expected the authentication answer"),
    }
    assert!(!h.authentication_sent(false));
    assert!(h.authentication_sent(true));
    let (body, action) = read_message_text(r#"{"ACTION":"GET_ITEM_INFO","ID":"12"}"#);
    h.set_body_action(body, action);
    match h.handle_response() {
        SocketAction::CountItemFiles(id) => assert_eq!(id, "12"),
        _ => panic!("expected a count of files"),
    }
    match h.item_files_counted(Some(4)) {
        SocketAction::Send(j) => assert_eq!(render(&j), r#"{"MESSAGE":"GAME_INFO","CONTENT":4}"#),
        _ => panic!("expected the game info"),
    }
    assert!(matches!(h.item_files_counted(None), SocketAction::Shutdown));
    h.set_body_action(map(&[("ID", "-1")]), "GET_ITEM_INFO".to_string());
    assert!(matches!(h.handle_response(), SocketAction::Shutdown));
    assert!(!h.authentication_sent(true));
    let (body, action) = read_message_text("not json");
    assert_eq!(action, "");
    assert_eq!(body.len(), 0);
    let (_, action) = read_message_text(r#"["ACTION"]"#);
    assert_eq!(action, "");
    let (body, action) = read_message_text(r#"{"ID":"7","ACTION":"GET_ITEM_INFO"}"#);
    assert_eq!(action, "GET_ITEM_INFO");
    assert_eq!(lookup(&body, "ID"), Some("7".to_string()));
}

#[test]
fn one_service_per_address() {
    let mut registry = ServiceRegistry::new();
    let a = "1.1.1.1".to_string();
    assert!(registry.try_open(&a));
    assert!(!registry.try_open(&a));
    assert!(registry.contains(&a));
    assert!(registry.try_open(&"2.2.2.2".to_string()));
    registry.close(&a);
    assert!(!registry.contains(&a));
    assert!(registry.try_open(&a));
}
