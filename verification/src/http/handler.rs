//! The routing of the http server and the handling of one request.  Handling a
//! request alternates decisions with work on the database; the decisions are
//! taken here, one step at a time, and each step tells the caller what to do
//! next: connect to the database, run a query, or send the reply.
use vstd::prelude::*;
use crate::http::games::{
    download_item,
    get_item_info,
    is_item_info_reply,
    is_showcase_reply,
    item_id_param,
    item_info_query,
    is_item_info_query,
    is_showcase_query,
    item_param,
    showcase_query,
    store_showcase,
};
use crate::json::{
    is_json_message,
    json_message,
    JsonValue,
    Reply,
    ReplyBody,
    STATUS_INTERNAL_SERVER_ERROR,
    STATUS_NETWORK_AUTHENTICATION_REQUIRED,
    STATUS_NOT_ACCEPTABLE,
    STATUS_NOT_FOUND,
    STATUS_OK,
};
use crate::server::authentication::{
    anonymous_may,
    credentials_given,
    header_or,
    is_token_query,
    token_confirmed,
    user_may,
    Authentication,
    Permissions,
};
use crate::server::user::User;
use crate::source::database::{first_error, Row, SelectQuery};
use crate::string_map::StringMap;
use crate::text::str_eq;

verus! {

/// A response under construction: its body and status code.
pub struct DefaultResponse {
    pub response: JsonValue,
    pub status_code: u16,
}

impl DefaultResponse {
    /// The response with body `response_body` and status `response_status_code`.
    pub fn new(response_body: JsonValue, response_status_code: u16) -> (r: Self)
        ensures
            r.response == response_body,
            r.status_code == response_status_code,
    {
        DefaultResponse { response: response_body, status_code: response_status_code }
    }

    /// The reply: the body as JSON, under the status code.
    pub fn build_response(self) -> (r: Reply)
        ensures
            r.status == self.status_code,
            r.body == ReplyBody::Json(self.response),
    {
        Reply { status: self.status_code, body: ReplyBody::Json(self.response) }
    }
}

/// The replies for requests that fail.
pub struct ErrorStruct {}

/// The reply of `ErrorStruct::not_found`.
pub open spec fn is_not_found(r: Reply) -> bool {
    is_json_message(r, STATUS_NOT_FOUND, "MESSAGE"@, "not_found_cannot_find_the_specific_url"@)
}

/// The reply of `ErrorStruct::size_limit`.
pub open spec fn is_size_limit(r: Reply) -> bool {
    is_json_message(r, STATUS_NOT_ACCEPTABLE, "MESSAGE"@, "size_limit"@)
}

/// The reply of `ErrorStruct::internal_server_error` for `reason`.
pub open spec fn is_internal_server_error(r: Reply, reason: Seq<char>) -> bool {
    is_json_message(r, STATUS_INTERNAL_SERVER_ERROR, "MESSAGE"@, reason)
}

/// The reply of `ErrorStruct::authentication_required`.
pub open spec fn is_authentication_required(r: Reply) -> bool {
    is_json_message(
        r,
        STATUS_NETWORK_AUTHENTICATION_REQUIRED,
        "MESSAGE"@,
        "user_dont_have_access_to_this_action"@,
    )
}

/// The reply of `ErrorStruct::invalid_parameters`.
pub open spec fn is_invalid_parameters(r: Reply) -> bool {
    is_json_message(r, STATUS_NETWORK_AUTHENTICATION_REQUIRED, "MESSAGE"@, "invalid_parameters"@)
}

impl ErrorStruct {
    /// 404 `{"MESSAGE": "not_found_cannot_find_the_specific_url"}`.
    pub fn not_found() -> (r: Reply)
        ensures
            is_not_found(r),
    {
        let json_body = json_message("MESSAGE", String::from_str("not_found_cannot_find_the_specific_url"));
        DefaultResponse::new(json_body, STATUS_NOT_FOUND).build_response()
    }

    /// 406 `{"MESSAGE": "size_limit"}`.
    pub fn size_limit() -> (r: Reply)
        ensures
            is_size_limit(r),
    {
        let json_body = json_message("MESSAGE", String::from_str("size_limit"));
        DefaultResponse::new(json_body, STATUS_NOT_ACCEPTABLE).build_response()
    }

    /// 500 `{"MESSAGE": reason}`.
    pub fn internal_server_error(reason: String) -> (r: Reply)
        ensures
            is_internal_server_error(r, reason@),
    {
        let json_body = json_message("MESSAGE", reason);
        DefaultResponse::new(json_body, STATUS_INTERNAL_SERVER_ERROR).build_response()
    }

    /// 511 `{"MESSAGE": "user_dont_have_access_to_this_action"}`.
    pub fn authentication_required() -> (r: Reply)
        ensures
            is_authentication_required(r),
    {
        let json_body = json_message("MESSAGE", String::from_str("user_dont_have_access_to_this_action"));
        DefaultResponse::new(json_body, STATUS_NETWORK_AUTHENTICATION_REQUIRED).build_response()
    }

    /// 511 `{"MESSAGE": "invalid_parameters"}`.
    pub fn invalid_parameters() -> (r: Reply)
        ensures
            is_invalid_parameters(r),
    {
        let json_body = json_message("MESSAGE", String::from_str("invalid_parameters"));
        DefaultResponse::new(json_body, STATUS_NETWORK_AUTHENTICATION_REQUIRED).build_response()
    }
}

/// The method of a request.
#[derive(Clone, Copy, Debug, PartialEq, Eq, Structural)]
pub enum Method {
    Get,
    Post,
    Patch,
    Delete,
    Other,
}

/// What a request asks for.
#[derive(Clone, Copy, Debug, PartialEq, Eq, Structural)]
pub enum Endpoint {
    StoreShowcase,
    GetItemInfo,
    DownloadItem,
    ChangeUsername,
    LimitOverflow,
    NotFound,
}

/// The endpoint of a method and url.
pub open spec fn route(method: Method, url: Seq<char>) -> Endpoint {
    match method {
        Method::Get => if url == "/store_showcase"@ {
            Endpoint::StoreShowcase
        } else if url == "/get_item_info"@ {
            Endpoint::GetItemInfo
        } else if url == "/download_item"@ {
            Endpoint::DownloadItem
        } else if url == "/limit_overflow"@ {
            Endpoint::LimitOverflow
        } else {
            Endpoint::NotFound
        },
        Method::Patch => if url == "/change_username"@ {
            Endpoint::ChangeUsername
        } else if url == "/limit_overflow"@ {
            Endpoint::LimitOverflow
        } else {
            Endpoint::NotFound
        },
        Method::Post | Method::Delete => if url == "/limit_overflow"@ {
            Endpoint::LimitOverflow
        } else {
            Endpoint::NotFound
        },
        Method::Other => Endpoint::NotFound,
    }
}

/// The action whose permission an endpoint needs, for those that need one.
pub open spec fn endpoint_action(e: Endpoint) -> Option<u16> {
    match e {
        Endpoint::StoreShowcase => Some(Permissions::ACTION_STORE_MAIN),
        Endpoint::GetItemInfo => Some(Permissions::ACTION_GET_GAME_INFO),
        Endpoint::DownloadItem => Some(Permissions::ACTION_DOWNLOAD_GAME),
        Endpoint::ChangeUsername => Some(Permissions::ACTION_CHANGE_USERNAME),
        _ => None,
    }
}

/// Where the handling of a request stands.
#[derive(Clone, Copy, Debug, PartialEq, Eq, Structural)]
pub enum Phase {
    /// Nothing done yet.
    Start,
    /// Waiting for the database connection that authentication needs.
    AuthConnecting,
    /// Waiting for the answer of the token query.
    TokenChecking,
    /// Waiting for the database connection of the endpoint.
    DataConnecting,
    /// Waiting for the answer of the endpoint's query.
    DataQuerying,
    /// The reply was given.
    Finished,
}

/// What the caller reports to the handler.
pub enum HandlerEvent {
    /// The handling starts.
    Begin,
    /// Whether the connection to the database could be made.
    Connected(bool),
    /// The rows `select` gave for the query asked for.
    Rows(Vec<Row>),
}

/// What the caller is to do next.
pub enum HandlerAction {
    /// Connect to the database and report whether it worked.
    ConnectDatabase,
    /// Run the query and report its rows.
    Query(SelectQuery),
    /// Send the reply; the handling is over.
    Respond(Reply),
}

/// The reply of a `Respond` action.
pub open spec fn reply_of(a: HandlerAction) -> Reply {
    match a {
        HandlerAction::Respond(r) => r,
        _ => arbitrary(),
    }
}

/// The query of a `Query` action.
pub open spec fn query_of(a: HandlerAction) -> SelectQuery {
    match a {
        HandlerAction::Query(q) => q,
        _ => arbitrary(),
    }
}

/// The event that each phase waits for.
pub open spec fn expects(phase: Phase, event: HandlerEvent) -> bool {
    match phase {
        Phase::Start => event is Begin,
        Phase::AuthConnecting | Phase::DataConnecting => event is Connected,
        Phase::TokenChecking | Phase::DataQuerying => event is Rows,
        Phase::Finished => false,
    }
}

/// The reply `change_username` gives.
pub open spec fn is_username_changed(r: Reply) -> bool {
    is_json_message(r, STATUS_OK, "message"@, "SUCCESS"@)
}

/// The reply `download_item` gives.
pub open spec fn is_download_started(r: Reply) -> bool {
    is_json_message(r, STATUS_OK, "MESSAGE"@, "SUCCESS"@)
}

/// Handles the request of a client.
pub struct RequestHandler {
    url: String,
    method: Method,
    header: StringMap<String>,
    query: StringMap<String>,
    body: String,
    phase: Phase,
    item_id: u16,
}

impl RequestHandler {
    /// The phase agrees with the endpoint: only the endpoints that need a
    /// permission authenticate, only the showcase and the item information
    /// query for data.
    #[verifier::type_invariant]
    closed spec fn phase_fits_endpoint(&self) -> bool {
        match self.phase {
            Phase::AuthConnecting => endpoint_action(route(self.method, self.url@)) is Some
                && credentials_given(self.header@),
            Phase::TokenChecking => endpoint_action(route(self.method, self.url@)) is Some
                && credentials_given(self.header@) && header_or(
                self.header@,
                "username"@,
                "anonymous"@,
            ) != "anonymous"@,
            Phase::DataConnecting | Phase::DataQuerying => route(self.method, self.url@)
                == Endpoint::StoreShowcase || route(self.method, self.url@)
                == Endpoint::GetItemInfo,
            _ => true,
        }
    }

    pub closed spec fn spec_url(&self) -> Seq<char> {
        self.url@
    }

    pub closed spec fn spec_method(&self) -> Method {
        self.method
    }

    pub closed spec fn spec_header(&self) -> Map<Seq<char>, String> {
        self.header@
    }

    pub closed spec fn spec_query(&self) -> Map<Seq<char>, String> {
        self.query@
    }

    pub closed spec fn spec_body(&self) -> Seq<char> {
        self.body@
    }

    pub closed spec fn phase(&self) -> Phase {
        self.phase
    }

    /// The item whose information is fetched, once it was read.
    pub closed spec fn spec_item_id(&self) -> u16 {
        self.item_id
    }

    /// The endpoint of the request.
    pub open spec fn spec_endpoint(&self) -> Endpoint {
        route(self.spec_method(), self.spec_url())
    }

    /// The user named by the headers.
    pub open spec fn username(&self) -> Seq<char> {
        header_or(self.spec_header(), "username"@, "anonymous"@)
    }

    /// The token given by the headers.
    pub open spec fn token(&self) -> Seq<char> {
        header_or(self.spec_header(), "token"@, ""@)
    }

    /// What the handler does once the permission is settled: refuse, or go on
    /// with the endpoint.
    pub open spec fn after_permission(&self, granted: bool, r: HandlerAction, next: &Self) -> bool {
        if !granted {
            next.phase() == Phase::Finished && r is Respond && is_authentication_required(reply_of(r))
        } else {
            match self.spec_endpoint() {
                Endpoint::StoreShowcase => next.phase() == Phase::DataConnecting
                    && r is ConnectDatabase,
                Endpoint::GetItemInfo => match item_param(self.spec_query()) {
                    None => next.phase() == Phase::Finished && r is Respond && is_invalid_parameters(reply_of(r)),
                    Some(id) => next.phase() == Phase::DataConnecting && next.spec_item_id()
                        == id && r is ConnectDatabase,
                },
                Endpoint::ChangeUsername => next.phase() == Phase::Finished && r is Respond
                    && is_username_changed(reply_of(r)),
                _ => next.phase() == Phase::Finished && r is Respond && is_download_started(reply_of(r)),
            }
        }
    }

    /// A handler for a request; nothing is done yet.
    pub fn new(
        request_url: String,
        request_method: Method,
        request_header: StringMap<String>,
        request_query: StringMap<String>,
        request_body: String,
    ) -> (r: Self)
        ensures
            r.spec_url() == request_url@,
            r.spec_method() == request_method,
            r.spec_header() == request_header@,
            r.spec_query() == request_query@,
            r.spec_body() == request_body@,
            r.phase() == Phase::Start,
    {
        RequestHandler {
            url: request_url,
            method: request_method,
            header: request_header,
            query: request_query,
            body: request_body,
            phase: Phase::Start,
            item_id: 0,
        }
    }

    /// The endpoint of the request.
    pub fn endpoint(&self) -> (r: Endpoint)
        ensures
            r == self.spec_endpoint(),
    {
        let url = self.url.as_str();
        match self.method {
            Method::Get => if str_eq(url, "/store_showcase") {
                Endpoint::StoreShowcase
            } else if str_eq(url, "/get_item_info") {
                Endpoint::GetItemInfo
            } else if str_eq(url, "/download_item") {
                Endpoint::DownloadItem
            } else if str_eq(url, "/limit_overflow") {
                Endpoint::LimitOverflow
            } else {
                Endpoint::NotFound
            },
            Method::Patch => if str_eq(url, "/change_username") {
                Endpoint::ChangeUsername
            } else if str_eq(url, "/limit_overflow") {
                Endpoint::LimitOverflow
            } else {
                Endpoint::NotFound
            },
            Method::Post | Method::Delete => if str_eq(url, "/limit_overflow") {
                Endpoint::LimitOverflow
            } else {
                Endpoint::NotFound
            },
            Method::Other => Endpoint::NotFound,
        }
    }

    fn endpoint_permission(e: Endpoint) -> (r: u16)
        requires
            endpoint_action(e) is Some,
        ensures
            endpoint_action(e) == Some(r),
    {
        match e {
            Endpoint::StoreShowcase => Permissions::ACTION_STORE_MAIN,
            Endpoint::GetItemInfo => Permissions::ACTION_GET_GAME_INFO,
            Endpoint::ChangeUsername => Permissions::ACTION_CHANGE_USERNAME,
            _ => Permissions::ACTION_DOWNLOAD_GAME,
        }
    }

    /// Goes on once the permission is settled.
    fn proceed(&mut self, granted: bool) -> (r: HandlerAction)
        requires
            endpoint_action(old(self).spec_endpoint()) is Some,
        ensures
            old(self).after_permission(granted, r, final(self)),
            final(self).spec_url() == old(self).spec_url(),
            final(self).spec_method() == old(self).spec_method(),
            final(self).spec_header() == old(self).spec_header(),
            final(self).spec_query() == old(self).spec_query(),
            final(self).spec_body() == old(self).spec_body(),
    {
        proof {
            use_type_invariant(&*self);
        }
        if !granted {
            self.phase = Phase::Finished;
            return HandlerAction::Respond(ErrorStruct::authentication_required());
        }
        match self.endpoint() {
            Endpoint::StoreShowcase => {
                self.phase = Phase::DataConnecting;
                HandlerAction::ConnectDatabase
            },
            Endpoint::GetItemInfo => match item_id_param(&self.query) {
                None => {
                    self.phase = Phase::Finished;
                    HandlerAction::Respond(ErrorStruct::invalid_parameters())
                },
                Some(id) => {
                    self.item_id = id;
                    self.phase = Phase::DataConnecting;
                    HandlerAction::ConnectDatabase
                },
            },
            Endpoint::ChangeUsername => {
                self.phase = Phase::Finished;
                HandlerAction::Respond(User::change_username(self.body.clone()))
            },
            _ => {
                self.phase = Phase::Finished;
                HandlerAction::Respond(download_item(&self.query))
            },
        }
    }

    /// One step of the handling: from this handler, on `event`, the action `r`
    /// and the handler `next`.
    pub open spec fn step_spec(&self, event: HandlerEvent, r: HandlerAction, next: &Self) -> bool {
        match self.phase() {
            Phase::Start => match self.spec_endpoint() {
                Endpoint::LimitOverflow => next.phase() == Phase::Finished
                    && r is Respond && is_size_limit(reply_of(r)),
                Endpoint::NotFound => next.phase() == Phase::Finished
                    && r is Respond && is_not_found(reply_of(r)),
                _ => if credentials_given(self.spec_header()) {
                    next.phase() == Phase::AuthConnecting && r is ConnectDatabase
                } else {
                    next.phase() == Phase::Finished && r is Respond && is_authentication_required(
                        reply_of(r),
                    )
                },
            },
            Phase::AuthConnecting => match event {
                HandlerEvent::Connected(false) => next.phase() == Phase::Finished
                    && r is Respond && is_internal_server_error(reply_of(r),
                    "connection_to_database_failed"@,
                ),
                _ => if self.username() == "anonymous"@ {
                    self.after_permission(
                        anonymous_may(endpoint_action(self.spec_endpoint())->0),
                        r,
                        next,
                    )
                } else {
                    &&& next.phase() == Phase::TokenChecking
                    &&& r is Query
                    &&& is_token_query(query_of(r), self.username())
                },
            },
            Phase::TokenChecking => match event {
                HandlerEvent::Rows(rows) => self.after_permission(
                    token_confirmed(rows@, self.token()) && user_may(
                        endpoint_action(self.spec_endpoint())->0,
                    ),
                    r,
                    next,
                ),
                _ => false,
            },
            Phase::DataConnecting => match event {
                HandlerEvent::Connected(false) => next.phase() == Phase::Finished
                    && r is Respond && is_internal_server_error(reply_of(r),
                    "Connection Failed"@,
                ),
                _ => {
                    &&& next.phase() == Phase::DataQuerying
                    &&& r is Query
                    &&& if self.spec_endpoint() == Endpoint::StoreShowcase {
                        is_showcase_query(query_of(r))
                    } else {
                        is_item_info_query(query_of(r), self.spec_item_id() as nat)
                    }
                },
            },
            Phase::DataQuerying => match event {
                HandlerEvent::Rows(rows) => {
                    &&& next.phase() == Phase::Finished
                    &&& r is Respond
                    &&& if self.spec_endpoint() == Endpoint::StoreShowcase {
                        match first_error(rows@) {
                            Some(err) => is_internal_server_error(reply_of(r), err),
                            None => is_showcase_reply(reply_of(r), rows@),
                        }
                    } else {
                        match first_error(rows@) {
                            Some(err) => is_internal_server_error(reply_of(r), err),
                            None => if rows@.len() == 0 {
                                is_invalid_parameters(reply_of(r))
                            } else {
                                is_item_info_reply(reply_of(r), rows@[0])
                            },
                        }
                    }
                },
                _ => false,
            },
            Phase::Finished => false,
        }
    }

    /// The step of the phase `Start`.
    fn step_start(&mut self) -> (r: HandlerAction)
        requires
            old(self).phase() == Phase::Start,
        ensures
            old(self).step_spec(HandlerEvent::Begin, r, final(self)),
            old(self).same_request(final(self)),
    {
        proof {
            use_type_invariant(&*self);
        }
        match self.endpoint() {
            Endpoint::LimitOverflow => {
                self.phase = Phase::Finished;
                HandlerAction::Respond(ErrorStruct::size_limit())
            },
            Endpoint::NotFound => {
                self.phase = Phase::Finished;
                HandlerAction::Respond(ErrorStruct::not_found())
            },
            _ => match Authentication::new(&self.header) {
                Some(_) => {
                    self.phase = Phase::AuthConnecting;
                    HandlerAction::ConnectDatabase
                },
                None => {
                    self.phase = Phase::Finished;
                    HandlerAction::Respond(ErrorStruct::authentication_required())
                },
            },
        }
    }

    /// The step of the phase `AuthConnecting`.
    fn step_auth_connecting(&mut self, connected: bool) -> (r: HandlerAction)
        requires
            old(self).phase() == Phase::AuthConnecting,
        ensures
            old(self).step_spec(HandlerEvent::Connected(connected), r, final(self)),
            old(self).same_request(final(self)),
    {
        proof {
            use_type_invariant(&*self);
        }
        if !connected {
            self.phase = Phase::Finished;
            return HandlerAction::Respond(
                ErrorStruct::internal_server_error(String::from_str("connection_to_database_failed")),
            );
        }
        let authentication = match Authentication::new(&self.header) {
            Some(a) => a,
            None => {
                self.phase = Phase::Finished;
                return HandlerAction::Respond(ErrorStruct::authentication_required());
            },
        };
        let action = Self::endpoint_permission(self.endpoint());
        if authentication.is_anonymous() {
            let no_rows: Vec<Row> = Vec::new();
            let permission = authentication.authenticate(action, &no_rows);
            let granted = str_eq(permission, Permissions::PERMISSION_GRANTED);
            proof {
                reveal_strlit("Permission Granted");
                reveal_strlit("No Permission");
                assert("Permission Granted"@[0] != "No Permission"@[0]);
            }
            self.proceed(granted)
        } else {
            self.phase = Phase::TokenChecking;
            HandlerAction::Query(authentication.token_query())
        }
    }

    /// The step of the phase `TokenChecking`.
    fn step_token_checking(&mut self, rows: Vec<Row>) -> (r: HandlerAction)
        requires
            old(self).phase() == Phase::TokenChecking,
        ensures
            old(self).step_spec(HandlerEvent::Rows(rows), r, final(self)),
            old(self).same_request(final(self)),
    {
        proof {
            use_type_invariant(&*self);
        }
        let authentication = match Authentication::new(&self.header) {
            Some(a) => a,
            None => {
                self.phase = Phase::Finished;
                return HandlerAction::Respond(ErrorStruct::authentication_required());
            },
        };
        let action = Self::endpoint_permission(self.endpoint());
        let permission = authentication.authenticate(action, &rows);
        let granted = str_eq(permission, Permissions::PERMISSION_GRANTED);
        proof {
            reveal_strlit("Permission Granted");
            reveal_strlit("No Permission");
            reveal_strlit("Invalid Token");
            assert("Permission Granted"@[0] != "No Permission"@[0]);
            assert("Permission Granted"@[0] != "Invalid Token"@[0]);
        }
        self.proceed(granted)
    }

    /// The step of the phase `DataConnecting`.
    fn step_data_connecting(&mut self, connected: bool) -> (r: HandlerAction)
        requires
            old(self).phase() == Phase::DataConnecting,
        ensures
            old(self).step_spec(HandlerEvent::Connected(connected), r, final(self)),
            old(self).same_request(final(self)),
    {
        proof {
            use_type_invariant(&*self);
        }
        if !connected {
            self.phase = Phase::Finished;
            return HandlerAction::Respond(
                ErrorStruct::internal_server_error(String::from_str("Connection Failed")),
            );
        }
        self.phase = Phase::DataQuerying;
        match self.endpoint() {
            Endpoint::StoreShowcase => HandlerAction::Query(showcase_query()),
            _ => HandlerAction::Query(item_info_query(self.item_id)),
        }
    }

    /// The step of the phase `DataQuerying`.
    fn step_data_querying(&mut self, rows: Vec<Row>) -> (r: HandlerAction)
        requires
            old(self).phase() == Phase::DataQuerying,
        ensures
            old(self).step_spec(HandlerEvent::Rows(rows), r, final(self)),
            old(self).same_request(final(self)),
    {
        proof {
            use_type_invariant(&*self);
        }
        self.phase = Phase::Finished;
        match self.endpoint() {
            Endpoint::StoreShowcase => HandlerAction::Respond(store_showcase(&rows)),
            _ => HandlerAction::Respond(get_item_info(&rows)),
        }
    }

    /// Both handlers hold the same request.
    pub open spec fn same_request(&self, other: &Self) -> bool {
        &&& other.spec_url() == self.spec_url()
        &&& other.spec_method() == self.spec_method()
        &&& other.spec_header() == self.spec_header()
        &&& other.spec_query() == self.spec_query()
        &&& other.spec_body() == self.spec_body()
    }

    /// Takes the next step of the handling, given what the caller reports.
    ///
    /// A request that needs no permission is answered at once: the size limit,
    /// or not found.  The others must say who their user is (a `username`, and
    /// a `token` unless the user is `anonymous`), else they are answered
    /// `authentication_required` at once.  They then connect to the database
    /// for the authentication (a failure gives an internal error
    /// `connection_to_database_failed`); an anonymous user is judged at once,
    /// a logged user after the token query.  A refused permission gives
    /// `authentication_required`; a granted change of username succeeds.  The showcase and the item information then
    /// connect again (a failure gives an internal error `Connection Failed`)
    /// and run their query; the reply is made of its rows.
    pub fn handle_request(&mut self, event: HandlerEvent) -> (r: HandlerAction)
        requires
            expects(old(self).phase(), event),
        ensures
            old(self).same_request(final(self)),
            old(self).step_spec(event, r, final(self)),
    {
        match event {
            HandlerEvent::Begin => self.step_start(),
            HandlerEvent::Connected(connected) => match self.phase {
                Phase::AuthConnecting => self.step_auth_connecting(connected),
                _ => self.step_data_connecting(connected),
            },
            HandlerEvent::Rows(rows) => match self.phase {
                Phase::TokenChecking => self.step_token_checking(rows),
                _ => self.step_data_querying(rows),
            },
        }
    }
}

/// The place of a phase in the order that the handling goes through.
pub open spec fn phase_rank(p: Phase) -> nat {
    match p {
        Phase::Start => 0,
        Phase::AuthConnecting => 1,
        Phase::TokenChecking => 2,
        Phase::DataConnecting => 3,
        Phase::DataQuerying => 4,
        Phase::Finished => 5,
    }
}

/// Every step moves the handling forward, and the reply comes with exactly
/// the step that finishes it: each request is answered once, after at most
/// five steps.
pub proof fn lemma_step_moves_forward(
    h: RequestHandler,
    event: HandlerEvent,
    r: HandlerAction,
    next: RequestHandler,
)
    requires
        h.step_spec(event, r, &next),
    ensures
        phase_rank(next.phase()) > phase_rank(h.phase()),
        r is Respond <==> next.phase() == Phase::Finished,
{
}

/// An anonymous user is refused every action that it may not do (a
/// download, a change of username): once the database is reached, the
/// request is answered with `authentication_required`.
pub proof fn lemma_anonymous_refused_what_it_may_not_do(
    h: RequestHandler,
    r: HandlerAction,
    next: RequestHandler,
)
    requires
        h.phase() == Phase::AuthConnecting,
        h.username() == "anonymous"@,
        endpoint_action(h.spec_endpoint()) is Some,
        !anonymous_may(endpoint_action(h.spec_endpoint())->0),
        h.step_spec(HandlerEvent::Connected(true), r, &next),
    ensures
        r is Respond,
        is_authentication_required(reply_of(r)),
{
}

/// A request that needs a permission but does not say who its user is (no
/// `username`, or no `token` for a user other than `anonymous`) is refused
/// at once with `authentication_required`, before any database work.
pub proof fn lemma_missing_credentials_refused(
    h: RequestHandler,
    r: HandlerAction,
    next: RequestHandler,
)
    requires
        h.phase() == Phase::Start,
        endpoint_action(h.spec_endpoint()) is Some,
        !credentials_given(h.spec_header()),
        h.step_spec(HandlerEvent::Begin, r, &next),
    ensures
        r is Respond,
        is_authentication_required(reply_of(r)),
        next.phase() == Phase::Finished,
{
}

/// An anonymous user may see the store: once the database is reached, the
/// showcase goes on to its query without any token.
pub proof fn lemma_anonymous_showcase_allowed(
    h: RequestHandler,
    r: HandlerAction,
    next: RequestHandler,
)
    requires
        h.phase() == Phase::AuthConnecting,
        h.spec_endpoint() == Endpoint::StoreShowcase,
        h.username() == "anonymous"@,
        h.step_spec(HandlerEvent::Connected(true), r, &next),
    ensures
        r is ConnectDatabase,
        next.phase() == Phase::DataConnecting,
{
}

/// A logged user whose token the `USERS` table does not confirm is refused
/// with `authentication_required`, whatever the endpoint.
pub proof fn lemma_unconfirmed_token_refused(
    h: RequestHandler,
    rows: Vec<Row>,
    r: HandlerAction,
    next: RequestHandler,
)
    requires
        h.phase() == Phase::TokenChecking,
        !token_confirmed(rows@, h.token()),
        h.step_spec(HandlerEvent::Rows(rows), r, &next),
    ensures
        r is Respond,
        is_authentication_required(reply_of(r)),
{
}

/// A url that no endpoint serves is answered at once with not found.
pub proof fn lemma_unknown_url_not_found(h: RequestHandler, r: HandlerAction, next: RequestHandler)
    requires
        h.phase() == Phase::Start,
        h.spec_endpoint() == Endpoint::NotFound,
        h.step_spec(HandlerEvent::Begin, r, &next),
    ensures
        r is Respond,
        is_not_found(reply_of(r)),
        next.phase() == Phase::Finished,
{
}

} // verus!
