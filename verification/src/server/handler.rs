//! The routing of the first server, which lists the store from its folders.
//! As in the http server, the handling of a request is taken one step at a
//! time; the caller does the work on the database and the file system.
use vstd::prelude::*;
use crate::http::handler::{
    is_authentication_required,
    is_internal_server_error,
    ErrorStruct as JsonErrors,
    Method,
};
use crate::json::{is_json_message, is_plain, Reply, ReplyBody, STATUS_OK, STATUS_UNAUTHORIZED};
use crate::server::authentication::{
    anonymous_may,
    credentials_given,
    header_or,
    is_token_query,
    token_confirmed,
    user_may,
    Authentication,
    Permissions,
};
use crate::server::games::{download_game, is_store_listing, store_main, StoreListing};
use crate::source::database::{Row, SelectQuery};
use crate::string_map::StringMap;
use crate::text::{str_eq, views};

verus! {

/// The replies of this server for requests that fail: plain text, 401.
pub struct ErrorStruct {}

impl ErrorStruct {
    /// 401 `Not Found`.
    pub fn not_found() -> (r: Reply)
        ensures
            is_plain(r, STATUS_UNAUTHORIZED, "Not Found"@),
    {
        Reply { status: STATUS_UNAUTHORIZED, body: ReplyBody::Plain(String::from_str("Not Found")) }
    }

    /// 401 `Size Limit`.
    pub fn size_limit() -> (r: Reply)
        ensures
            is_plain(r, STATUS_UNAUTHORIZED, "Size Limit"@),
    {
        Reply {
            status: STATUS_UNAUTHORIZED,
            body: ReplyBody::Plain(String::from_str("Size Limit")),
        }
    }
}

/// What a request asks for.
#[derive(Clone, Copy, Debug, PartialEq, Eq, Structural)]
pub enum Endpoint {
    StoreMainList,
    DownloadGame,
    LimitOverflow,
    NotFound,
}

/// The endpoint of a method and url.
pub open spec fn route(method: Method, url: Seq<char>) -> Endpoint {
    match method {
        Method::Get => if url == "/store_main_list"@ {
            Endpoint::StoreMainList
        } else if url == "/download_game"@ {
            Endpoint::DownloadGame
        } else if url == "/limit_overflow"@ {
            Endpoint::LimitOverflow
        } else {
            Endpoint::NotFound
        },
        Method::Post | Method::Delete => if url == "/limit_overflow"@ {
            Endpoint::LimitOverflow
        } else {
            Endpoint::NotFound
        },
        _ => Endpoint::NotFound,
    }
}

/// Where the handling of a request stands.
#[derive(Clone, Copy, Debug, PartialEq, Eq, Structural)]
pub enum Phase {
    Start,
    AuthConnecting,
    TokenChecking,
    Listing,
    Finished,
}

/// What the caller reports.
pub enum MainEvent {
    Begin,
    Connected(bool),
    Rows(Vec<Row>),
    /// The store folders, or `None` when the working folder could not be read.
    Listed(Option<StoreListing>),
}

/// What the caller is to do next.
pub enum MainAction {
    ConnectDatabase,
    Query(SelectQuery),
    /// Read the entries of `store/games` and `store/softwares` under the
    /// working folder.
    ListStore,
    Respond(Reply),
}

/// The event that each phase waits for.
pub open spec fn expects(phase: Phase, event: MainEvent) -> bool {
    match phase {
        Phase::Start => event is Begin,
        Phase::AuthConnecting => event is Connected,
        Phase::TokenChecking => event is Rows,
        Phase::Listing => event is Listed,
        Phase::Finished => false,
    }
}

/// The reply of a `Respond` action.
pub open spec fn reply_of(a: MainAction) -> Reply {
    match a {
        MainAction::Respond(r) => r,
        _ => arbitrary(),
    }
}

/// The query of a `Query` action.
pub open spec fn query_of(a: MainAction) -> SelectQuery {
    match a {
        MainAction::Query(q) => q,
        _ => arbitrary(),
    }
}

/// Handles a request of a client.
pub struct RequestHandler {
    url: String,
    method: Method,
    header: StringMap<String>,
    body: String,
    phase: Phase,
}

impl RequestHandler {
    #[verifier::type_invariant]
    closed spec fn phase_fits_endpoint(&self) -> bool {
        match self.phase {
            Phase::Listing => route(self.method, self.url@) == Endpoint::StoreMainList,
            Phase::AuthConnecting => route(self.method, self.url@) == Endpoint::StoreMainList
                && credentials_given(self.header@),
            Phase::TokenChecking => route(self.method, self.url@) == Endpoint::StoreMainList
                && credentials_given(self.header@) && header_or(
                self.header@,
                "username"@,
                "anonymous"@,
            ) != "anonymous"@,
            _ => true,
        }
    }

    pub closed spec fn spec_url(&self) -> Seq<char> {
        self.url@
    }

    pub closed spec fn spec_method(&self) -> Method {
        self.method
    }

    pub closed spec fn spec_header(&self) -> Map<Seq<char>, String> {
        self.header@
    }

    pub closed spec fn spec_body(&self) -> Seq<char> {
        self.body@
    }

    pub closed spec fn phase(&self) -> Phase {
        self.phase
    }

    pub open spec fn spec_endpoint(&self) -> Endpoint {
        route(self.spec_method(), self.spec_url())
    }

    pub open spec fn username(&self) -> Seq<char> {
        header_or(self.spec_header(), "username"@, "anonymous"@)
    }

    pub open spec fn token(&self) -> Seq<char> {
        header_or(self.spec_header(), "token"@, ""@)
    }

    /// Both handlers hold the same request.
    pub open spec fn same_request(&self, other: &Self) -> bool {
        &&& other.spec_url() == self.spec_url()
        &&& other.spec_method() == self.spec_method()
        &&& other.spec_header() == self.spec_header()
        &&& other.spec_body() == self.spec_body()
    }

    /// Once the permission is settled: refuse, or list the store.
    pub open spec fn after_permission(granted: bool, r: MainAction, next: &Self) -> bool {
        if granted {
            next.phase() == Phase::Listing && r is ListStore
        } else {
            &&& next.phase() == Phase::Finished
            &&& r is Respond
            &&& is_authentication_required(reply_of(r))
        }
    }

    /// One step of the handling: from this handler, on `event`, the action `r`
    /// and the handler `next`.
    pub open spec fn step_spec(&self, event: MainEvent, r: MainAction, next: &Self) -> bool {
        match self.phase() {
            Phase::Start => match self.spec_endpoint() {
                Endpoint::StoreMainList => if credentials_given(self.spec_header()) {
                    next.phase() == Phase::AuthConnecting && r is ConnectDatabase
                } else {
                    next.phase() == Phase::Finished && r is Respond && is_authentication_required(
                        reply_of(r),
                    )
                },
                Endpoint::DownloadGame => next.phase() == Phase::Finished && r is Respond
                    && is_json_message(reply_of(r), STATUS_OK, "message"@, "Success"@),
                Endpoint::LimitOverflow => next.phase() == Phase::Finished && r is Respond
                    && is_plain(reply_of(r), STATUS_UNAUTHORIZED, "Size Limit"@),
                Endpoint::NotFound => next.phase() == Phase::Finished && r is Respond && is_plain(
                    reply_of(r),
                    STATUS_UNAUTHORIZED,
                    "Not Found"@,
                ),
            },
            Phase::AuthConnecting => match event {
                MainEvent::Connected(false) => next.phase() == Phase::Finished && r is Respond
                    && is_internal_server_error(reply_of(r), "connection_to_database_failed"@),
                _ => if self.username() == "anonymous"@ {
                    Self::after_permission(
                        anonymous_may(Permissions::ACTION_STORE_MAIN),
                        r,
                        next,
                    )
                } else {
                    &&& next.phase() == Phase::TokenChecking
                    &&& r is Query
                    &&& is_token_query(query_of(r), self.username())
                },
            },
            Phase::TokenChecking => match event {
                MainEvent::Rows(rows) => Self::after_permission(
                    token_confirmed(rows@, self.token()) && user_may(
                        Permissions::ACTION_STORE_MAIN,
                    ),
                    r,
                    next,
                ),
                _ => false,
            },
            Phase::Listing => match event {
                MainEvent::Listed(None) => next.phase() == Phase::Finished && r is Respond
                    && is_internal_server_error(
                    reply_of(r),
                    "invalid_store_path_contact_the_server_owner"@,
                ),
                MainEvent::Listed(Some(listing)) => next.phase() == Phase::Finished && r is Respond
                    && is_store_listing(
                    reply_of(r),
                    views(listing.games@),
                    views(listing.softwares@),
                ),
                _ => false,
            },
            Phase::Finished => false,
        }
    }

    /// A handler for a request; nothing is done yet.
    pub fn new(
        request_url: String,
        request_method: Method,
        request_header: StringMap<String>,
        request_body: String,
    ) -> (r: Self)
        ensures
            r.spec_url() == request_url@,
            r.spec_method() == request_method,
            r.spec_header() == request_header@,
            r.spec_body() == request_body@,
            r.phase() == Phase::Start,
    {
        RequestHandler {
            url: request_url,
            method: request_method,
            header: request_header,
            body: request_body,
            phase: Phase::Start,
        }
    }

    /// The endpoint of the request.
    pub fn endpoint(&self) -> (r: Endpoint)
        ensures
            r == self.spec_endpoint(),
    {
        let url = self.url.as_str();
        match self.method {
            Method::Get => if str_eq(url, "/store_main_list") {
                Endpoint::StoreMainList
            } else if str_eq(url, "/download_game") {
                Endpoint::DownloadGame
            } else if str_eq(url, "/limit_overflow") {
                Endpoint::LimitOverflow
            } else {
                Endpoint::NotFound
            },
            Method::Post | Method::Delete => if str_eq(url, "/limit_overflow") {
                Endpoint::LimitOverflow
            } else {
                Endpoint::NotFound
            },
            _ => Endpoint::NotFound,
        }
    }

    fn proceed(&mut self, granted: bool) -> (r: MainAction)
        requires
            old(self).spec_endpoint() == Endpoint::StoreMainList,
        ensures
            Self::after_permission(granted, r, final(self)),
            old(self).same_request(final(self)),
    {
        if granted {
            self.phase = Phase::Listing;
            MainAction::ListStore
        } else {
            self.phase = Phase::Finished;
            MainAction::Respond(JsonErrors::authentication_required())
        }
    }

    /// Takes the next step of the handling, given what the caller reports.
    ///
    /// The list of the store authenticates the user first, as the http
    /// server does (a request that does not say who its user is is refused),
    /// then lists the store folders; a missing working folder gives the
    /// internal error `invalid_store_path_contact_the_server_owner`.  The download of a game is answered at once;
    /// so are the size limit and not found, in plain text.
    pub fn handle_request(&mut self, event: MainEvent) -> (r: MainAction)
        requires
            expects(old(self).phase(), event),
        ensures
            old(self).same_request(final(self)),
            old(self).step_spec(event, r, final(self)),
    {
        proof {
            use_type_invariant(&*self);
        }
        match event {
            MainEvent::Begin => match self.endpoint() {
                Endpoint::StoreMainList => match Authentication::new(&self.header) {
                    Some(_) => {
                        self.phase = Phase::AuthConnecting;
                        MainAction::ConnectDatabase
                    },
                    None => {
                        self.phase = Phase::Finished;
                        MainAction::Respond(JsonErrors::authentication_required())
                    },
                },
                Endpoint::DownloadGame => {
                    self.phase = Phase::Finished;
                    MainAction::Respond(download_game(&self.header, &self.body))
                },
                Endpoint::LimitOverflow => {
                    self.phase = Phase::Finished;
                    MainAction::Respond(ErrorStruct::size_limit())
                },
                Endpoint::NotFound => {
                    self.phase = Phase::Finished;
                    MainAction::Respond(ErrorStruct::not_found())
                },
            },
            MainEvent::Connected(connected) => {
                if !connected {
                    self.phase = Phase::Finished;
                    return MainAction::Respond(
                        JsonErrors::internal_server_error(
                            String::from_str("connection_to_database_failed"),
                        ),
                    );
                }
                let authentication = match Authentication::new(&self.header) {
                    Some(a) => a,
                    None => {
                        self.phase = Phase::Finished;
                        return MainAction::Respond(JsonErrors::authentication_required());
                    },
                };
                if authentication.is_anonymous() {
                    let no_rows: Vec<Row> = Vec::new();
                    let permission = authentication.authenticate(
                        Permissions::ACTION_STORE_MAIN,
                        &no_rows,
                    );
                    let granted = str_eq(permission, Permissions::PERMISSION_GRANTED);
                    proof {
                        reveal_strlit("Permission Granted");
                        reveal_strlit("No Permission");
                        assert("Permission Granted"@[0] != "No Permission"@[0]);
                    }
                    self.proceed(granted)
                } else {
                    self.phase = Phase::TokenChecking;
                    MainAction::Query(authentication.token_query())
                }
            },
            MainEvent::Rows(rows) => {
                let authentication = match Authentication::new(&self.header) {
                    Some(a) => a,
                    None => {
                        self.phase = Phase::Finished;
                        return MainAction::Respond(JsonErrors::authentication_required());
                    },
                };
                let permission = authentication.authenticate(Permissions::ACTION_STORE_MAIN, &rows);
                let granted = str_eq(permission, Permissions::PERMISSION_GRANTED);
                proof {
                    reveal_strlit("Permission Granted");
                    reveal_strlit("No Permission");
                    reveal_strlit("Invalid Token");
                    assert("Permission Granted"@[0] != "No Permission"@[0]);
                    assert("Permission Granted"@[0] != "Invalid Token"@[0]);
                }
                self.proceed(granted)
            },
            MainEvent::Listed(listing) => {
                self.phase = Phase::Finished;
                match listing {
                    None => MainAction::Respond(
                        JsonErrors::internal_server_error(
                            String::from_str(
                                "invalid_store_path_contact_the_server_owner",
                            ),
                        ),
                    ),
                    Some(listing) => MainAction::Respond(store_main(&listing)),
                }
            },
        }
    }
}

/// The place of a phase in the order that the handling goes through.
pub open spec fn phase_rank(p: Phase) -> nat {
    match p {
        Phase::Start => 0,
        Phase::AuthConnecting => 1,
        Phase::TokenChecking => 2,
        Phase::Listing => 3,
        Phase::Finished => 4,
    }
}

/// Every step moves the handling forward, and the reply comes with exactly
/// the step that finishes it: each request is answered once, after at most
/// four steps.
pub proof fn lemma_step_moves_forward(
    h: RequestHandler,
    event: MainEvent,
    r: MainAction,
    next: RequestHandler,
)
    requires
        h.step_spec(event, r, &next),
    ensures
        phase_rank(next.phase()) > phase_rank(h.phase()),
        r is Respond <==> next.phase() == Phase::Finished,
{
}

/// A logged user whose token the `USERS` table does not confirm is refused
/// the list of the store with `authentication_required`.
pub proof fn lemma_unconfirmed_token_refused(
    h: RequestHandler,
    rows: Vec<Row>,
    r: MainAction,
    next: RequestHandler,
)
    requires
        h.phase() == Phase::TokenChecking,
        !token_confirmed(rows@, h.token()),
        h.step_spec(MainEvent::Rows(rows), r, &next),
    ensures
        r is Respond,
        is_authentication_required(reply_of(r)),
{
}

/// A request for the store list that does not say who its user is (no
/// `username`, or no `token` for a user other than `anonymous`) is refused at
/// once with `authentication_required`.
pub proof fn lemma_missing_credentials_refused(h: RequestHandler, r: MainAction, next: RequestHandler)
    requires
        h.phase() == Phase::Start,
        h.spec_endpoint() == Endpoint::StoreMainList,
        !credentials_given(h.spec_header()),
        h.step_spec(MainEvent::Begin, r, &next),
    ensures
        r is Respond,
        is_authentication_required(reply_of(r)),
        next.phase() == Phase::Finished,
{
}

} // verus!
