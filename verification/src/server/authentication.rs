//! Who may do what: the permissions of anonymous and logged users, and the
//! check of a logged user's token against the `USERS` table.
use vstd::prelude::*;
use crate::source::database::{
    condition_equals_number,
    condition_equals_text,
    equals_number,
    equals_text,
    first_error,
    row_view,
    string_list,
    Database,
    Row,
    SelectQuery,
};
use crate::string_map::StringMap;
use crate::text::{str_eq, views};

verus! {

/// The permissions of the actions of the server.
pub struct Permissions {}

/// Actions that an anonymous user may do: log in, see the store, get item
/// information.
pub open spec fn anonymous_may(action: u16) -> bool {
    action == Permissions::ACTION_LOGIN || action == Permissions::ACTION_STORE_MAIN || action
        == Permissions::ACTION_GET_GAME_INFO
}

/// Actions that a logged user may do: all but logging in.
pub open spec fn user_may(action: u16) -> bool {
    action == Permissions::ACTION_STORE_MAIN || action == Permissions::ACTION_CHANGE_USERNAME
        || action == Permissions::ACTION_CHANGE_PASSWORD || action
        == Permissions::ACTION_GET_GAME_INFO || action == Permissions::ACTION_DOWNLOAD_GAME
}

/// The answer for a permission that is given or not.
pub open spec fn granted_or_not(may: bool) -> Seq<char> {
    if may {
        Permissions::PERMISSION_GRANTED@
    } else {
        Permissions::NO_PERMISSION_MESSAGE@
    }
}

impl Permissions {
    pub const ACTION_LOGIN: u16 = 0;

    pub const ACTION_STORE_MAIN: u16 = 1;

    pub const ACTION_CHANGE_USERNAME: u16 = 2;

    pub const ACTION_CHANGE_PASSWORD: u16 = 3;

    pub const ACTION_GET_GAME_INFO: u16 = 4;

    pub const ACTION_DOWNLOAD_GAME: u16 = 5;

    pub const PERMISSION_GRANTED: &'static str = "Permission Granted";

    pub const NO_PERMISSION_MESSAGE: &'static str = "No Permission";

    pub const INVALID_TOKEN: &'static str = "Invalid Token";

    /// The permission of an anonymous user for `action`.
    pub fn check_anoynmous_permission(action: u16) -> (r: &'static str)
        ensures
            r@ == granted_or_not(anonymous_may(action)),
    {
        if action == Self::ACTION_LOGIN || action == Self::ACTION_STORE_MAIN || action
            == Self::ACTION_GET_GAME_INFO {
            Self::PERMISSION_GRANTED
        } else {
            Self::NO_PERMISSION_MESSAGE
        }
    }

    /// The permission of a logged user for `action`.
    pub fn check_user_permission(action: u16, _user_auth: &Authentication) -> (r: &'static str)
        ensures
            r@ == granted_or_not(user_may(action)),
    {
        if action == Self::ACTION_STORE_MAIN || action == Self::ACTION_CHANGE_USERNAME || action
            == Self::ACTION_CHANGE_PASSWORD || action == Self::ACTION_GET_GAME_INFO || action
            == Self::ACTION_DOWNLOAD_GAME {
            Self::PERMISSION_GRANTED
        } else {
            Self::NO_PERMISSION_MESSAGE
        }
    }
}

/// The value of the header `name`, or `default` when the request has none.
pub open spec fn header_or(headers: Map<Seq<char>, String>, name: Seq<char>, default: Seq<char>) -> Seq<
    char,
> {
    if headers.dom().contains(name) {
        headers[name]@
    } else {
        default
    }
}

/// The headers say who the user is: a `username`, and a `token` unless the
/// user is `anonymous`.
pub open spec fn credentials_given(headers: Map<Seq<char>, String>) -> bool {
    &&& headers.dom().contains("username"@)
    &&& (headers["username"@]@ == "anonymous"@ || headers.dom().contains("token"@))
}

/// The query that fetches the record of `username` to check its token: every
/// column of `USERS` where `ID = 1` and the name is the literal `username`,
/// the columns read as `ID`, `USERNAME`, `PASSWORD`, `TOKEN`.
pub open spec fn is_token_query(q: SelectQuery, username: Seq<char>) -> bool {
    &&& q.select_params@.len() == 0
    &&& q.from_param@ == "USERS"@
    &&& views(q.where_params@) == seq![equals_number("ID"@, 1), equals_text("USERNAME"@, username)]
    &&& views(q.waiting_params@) == seq!["ID"@, "USERNAME"@, "PASSWORD"@, "TOKEN"@]
}

/// The token answer confirms `token`: no error, a first row whose `TOKEN` is
/// `token` and is not the text `Invalid Token`.
pub open spec fn token_confirmed(rows: Seq<Row>, token: Seq<char>) -> bool {
    &&& first_error(rows) is None
    &&& rows.len() > 0
    &&& row_view(rows[0]).dom().contains("TOKEN"@)
    &&& row_view(rows[0])["TOKEN"@] != Permissions::INVALID_TOKEN@
    &&& row_view(rows[0])["TOKEN"@] == token
}

/// The user of a request, as its headers name it.
pub struct Authentication {
    username: String,
    token: String,
    id: u32,
}

impl Authentication {
    /// Every user is looked up under the id 1.
    #[verifier::type_invariant]
    closed spec fn fixed_id(&self) -> bool {
        self.id == 1
    }

    pub closed spec fn spec_username(&self) -> Seq<char> {
        self.username@
    }

    pub closed spec fn spec_token(&self) -> Seq<char> {
        self.token@
    }

    pub closed spec fn spec_id(&self) -> u32 {
        self.id
    }

    /// The user named by the headers `username` and `token`.  Every request
    /// names its user; only `anonymous` may leave the token out.  `None` when
    /// the headers do not say who the user is.
    pub fn new(header: &StringMap<String>) -> (r: Option<Self>)
        ensures
            r is Some <==> credentials_given(header@),
            r matches Some(a) ==> {
                &&& a.spec_username() == header@["username"@]@
                &&& a.spec_username() == header_or(header@, "username"@, "anonymous"@)
                &&& a.spec_token() == header_or(header@, "token"@, ""@)
                &&& a.spec_id() == 1
            },
    {
        let username_key = String::from_str("username");
        let token_key = String::from_str("token");
        let header_username = match header.get(&username_key) {
            Some(value) => value.clone(),
            None => {
                return None;
            },
        };
        let header_token = match header.get(&token_key) {
            Some(value) => value.clone(),
            None => {
                if !str_eq(header_username.as_str(), "anonymous") {
                    return None;
                }
                String::from_str("")
            },
        };
        Some(Authentication { username: header_username, token: header_token, id: 1 })
    }

    /// The name of the user.
    pub fn username(&self) -> (r: &String)
        ensures
            r@ == self.spec_username(),
    {
        &self.username
    }

    /// Whether the user is anonymous, who needs no token.
    pub fn is_anonymous(&self) -> (r: bool)
        ensures
            r == (self.spec_username() == "anonymous"@),
    {
        str_eq(self.username.as_str(), "anonymous")
    }

    /// The query that fetches the user's record to check the token.
    pub fn token_query(&self) -> (r: SelectQuery)
        ensures
            is_token_query(r, self.spec_username()),
    {
        proof {
            use_type_invariant(self);
        }
        let mut where_params: Vec<String> = Vec::new();
        where_params.push(condition_equals_number("ID", self.id as u64));
        where_params.push(condition_equals_text("USERNAME", self.username.as_str()));
        let waiting_params = string_list(&["ID", "USERNAME", "PASSWORD", "TOKEN"]);
        let r = SelectQuery {
            select_params: Vec::new(),
            from_param: String::from_str("USERS"),
            where_params,
            waiting_params,
        };
        assert(views(r.where_params@) =~= seq![
            equals_number("ID"@, self.spec_id() as nat),
            equals_text("USERNAME"@, self.spec_username()),
        ]);
        assert(views(r.waiting_params@) =~= seq!["ID"@, "USERNAME"@, "PASSWORD"@, "TOKEN"@]);
        r
    }

    /// Whether the answer of the token query confirms the token of the headers.
    pub fn token_is_valid(&self, result: &Vec<Row>) -> (r: bool)
        ensures
            r == token_confirmed(result@, self.spec_token()),
    {
        let database = Database {};
        if database.check_errors(result).is_some() {
            return false;
        }
        if result.len() == 0 {
            return false;
        }
        let token_key = String::from_str("TOKEN");
        let result_token: &str = match result[0].get(&token_key) {
            Some(value) => value.as_str(),
            None => Permissions::INVALID_TOKEN,
        };
        if str_eq(result_token, Permissions::INVALID_TOKEN) {
            false
        } else if str_eq(result_token, self.token.as_str()) {
            true
        } else {
            false
        }
    }

    /// The permission of the user for `action`.  An anonymous user needs no
    /// token and `token_rows` is not read; a logged user's token is checked
    /// against `token_rows`, the answer of `token_query`.
    pub fn authenticate(&self, action: u16, token_rows: &Vec<Row>) -> (r: &'static str)
        ensures
            r@ == if self.spec_username() == "anonymous"@ {
                granted_or_not(anonymous_may(action))
            } else if !token_confirmed(token_rows@, self.spec_token()) {
                Permissions::INVALID_TOKEN@
            } else {
                granted_or_not(user_may(action))
            },
    {
        if self.is_anonymous() {
            return Permissions::check_anoynmous_permission(action);
        }
        if !self.token_is_valid(token_rows) {
            return Permissions::INVALID_TOKEN;
        }
        Permissions::check_user_permission(action, self)
    }
}

/// A logged user whose token is confirmed may do every action of the server
/// but logging in: exactly the actions numbered 1 to 5.
pub proof fn lemma_logged_user_may_all_but_login(action: u16)
    ensures
        user_may(action) <==> (1 <= action && action <= 5),
        user_may(Permissions::ACTION_STORE_MAIN),
        user_may(Permissions::ACTION_DOWNLOAD_GAME),
        !user_may(Permissions::ACTION_LOGIN),
{
}

/// An anonymous user may log in, see the store and get the information on
/// an item, and nothing else.
pub proof fn lemma_anonymous_may_browse_only(action: u16)
    ensures
        anonymous_may(action) <==> (action == 0 || action == 1 || action == 4),
{
}

/// A logged user whose token the `USERS` answer confirms is granted the
/// store, whatever else the answer holds; one whose token is not confirmed is
/// told the token is invalid, whatever the action.
pub proof fn lemma_confirmed_token_grants_store(
    username: Seq<char>,
    token: Seq<char>,
    rows: Seq<Row>,
    action: u16,
)
    requires
        username != "anonymous"@,
    ensures
        token_confirmed(rows, token) ==> granted_or_not(user_may(Permissions::ACTION_STORE_MAIN))
            == Permissions::PERMISSION_GRANTED@,
        token_confirmed(rows, token) && action != Permissions::ACTION_LOGIN && action <= 5
            ==> granted_or_not(user_may(action)) == Permissions::PERMISSION_GRANTED@,
{
}

} // verus!
