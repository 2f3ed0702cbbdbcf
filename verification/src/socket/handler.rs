//! The handling of the messages of a socket client: authentication and the
//! information on an item.  What goes over the socket and the file system is
//! the caller's; the decisions are taken here.
use vstd::prelude::*;
use crate::json::{has_keys, is_message, is_text, json_message, member, JsonValue};
use crate::string_map::StringMap;
use crate::text::{parse_u32, parse_unsigned_spec, str_eq};

verus! {

/// What the caller is to do after a message.
pub enum SocketAction {
    /// Nothing.
    Nothing,
    /// Send this document as a text message.
    Send(JsonValue),
    /// Shut the connection down.
    Shutdown,
    /// Count the entries of the folder `data/store/<id>` beside the working
    /// folder and report the count to `item_files_counted`, or `None` when the
    /// working folder or an entry cannot be read.
    CountItemFiles(String),
}

/// `a` sends the document `{"MESSAGE": "AUTHENTICATED"}`.
pub open spec fn sends_authenticated(a: SocketAction) -> bool {
    a matches SocketAction::Send(j) && is_message(j, "MESSAGE"@, "AUTHENTICATED"@)
}

/// `a` sends `{"MESSAGE": "GAME_INFO", "CONTENT": count}`.
pub open spec fn sends_game_info(a: SocketAction, count: u32) -> bool {
    a matches SocketAction::Send(j) && {
        &&& has_keys(j, seq!["MESSAGE"@, "CONTENT"@])
        &&& is_text(member(j, 0), "GAME_INFO"@)
        &&& member(j, 1) == JsonValue::Int(count as i64)
    }
}

/// The handler of one socket client.
pub struct ResponseHandler {
    ip: String,
    body: StringMap<String>,
    action: String,
    service_type: String,
}

impl ResponseHandler {
    pub closed spec fn spec_ip(&self) -> Seq<char> {
        self.ip@
    }

    pub closed spec fn spec_body(&self) -> Map<Seq<char>, String> {
        self.body@
    }

    pub closed spec fn spec_action(&self) -> Seq<char> {
        self.action@
    }

    pub closed spec fn spec_service_type(&self) -> Seq<char> {
        self.service_type@
    }

    /// The handler of the client at `response_ip`: no body, action and
    /// service `EMPTY`.
    pub fn new(response_ip: String) -> (r: ResponseHandler)
        ensures
            r.spec_ip() == response_ip@,
            r.spec_body() == Map::<Seq<char>, String>::empty(),
            r.spec_action() == "EMPTY"@,
            r.spec_service_type() == "EMPTY"@,
    {
        ResponseHandler {
            ip: response_ip,
            body: StringMap::new(),
            action: String::from_str("EMPTY"),
            service_type: String::from_str("EMPTY"),
        }
    }

    /// Sets the body and action of the last message.
    pub fn set_body_action(&mut self, response_body: StringMap<String>, response_action: String)
        ensures
            final(self).spec_body() == response_body@,
            final(self).spec_action() == response_action@,
            final(self).spec_ip() == old(self).spec_ip(),
            final(self).spec_service_type() == old(self).spec_service_type(),
    {
        self.body = response_body;
        self.action = response_action;
    }

    /// What the last message asks: `AUTHENTICATE` answers `AUTHENTICATED`;
    /// `GET_ITEM_INFO` counts the files of the item named by the `ID` of the
    /// body, shutting the connection down when it is missing or not a `u32`;
    /// other actions do nothing.
    pub fn handle_response(&mut self) -> (r: SocketAction)
        ensures
            *final(self) == *old(self),
            if old(self).spec_action() == "AUTHENTICATE"@ {
                sends_authenticated(r)
            } else if old(self).spec_action() == "GET_ITEM_INFO"@ {
                if old(self).spec_body().dom().contains("ID"@) && parse_unsigned_spec(
                    old(self).spec_body()["ID"@]@,
                    4294967295,
                ) is Some {
                    r matches SocketAction::CountItemFiles(id) && id@ == old(self).spec_body()["ID"@]@
                } else {
                    r is Shutdown
                }
            } else {
                r is Nothing
            },
    {
        if str_eq(self.action.as_str(), "AUTHENTICATE") {
            self.authenticate_user()
        } else if str_eq(self.action.as_str(), "GET_ITEM_INFO") {
            self.get_item_info()
        } else {
            SocketAction::Nothing
        }
    }

    /// The answer to an authentication.
    fn authenticate_user(&self) -> (r: SocketAction)
        ensures
            sends_authenticated(r),
    {
        SocketAction::Send(json_message("MESSAGE", String::from_str("AUTHENTICATED")))
    }

    /// Reports whether the message asked by the last action was sent.  When
    /// the action was `AUTHENTICATE` and its answer went out, the client now
    /// uses the download service; the result tells whether that happened.
    pub fn authentication_sent(&mut self, sent: bool) -> (r: bool)
        ensures
            r == (sent && old(self).spec_action() == "AUTHENTICATE"@),
            final(self).spec_service_type() == if r {
                "DOWNLOAD"@
            } else {
                old(self).spec_service_type()
            },
            final(self).spec_ip() == old(self).spec_ip(),
            final(self).spec_body() == old(self).spec_body(),
            final(self).spec_action() == old(self).spec_action(),
    {
        if sent && str_eq(self.action.as_str(), "AUTHENTICATE") {
            self.service_type = String::from_str("DOWNLOAD");
            true
        } else {
            false
        }
    }

    /// The first step of the information on an item: the item named by `ID`.
    fn get_item_info(&self) -> (r: SocketAction)
        ensures
            if self.spec_body().dom().contains("ID"@) && parse_unsigned_spec(
                self.spec_body()["ID"@]@,
                4294967295,
            ) is Some {
                r matches SocketAction::CountItemFiles(id) && id@ == self.spec_body()["ID"@]@
            } else {
                r is Shutdown
            },
    {
        let game_id = match self.body.get(&String::from_str("ID")) {
            Some(value) => value,
            None => {
                return SocketAction::Shutdown;
            },
        };
        match parse_u32(game_id.as_str()) {
            Some(_) => {},
            None => {
                return SocketAction::Shutdown;
            },
        }
        SocketAction::CountItemFiles(game_id.clone())
    }

    /// The last step of the information on an item: the count of its files is
    /// sent, or the connection shut down when they could not be counted.
    pub fn item_files_counted(&self, item_quantity: Option<u32>) -> (r: SocketAction)
        ensures
            match item_quantity {
                Some(n) => sends_game_info(r, n),
                None => r is Shutdown,
            },
    {
        match item_quantity {
            None => SocketAction::Shutdown,
            Some(n) => {
                let mut fields: Vec<(String, JsonValue)> = Vec::new();
                fields.push((String::from_str("MESSAGE"), JsonValue::Text(String::from_str("GAME_INFO"))));
                fields.push((String::from_str("CONTENT"), JsonValue::Int(n as i64)));
                let j = JsonValue::Object(fields);
                assert(has_keys(j, seq!["MESSAGE"@, "CONTENT"@]));
                SocketAction::Send(j)
            },
        }
    }
}

} // verus!
