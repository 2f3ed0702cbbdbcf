//! The profile endpoints of the server.
use vstd::prelude::*;
use crate::json::{is_json_message, json_message_reply, Reply, STATUS_OK};

verus! {

/// The profile of a user.
pub struct User {}

impl User {
    /// The change of username: the body is not read, and the answer is always
    /// 200 `{"message": "SUCCESS"}`.
    pub fn change_username(body: String) -> (r: Reply)
        ensures
            is_json_message(r, STATUS_OK, "message"@, "SUCCESS"@),
    {
        json_message_reply(STATUS_OK, "message", String::from_str("SUCCESS"))
    }
}

} // verus!
