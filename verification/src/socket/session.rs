//! The sessions of the socket server: one service at a time per address, and
//! the reading of the messages.
use vstd::prelude::*;
use crate::string_map::StringMap;

verus! {

/// The addresses that are using a service.
pub struct ServiceRegistry {
    services: StringMap<bool>,
}

impl ServiceRegistry {
    pub closed spec fn view(&self) -> Set<Seq<char>> {
        self.services@.dom()
    }

    /// No address uses a service.
    pub fn new() -> (r: Self)
        ensures
            r@ == Set::<Seq<char>>::empty(),
    {
        let r = ServiceRegistry { services: StringMap::new() };
        assert(r@ =~= Set::<Seq<char>>::empty());
        r
    }

    /// A client of `ip` connects: refused when the address already uses a
    /// service, else recorded.
    pub fn try_open(&mut self, ip: &String) -> (r: bool)
        ensures
            r == !old(self)@.contains(ip@),
            final(self)@ == old(self)@.insert(ip@),
    {
        if self.services.contains_key(ip) {
            assert(self@.insert(ip@) =~= self@);
            false
        } else {
            self.services.insert(ip.clone(), true);
            true
        }
    }

    /// The connection of `ip` failed: the address is free again.
    pub fn close(&mut self, ip: &String)
        ensures
            final(self)@ == old(self)@.remove(ip@),
    {
        self.services.remove(ip);
    }

    /// Whether `ip` uses a service.
    pub fn contains(&self, ip: &String) -> (r: bool)
        ensures
            r == self@.contains(ip@),
    {
        self.services.contains_key(ip)
    }
}

/// The string member `key` of the JSON object that `text` denotes, as
/// `serde_json` reads it.
pub uninterp spec fn json_string_member(text: Seq<char>, key: Seq<char>) -> Option<Seq<char>>;

/// Calls `serde_json::from_str::<serde_json::Value>` on `text` and, when it
/// gives an object, `Map::get(key)` on it; the member is given when it is a
/// JSON string.  The claim is only that the answer depends on the text and
/// the key alone.
#[verifier::external_body]
fn string_member(text: &str, key: &str) -> (r: Option<String>)
    ensures
        r is Some <==> json_string_member(text@, key@) is Some,
        r matches Some(s) ==> json_string_member(text@, key@) == Some(s@),
{
    match serde_json::from_str::<serde_json::Value>(text) {
        Ok(serde_json::Value::Object(map)) => match map.get(key) {
            Some(serde_json::Value::String(s)) => Some(s.clone()),
            _ => None,
        },
        _ => None,
    }
}

/// The body and action of a message text: the action is the string member
/// `ACTION` (empty when there is none, or when the text is not a JSON
/// object); the body holds the string member `ID` when there is one.
pub fn read_message_text(text: &str) -> (r: (StringMap<String>, String))
    ensures
        r.1@ == match json_string_member(text@, "ACTION"@) {
            Some(a) => a,
            None => Seq::<char>::empty(),
        },
        r.0@.dom() == if json_string_member(text@, "ID"@) is Some {
            Set::<Seq<char>>::empty().insert("ID"@)
        } else {
            Set::<Seq<char>>::empty()
        },
        r.0@.dom().contains("ID"@) ==> json_string_member(text@, "ID"@) == Some(r.0@["ID"@]@),
{
    let response_action = match string_member(text, "ACTION") {
        Some(action) => action,
        None => String::new(),
    };
    let mut response_body: StringMap<String> = StringMap::new();
    match string_member(text, "ID") {
        Some(id) => {
            response_body.insert(String::from_str("ID"), id);
            assert(response_body@.dom() =~= Set::<Seq<char>>::empty().insert("ID"@));
        },
        None => {
            assert(response_body@.dom() =~= Set::<Seq<char>>::empty());
        },
    }
    (response_body, response_action)
}

} // verus!
