//! The replies of the servers: a status code and a body, the body being plain
//! text or a JSON document.  The document is kept as a value; its text is
//! written where the reply is sent.
use vstd::prelude::*;

verus! {

/// A JSON document.
pub enum JsonValue {
    Null,
    Bool(bool),
    Int(i64),
    Text(String),
    List(Vec<JsonValue>),
    /// An object, its members in the order given (the text lists them sorted).
    Object(Vec<(String, JsonValue)>),
    /// JSON text that denotes an array, kept as it was read.
    ArrayText(String),
}

/// The body of a reply.
pub enum ReplyBody {
    Plain(String),
    Json(JsonValue),
}

/// A reply to a client: status code and body.
pub struct Reply {
    pub status: u16,
    pub body: ReplyBody,
}

pub const STATUS_OK: u16 = 200;

pub const STATUS_UNAUTHORIZED: u16 = 401;

pub const STATUS_NOT_FOUND: u16 = 404;

pub const STATUS_NOT_ACCEPTABLE: u16 = 406;

pub const STATUS_INTERNAL_SERVER_ERROR: u16 = 500;

pub const STATUS_NETWORK_AUTHENTICATION_REQUIRED: u16 = 511;

/// `j` is the JSON string `s`.
pub open spec fn is_text(j: JsonValue, s: Seq<char>) -> bool {
    j matches JsonValue::Text(t) && t@ == s
}

/// `j` is an object whose members have the keys `keys`, in this order.
pub open spec fn has_keys(j: JsonValue, keys: Seq<Seq<char>>) -> bool {
    j matches JsonValue::Object(f) && f@.len() == keys.len() && forall|i: int|
        0 <= i < keys.len() ==> (#[trigger] f@[i]).0@ == keys[i]
}

/// The member at position `i` of the object `j`.
pub open spec fn member(j: JsonValue, i: int) -> JsonValue {
    match j {
        JsonValue::Object(f) => f@[i].1,
        _ => JsonValue::Null,
    }
}

/// `j` is an object holding exactly the members of `m`.
pub open spec fn is_object_of(j: JsonValue, m: Map<Seq<char>, JsonValue>) -> bool {
    j matches JsonValue::Object(f) && {
        &&& crate::string_map::keys_of(f@).no_duplicates()
        &&& crate::string_map::keys_of(f@).to_set() == m.dom()
        &&& forall|i: int| 0 <= i < f@.len() ==> m[(#[trigger] f@[i]).0@] == f@[i].1
    }
}

/// The object holding the members of `m`.
pub fn json_object(m: crate::string_map::StringMap<JsonValue>) -> (r: JsonValue)
    ensures
        is_object_of(r, m@),
{
    JsonValue::Object(m.into_entries())
}

/// `j` is the object `{key: text}`.
pub open spec fn is_message(j: JsonValue, key: Seq<char>, text: Seq<char>) -> bool {
    has_keys(j, seq![key]) && is_text(member(j, 0), text)
}

/// `j` is the list of the numbers `ids`.
pub open spec fn is_number_list(j: JsonValue, ids: Seq<u32>) -> bool {
    j matches JsonValue::List(l) && l@.len() == ids.len() && forall|i: int|
        0 <= i < ids.len() ==> #[trigger] l@[i] == JsonValue::Int(ids[i] as i64)
}

/// `j` is the list of the strings `items`.
pub open spec fn is_text_list(j: JsonValue, items: Seq<Seq<char>>) -> bool {
    j matches JsonValue::List(l) && l@.len() == items.len() && forall|i: int|
        0 <= i < items.len() ==> is_text(#[trigger] l@[i], items[i])
}

/// `r` has status `status` and the JSON body `{key: text}`.
pub open spec fn is_json_message(r: Reply, status: u16, key: Seq<char>, text: Seq<char>) -> bool {
    &&& r.status == status
    &&& r.body matches ReplyBody::Json(j) && is_message(j, key, text)
}

/// `r` has status `status` and the plain body `text`.
pub open spec fn is_plain(r: Reply, status: u16, text: Seq<char>) -> bool {
    &&& r.status == status
    &&& r.body matches ReplyBody::Plain(t) && t@ == text
}

/// The JSON string `s`.
pub fn json_text(s: String) -> (r: JsonValue)
    ensures
        is_text(r, s@),
{
    JsonValue::Text(s)
}

/// The object `{key: text}`.
pub fn json_message(key: &str, text: String) -> (r: JsonValue)
    ensures
        is_message(r, key@, text@),
{
    let mut fields: Vec<(String, JsonValue)> = Vec::new();
    fields.push((String::from_str(key), JsonValue::Text(text)));
    let r = JsonValue::Object(fields);
    assert(has_keys(r, seq![key@]));
    r
}

/// A reply with the JSON body `{key: text}`.
pub fn json_message_reply(status: u16, key: &str, text: String) -> (r: Reply)
    ensures
        is_json_message(r, status, key@, text@),
{
    Reply { status, body: ReplyBody::Json(json_message(key, text)) }
}

/// The list of the numbers `ids`.
pub fn json_number_list(ids: &Vec<u32>) -> (r: JsonValue)
    ensures
        is_number_list(r, ids@),
{
    let mut l: Vec<JsonValue> = Vec::new();
    let n = ids.len();
    let mut i: usize = 0;
    while i < n
        invariant
            i <= n,
            n == ids@.len(),
            l@.len() == i,
            forall|k: int| 0 <= k < i ==> #[trigger] l@[k] == JsonValue::Int(ids@[k] as i64),
        decreases n - i,
    {
        l.push(JsonValue::Int(ids[i] as i64));
        i = i + 1;
    }
    JsonValue::List(l)
}

/// The list of the strings `items`.
pub fn json_text_list(items: &Vec<String>) -> (r: JsonValue)
    ensures
        is_text_list(r, crate::text::views(items@)),
{
    let mut l: Vec<JsonValue> = Vec::new();
    let n = items.len();
    let mut i: usize = 0;
    while i < n
        invariant
            i <= n,
            n == items@.len(),
            l@.len() == i,
            forall|k: int| 0 <= k < i ==> is_text(#[trigger] l@[k], items@[k]@),
        decreases n - i,
    {
        l.push(JsonValue::Text(items[i].clone()));
        i = i + 1;
    }
    JsonValue::List(l)
}

} // verus!
