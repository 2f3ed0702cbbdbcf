//! The store endpoints of the first server: the list of the store's games and
//! softwares, and the download of a game.
use vstd::prelude::*;
use crate::json::{
    has_keys,
    is_json_message,
    is_text,
    is_text_list,
    json_message_reply,
    json_text_list,
    member,
    JsonValue,
    Reply,
    ReplyBody,
    STATUS_OK,
};
use crate::text::views;

verus! {

/// The entries of the store folders.
pub struct StoreListing {
    /// The names in `store/games`.
    pub games: Vec<String>,
    /// The names in `store/softwares`.
    pub softwares: Vec<String>,
}

/// `r` is the listing `{"message": "Success", "content": {"games": ..,
/// "softwares": ..}}`.
pub open spec fn is_store_listing(r: Reply, games: Seq<Seq<char>>, softwares: Seq<Seq<char>>) -> bool {
    &&& r.status == STATUS_OK
    &&& r.body matches ReplyBody::Json(j) && {
        &&& has_keys(j, seq!["message"@, "content"@])
        &&& is_text(member(j, 0), "Success"@)
        &&& has_keys(member(j, 1), seq!["games"@, "softwares"@])
        &&& is_text_list(member(member(j, 1), 0), games)
        &&& is_text_list(member(member(j, 1), 1), softwares)
    }
}

/// The reply listing the store.
pub fn store_main(listing: &StoreListing) -> (r: Reply)
    ensures
        is_store_listing(r, views(listing.games@), views(listing.softwares@)),
{
    let mut content: Vec<(String, JsonValue)> = Vec::new();
    content.push((String::from_str("games"), json_text_list(&listing.games)));
    content.push((String::from_str("softwares"), json_text_list(&listing.softwares)));
    let content = JsonValue::Object(content);
    assert(has_keys(content, seq!["games"@, "softwares"@]));
    let mut fields: Vec<(String, JsonValue)> = Vec::new();
    fields.push((String::from_str("message"), JsonValue::Text(String::from_str("Success"))));
    fields.push((String::from_str("content"), content));
    let json_body = JsonValue::Object(fields);
    assert(has_keys(json_body, seq!["message"@, "content"@]));
    Reply { status: STATUS_OK, body: ReplyBody::Json(json_body) }
}

/// The download of a game: the headers and body are not read, and the answer
/// is always 200 `{"message": "Success"}`.
pub fn download_game(header: &crate::string_map::StringMap<String>, body: &String) -> (r: Reply)
    ensures
        is_json_message(r, STATUS_OK, "message"@, "Success"@),
{
    json_message_reply(STATUS_OK, "message", String::from_str("Success"))
}

} // verus!
