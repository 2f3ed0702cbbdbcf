//! The store endpoints of the http server: the showcase, the information on an
//! item, the start of a download.
use vstd::prelude::*;
use crate::http::handler::{DefaultResponse, ErrorStruct};
use crate::json::{
    has_keys,
    is_json_message,
    is_number_list,
    is_object_of,
    is_text,
    json_number_list,
    json_object,
    member,
    JsonValue,
    Reply,
    ReplyBody,
    STATUS_OK,
    STATUS_INTERNAL_SERVER_ERROR,
    STATUS_NETWORK_AUTHENTICATION_REQUIRED,
};
use crate::source::database::{
    condition_equals_number,
    equals_number,
    first_error,
    row_view,
    string_list,
    typed_as,
    Database,
    Row,
    SelectQuery,
};
use crate::string_map::StringMap;
use crate::text::{decimal, lemma_parse_decimal, parse_u16, parse_u32, parse_unsigned_spec, views};

verus! {

/// The showcase id of a row: its `ID` read as a `u32`, or 0.
pub open spec fn showcase_id(row: Map<Seq<char>, Seq<char>>) -> u32 {
    if row.dom().contains("ID"@) {
        match parse_unsigned_spec(row["ID"@], 4294967295) {
            Some(v) => v as u32,
            None => 0,
        }
    } else {
        0
    }
}

/// The showcase ids of the rows, in order.
pub open spec fn showcase_ids(rows: Seq<Row>) -> Seq<u32> {
    Seq::new(rows.len(), |i: int| showcase_id(row_view(rows[i])))
}

/// `r` is the showcase of the rows.
pub open spec fn is_showcase_reply(r: Reply, rows: Seq<Row>) -> bool {
    &&& r.status == STATUS_OK
    &&& r.body matches ReplyBody::Json(j) && {
        &&& has_keys(j, seq!["MESSAGE"@, "CONTENT"@])
        &&& is_text(member(j, 0), "SUCCESS"@)
        &&& is_number_list(member(j, 1), showcase_ids(rows))
    }
}

/// `r` is the information on the item of `row`, each value typed for JSON.
pub open spec fn is_item_info_reply(r: Reply, row: Row) -> bool {
    &&& r.status == STATUS_OK
    &&& r.body matches ReplyBody::Json(j) && {
        &&& has_keys(j, seq!["MESSAGE"@, "CONTENT"@])
        &&& is_text(member(j, 0), "SUCCESS"@)
        &&& exists|m: Map<Seq<char>, JsonValue>|
            {
                &&& is_object_of(member(j, 1), m)
                &&& m.dom() == row@.dom()
                &&& forall|k: Seq<char>| #[trigger] m.dom().contains(k) ==> typed_as(m[k], row@[k]@)
            }
    }
}

/// The `item` parameter of a query read as a `u16`.
pub open spec fn item_param(query: Map<Seq<char>, String>) -> Option<u16> {
    if query.dom().contains("item"@) {
        match parse_unsigned_spec(query["item"@]@, 65535) {
            Some(v) => Some(v as u16),
            None => None,
        }
    } else {
        None
    }
}

/// The query of the showcase: every column of `SHOWCASE`, with no
/// condition, the answer read as `ID`.
pub open spec fn is_showcase_query(q: SelectQuery) -> bool {
    &&& q.select_params@.len() == 0
    &&& q.from_param@ == "SHOWCASE"@
    &&& q.where_params@.len() == 0
    &&& views(q.waiting_params@) == seq!["ID"@]
}

/// The query of the information on item `item_id`: every column of `STORE`
/// where `ID = item_id`, the answer read as `ID`, `NAME`, `CATEGORY`,
/// `LANGUAGES`, `DESCRIPTION`.
pub open spec fn is_item_info_query(q: SelectQuery, item_id: nat) -> bool {
    &&& q.select_params@.len() == 0
    &&& q.from_param@ == "STORE"@
    &&& views(q.where_params@) == seq![equals_number("ID"@, item_id)]
    &&& views(q.waiting_params@) == seq![
        "ID"@,
        "NAME"@,
        "CATEGORY"@,
        "LANGUAGES"@,
        "DESCRIPTION"@,
    ]
}

/// The query of the showcase.
pub fn showcase_query() -> (r: SelectQuery)
    ensures
        is_showcase_query(r),
{
    let r = SelectQuery {
        select_params: Vec::new(),
        from_param: String::from_str("SHOWCASE"),
        where_params: Vec::new(),
        waiting_params: string_list(&["ID"]),
    };
    assert(views(r.waiting_params@) =~= seq!["ID"@]);
    r
}

/// The showcase ids of the rows: the `ID` of each row read as a `u32`, 0
/// when it is missing or not a number.
pub fn showcase_items(response: &Vec<Row>) -> (r: Vec<u32>)
    ensures
        r@ == showcase_ids(response@),
{
    let mut store_items: Vec<u32> = Vec::new();
    let id_key = String::from_str("ID");
    let n = response.len();
    let mut length: usize = 0;
    while length < n
        invariant
            length <= n,
            n == response@.len(),
            id_key@ == "ID"@,
            store_items@ == showcase_ids(response@).take(length as int),
        decreases n - length,
    {
        let value_u32: u32 = match response[length].get(&id_key) {
            Some(value) => match parse_u32(value.as_str()) {
                Some(v) => v,
                None => 0,
            },
            None => 0,
        };
        assert(value_u32 == showcase_id(row_view(response@[length as int])));
        store_items.push(value_u32);
        assert(store_items@ =~= showcase_ids(response@).take(length + 1));
        length = length + 1;
    }
    assert(store_items@ =~= showcase_ids(response@));
    store_items
}

/// The showcase: the ids of the answer of `showcase_query`, or the error the
/// answer holds.
pub fn store_showcase(response: &Vec<Row>) -> (r: Reply)
    ensures
        match first_error(response@) {
            Some(err) => is_json_message(r, STATUS_INTERNAL_SERVER_ERROR, "MESSAGE"@, err),
            None => is_showcase_reply(r, response@),
        },
{
    let database = Database {};
    match database.check_errors(response) {
        Some(err) => return ErrorStruct::internal_server_error(err),
        None => {},
    }
    let store_items = showcase_items(response);
    let mut fields: Vec<(String, JsonValue)> = Vec::new();
    fields.push((String::from_str("MESSAGE"), JsonValue::Text(String::from_str("SUCCESS"))));
    fields.push((String::from_str("CONTENT"), json_number_list(&store_items)));
    let json_body = JsonValue::Object(fields);
    assert(has_keys(json_body, seq!["MESSAGE"@, "CONTENT"@]));
    let response = DefaultResponse::new(json_body, STATUS_OK);
    response.build_response()
}

/// The start of a download: always a success; the query is not read.
pub fn download_item(query: &StringMap<String>) -> (r: Reply)
    ensures
        is_json_message(r, STATUS_OK, "MESSAGE"@, "SUCCESS"@),
{
    let response = DefaultResponse::new(
        crate::json::json_message("MESSAGE", String::from_str("SUCCESS")),
        STATUS_OK,
    );
    response.build_response()
}

/// The item asked for by the query.
pub fn item_id_param(query: &StringMap<String>) -> (r: Option<u16>)
    ensures
        r == item_param(query@),
{
    match query.get(&String::from_str("item")) {
        Some(value) => parse_u16(value.as_str()),
        None => None,
    }
}

/// The query of the information on item `item_id`.
pub fn item_info_query(item_id: u16) -> (r: SelectQuery)
    ensures
        is_item_info_query(r, item_id as nat),
{
    let mut where_params: Vec<String> = Vec::new();
    where_params.push(condition_equals_number("ID", item_id as u64));
    let r = SelectQuery {
        select_params: Vec::new(),
        from_param: String::from_str("STORE"),
        where_params,
        waiting_params: string_list(&["ID", "NAME", "CATEGORY", "LANGUAGES", "DESCRIPTION"]),
    };
    assert(views(r.where_params@) =~= seq![equals_number("ID"@, item_id as nat)]);
    assert(views(r.waiting_params@) =~= seq![
        "ID"@,
        "NAME"@,
        "CATEGORY"@,
        "LANGUAGES"@,
        "DESCRIPTION"@,
    ]);
    r
}

/// The information on an item from the answer of `item_info_query`: the error
/// the answer holds, `invalid_parameters` when the item does not exist, else
/// its first row with each value typed.
pub fn get_item_info(response: &Vec<Row>) -> (r: Reply)
    ensures
        match first_error(response@) {
            Some(err) => is_json_message(r, STATUS_INTERNAL_SERVER_ERROR, "MESSAGE"@, err),
            None => if response@.len() == 0 {
                is_json_message(
                    r,
                    STATUS_NETWORK_AUTHENTICATION_REQUIRED,
                    "MESSAGE"@,
                    "invalid_parameters"@,
                )
            } else {
                is_item_info_reply(r, response@[0])
            },
        },
{
    let database = Database {};
    match database.check_errors(response) {
        Some(err) => return ErrorStruct::internal_server_error(err),
        None => {},
    }
    if response.len() == 0 {
        return ErrorStruct::invalid_parameters();
    }
    let item_data = Database::convert_hash_map_to_json_value(&response[0]);
    let ghost m = item_data@;
    let content = json_object(item_data);
    let mut fields: Vec<(String, JsonValue)> = Vec::new();
    fields.push((String::from_str("MESSAGE"), JsonValue::Text(String::from_str("SUCCESS"))));
    fields.push((String::from_str("CONTENT"), content));
    let json_body = JsonValue::Object(fields);
    assert(has_keys(json_body, seq!["MESSAGE"@, "CONTENT"@]));
    let response = DefaultResponse::new(json_body, STATUS_OK);
    response.build_response()
}

/// A showcase row whose `ID` is the decimal text of a `u32` gives that id.
pub proof fn lemma_showcase_id_reads_decimal(row: Map<Seq<char>, Seq<char>>, n: u32)
    requires
        row.dom().contains("ID"@),
        row["ID"@] == decimal(n as nat),
    ensures
        showcase_id(row) == n,
{
    lemma_parse_decimal(n as nat, 4294967295);
}

} // verus!
