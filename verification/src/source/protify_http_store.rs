//! The store pages of the third server's http dispatch: the showcase and the
//! information on an item.
use vstd::prelude::*;
use crate::json::JsonValue;
use crate::source::database::{
    condition_equals_number,
    equals_number,
    first_error,
    row_view,
    string_list,
    typed_as,
    Database,
    Row,
    SelectQuery,
};
use crate::source::http_response::HttpResponse;
use crate::source::protify::ProtifyError;
use crate::source::protify_store::{answer_view, ids_result, showcase_answer, showcase_outcome};
use crate::string_map::StringMap;
use crate::text::{parse_u32, parse_unsigned_spec, views};

verus! {

/// The item asked for: the `item` parameter read as a `u32`, 0 when it is
/// missing or not a number.
pub open spec fn requested_item(query: Map<Seq<char>, String>) -> u32 {
    if query.dom().contains("item"@) {
        match parse_unsigned_spec(query["item"@]@, 4294967295) {
            Some(v) => v as u32,
            None => 0,
        }
    } else {
        0
    }
}

/// The outcome of the item information: `InternalError` without a
/// connection; `InvalidParameter` when the answer holds an error or no row;
/// else the first row with its values typed, under 200 `SUCCESS`.
pub open spec fn item_outcome(
    before: HttpResponse,
    after: HttpResponse,
    answer: Option<Seq<Row>>,
    r: Result<Map<Seq<char>, JsonValue>, ProtifyError>,
) -> bool {
    match answer {
        None => r == Err::<Map<Seq<char>, JsonValue>, ProtifyError>(ProtifyError::InternalError)
            && after == before,
        Some(rows) => if first_error(rows) is Some || rows.len() == 0 {
            r == Err::<Map<Seq<char>, JsonValue>, ProtifyError>(ProtifyError::InvalidParameter)
                && after == before
        } else {
            &&& r is Ok
            &&& r->Ok_0.dom() == rows[0]@.dom()
            &&& forall|k: Seq<char>| #[trigger]
                r->Ok_0.dom().contains(k) ==> typed_as(r->Ok_0[k], rows[0]@[k]@)
            &&& after.status_code == 200
            &&& after.status_message@ == "SUCCESS"@
            &&& after.address == before.address
            &&& after.port == before.port
            &&& after.method == before.method
            &&& after.url == before.url
            &&& after.query == before.query
            &&& after.body == before.body
            &&& after.version == before.version
            &&& after.agent == before.agent
            &&& after.enconding == before.enconding
            &&& after.status == before.status
        },
    }
}

/// The map as its view.
pub open spec fn item_result(r: Result<StringMap<JsonValue>, ProtifyError>) -> Result<
    Map<Seq<char>, JsonValue>,
    ProtifyError,
> {
    match r {
        Ok(m) => Ok(m@),
        Err(e) => Err(e),
    }
}

/// The store pages.
pub struct Instance {}

impl Instance {
    /// The showcase of the store from the answer of its query.
    pub fn showcase(response: &mut HttpResponse, answer: Option<&Vec<Row>>) -> (r: Result<
        Vec<u32>,
        ProtifyError,
    >)
        ensures
            showcase_outcome(*old(response), *final(response), answer_view(answer), ids_result(r)),
    {
        showcase_answer(response, answer)
    }

    /// The item a request asks for: `InvalidParameter` for item 0, which is
    /// also what a missing or wrong `item` reads as.
    pub fn get_item_id(response: &HttpResponse) -> (r: Result<u32, ProtifyError>)
        ensures
            r == if requested_item(response.query@) == 0 {
                Err::<u32, ProtifyError>(ProtifyError::InvalidParameter)
            } else {
                Ok::<u32, ProtifyError>(requested_item(response.query@))
            },
    {
        let item_id: u32 = match response.query.get(&String::from_str("item")) {
            Some(id_str) => match parse_u32(id_str.as_str()) {
                Some(id) => id,
                None => 0,
            },
            None => 0,
        };
        if item_id == 0 {
            return Err(ProtifyError::InvalidParameter);
        }
        Ok(item_id)
    }

    /// The query of the information on an item.
    pub fn get_item_query(item_id: u32) -> (r: SelectQuery)
        ensures
            r.select_params@.len() == 0,
            r.from_param@ == "STORE"@,
            views(r.where_params@) == seq![equals_number("ID"@, item_id as nat)],
            views(r.waiting_params@) == seq![
                "ID"@,
                "NAME"@,
                "CATEGORY"@,
                "LANGUAGES"@,
                "DESCRIPTION"@,
            ],
    {
        let mut where_params: Vec<String> = Vec::new();
        where_params.push(condition_equals_number("ID", item_id as u64));
        let r = SelectQuery {
            select_params: Vec::new(),
            from_param: String::from_str("STORE"),
            where_params,
            waiting_params: string_list(&["ID", "NAME", "CATEGORY", "LANGUAGES", "DESCRIPTION"]),
        };
        assert(views(r.where_params@) =~= seq![equals_number("ID"@, item_id as nat)]);
        assert(views(r.waiting_params@) =~= seq![
            "ID"@,
            "NAME"@,
            "CATEGORY"@,
            "LANGUAGES"@,
            "DESCRIPTION"@,
        ]);
        r
    }

    /// The information on an item from the answer of `get_item_query`;
    /// `None` when the database could not be reached.
    pub fn get_item(response: &mut HttpResponse, answer: Option<&Vec<Row>>) -> (r: Result<
        StringMap<JsonValue>,
        ProtifyError,
    >)
        ensures
            item_outcome(*old(response), *final(response), answer_view(answer), item_result(r)),
    {
        match answer {
            None => Err(ProtifyError::InternalError),
            Some(rows) => {
                let database = Database {};
                match database.check_errors(rows) {
                    Some(_) => return Err(ProtifyError::InvalidParameter),
                    None => {},
                }
                if rows.len() == 0 {
                    return Err(ProtifyError::InvalidParameter);
                }
                let item_data = Database::convert_hash_map_to_json_value(&rows[0]);
                response.status_code = 200;
                response.status_message = String::from_str("SUCCESS");
                Ok(item_data)
            },
        }
    }
}

} // verus!
