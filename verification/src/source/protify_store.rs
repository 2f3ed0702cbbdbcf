//! The showcase of the third server's http dispatch.
use vstd::prelude::*;
use crate::http::games::{showcase_ids, showcase_items, showcase_query};
use crate::source::database::{first_error, Database, Row, SelectQuery};
use crate::source::http_response::HttpResponse;
use crate::source::protify::ProtifyError;

verus! {

/// The outcome of the showcase, and the answer status it leaves on the
/// request: the ids under 200 `SUCCESS`, or `DatabaseError` when there was no
/// connection or the answer holds an error, the request then unchanged.
pub open spec fn showcase_outcome(
    before: HttpResponse,
    after: HttpResponse,
    answer: Option<Seq<Row>>,
    r: Result<Seq<u32>, ProtifyError>,
) -> bool {
    match answer {
        None => r == Err::<Seq<u32>, ProtifyError>(ProtifyError::DatabaseError) && after == before,
        Some(rows) => if first_error(rows) is Some {
            r == Err::<Seq<u32>, ProtifyError>(ProtifyError::DatabaseError) && after == before
        } else {
            &&& r == Ok::<Seq<u32>, ProtifyError>(showcase_ids(rows))
            &&& after.status_code == 200
            &&& after.status_message@ == "SUCCESS"@
            &&& after.address == before.address
            &&& after.port == before.port
            &&& after.method == before.method
            &&& after.url == before.url
            &&& after.query == before.query
            &&& after.body == before.body
            &&& after.version == before.version
            &&& after.agent == before.agent
            &&& after.enconding == before.enconding
            &&& after.status == before.status
        },
    }
}

/// The result as a sequence.
pub open spec fn ids_result(r: Result<Vec<u32>, ProtifyError>) -> Result<Seq<u32>, ProtifyError> {
    match r {
        Ok(v) => Ok(v@),
        Err(e) => Err(e),
    }
}

/// The rows as a sequence.
pub open spec fn answer_view(answer: Option<&Vec<Row>>) -> Option<Seq<Row>> {
    match answer {
        Some(rows) => Some(rows@),
        None => None,
    }
}

/// The showcase from the answer of `showcase_query`; `None` when the
/// database could not be reached.
pub fn showcase_answer(response: &mut HttpResponse, answer: Option<&Vec<Row>>) -> (r: Result<
    Vec<u32>,
    ProtifyError,
>)
    ensures
        showcase_outcome(*old(response), *final(response), answer_view(answer), ids_result(r)),
{
    match answer {
        None => Err(ProtifyError::DatabaseError),
        Some(rows) => {
            let database = Database {};
            match database.check_errors(rows) {
                Some(_) => Err(ProtifyError::DatabaseError),
                None => {
                    let store_items = showcase_items(rows);
                    response.status_code = 200;
                    response.status_message = String::from_str("SUCCESS");
                    Ok(store_items)
                },
            }
        },
    }
}

/// The showcase page.
pub struct Instance {}

impl Instance {
    /// The query of the showcase.
    pub fn showcase_query() -> (r: SelectQuery)
        ensures
            r.from_param@ == "SHOWCASE"@,
            r.select_params@.len() == 0,
            r.where_params@.len() == 0,
            crate::text::views(r.waiting_params@) == seq!["ID"@],
    {
        showcase_query()
    }

    /// The showcase of the store from the answer of `showcase_query`.
    pub fn showcase(response: &mut HttpResponse, answer: Option<&Vec<Row>>) -> (r: Result<
        Vec<u32>,
        ProtifyError,
    >)
        ensures
            showcase_outcome(*old(response), *final(response), answer_view(answer), ids_result(r)),
    {
        showcase_answer(response, answer)
    }
}

} // verus!
