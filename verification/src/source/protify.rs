//! The dispatch of the requests of the third server's http listener.
use vstd::prelude::*;
use crate::source::http_response::{HttpMethod, HttpResponse};
use crate::text::str_eq;

verus! {

/// The errors of the dispatch.
#[derive(Clone, Copy, Debug, PartialEq, Eq, Structural)]
pub enum ProtifyError {
    NotFound,
    InvalidParameter,
    InternalError,
    DatabaseError,
}

/// The name under which an error is displayed.
pub open spec fn error_name(e: ProtifyError) -> Seq<char> {
    match e {
        ProtifyError::NotFound => "NOT_FOUND"@,
        ProtifyError::InvalidParameter => "INVALID_PARAMETER"@,
        ProtifyError::InternalError => "INTERNAL_ERROR"@,
        ProtifyError::DatabaseError => "DATABASE_ERROR"@,
    }
}

impl ProtifyError {
    /// The name of the error, as it is displayed.
    pub fn to_string(&self) -> (r: String)
        ensures
            r@ == error_name(*self),
    {
        match self {
            ProtifyError::NotFound => String::from_str("NOT_FOUND"),
            ProtifyError::InvalidParameter => String::from_str("INVALID_PARAMETER"),
            ProtifyError::InternalError => String::from_str("INTERNAL_ERROR"),
            ProtifyError::DatabaseError => String::from_str("DATABASE_ERROR"),
        }
    }
}

/// Where a request goes.
#[derive(Clone, Copy, Debug, PartialEq, Eq, Structural)]
pub enum ProtifyRoute {
    /// The showcase of the store.
    Showcase,
    /// A `POST` request, which nothing handles yet.
    PostRequest,
    /// A `PATCH` request, which nothing handles yet.
    PatchRequest,
    /// An error, which is reported to nobody.
    Error(ProtifyError),
}

/// The route of a method and url.
pub open spec fn protify_route(method: HttpMethod, url: Seq<char>) -> ProtifyRoute {
    match method {
        HttpMethod::GET => if url == "/store_showcase"@ {
            ProtifyRoute::Showcase
        } else {
            ProtifyRoute::Error(ProtifyError::NotFound)
        },
        HttpMethod::POST => ProtifyRoute::PostRequest,
        HttpMethod::PATCH => ProtifyRoute::PatchRequest,
        _ => ProtifyRoute::Error(ProtifyError::NotFound),
    }
}

/// The dispatcher of the requests.
pub struct Protify {}

impl Protify {
    /// The dispatcher.
    pub fn new() -> Protify {
        Protify {}
    }

    /// Where the request goes, by its method.
    pub fn receive_request(&self, response: &HttpResponse) -> (r: ProtifyRoute)
        ensures
            r == protify_route(response.method, response.url@),
    {
        match response.method {
            HttpMethod::GET => Self::get_requests(response),
            HttpMethod::POST => ProtifyRoute::PostRequest,
            HttpMethod::PATCH => ProtifyRoute::PatchRequest,
            _ => ProtifyRoute::Error(ProtifyError::NotFound),
        }
    }

    /// Where a `GET` request goes, by its url.
    fn get_requests(response: &HttpResponse) -> (r: ProtifyRoute)
        ensures
            r == (if response.url@ == "/store_showcase"@ {
                ProtifyRoute::Showcase
            } else {
                ProtifyRoute::Error(ProtifyError::NotFound)
            }),
    {
        if str_eq(response.url.as_str(), "/store_showcase") {
            ProtifyRoute::Showcase
        } else {
            ProtifyRoute::Error(ProtifyError::NotFound)
        }
    }

    /// Reports an error: nothing is sent to the client.
    pub fn error(response: HttpResponse, error: ProtifyError) {
    }
}

} // verus!
