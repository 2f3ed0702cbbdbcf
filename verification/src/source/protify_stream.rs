//! The dispatch of the requests of the third server's stream listener.
use vstd::prelude::*;
use crate::source::stream_response::StreamResponse;

verus! {

/// The errors of the dispatch.
#[derive(Clone, Copy, Debug, PartialEq, Eq, Structural)]
pub enum ProtifyError {
    NotFound,
    InvalidParameter,
    InternalError,
    DatabaseError,
}

impl ProtifyError {
    /// The name of the error, as it is displayed.
    pub fn to_string(&self) -> (r: String)
        ensures
            r@ == crate::source::protify::error_name(match self {
                ProtifyError::NotFound => crate::source::protify::ProtifyError::NotFound,
                ProtifyError::InvalidParameter => crate::source::protify::ProtifyError::InvalidParameter,
                ProtifyError::InternalError => crate::source::protify::ProtifyError::InternalError,
                ProtifyError::DatabaseError => crate::source::protify::ProtifyError::DatabaseError,
            }),
    {
        match self {
            ProtifyError::NotFound => String::from_str("NOT_FOUND"),
            ProtifyError::InvalidParameter => String::from_str("INVALID_PARAMETER"),
            ProtifyError::InternalError => String::from_str("INTERNAL_ERROR"),
            ProtifyError::DatabaseError => String::from_str("DATABASE_ERROR"),
        }
    }
}

/// The dispatcher of the stream requests.
pub struct ProtifyStream {}

impl ProtifyStream {
    /// The dispatcher.
    pub fn new() -> ProtifyStream {
        ProtifyStream {}
    }

    /// Reports an error: nothing is sent to the client.
    pub fn error(response: StreamResponse, error: ProtifyError) {
    }

    /// Receives a request: nothing handles the stream requests yet.
    pub fn receive_stream(&self, response: StreamResponse) {
    }
}

} // verus!
