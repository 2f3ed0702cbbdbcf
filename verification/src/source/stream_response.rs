//! A request read by the stream listener of the third server, and the text
//! of the answer, a file, written back to it.
use vstd::prelude::*;
use crate::string_map::StringMap;
use crate::source::http_response::{answer, answer_text};
use crate::text::str_eq;

verus! {

/// Whether the connection of a request was read in full.
#[derive(Clone, Copy, Debug, PartialEq, Eq, Structural)]
pub enum StreamConnectionStatus {
    Failed,
    Success,
}

impl StreamConnectionStatus {
    /// The name of the status, as it is displayed.
    pub fn to_string(&self) -> (r: String)
        ensures
            r@ == match self {
                StreamConnectionStatus::Failed => "Failed"@,
                StreamConnectionStatus::Success => "Success"@,
            },
    {
        match self {
            StreamConnectionStatus::Failed => String::from_str("Failed"),
            StreamConnectionStatus::Success => String::from_str("Success"),
        }
    }
}

/// The method of a request.
#[allow(non_camel_case_types)]
#[derive(Clone, Copy, Debug, PartialEq, Eq, Structural)]
pub enum StreamMethod {
    GET,
    POST,
    DELETE,
    PATCH,
    UPDATE,
    UNKOWN,
}

/// The method named by a text: one of the five known names, else `UNKOWN`.
pub open spec fn stream_method_named(method: Seq<char>) -> StreamMethod {
    if method == "GET"@ {
        StreamMethod::GET
    } else if method == "POST"@ {
        StreamMethod::POST
    } else if method == "DELETE"@ {
        StreamMethod::DELETE
    } else if method == "PATCH"@ {
        StreamMethod::PATCH
    } else if method == "UPDATE"@ {
        StreamMethod::UPDATE
    } else {
        StreamMethod::UNKOWN
    }
}

/// The name under which a method is displayed.
pub open spec fn stream_method_name(m: StreamMethod) -> Seq<char> {
    match m {
        StreamMethod::GET => "GET"@,
        StreamMethod::POST => "POST"@,
        StreamMethod::DELETE => "DELETE"@,
        StreamMethod::PATCH => "PATCH"@,
        StreamMethod::UPDATE => "UPDATE"@,
        StreamMethod::UNKOWN => "UNKOWN"@,
    }
}

impl StreamMethod {
    /// The name of the method, as it is displayed.
    pub fn to_string(&self) -> (r: String)
        ensures
            r@ == stream_method_name(*self),
    {
        match self {
            StreamMethod::GET => String::from_str("GET"),
            StreamMethod::POST => String::from_str("POST"),
            StreamMethod::DELETE => String::from_str("DELETE"),
            StreamMethod::PATCH => String::from_str("PATCH"),
            StreamMethod::UPDATE => String::from_str("UPDATE"),
            StreamMethod::UNKOWN => String::from_str("UNKOWN"),
        }
    }
}

/// A request read by the listener, with the status and message its answer
/// will carry.
pub struct StreamResponse {
    /// The client's address as the request gives it, displayed as an IPv4
    /// address (`0.0.0.0` when the request gives none).
    pub address: String,
    pub port: u16,
    pub method: StreamMethod,
    pub url: String,
    pub version: String,
    pub agent: String,
    pub enconding: String,
    pub body: String,
    pub status: StreamConnectionStatus,
    pub query: StringMap<String>,
    pub status_code: u16,
    pub status_message: String,
}

impl StreamResponse {
    /// The request with the given parts; its answer will be 200 `OK`.
    pub fn new(
        _address: String,
        _port: u16,
        _method: &str,
        _url: &str,
        _version: &str,
        _agent: &str,
        _enconding: &str,
        _body: String,
        _status: StreamConnectionStatus,
        _query: StringMap<String>,
    ) -> (r: StreamResponse)
        ensures
            r.address == _address,
            r.port == _port,
            r.method == stream_method_named(_method@),
            r.url@ == _url@,
            r.version@ == _version@,
            r.agent@ == _agent@,
            r.enconding@ == _enconding@,
            r.body == _body,
            r.status == _status,
            r.query == _query,
            r.status_code == 200,
            r.status_message@ == "OK"@,
    {
        StreamResponse {
            address: _address,
            port: _port,
            method: Self::parse_stream_method(_method),
            url: String::from_str(_url),
            version: String::from_str(_version),
            agent: String::from_str(_agent),
            enconding: String::from_str(_enconding),
            body: _body,
            status: _status,
            query: _query,
            status_code: 200,
            status_message: String::from_str("OK"),
        }
    }

    /// The method named by a text.
    pub fn parse_stream_method(method: &str) -> (r: StreamMethod)
        ensures
            r == stream_method_named(method@),
    {
        if str_eq(method, "GET") {
            StreamMethod::GET
        } else if str_eq(method, "POST") {
            StreamMethod::POST
        } else if str_eq(method, "DELETE") {
            StreamMethod::DELETE
        } else if str_eq(method, "PATCH") {
            StreamMethod::PATCH
        } else if str_eq(method, "UPDATE") {
            StreamMethod::UPDATE
        } else {
            StreamMethod::UNKOWN
        }
    }

    /// The answer to send: the request's status and message, the content of
    /// a file as body.
    pub fn generate_response_with_file(&self, body: String) -> (r: String)
        ensures
            r@ == answer_text(
                self.status_code,
                self.status_message@,
                "application/octet-stream"@,
                body@,
            ),
    {
        answer(self.status_code, self.status_message.as_str(), "application/octet-stream", body)
    }
}

} // verus!
