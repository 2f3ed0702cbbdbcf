//! A request read by the plain http listener of the third server, and the
//! text of the answer written back to it.
use vstd::prelude::*;
use vstd::utf8::encode_utf8;
use crate::string_map::StringMap;
use crate::text::{append_decimal, decimal, str_eq};

verus! {

/// Whether the connection of a request was read in full.
#[derive(Clone, Copy, Debug, PartialEq, Eq, Structural)]
pub enum HttpConnectionStatus {
    Failed,
    Success,
}

impl HttpConnectionStatus {
    /// The name of the status, as it is displayed.
    pub fn to_string(&self) -> (r: String)
        ensures
            r@ == match self {
                HttpConnectionStatus::Failed => "Failed"@,
                HttpConnectionStatus::Success => "Success"@,
            },
    {
        match self {
            HttpConnectionStatus::Failed => String::from_str("Failed"),
            HttpConnectionStatus::Success => String::from_str("Success"),
        }
    }
}

/// The method of a request.
#[allow(non_camel_case_types)]
#[derive(Clone, Copy, Debug, PartialEq, Eq, Structural)]
pub enum HttpMethod {
    GET,
    POST,
    DELETE,
    PATCH,
    UPDATE,
    UNKOWN,
}

/// The method named by a text: one of the five known names, else `UNKOWN`.
pub open spec fn method_named(method: Seq<char>) -> HttpMethod {
    if method == "GET"@ {
        HttpMethod::GET
    } else if method == "POST"@ {
        HttpMethod::POST
    } else if method == "DELETE"@ {
        HttpMethod::DELETE
    } else if method == "PATCH"@ {
        HttpMethod::PATCH
    } else if method == "UPDATE"@ {
        HttpMethod::UPDATE
    } else {
        HttpMethod::UNKOWN
    }
}

/// The name under which a method is displayed.
pub open spec fn method_name(m: HttpMethod) -> Seq<char> {
    match m {
        HttpMethod::GET => "GET"@,
        HttpMethod::POST => "POST"@,
        HttpMethod::DELETE => "DELETE"@,
        HttpMethod::PATCH => "PATCH"@,
        HttpMethod::UPDATE => "UPDATE"@,
        HttpMethod::UNKOWN => "UNKOWN"@,
    }
}

impl HttpMethod {
    /// The name of the method, as it is displayed.
    pub fn to_string(&self) -> (r: String)
        ensures
            r@ == method_name(*self),
    {
        match self {
            HttpMethod::GET => String::from_str("GET"),
            HttpMethod::POST => String::from_str("POST"),
            HttpMethod::DELETE => String::from_str("DELETE"),
            HttpMethod::PATCH => String::from_str("PATCH"),
            HttpMethod::UPDATE => String::from_str("UPDATE"),
            HttpMethod::UNKOWN => String::from_str("UNKOWN"),
        }
    }
}

/// The text of an answer: status line, content type and length headers, an
/// empty line, and the body.  The length counts the bytes of the body.
pub open spec fn answer_text(
    status_code: u16,
    status_message: Seq<char>,
    content_type: Seq<char>,
    body: Seq<char>,
) -> Seq<char> {
    "HTTP/1.1 "@ + decimal(status_code as nat) + " "@ + status_message + "\r\nContent-Type: "@
        + content_type + "\r\nContent-Length: "@ + decimal((encode_utf8(body).len() as usize) as nat)
        + "\r\n\r\n"@ + body
}

/// The text of an answer.
pub fn answer(status_code: u16, status_message: &str, content_type: &str, body: String) -> (r:
    String)
    ensures
        r@ == answer_text(status_code, status_message@, content_type@, body@),
{
    let mut r = String::from_str("HTTP/1.1 ");
    append_decimal(&mut r, status_code as u64);
    r.append(" ");
    r.append(status_message);
    r.append("\r\nContent-Type: ");
    r.append(content_type);
    r.append("\r\nContent-Length: ");
    let length = body.as_str().len();
    append_decimal(&mut r, length as u64);
    r.append("\r\n\r\n");
    r.append(body.as_str());
    r
}

/// A request read by the listener, with the status and message its answer
/// will carry.
pub struct HttpResponse {
    /// The client's address as the request gives it, displayed as an IPv4
    /// address (`0.0.0.0` when the request gives none).
    pub address: String,
    pub port: u16,
    pub method: HttpMethod,
    pub url: String,
    pub version: String,
    pub agent: String,
    pub enconding: String,
    pub body: String,
    pub status: HttpConnectionStatus,
    pub query: StringMap<String>,
    pub status_code: u16,
    pub status_message: String,
}

impl HttpResponse {
    /// The request with the given parts; its answer will be 200 `OK`.
    pub fn new(
        _address: String,
        _port: u16,
        _method: &str,
        _url: &str,
        _version: &str,
        _agent: &str,
        _enconding: &str,
        _body: String,
        _status: HttpConnectionStatus,
        _query: StringMap<String>,
    ) -> (r: HttpResponse)
        ensures
            r.address == _address,
            r.port == _port,
            r.method == method_named(_method@),
            r.url@ == _url@,
            r.version@ == _version@,
            r.agent@ == _agent@,
            r.enconding@ == _enconding@,
            r.body == _body,
            r.status == _status,
            r.query == _query,
            r.status_code == 200,
            r.status_message@ == "OK"@,
    {
        HttpResponse {
            address: _address,
            port: _port,
            method: Self::parse_http_method(_method),
            url: String::from_str(_url),
            version: String::from_str(_version),
            agent: String::from_str(_agent),
            enconding: String::from_str(_enconding),
            body: _body,
            status: _status,
            query: _query,
            status_code: 200,
            status_message: String::from_str("OK"),
        }
    }

    /// The method named by a text.
    pub fn parse_http_method(method: &str) -> (r: HttpMethod)
        ensures
            r == method_named(method@),
    {
        if str_eq(method, "GET") {
            HttpMethod::GET
        } else if str_eq(method, "POST") {
            HttpMethod::POST
        } else if str_eq(method, "DELETE") {
            HttpMethod::DELETE
        } else if str_eq(method, "PATCH") {
            HttpMethod::PATCH
        } else if str_eq(method, "UPDATE") {
            HttpMethod::UPDATE
        } else {
            HttpMethod::UNKOWN
        }
    }

    /// The answer to send: the request's status and message, a JSON body.
    pub fn generate_response(&self, body: String) -> (r: String)
        ensures
            r@ == answer_text(
                self.status_code,
                self.status_message@,
                "application/json"@,
                body@,
            ),
    {
        answer(self.status_code, self.status_message.as_str(), "application/json", body)
    }
}

} // verus!
