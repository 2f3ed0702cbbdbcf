//! The first look at a request: the limits on its size, the query parameters
//! written after the path, and the handler that will answer it.
use vstd::prelude::*;
use vstd::string::*;
use crate::http::handler::{Method, RequestHandler};
use crate::string_map::StringMap;
use crate::text::{find_char, split_char, split_char_spec, split_once_char, views};

verus! {

/// The longest path, in characters, that is served.
pub const MAX_URL_CHARS: usize = 1000;

/// The largest size of the headers, in bytes, that is served: 255 kilobytes.
pub const MAX_HEADER_BYTES: usize = 261120;

/// The largest size of a body, in bytes, that is served: 800 kilobytes.
pub const MAX_BODY_BYTES: u64 = 819200;

/// The query parameters of the pieces of a path: each piece `key=value`
/// gives a parameter (the first `=` separates), a later one replacing an
/// earlier one; pieces without `=` give none.
pub open spec fn query_of_pieces(pieces: Seq<Seq<char>>) -> Map<Seq<char>, Seq<char>>
    decreases pieces.len(),
{
    if pieces.len() == 0 {
        Map::empty()
    } else {
        let m = query_of_pieces(pieces.drop_last());
        let p = pieces.last();
        match find_char(p, '=') {
            Some(i) => m.insert(p.take(i), p.skip(i + 1)),
            None => m,
        }
    }
}

/// The query parameters of a path: its pieces between the `&`.
pub open spec fn url_query(url: Seq<char>) -> Map<Seq<char>, Seq<char>> {
    query_of_pieces(split_char_spec(url, '&'))
}

/// The path without its parameters: what comes before the first `&`.
pub open spec fn url_path(url: Seq<char>) -> Seq<char> {
    match find_char(url, '&') {
        Some(i) => url.take(i),
        None => url,
    }
}

/// The views of the values of a map of strings.
pub open spec fn text_map(m: Map<Seq<char>, String>) -> Map<Seq<char>, Seq<char>> {
    m.map_values(|v: String| v@)
}

/// What the service makes of a request before its body is read.
pub enum ServiceDecision {
    /// The request is over a limit: it is answered by this handler, whose url
    /// is `/limit_overflow`; its body is not read.
    Overflow(RequestHandler),
    /// The body is to be read and given to `PendingRequest::with_body`.
    ReadBody(PendingRequest),
}

/// A request whose body is still to be read.
pub struct PendingRequest {
    pub url: String,
    pub method: Method,
    pub headers: StringMap<String>,
    pub query: StringMap<String>,
}

impl PendingRequest {
    /// The handler for the request with its body.
    pub fn with_body(self, body: String) -> (r: RequestHandler)
        ensures
            r.spec_url() == self.url@,
            r.spec_method() == self.method,
            r.spec_header() == self.headers@,
            r.spec_query() == self.query@,
            r.spec_body() == body@,
            r.phase() == crate::http::handler::Phase::Start,
    {
        RequestHandler::new(self.url, self.method, self.headers, self.query, body)
    }
}

/// The service of one client connection.
pub struct ServiceHandler {
    ip: String,
}

impl ServiceHandler {
    pub closed spec fn spec_ip(&self) -> Seq<char> {
        self.ip@
    }

    /// The service of the client at the address `client_ip`.
    pub fn new(client_ip: String) -> (r: Self)
        ensures
            r.spec_ip() == client_ip@,
    {
        ServiceHandler { ip: client_ip }
    }

    /// The query parameters of a path.
    pub fn parse_query(url: &str) -> (r: StringMap<String>)
        ensures
            text_map(r@) == url_query(url@),
    {
        let pieces = split_char(url, '&');
        let mut query: StringMap<String> = StringMap::new();
        let n = pieces.len();
        let mut i: usize = 0;
        let ghost ps = views(pieces@);
        assert(ps.take(0) =~= Seq::<Seq<char>>::empty());
        assert(text_map(query@) =~= query_of_pieces(ps.take(0)));
        while i < n
            invariant
                i <= n,
                n == pieces@.len(),
                ps == views(pieces@),
                text_map(query@) == query_of_pieces(ps.take(i as int)),
            decreases n - i,
        {
            assert(ps.take(i + 1).drop_last() =~= ps.take(i as int));
            assert(ps.take(i + 1).last() == pieces@[i as int]@);
            match split_once_char(pieces[i].as_str(), '=') {
                Some((key, value)) => {
                    let ghost before = query@;
                    query.insert(key, value);
                    assert(text_map(query@) =~= text_map(before).insert(
                        pieces@[i as int]@.take(find_char(pieces@[i as int]@, '=')->0),
                        pieces@[i as int]@.skip(find_char(pieces@[i as int]@, '=')->0 + 1),
                    ));
                },
                None => {},
            }
            i = i + 1;
        }
        assert(ps.take(n as int) =~= ps);
        query
    }

    /// The path without its parameters.
    pub fn strip_query(url: String) -> (r: String)
        ensures
            r@ == url_path(url@),
    {
        match split_once_char(url.as_str(), '&') {
            Some((path, _)) => path,
            None => url,
        }
    }

    /// The first look at a request: its path as given, its method, its headers
    /// (those whose value is text), the size of all its headers in bytes, and
    /// the upper bound given for its body size, if any.
    ///
    /// A path of more than 1000 characters is answered with the size limit and
    /// no header nor parameter; so is a request whose headers take more than 255
    /// kilobytes, or whose body may take more than 800 kilobytes or has no upper
    /// bound, now with its headers and parameters.  Otherwise the body is to be
    /// read.  From the header check on, the headers carry `host_full`, the
    /// client's address.
    pub fn handle_service(
        &self,
        url: String,
        method: Method,
        headers: StringMap<String>,
        header_bytes: usize,
        body_size_hint: Option<u64>,
    ) -> (r: ServiceDecision)
        ensures
            if url@.len() > MAX_URL_CHARS {
                r matches ServiceDecision::Overflow(h) && {
                    &&& h.spec_url() == "/limit_overflow"@
                    &&& h.spec_method() == Method::Get
                    &&& h.spec_header() == Map::<Seq<char>, String>::empty()
                    &&& h.spec_query() == Map::<Seq<char>, String>::empty()
                    &&& h.spec_body() == "Limit Overflow"@
                    &&& h.phase() == crate::http::handler::Phase::Start
                }
            } else if header_bytes > MAX_HEADER_BYTES {
                r matches ServiceDecision::Overflow(h) && {
                    &&& h.spec_url() == "/limit_overflow"@
                    &&& h.spec_method() == Method::Get
                    &&& h.spec_header() == headers@
                    &&& text_map(h.spec_query()) == url_query(url@)
                    &&& h.spec_body() == "Limit Overflow"@
                    &&& h.phase() == crate::http::handler::Phase::Start
                }
            } else if body_size_hint is None || body_size_hint->0 > MAX_BODY_BYTES {
                r matches ServiceDecision::Overflow(h) && {
                    &&& h.spec_url() == "/limit_overflow"@
                    &&& h.spec_method() == Method::Get
                    &&& h.spec_header() == headers@.insert("host_full"@, self.spec_ip_string())
                    &&& text_map(h.spec_query()) == url_query(url@)
                    &&& h.spec_body() == "Limit Overflow"@
                    &&& h.phase() == crate::http::handler::Phase::Start
                }
            } else {
                r matches ServiceDecision::ReadBody(p) && {
                    &&& p.url@ == url_path(url@)
                    &&& p.method == method
                    &&& p.headers@ == headers@.insert("host_full"@, self.spec_ip_string())
                    &&& text_map(p.query@) == url_query(url@)
                }
            },
    {
        if url.as_str().unicode_len() > MAX_URL_CHARS {
            return ServiceDecision::Overflow(
                RequestHandler::new(
                    String::from_str("/limit_overflow"),
                    Method::Get,
                    StringMap::new(),
                    StringMap::new(),
                    String::from_str("Limit Overflow"),
                ),
            );
        }
        let query = Self::parse_query(url.as_str());
        let url = Self::strip_query(url);
        if header_bytes > MAX_HEADER_BYTES {
            return ServiceDecision::Overflow(
                RequestHandler::new(
                    String::from_str("/limit_overflow"),
                    Method::Get,
                    headers,
                    query,
                    String::from_str("Limit Overflow"),
                ),
            );
        }
        let mut headers = headers;
        headers.insert(String::from_str("host_full"), self.ip.clone());
        let too_big = match body_size_hint {
            Some(size) => size > MAX_BODY_BYTES,
            None => true,
        };
        if too_big {
            return ServiceDecision::Overflow(
                RequestHandler::new(
                    String::from_str("/limit_overflow"),
                    Method::Get,
                    headers,
                    query,
                    String::from_str("Limit Overflow"),
                ),
            );
        }
        ServiceDecision::ReadBody(PendingRequest { url, method, headers, query })
    }

    /// The client's address as a `String` value.
    pub closed spec fn spec_ip_string(&self) -> String {
        self.ip
    }
}

} // verus!
