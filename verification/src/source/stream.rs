//! The reading of a request that the stream listener received: the request
//! line, the agent, encoding and address lines, and the body.
use vstd::prelude::*;
use crate::server::service::{text_map, url_path};
use crate::source::stream_response::{
    stream_method_named,
    StreamConnectionStatus,
    StreamResponse,
};
use crate::string_map::StringMap;
use crate::text::{
    join,
    ipv4_or_unspecified,
    ipv4_or_unspecified_text,
    join_spec,
    lines,
    lines_spec,
    parse_u16,
    parse_unsigned_spec,
    split_char,
    split_char_spec,
    split_once_char,
    split_whitespace,
    str_eq,
    views,
    words_spec,
};

verus! {

/// The words of the line `i` of a request.
pub open spec fn line_words(request: Seq<char>, i: int) -> Seq<Seq<char>> {
    words_spec(lines_spec(request)[i])
}

/// A request that can be read: four lines at least, the first with method,
/// url and version, the next three with a value after their name, the fourth
/// giving an address with a port after `:`.  Reading any other request fails
/// on a missing part.
pub open spec fn treatable(request: Seq<char>) -> bool {
    &&& lines_spec(request).len() >= 4
    &&& line_words(request, 0).len() >= 3
    &&& line_words(request, 1).len() >= 2
    &&& line_words(request, 2).len() >= 2
    &&& line_words(request, 3).len() >= 2
    &&& split_char_spec(line_words(request, 3)[1], ':').len() >= 2
}

/// The query parameters of the pieces of a url: each piece with an `=` gives
/// the parameter named by the text before it, whose value is the text up to
/// the next `=`; a later piece replaces an earlier one.
pub open spec fn stream_query_of_pieces(pieces: Seq<Seq<char>>) -> Map<Seq<char>, Seq<char>>
    decreases pieces.len(),
{
    if pieces.len() == 0 {
        Map::empty()
    } else {
        let m = stream_query_of_pieces(pieces.drop_last());
        let sp = split_char_spec(pieces.last(), '=');
        if sp.len() >= 2 {
            m.insert(sp[0], sp[1])
        } else {
            m
        }
    }
}

/// The query parameters of a url: its pieces between the `&`.
pub open spec fn stream_query(url: Seq<char>) -> Map<Seq<char>, Seq<char>> {
    stream_query_of_pieces(split_char_spec(url, '&'))
}

/// The port written after the address, or 0 when it is not a `u16`.
pub open spec fn port_of(text: Seq<char>) -> u16 {
    match parse_unsigned_spec(text, 65535) {
        Some(v) => v as u16,
        None => 0,
    }
}

/// The query parameters of a url.
pub fn parse_stream_query(url: &str) -> (r: StringMap<String>)
    ensures
        text_map(r@) == stream_query(url@),
{
    let pieces = split_char(url, '&');
    let mut query: StringMap<String> = StringMap::new();
    let n = pieces.len();
    let mut i: usize = 0;
    let ghost ps = views(pieces@);
    assert(ps.take(0) =~= Seq::<Seq<char>>::empty());
    assert(text_map(query@) =~= stream_query_of_pieces(ps.take(0)));
    while i < n
        invariant
            i <= n,
            n == pieces@.len(),
            ps == views(pieces@),
            text_map(query@) == stream_query_of_pieces(ps.take(i as int)),
        decreases n - i,
    {
        assert(ps.take(i + 1).drop_last() =~= ps.take(i as int));
        assert(ps.take(i + 1).last() == pieces@[i as int]@);
        let split_pair = split_char(pieces[i].as_str(), '=');
        if split_pair.len() >= 2 {
            let key = split_pair[0].clone();
            let value = split_pair[1].clone();
            let ghost before = query@;
            query.insert(key, value);
            assert(text_map(query@) =~= text_map(before).insert(
                views(split_pair@)[0],
                views(split_pair@)[1],
            ));
        }
        i = i + 1;
    }
    assert(ps.take(n as int) =~= ps);
    query
}

/// Whether a request can be read.
pub fn is_treatable(request: &str) -> (r: bool)
    ensures
        r == treatable(request@),
{
    let all_lines = lines(request);
    if all_lines.len() < 4 {
        return false;
    }
    let ghost ls = views(all_lines@);
    assert(ls[0] == all_lines@[0]@ && ls[1] == all_lines@[1]@ && ls[2] == all_lines@[2]@ && ls[3]
        == all_lines@[3]@);
    let request_methods = split_whitespace(all_lines[0].as_str());
    let request_agent = split_whitespace(all_lines[1].as_str());
    let request_enconding = split_whitespace(all_lines[2].as_str());
    let request_address = split_whitespace(all_lines[3].as_str());
    if request_methods.len() < 3 || request_agent.len() < 2 || request_enconding.len() < 2
        || request_address.len() < 2 {
        return false;
    }
    let divided_address = split_char(request_address[1].as_str(), ':');
    assert(views(request_address@)[1] == request_address@[1]@);
    divided_address.len() >= 2
}

/// Reads a request received from the address `true_address` and port
/// `true_port`.  Method, url and version come from the first line; the url
/// loses its parameters, which make the query.  The second word of the next
/// three lines gives the agent, the encoding and the address, split at `:`
/// into the address (read as an IPv4 address and displayed again, `0.0.0.0`
/// when it is not one) and the port (0 when it is not a number).  The lines
/// after the fourth, joined with `\n`, make the body.  The request fails
/// when its address differs from `true_address`, the address the listener
/// is bound to as it is displayed; the port is not compared.
pub fn request_treatment(true_address: &str, true_port: u16, request: &str) -> (r: StreamResponse)
    requires
        treatable(request@),
    ensures
        r.method == stream_method_named(line_words(request@, 0)[0]),
        r.url@ == url_path(line_words(request@, 0)[1]),
        text_map(r.query@) == stream_query(line_words(request@, 0)[1]),
        r.version@ == line_words(request@, 0)[2],
        r.agent@ == line_words(request@, 1)[1],
        r.enconding@ == line_words(request@, 2)[1],
        r.address@ == ipv4_or_unspecified(split_char_spec(line_words(request@, 3)[1], ':')[0]),
        r.port == port_of(split_char_spec(line_words(request@, 3)[1], ':')[1]),
        r.body@ == join_spec(lines_spec(request@).skip(4), "\n"@),
        r.status == if r.address@ == true_address@ {
            StreamConnectionStatus::Success
        } else {
            StreamConnectionStatus::Failed
        },
        r.status_code == 200,
        r.status_message@ == "OK"@,
{
    let all_lines = lines(request);
    let ghost ls = views(all_lines@);
    assert(ls[0] == all_lines@[0]@ && ls[1] == all_lines@[1]@ && ls[2] == all_lines@[2]@ && ls[3]
        == all_lines@[3]@);
    let request_methods = split_whitespace(all_lines[0].as_str());
    let method = request_methods[0].as_str();
    let full_url = request_methods[1].as_str();
    let version = request_methods[2].as_str();
    assert(views(request_methods@)[0] == request_methods@[0]@);
    assert(views(request_methods@)[1] == request_methods@[1]@);
    assert(views(request_methods@)[2] == request_methods@[2]@);
    let query = parse_stream_query(full_url);
    let request_url = match split_once_char(full_url, '&') {
        Some((before_ampersand, _)) => before_ampersand,
        None => String::from_str(full_url),
    };
    let request_agent = split_whitespace(all_lines[1].as_str());
    let agent = request_agent[1].as_str();
    assert(views(request_agent@)[1] == request_agent@[1]@);
    let request_enconding = split_whitespace(all_lines[2].as_str());
    let enconding = request_enconding[1].as_str();
    assert(views(request_enconding@)[1] == request_enconding@[1]@);
    let request_address = split_whitespace(all_lines[3].as_str());
    assert(views(request_address@)[1] == request_address@[1]@);
    let divided_address = split_char(request_address[1].as_str(), ':');
    assert(views(divided_address@)[0] == divided_address@[0]@);
    assert(views(divided_address@)[1] == divided_address@[1]@);
    let address = ipv4_or_unspecified_text(divided_address[0].as_str());
    let port: u16 = match parse_u16(divided_address[1].as_str()) {
        Some(p) => p,
        None => 0,
    };
    let mut rest: Vec<String> = Vec::new();
    let n = all_lines.len();
    let mut i: usize = 4;
    while i < n
        invariant
            4 <= i <= n,
            n == all_lines@.len(),
            views(rest@) == views(all_lines@).subrange(4, i as int),
        decreases n - i,
    {
        let line = all_lines[i].clone();
        proof {
            crate::text::lemma_views_push(rest@, line);
        }
        rest.push(line);
        assert(views(rest@) =~= views(all_lines@).subrange(4, i + 1));
        i = i + 1;
    }
    assert(views(all_lines@).subrange(4, n as int) =~= ls.skip(4));
    let body = join(&rest, "\n");
    let status = if str_eq(address.as_str(), true_address) {
        StreamConnectionStatus::Success
    } else {
        StreamConnectionStatus::Failed
    };
    StreamResponse::new(
        address,
        port,
        method,
        request_url.as_str(),
        version,
        agent,
        enconding,
        body,
        status,
        query,
    )
}

} // verus!
