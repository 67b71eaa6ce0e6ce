//! The decisions of one proxied request: what it asks for, which headers go
//! upstream, and how the upstream response is handled.

use vstd::prelude::*;
use crate::headers::{forged_headers, generate_headers_for_url, set_headers, HeaderSet};
use crate::percent::{encode_spec, lemma_decode_encode, lemma_encoded_chars};
use crate::playlist::proxied_spec;
use crate::policy::{PolicyTable, PolicyView};
use crate::request::{
    decode_trimmed, decode_url_spec, json_string_map, last_value, pair_list, parse_header_json,
    query_pair, query_pairs_from, Query,
};
use crate::text::{
    ascii_lower, ascii_lowercase, chars_eq, chars_of, contains, ends_with, find_from_exec,
    is_whitespace, lemma_find_char_absent, lemma_find_char_at, lemma_find_from_occurs,
    occurs_at_exec, opt_str, opt_string, slice_of, starts_with, trim, trim_start, trim_whitespace,
};
use crate::weburl::WebUrl;

verus! {

/// Why a request is refused before anything is fetched.
pub enum RequestError {
    /// The query has no `url`.
    MissingUrl,
    /// The `url` value, trimmed, is neither a URL nor one in base64.
    InvalidUrl { value: String },
}

/// A decoded proxy request.
pub struct ProxyRequest {
    /// The resource to fetch.
    pub target: WebUrl,
    /// The caller's header blob, as received.
    pub headers_param: Option<String>,
    /// The caller's override origin.
    pub origin_param: Option<String>,
}

fn as_opt_str(o: &Option<String>) -> (r: Option<&str>)
    ensures
        opt_str(r) == opt_string(*o),
{
    match o {
        Some(s) => Some(s.as_str()),
        None => None,
    }
}

/// Decodes the query string of a proxy request.
pub fn decode_request(query: &str) -> (r: Result<ProxyRequest, RequestError>)
    ensures
        ({
            let pairs = query_pairs_from(query@, 0);
            &&& (r matches Err(RequestError::MissingUrl)) <==> last_value(pairs, "url"@) is None
            &&& r matches Err(RequestError::InvalidUrl { value }) ==> last_value(pairs, "url"@)
                matches Some(u) && value@ == trim(u, false) && decode_url_spec(u) is None
            &&& r matches Ok(req) ==> {
                &&& last_value(pairs, "url"@) matches Some(u) && decode_url_spec(u) == Some(
                    req.target@.href,
                )
                &&& req.target@.wf()
                &&& opt_string(req.headers_param) == last_value(pairs, "headers"@)
                &&& opt_string(req.origin_param) == last_value(pairs, "origin"@)
            }
        }),
{
    let q = Query::parse(query);
    let u = match q.get("url") {
        Some(u) => u,
        None => {
            return Err(RequestError::MissingUrl);
        },
    };
    let t = trim_whitespace(u.as_str());
    match decode_trimmed(t.as_str()) {
        Some(target) => Ok(
            ProxyRequest { target, headers_param: q.get("headers"), origin_param: q.get("origin") },
        ),
        None => Err(RequestError::InvalidUrl { value: t }),
    }
}

/// The query string of the proxy's own URL for `target`: the part after `/?`.
pub open spec fn proxied_query(target: Seq<char>, headers: Option<Seq<char>>) -> Seq<char> {
    "url="@ + encode_spec(target) + match headers {
        Some(h) => "&headers="@ + h,
        None => Seq::empty(),
    }
}

/// A proxied URL carries its target back: read through this proxy's own query
/// parser, its `url` parameter is exactly the target that was encoded into it,
/// whatever header blob rides along, so long as the blob holds no `&`.
pub proof fn lemma_proxied_url_round_trip(target: Seq<char>, headers: Option<Seq<char>>)
    requires
        headers matches Some(h) ==> forall|i: int| 0 <= i < h.len() ==> h[i] != '&',
    ensures
        proxied_spec(target, headers) == "/?"@ + proxied_query(target, headers),
        last_value(query_pairs_from(proxied_query(target, headers), 0), "url"@) == Some(target),
{
    broadcast use vstd::string::group_string_axioms;

    reveal_strlit("/?url=");
    reveal_strlit("/?");
    reveal_strlit("url=");
    reveal_strlit("url");
    reveal_strlit("&headers=");
    reveal_strlit("headers");
    reveal_strlit("&");
    reveal_strlit("=");
    assert("="@ =~= seq!['=']);
    assert("&"@ =~= seq!['&']);
    let e = encode_spec(target);
    lemma_encoded_chars(target);
    lemma_decode_encode(target);
    let q = proxied_query(target, headers);
    let first = "url="@ + e;
    assert(proxied_spec(target, headers) =~= "/?"@ + q);
    assert forall|k: int| 0 <= k < first.len() implies first[k] != '&' && (k != 3 ==> first[k]
        != '=') by {
        if k >= 4 {
            assert(first[k] == e[k - 4]);
        }
    }
    assert(first.subrange(0, 3) =~= "url"@);
    assert(first.subrange(4, first.len() as int) =~= e);
    lemma_find_char_at(first, '=', 0, 3);
    assert(query_pair(first) == Some(("url"@, target)));
    if headers is None {
        assert(q =~= first);
        lemma_find_char_absent(q, '&', 0);
        assert(q.subrange(0, q.len() as int) =~= q);
        let pairs = seq![("url"@, target)];
        assert(query_pairs_from(q, 0) =~= pairs);
        assert(pairs.last() == ("url"@, target));
        assert(last_value(pairs, "url"@) == Some(target));
    } else {
        let h = headers->0;
        let t = "&headers="@;
        let j = first.len() as int;
        assert(t.len() == 9);
        assert(t[0] == '&');
        assert(t[1] == 'h');
        assert(t[2] != '&' && t[3] != '&' && t[4] != '&' && t[5] != '&');
        assert(t[6] != '&' && t[7] != '&' && t[8] != '&');
        assert(q =~= first + t + h);
        assert(q[j] == '&');
        lemma_find_char_at(q, '&', 0, j);
        assert(q.subrange(0, j) =~= first);
        let second = q.subrange(j + 1, q.len() as int);
        assert forall|k: int| j + 1 <= k < q.len() implies q[k] != '&' by {
            if k < j + 9 {
                assert(q[k] == t[k - j]);
            } else {
                assert(q[k] == h[k - j - 9]);
            }
        }
        lemma_find_char_absent(q, '&', j + 1);
        assert(second[0] == 'h');
        let rest = query_pairs_from(q, j + 1);
        assert(rest == pair_list(second));
        assert("url"@[0] == 'u');
        assert(query_pairs_from(q, 0) =~= seq![("url"@, target)] + rest);
        if rest.len() > 0 {
            let key = rest.last().0;
            lemma_find_from_occurs(second, "="@, 0);
            assert(rest.last() == query_pair(second)->0);
            assert(key.len() == 3 ==> key[0] == 'h');
            assert(key != "url"@);
            let all = seq![("url"@, target)] + rest;
            assert(all.drop_last() =~= seq![("url"@, target)]);
            assert(all.last().0 != "url"@);
            assert(last_value(all.drop_last(), "url"@) == Some(target));
            assert(last_value(all, "url"@) == Some(target));
        } else {
            assert(seq![("url"@, target)] + rest =~= seq![("url"@, target)]);
            assert(last_value(seq![("url"@, target)], "url"@) == Some(target));
        }
        assert(last_value(query_pairs_from(q, 0), "url"@) == Some(target));
    }
}

/// The header map after the caller's JSON header blob, where it reads as an
/// object of strings; any other blob is ignored.
pub open spec fn caller_layer(m: Map<Seq<char>, Seq<char>>, headers_param: Option<Seq<char>>) -> Map<
    Seq<char>,
    Seq<char>,
> {
    match headers_param {
        Some(j) => match json_string_map(j) {
            Some(pairs) => set_headers(m, pairs),
            None => m,
        },
        None => m,
    }
}

/// The full outbound header set: the forged headers, then the caller's
/// header blob, then the headers passed through from the inbound request.
pub open spec fn outbound_spec(
    table: Seq<PolicyView>,
    req: ProxyRequest,
    passthrough: Seq<(Seq<char>, Seq<char>)>,
) -> Map<Seq<char>, Seq<char>> {
    set_headers(
        caller_layer(
            forged_headers(table, req.target@, opt_string(req.origin_param)),
            opt_string(req.headers_param),
        ),
        passthrough,
    )
}

/// The inbound request headers that are passed on upstream as they are.
pub open spec fn passthrough_names() -> Seq<Seq<char>> {
    seq!["Range"@, "If-Range"@, "If-None-Match"@, "If-Modified-Since"@]
}

/// The names of the inbound request headers that are passed on upstream.
pub fn passthrough_header_names() -> (r: Vec<&'static str>)
    ensures
        r@.len() == passthrough_names().len(),
        forall|i: int| 0 <= i < r@.len() ==> (#[trigger] r@[i])@ == passthrough_names()[i],
{
    let r: Vec<&'static str> = vec!["Range", "If-Range", "If-None-Match", "If-Modified-Since"];
    r
}

/// Builds the headers of the upstream request.
pub fn outbound_headers(
    table: &PolicyTable,
    req: &ProxyRequest,
    passthrough: &Vec<(String, String)>,
) -> (r: HeaderSet)
    ensures
        r@ == outbound_spec(table@, *req, passthrough.deep_view()),
{
    let mut h = generate_headers_for_url(table, &req.target, as_opt_str(&req.origin_param));
    match &req.headers_param {
        Some(j) => match parse_header_json(j.as_str()) {
            Some(pairs) => h.set_all(&pairs),
            None => {},
        },
        None => {},
    }
    h.set_all(passthrough);
    h
}

/// A content type that names an HLS playlist.
pub open spec fn content_type_is_playlist(ct: Seq<char>) -> bool {
    contains(ascii_lower(ct), "mpegurl"@)
}

/// Where the path of a serialized URL ends, searching from `i`: at its first
/// `?` (the query) or `#` (the fragment), else at the end.
pub open spec fn path_end_from(href: Seq<char>, i: int) -> int
    decreases href.len() - i,
{
    if i < 0 || i >= href.len() {
        href.len() as int
    } else if href[i] == '?' || href[i] == '#' {
        i
    } else {
        path_end_from(href, i + 1)
    }
}

/// A URL whose path, query and fragment left out, ends in `.m3u8`, in any case.
pub open spec fn url_is_playlist(href: Seq<char>) -> bool {
    ends_with(ascii_lower(href.subrange(0, path_end_from(href, 0))), ".m3u8"@)
}

/// A body that begins, after white space, with the playlist magic line.
pub open spec fn body_is_playlist(text: Seq<char>) -> bool {
    starts_with(trim_start(text, false), "#EXTM3U"@)
}

/// Whether the content type names an HLS playlist.
pub fn is_playlist_content_type(ct: &str) -> (r: bool)
    ensures
        r == content_type_is_playlist(ct@),
{
    let l = ascii_lowercase(&chars_of(ct));
    find_from_exec(&l, &chars_of("mpegurl"), 0).is_some()
}

/// Whether the target's URL path ends in `.m3u8`.
pub fn is_playlist_url(url: &WebUrl) -> (r: bool)
    ensures
        r == url_is_playlist(url@.href),
{
    let v = chars_of(url.as_str());
    let mut e: usize = 0;
    while e < v.len() && v[e] != '?' && v[e] != '#'
        invariant
            e <= v.len(),
            path_end_from(v@, 0) == path_end_from(v@, e as int),
        decreases v.len() - e,
    {
        e += 1;
    }
    let l = ascii_lowercase(&slice_of(&v, 0, e));
    let suffix = chars_of(".m3u8");
    if l.len() < suffix.len() {
        return false;
    }
    occurs_at_exec(&l, &suffix, l.len() - suffix.len())
}

/// Whether the body, read as text, is a playlist.
pub fn is_playlist_body(text: &str) -> (r: bool)
    ensures
        r == body_is_playlist(text@),
{
    let v = chars_of(text);
    let mut a: usize = 0;
    assert(v@.subrange(0, v.len() as int) =~= v@);
    while a < v.len() && is_whitespace(v[a])
        invariant
            a <= v.len(),
            v@ == text@,
            trim_start(text@, false) == trim_start(v@.subrange(a as int, v.len() as int), false),
        decreases v.len() - a,
    {
        assert(v@.subrange(a as int, v.len() as int).drop_first() =~= v@.subrange(
            a + 1,
            v.len() as int,
        ));
        a += 1;
    }
    let magic = chars_of("#EXTM3U");
    let rest = slice_of(&v, a, v.len());
    occurs_at_exec(&rest, &magic, 0)
}

/// Whether the upstream body must be read in full before deciding: the
/// content type names a playlist, or the URL looks like one.
pub fn needs_playlist_check(content_type: &str, url: &WebUrl) -> (r: bool)
    ensures
        r == (content_type_is_playlist(content_type@) || url_is_playlist(url@.href)),
{
    is_playlist_content_type(content_type) || is_playlist_url(url)
}

/// Whether a body read in full is rewritten as a playlist: the content type
/// says so, or the body begins with the playlist magic line.
pub fn is_playlist_response(content_type: &str, body: &str) -> (r: bool)
    ensures
        r == (content_type_is_playlist(content_type@) || body_is_playlist(body@)),
{
    is_playlist_content_type(content_type) || is_playlist_body(body)
}

/// The upstream response headers that are relayed to the caller.
pub open spec fn relayed_names() -> Seq<Seq<char>> {
    seq![
        "content-type"@,
        "content-length"@,
        "content-range"@,
        "accept-ranges"@,
        "cache-control"@,
        "expires"@,
        "last-modified"@,
        "etag"@,
        "content-encoding"@,
        "vary"@,
    ]
}

/// Whether an upstream response header is relayed, by its name in any case.
pub fn is_relayed_header(name: &str) -> (r: bool)
    ensures
        r == relayed_names().contains(ascii_lower(name@)),
{
    let l = ascii_lowercase(&chars_of(name));
    let names: Vec<&str> = vec![
        "content-type",
        "content-length",
        "content-range",
        "accept-ranges",
        "cache-control",
        "expires",
        "last-modified",
        "etag",
        "content-encoding",
        "vary",
    ];
    let mut i: usize = 0;
    while i < names.len()
        invariant
            i <= names.len(),
            names@.len() == relayed_names().len(),
            forall|j: int| 0 <= j < names@.len() ==> (#[trigger] names@[j])@ == relayed_names()[j],
            forall|j: int| 0 <= j < i ==> relayed_names()[j] != l@,
            l@ == ascii_lower(name@),
        decreases names.len() - i,
    {
        if chars_eq(&l, &chars_of(names[i])) {
            assert(relayed_names()[i as int] == l@);
            return true;
        }
        i += 1;
    }
    false
}

} // verus!
