//! The request decoder: the query string, the target URL (plain or in
//! base64), and the caller's optional header blob and override origin.

use vstd::prelude::*;
use vstd::utf8::{decode_utf8, valid_utf8};
use crate::percent::{decode_component, decode_spec};
use crate::text::{
    chars_eq, chars_of, find, find_from, find_from_exec, lemma_find_from_occurs, slice_of,
    string_of, trim, trim_whitespace,
};
use crate::weburl::{url_parse, WebUrl};

verus! {

/// The entries of a JSON object whose values are all strings, in key order,
/// as `serde_json` reads it into a `BTreeMap<String, String>`; `None` for any
/// other text.
pub uninterp spec fn json_string_map(s: Seq<char>) -> Option<Seq<(Seq<char>, Seq<char>)>>;

/// The bytes that base64 without padding (standard alphabet) spells in `s`.
pub uninterp spec fn base64_no_pad(s: Seq<char>) -> Option<Seq<u8>>;

/// The bytes that padded base64 (standard alphabet) spells in `s`.
pub uninterp spec fn base64_padded(s: Seq<char>) -> Option<Seq<u8>>;

/// Relies on `serde_json::from_str` into a `BTreeMap<String, String>`.
#[verifier::external_body]
fn json_to_pairs(s: &str) -> (r: Option<Vec<(String, String)>>)
    ensures
        r is Some <==> json_string_map(s@) is Some,
        r matches Some(v) ==> v.deep_view() == json_string_map(s@)->0,
{
    match serde_json::from_str::<std::collections::BTreeMap<String, String>>(s) {
        Ok(m) => Some(m.into_iter().collect()),
        Err(_) => None,
    }
}

/// Reads a header blob: the entries of a JSON object of strings, in key order.
pub fn parse_header_json(s: &str) -> (r: Option<Vec<(String, String)>>)
    ensures
        r is Some <==> json_string_map(s@) is Some,
        r matches Some(v) ==> v.deep_view() == json_string_map(s@)->0,
{
    json_to_pairs(s)
}

/// Relies on `base64::engine::general_purpose::STANDARD_NO_PAD` decoding.
#[verifier::external_body]
fn base64_decode_no_pad(s: &str) -> (r: Option<Vec<u8>>)
    ensures
        r is Some <==> base64_no_pad(s@) is Some,
        r matches Some(v) ==> v@ == base64_no_pad(s@)->0,
{
    base64::Engine::decode(&base64::engine::general_purpose::STANDARD_NO_PAD, s).ok()
}

/// Relies on `base64::engine::general_purpose::STANDARD` decoding.
#[verifier::external_body]
fn base64_decode_padded(s: &str) -> (r: Option<Vec<u8>>)
    ensures
        r is Some <==> base64_padded(s@) is Some,
        r matches Some(v) ==> v@ == base64_padded(s@)->0,
{
    base64::Engine::decode(&base64::engine::general_purpose::STANDARD, s).ok()
}

/// Relies on `String::from_utf8`: it accepts exactly the UTF-8 byte strings.
#[verifier::external_body]
fn utf8_to_string(b: Vec<u8>) -> (r: Option<String>)
    ensures
        r is Some <==> valid_utf8(b@),
        r matches Some(s) ==> s@ == decode_utf8(b@),
{
    String::from_utf8(b).ok()
}

/// The `(key, value)` pair of one `key=value` piece of a query string, the
/// value percent-decoded; a piece without `=` has an empty value, and one
/// whose value does not decode to UTF-8 gives nothing.
pub open spec fn query_pair(piece: Seq<char>) -> Option<(Seq<char>, Seq<char>)> {
    let key = match find(piece, "="@) {
        Some(e) => piece.subrange(0, e),
        None => piece,
    };
    let raw = match find(piece, "="@) {
        Some(e) => piece.subrange(e + 1, piece.len() as int),
        None => Seq::empty(),
    };
    match decode_spec(raw) {
        Some(v) => Some((key, v)),
        None => None,
    }
}

/// The pair of a piece as a list of zero or one pairs.
pub open spec fn pair_list(piece: Seq<char>) -> Seq<(Seq<char>, Seq<char>)> {
    match query_pair(piece) {
        Some(p) => seq![p],
        None => Seq::empty(),
    }
}

/// The pairs of the `&`-separated pieces of `s` from position `start` on.
pub open spec fn query_pairs_from(s: Seq<char>, start: int) -> Seq<(Seq<char>, Seq<char>)>
    decreases s.len() - start,
{
    if start < 0 || start > s.len() {
        Seq::empty()
    } else {
        match find_from(s, "&"@, start) {
            Some(i) => if start <= i < s.len() {
                pair_list(s.subrange(start, i)) + query_pairs_from(s, i + 1)
            } else {
                Seq::empty()
            },
            None => pair_list(s.subrange(start, s.len() as int)),
        }
    }
}

/// The value of the last pair with key `k`.
pub open spec fn last_value(pairs: Seq<(Seq<char>, Seq<char>)>, k: Seq<char>) -> Option<Seq<char>>
    decreases pairs.len(),
{
    if pairs.len() == 0 {
        None
    } else if pairs.last().0 == k {
        Some(pairs.last().1)
    } else {
        last_value(pairs.drop_last(), k)
    }
}

/// A decoded query string.
pub struct Query {
    pairs: Vec<(String, String)>,
}

impl View for Query {
    type V = Seq<(Seq<char>, Seq<char>)>;

    closed spec fn view(&self) -> Seq<(Seq<char>, Seq<char>)> {
        self.pairs.deep_view()
    }
}

fn parse_pair(piece: &Vec<char>) -> (r: Option<(String, String)>)
    ensures
        r matches Some(p) ==> query_pair(piece@) == Some((p.0@, p.1@)),
        r is None ==> query_pair(piece@) is None,
{
    let eq = chars_of("=");
    proof {
        reveal_strlit("=");
    }
    let (key, raw) = match find_from_exec(piece, &eq, 0) {
        Some(e) => {
            proof {
                lemma_find_from_occurs(piece@, eq@, 0);
                assert(piece@.len() == piece.len());
            }
            (slice_of(piece, 0, e), slice_of(piece, e + 1, piece.len()))
        },
        None => (slice_of(piece, 0, piece.len()), Vec::new()),
    };
    assert(raw@ =~= (match find(piece@, "="@) {
        Some(e) => piece@.subrange(e + 1, piece@.len() as int),
        None => Seq::<char>::empty(),
    }));
    assert(key@ =~= (match find(piece@, "="@) {
        Some(e) => piece@.subrange(0, e),
        None => piece@,
    }));
    let raw_s = string_of(&raw);
    match decode_component(raw_s.as_str()) {
        Some(v) => Some((string_of(&key), v)),
        None => None,
    }
}

impl Query {
    /// Splits a raw query string at `&`, each piece at its first `=`, and
    /// percent-decodes the values; pieces whose value is not UTF-8 are dropped.
    pub fn parse(q: &str) -> (r: Query)
        ensures
            r@ == query_pairs_from(q@, 0),
    {
        let s = chars_of(q);
        let amp = chars_of("&");
        proof {
            reveal_strlit("&");
        }
        let mut out: Vec<(String, String)> = Vec::new();
        let mut pos: usize = 0;
        loop
            invariant
                pos <= s.len(),
                s@ == q@,
                amp@ == "&"@,
                amp@.len() == 1,
                query_pairs_from(s@, 0) == out.deep_view() + query_pairs_from(s@, pos as int),
            decreases s.len() - pos,
        {
            let ghost before = out.deep_view();
            let (end, last) = match find_from_exec(&s, &amp, pos) {
                Some(i) => {
                    proof {
                        lemma_find_from_occurs(s@, amp@, pos as int);
                        assert(s@.len() == s.len());
                    }
                    (i, false)
                },
                None => (s.len(), true),
            };
            let piece = slice_of(&s, pos, end);
            match parse_pair(&piece) {
                Some(p) => {
                    out.push(p);
                },
                None => {},
            }
            assert(out.deep_view() =~= before + pair_list(piece@));
            if last {
                assert(query_pairs_from(s@, 0) =~= out.deep_view());
                return Query { pairs: out };
            }
            pos = end + 1;
        }
    }

    /// The value of key `k`; where the key occurs more than once the last one counts.
    pub fn get(&self, k: &str) -> (r: Option<String>)
        ensures
            r matches Some(v) ==> last_value(self@, k@) == Some(v@),
            r is None ==> last_value(self@, k@) is None,
    {
        let kc = chars_of(k);
        let ghost s = self.pairs.deep_view();
        let mut i: usize = self.pairs.len();
        assert(s.subrange(0, i as int) =~= s);
        while i > 0
            invariant
                i <= self.pairs.len(),
                s == self.pairs.deep_view(),
                kc@ == k@,
                last_value(s, k@) == last_value(s.subrange(0, i as int), k@),
            decreases i,
        {
            let e = chars_of(self.pairs[i - 1].0.as_str());
            let ghost sub = s.subrange(0, i as int);
            assert(sub.last() == s[i - 1]);
            assert(sub.drop_last() =~= s.subrange(0, i - 1));
            if chars_eq(&e, &kc) {
                return Some(self.pairs[i - 1].1.clone());
            }
            i -= 1;
        }
        None
    }
}

/// Whether `s` could be base64: longer than four characters, all of them
/// letters, digits, `+`, `/` or `=`.
pub open spec fn looks_like_base64(s: Seq<char>) -> bool {
    &&& s.len() > 4
    &&& forall|i: int|
        0 <= i < s.len() ==> {
            let c = #[trigger] s[i];
            ||| 'a' <= c <= 'z'
            ||| 'A' <= c <= 'Z'
            ||| '0' <= c <= '9'
            ||| c == '+'
            ||| c == '/'
            ||| c == '='
        }
}

/// `s` with `=` added up to a multiple of four characters.
pub open spec fn pad_base64(s: Seq<char>) -> Seq<char> {
    s + Seq::new(((4 - s.len() % 4) % 4) as nat, |i: int| '=')
}

/// The URL that decoded base64 bytes spell, if they are UTF-8 and parse.
pub open spec fn url_of_bytes(b: Option<Seq<u8>>) -> Option<Seq<char>> {
    match b {
        Some(bytes) => if valid_utf8(bytes) {
            url_parse(decode_utf8(bytes))
        } else {
            None
        },
        None => None,
    }
}

/// The target a caller's `url` value names, once trimmed of white space.
pub open spec fn decode_url_spec(s: Seq<char>) -> Option<Seq<char>> {
    decode_trimmed_spec(trim(s, false))
}

/// The target a trimmed `url` value names: the value itself where it parses
/// as a URL; else, where it looks like base64, what its padded form decodes
/// to, tried without and then with padding; else nothing.
pub open spec fn decode_trimmed_spec(s: Seq<char>) -> Option<Seq<char>> {
    if url_parse(s) is Some {
        url_parse(s)
    } else if looks_like_base64(s) {
        let p = pad_base64(s);
        if url_of_bytes(base64_no_pad(p)) is Some {
            url_of_bytes(base64_no_pad(p))
        } else {
            url_of_bytes(base64_padded(p))
        }
    } else {
        None
    }
}

fn is_base64_like(v: &Vec<char>) -> (r: bool)
    ensures
        r == looks_like_base64(v@),
{
    if v.len() <= 4 {
        return false;
    }
    let mut i: usize = 0;
    while i < v.len()
        invariant
            i <= v.len(),
            forall|j: int|
                0 <= j < i ==> {
                    let c = #[trigger] v@[j];
                    ||| 'a' <= c <= 'z'
                    ||| 'A' <= c <= 'Z'
                    ||| '0' <= c <= '9'
                    ||| c == '+'
                    ||| c == '/'
                    ||| c == '='
                },
        decreases v.len() - i,
    {
        let c = v[i];
        if !(('a' <= c && c <= 'z') || ('A' <= c && c <= 'Z') || ('0' <= c && c <= '9') || c
            == '+' || c == '/' || c == '=') {
            return false;
        }
        i += 1;
    }
    true
}

/// The bytes of an optional byte vector.
pub open spec fn opt_bytes(b: Option<Vec<u8>>) -> Option<Seq<u8>> {
    match b {
        Some(v) => Some(v@),
        None => None,
    }
}

fn parse_decoded(b: Option<Vec<u8>>) -> (r: Option<WebUrl>)
    ensures
        r is Some <==> url_of_bytes(opt_bytes(b)) is Some,
        r matches Some(u) ==> u@.href == url_of_bytes(opt_bytes(b))->0 && u@.wf(),
{
    match b {
        Some(bytes) => match utf8_to_string(bytes) {
            Some(s) => WebUrl::parse(s.as_str()),
            None => None,
        },
        None => None,
    }
}

/// Reads the caller's target: a URL, or the same in base64, with white space
/// around it ignored.
pub fn decode_url(s: &str) -> (r: Option<WebUrl>)
    ensures
        r is Some <==> decode_url_spec(s@) is Some,
        r matches Some(u) ==> u@.href == decode_url_spec(s@)->0 && u@.wf(),
{
    let t = trim_whitespace(s);
    decode_trimmed(t.as_str())
}

/// Reads a `url` value that has already been trimmed.
pub fn decode_trimmed(s: &str) -> (r: Option<WebUrl>)
    ensures
        r is Some <==> decode_trimmed_spec(s@) is Some,
        r matches Some(u) ==> u@.href == decode_trimmed_spec(s@)->0 && u@.wf(),
{
    match WebUrl::parse(s) {
        Some(u) => {
            return Some(u);
        },
        None => {},
    }
    let v = chars_of(s);
    if !is_base64_like(&v) {
        return None;
    }
    let n: usize = (4 - v.len() % 4) % 4;
    let mut p = v;
    let mut k: usize = 0;
    while k < n
        invariant
            k <= n,
            n == ((4 - s@.len() % 4) % 4) as nat,
            p@ == s@ + Seq::new(k as nat, |i: int| '='),
        decreases n - k,
    {
        p.push('=');
        k += 1;
        assert(p@ =~= s@ + Seq::new(k as nat, |i: int| '='));
    }
    assert(p@ =~= pad_base64(s@));
    let ps = string_of(&p);
    match parse_decoded(base64_decode_no_pad(ps.as_str())) {
        Some(u) => Some(u),
        None => parse_decoded(base64_decode_padded(ps.as_str())),
    }
}

} // verus!
