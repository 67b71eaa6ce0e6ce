//! The outbound header set, and the forging of the `Origin`/`Referer` pair
//! that disguises a request as coming from a trusted site.

use vstd::prelude::*;
use crate::policy::{
    first_match, lemma_first_match_from, lemma_unmatched_host_is_catch_all, policy_matches,
    builtin_table, lemma_builtin_extra_headers, lemma_builtin_values_printable, PolicyTable,
    PolicyView,
};
use crate::text::{chars_eq, chars_of, lower_char, opt_str, push_all, string_of};
use crate::weburl::{UrlView, WebUrl};

verus! {

/// A character that HTTP allows in a header name.
pub open spec fn is_tchar(c: char) -> bool {
    ||| 'a' <= c <= 'z'
    ||| 'A' <= c <= 'Z'
    ||| '0' <= c <= '9'
    ||| c == '!'
    ||| c == '#'
    ||| c == '$'
    ||| c == '%'
    ||| c == '&'
    ||| c == '\''
    ||| c == '*'
    ||| c == '+'
    ||| c == '-'
    ||| c == '.'
    ||| c == '^'
    ||| c == '_'
    ||| c == '`'
    ||| c == '|'
    ||| c == '~'
}

/// The canonical (lower-case) header name that `n` spells, or `None` where
/// HTTP refuses it as a name: empty, too long, or with a character outside
/// the token set.
pub open spec fn header_name_of(n: Seq<char>) -> Option<Seq<char>> {
    if 0 < n.len() <= 65535 && forall|i: int| 0 <= i < n.len() ==> is_tchar(#[trigger] n[i]) {
        Some(n.map_values(|c: char| lower_char(c)))
    } else {
        None
    }
}

/// Whether HTTP accepts `v` as a header value: no control character but tab.
pub open spec fn is_header_value(v: Seq<char>) -> bool {
    forall|i: int|
        0 <= i < v.len() ==> (#[trigger] v[i] == '\t' || (v[i] as u32 >= 32 && v[i] as u32 != 127))
}

/// The header map after setting `n` to `v`; a name or value that HTTP refuses
/// leaves the map as it was.
pub open spec fn set_header(m: Map<Seq<char>, Seq<char>>, n: Seq<char>, v: Seq<char>) -> Map<
    Seq<char>,
    Seq<char>,
> {
    match header_name_of(n) {
        Some(k) => if is_header_value(v) {
            m.insert(k, v)
        } else {
            m
        },
        None => m,
    }
}

/// The header map after setting each pair in turn.
pub open spec fn set_headers(m: Map<Seq<char>, Seq<char>>, pairs: Seq<(Seq<char>, Seq<char>)>) -> Map<
    Seq<char>,
    Seq<char>,
>
    decreases pairs.len(),
{
    if pairs.len() == 0 {
        m
    } else {
        set_header(set_headers(m, pairs.drop_last()), pairs.last().0, pairs.last().1)
    }
}

/// The map that a list of entries stands for: a later entry overrides an
/// earlier one of the same name.
pub open spec fn entries_map(s: Seq<(Seq<char>, Seq<char>)>) -> Map<Seq<char>, Seq<char>>
    decreases s.len(),
{
    if s.len() == 0 {
        Map::empty()
    } else {
        entries_map(s.drop_last()).insert(s.last().0, s.last().1)
    }
}

/// A set of outbound headers, by lower-case name.
pub struct HeaderSet {
    entries: Vec<(String, String)>,
}

impl View for HeaderSet {
    type V = Map<Seq<char>, Seq<char>>;

    closed spec fn view(&self) -> Map<Seq<char>, Seq<char>> {
        entries_map(self.entries.deep_view())
    }
}

/// Relies on `reqwest::header::HeaderName::from_str`: it accepts a name of 1
/// to 65535 token characters, and `HeaderName::as_str` gives it in lower case.
#[verifier::external_body]
fn parse_header_name(n: &str) -> (r: Option<String>)
    ensures
        r is Some <==> header_name_of(n@) is Some,
        r matches Some(k) ==> k@ == header_name_of(n@)->0,
{
    match <reqwest::header::HeaderName as std::str::FromStr>::from_str(n) {
        Ok(h) => Some(h.as_str().to_string()),
        Err(_) => None,
    }
}

/// Relies on `reqwest::header::HeaderValue::from_str`: it refuses exactly the
/// text holding a control character other than tab.
#[verifier::external_body]
fn header_value_accepted(v: &str) -> (r: bool)
    ensures
        r == is_header_value(v@),
{
    reqwest::header::HeaderValue::from_str(v).is_ok()
}

/// The value that a header map gives the header named `name`, whatever its case.
pub open spec fn lookup(m: Map<Seq<char>, Seq<char>>, name: Seq<char>) -> Option<Seq<char>> {
    match header_name_of(name) {
        Some(k) => if m.contains_key(k) {
            Some(m[k])
        } else {
            None
        },
        None => None,
    }
}

/// Entries after position `i` that do not name `k` leave its value as the
/// first `i` entries give it.
proof fn lemma_entries_tail(s: Seq<(Seq<char>, Seq<char>)>, i: int, k: Seq<char>)
    requires
        0 <= i <= s.len(),
        forall|j: int| i <= j < s.len() ==> (#[trigger] s[j]).0 != k,
    ensures
        entries_map(s).contains_key(k) == entries_map(s.subrange(0, i)).contains_key(k),
        entries_map(s).contains_key(k) ==> entries_map(s)[k] == entries_map(s.subrange(0, i))[k],
    decreases s.len(),
{
    if s.len() > i {
        assert(s.drop_last().subrange(0, i) =~= s.subrange(0, i));
        lemma_entries_tail(s.drop_last(), i, k);
    } else {
        assert(s.subrange(0, i) =~= s);
    }
}

impl HeaderSet {
    /// An empty header set.
    pub fn new() -> (r: HeaderSet)
        ensures
            r@ == Map::<Seq<char>, Seq<char>>::empty(),
    {
        let r = HeaderSet { entries: Vec::new() };
        assert(r.entries.deep_view() =~= Seq::<(Seq<char>, Seq<char>)>::empty());
        r
    }

    /// Sets header `name` to `value`, replacing an earlier value; a name or
    /// value that HTTP refuses is ignored.
    pub fn set(&mut self, name: &str, value: &str)
        ensures
            final(self)@ == set_header(old(self)@, name@, value@),
    {
        match parse_header_name(name) {
            Some(ks) => {
                if header_value_accepted(value) {
                    let ghost before = self.entries.deep_view();
                    let vs = string_of(&chars_of(value));
                    self.entries.push((ks, vs));
                    assert(self.entries.deep_view().drop_last() =~= before);
                }
            },
            None => {},
        }
    }

    /// Sets each pair in turn.
    pub fn set_all(&mut self, pairs: &Vec<(String, String)>)
        ensures
            final(self)@ == set_headers(old(self)@, pairs.deep_view()),
    {
        let ghost start = self@;
        let mut i: usize = 0;
        while i < pairs.len()
            invariant
                i <= pairs.len(),
                self@ == set_headers(start, pairs.deep_view().subrange(0, i as int)),
            decreases pairs.len() - i,
        {
            self.set(pairs[i].0.as_str(), pairs[i].1.as_str());
            i += 1;
            assert(pairs.deep_view().subrange(0, i as int).drop_last() =~= pairs.deep_view().subrange(
                0,
                i - 1,
            ));
        }
        assert(pairs.deep_view().subrange(0, i as int) =~= pairs.deep_view());
    }

    /// The value of header `name`, matched without regard to ASCII case.
    pub fn get(&self, name: &str) -> (r: Option<String>)
        ensures
            r matches Some(v) ==> lookup(self@, name@) == Some(v@),
            r is None ==> lookup(self@, name@) is None,
    {
        let k = match parse_header_name(name) {
            Some(k) => chars_of(k.as_str()),
            None => {
                return None;
            },
        };
        let ghost s = self.entries.deep_view();
        let mut i: usize = self.entries.len();
        while i > 0
            invariant
                i <= self.entries.len(),
                s == self.entries.deep_view(),
                header_name_of(name@) == Some(k@),
                forall|j: int| i <= j < s.len() ==> (#[trigger] s[j]).0 != k@,
            decreases i,
        {
            let e = chars_of(self.entries[i - 1].0.as_str());
            if chars_eq(&e, &k) {
                proof {
                    lemma_entries_tail(s, i as int, k@);
                    assert(s.subrange(0, i as int).drop_last() =~= s.subrange(0, i - 1));
                    assert(s[i - 1].0 == e@);
                    assert(s[i - 1].1 == self.entries@[i - 1].1@);
                    assert(s.subrange(0, i as int).last() == s[i - 1]);
                }
                return Some(self.entries[i - 1].1.clone());
            }
            i -= 1;
        }
        proof {
            lemma_entries_tail(s, 0, k@);
            assert(s.subrange(0, 0) =~= Seq::<(Seq<char>, Seq<char>)>::empty());
        }
        None
    }

    /// The entries in the order they were set; where a name occurs twice the
    /// later entry counts.
    pub fn entries(&self) -> (r: &Vec<(String, String)>)
        ensures
            entries_map(r.deep_view()) == self@,
    {
        &self.entries
    }
}

/// The fixed browser-like headers every outbound request starts from.
pub open spec fn default_headers_spec() -> Map<Seq<char>, Seq<char>> {
    let m = Map::<Seq<char>, Seq<char>>::empty();
    let m = set_header(
        m,
        "user-agent"@,
        "Mozilla/5.0 (Windows NT 10.0; Win64; x64; rv:137.0) Gecko/20100101 Firefox/137.0"@,
    );
    let m = set_header(m, "accept"@, "*/*"@);
    let m = set_header(m, "accept-language"@, "en-US,en;q=0.5"@);
    let m = set_header(m, "sec-fetch-dest"@, "empty"@);
    let m = set_header(m, "sec-fetch-mode"@, "cors"@);
    set_header(m, "sec-fetch-site"@, "cross-site"@)
}

/// The referer that goes with an origin: the origin with a trailing `/`.
pub open spec fn referer_for(origin: Seq<char>) -> Seq<char> {
    if origin.len() > 0 && origin.last() == '/' {
        origin
    } else {
        origin + "/"@
    }
}

/// The forged headers for a target URL: the defaults, then either the
/// caller's override origin and its referer, or the first matching policy's
/// origin, referer and extra headers, or, where no policy matches, the
/// target's own scheme and host as origin.
pub open spec fn forged_headers(
    table: Seq<PolicyView>,
    url: UrlView,
    custom_origin: Option<Seq<char>>,
) -> Map<Seq<char>, Seq<char>> {
    let d = default_headers_spec();
    match custom_origin {
        Some(o) => set_header(set_header(d, "origin"@, o), "referer"@, referer_for(o)),
        None => {
            let host = match url.host {
                Some(h) => h,
                None => Seq::empty(),
            };
            match first_match(table, host) {
                Some(i) => set_headers(
                    set_header(
                        set_header(d, "origin"@, table[i].origin),
                        "referer"@,
                        table[i].referer,
                    ),
                    table[i].extra_headers,
                ),
                None => match url.host {
                    Some(h) => set_header(
                        set_header(d, "origin"@, url.scheme + "://"@ + h),
                        "referer"@,
                        url.scheme + "://"@ + h + "/"@,
                    ),
                    None => d,
                },
            }
        },
    }
}

/// The fixed browser-like headers.
pub fn default_headers() -> (r: HeaderSet)
    ensures
        r@ == default_headers_spec(),
{
    let mut h = HeaderSet::new();
    h.set(
        "user-agent",
        "Mozilla/5.0 (Windows NT 10.0; Win64; x64; rv:137.0) Gecko/20100101 Firefox/137.0",
    );
    h.set("accept", "*/*");
    h.set("accept-language", "en-US,en;q=0.5");
    h.set("sec-fetch-dest", "empty");
    h.set("sec-fetch-mode", "cors");
    h.set("sec-fetch-site", "cross-site");
    h
}

/// The headers that disguise a request for `url`; `custom_origin`, where
/// given, wins over the policy table.
pub fn generate_headers_for_url(table: &PolicyTable, url: &WebUrl, custom_origin: Option<&str>) -> (r:
    HeaderSet)
    ensures
        r@ == forged_headers(table@, url@, opt_str(custom_origin)),
{
    let mut headers = default_headers();
    match custom_origin {
        Some(origin) => {
            headers.set("origin", origin);
            let o = chars_of(origin);
            let referer = if o.len() > 0 && o[o.len() - 1] == '/' {
                string_of(&o)
            } else {
                let mut r = o;
                push_all(&mut r, &chars_of("/"));
                string_of(&r)
            };
            headers.set("referer", referer.as_str());
        },
        None => {
            let hostname = match url.host_str() {
                Some(h) => h,
                None => "",
            };
            proof {
                reveal_strlit("");
                assert(hostname@ =~= (match url@.host {
                    Some(h) => h,
                    None => Seq::<char>::empty(),
                }));
            }
            match table.find_policy(hostname) {
                Some(i) => {
                    proof {
                        lemma_first_match_from(table@, hostname@, 0);
                    }
                    let p = table.policy(i);
                    headers.set("origin", p.origin());
                    headers.set("referer", p.referer());
                    headers.set_all(p.extra_headers());
                },
                None => {
                    match url.host_str() {
                        Some(host) => {
                            let mut origin = chars_of(url.scheme());
                            push_all(&mut origin, &chars_of("://"));
                            push_all(&mut origin, &chars_of(host));
                            let o = string_of(&origin);
                            headers.set("origin", o.as_str());
                            let mut referer = origin;
                            push_all(&mut referer, &chars_of("/"));
                            let r = string_of(&referer);
                            headers.set("referer", r.as_str());
                        },
                        None => {},
                    }
                },
            }
        },
    }
    headers
}

/// Setting headers none of which is named `k` leaves `k` as it was.
pub proof fn lemma_set_headers_keeps(
    m: Map<Seq<char>, Seq<char>>,
    pairs: Seq<(Seq<char>, Seq<char>)>,
    k: Seq<char>,
)
    requires
        forall|j: int| 0 <= j < pairs.len() ==> header_name_of(#[trigger] pairs[j].0) != Some(k),
    ensures
        set_headers(m, pairs).contains_key(k) == m.contains_key(k),
        m.contains_key(k) ==> set_headers(m, pairs)[k] == m[k],
    decreases pairs.len(),
{
    if pairs.len() > 0 {
        let rest = pairs.drop_last();
        assert forall|j: int| 0 <= j < rest.len() implies header_name_of(#[trigger] rest[j].0)
            != Some(k) by {
            assert(rest[j] == pairs[j]);
        }
        lemma_set_headers_keeps(m, rest, k);
        assert(header_name_of(pairs[pairs.len() - 1].0) != Some(k));
    }
}

/// A name of lower-case letters and dashes is its own canonical header name.
pub proof fn lemma_plain_header_name(s: Seq<char>)
    requires
        0 < s.len() <= 65535,
        forall|i: int| 0 <= i < s.len() ==> ('a' <= #[trigger] s[i] <= 'z' || s[i] == '-'),
    ensures
        header_name_of(s) == Some(s),
{
    assert(s.map_values(|c: char| lower_char(c)) =~= s);
}

proof fn lemma_origin_referer_names()
    ensures
        header_name_of("origin"@) == Some("origin"@),
        header_name_of("referer"@) == Some("referer"@),
        "origin"@ != "referer"@,
{
    reveal_strlit("origin");
    reveal_strlit("referer");
    lemma_plain_header_name("origin"@);
    lemma_plain_header_name("referer"@);
}

/// Without an override origin, the first policy that matches the target's host
/// supplies the forged `origin` and `referer`, wherever they are valid header
/// values and the policy's extra headers do not name them again.
pub proof fn lemma_matched_policy_forges(table: Seq<PolicyView>, url: UrlView, i: int)
    requires
        first_match(
            table,
            match url.host {
                Some(h) => h,
                None => Seq::empty(),
            },
        ) == Some(i),
        is_header_value(table[i].origin),
        is_header_value(table[i].referer),
        forall|j: int|
            0 <= j < table[i].extra_headers.len() ==> header_name_of(
                #[trigger] table[i].extra_headers[j].0,
            ) != Some("origin"@) && header_name_of(table[i].extra_headers[j].0) != Some(
                "referer"@,
            ),
    ensures
        forged_headers(table, url, None).contains_key("origin"@),
        forged_headers(table, url, None)["origin"@] == table[i].origin,
        forged_headers(table, url, None).contains_key("referer"@),
        forged_headers(table, url, None)["referer"@] == table[i].referer,
{
    lemma_origin_referer_names();
    let m = set_header(
        set_header(default_headers_spec(), "origin"@, table[i].origin),
        "referer"@,
        table[i].referer,
    );
    lemma_set_headers_keeps(m, table[i].extra_headers, "origin"@);
    lemma_set_headers_keeps(m, table[i].extra_headers, "referer"@);
}

/// Without an override origin, a host that no policy matches gets the
/// target's own scheme and host as origin, and that with `/` as referer,
/// wherever these are valid header values.
pub proof fn lemma_catch_all_forges(table: Seq<PolicyView>, url: UrlView, h: Seq<char>)
    requires
        url.host == Some(h),
        forall|k: int| 0 <= k < table.len() ==> !policy_matches(#[trigger] table[k], h),
        is_header_value(url.scheme + "://"@ + h),
        is_header_value(url.scheme + "://"@ + h + "/"@),
    ensures
        forged_headers(table, url, None).contains_key("origin"@),
        forged_headers(table, url, None)["origin"@] == url.scheme + "://"@ + h,
        forged_headers(table, url, None).contains_key("referer"@),
        forged_headers(table, url, None)["referer"@] == url.scheme + "://"@ + h + "/"@,
{
    lemma_origin_referer_names();
    lemma_unmatched_host_is_catch_all(table, h);
}

/// A header that setting several headers adds was named by one of them.
proof fn lemma_set_headers_names(
    m: Map<Seq<char>, Seq<char>>,
    pairs: Seq<(Seq<char>, Seq<char>)>,
    k: Seq<char>,
)
    requires
        set_headers(m, pairs).contains_key(k),
    ensures
        m.contains_key(k) || exists|j: int|
            0 <= j < pairs.len() && header_name_of(#[trigger] pairs[j].0) == Some(k),
    decreases pairs.len(),
{
    if pairs.len() > 0 {
        let rest = pairs.drop_last();
        let last = pairs.len() - 1;
        if header_name_of(pairs[last].0) != Some(k) {
            lemma_set_headers_names(m, rest, k);
            if !m.contains_key(k) {
                let j = choose|j: int|
                    0 <= j < rest.len() && header_name_of(#[trigger] rest[j].0) == Some(k);
                assert(pairs[j] == rest[j]);
            }
        }
    }
}

proof fn lemma_builtin_names()
    ensures
        header_name_of("user-agent"@) == Some("user-agent"@),
        header_name_of("accept"@) == Some("accept"@),
        header_name_of("accept-language"@) == Some("accept-language"@),
        header_name_of("sec-fetch-dest"@) == Some("sec-fetch-dest"@),
        header_name_of("sec-fetch-mode"@) == Some("sec-fetch-mode"@),
        header_name_of("sec-fetch-site"@) == Some("sec-fetch-site"@),
        header_name_of("cache-control"@) == Some("cache-control"@),
        header_name_of("pragma"@) == Some("pragma"@),
        header_name_of("origin"@) == Some("origin"@),
        header_name_of("referer"@) == Some("referer"@),
{
    reveal_strlit("user-agent");
    reveal_strlit("accept");
    reveal_strlit("accept-language");
    reveal_strlit("sec-fetch-dest");
    reveal_strlit("sec-fetch-mode");
    reveal_strlit("sec-fetch-site");
    reveal_strlit("cache-control");
    reveal_strlit("pragma");
    lemma_plain_header_name("user-agent"@);
    lemma_plain_header_name("accept"@);
    lemma_plain_header_name("accept-language"@);
    lemma_plain_header_name("sec-fetch-dest"@);
    lemma_plain_header_name("sec-fetch-mode"@);
    lemma_plain_header_name("sec-fetch-site"@);
    lemma_plain_header_name("cache-control"@);
    lemma_plain_header_name("pragma"@);
    lemma_origin_referer_names();
}

/// Whether `k` is a name that the fixed defaults set.
pub open spec fn is_default_name(k: Seq<char>) -> bool {
    ||| k == "user-agent"@
    ||| k == "accept"@
    ||| k == "accept-language"@
    ||| k == "sec-fetch-dest"@
    ||| k == "sec-fetch-mode"@
    ||| k == "sec-fetch-site"@
}

/// With the built-in table, the forged headers are only the defaults,
/// `origin`, `referer`, `cache-control` and `pragma`.
pub proof fn lemma_builtin_forged_names(
    url: UrlView,
    custom_origin: Option<Seq<char>>,
    k: Seq<char>,
)
    requires
        forged_headers(builtin_table(), url, custom_origin).contains_key(k),
    ensures
        is_default_name(k) || k == "origin"@ || k == "referer"@ || k == "cache-control"@ || k
            == "pragma"@,
{
    lemma_builtin_names();
    let t = builtin_table();
    let host = match url.host {
        Some(h) => h,
        None => Seq::empty(),
    };
    if custom_origin is None {
        if first_match(t, host) is Some {
            let i = first_match(t, host)->0;
            lemma_first_match_from(t, host, 0);
            let m = set_header(
                set_header(default_headers_spec(), "origin"@, t[i].origin),
                "referer"@,
                t[i].referer,
            );
            lemma_set_headers_names(m, t[i].extra_headers, k);
            if !m.contains_key(k) {
                let j = choose|j: int|
                    0 <= j < t[i].extra_headers.len() && header_name_of(
                        #[trigger] t[i].extra_headers[j].0,
                    ) == Some(k);
                lemma_builtin_extra_headers(i, j);
            }
        }
    }
}

/// With the built-in table, no forged header is one that the inbound request
/// passes through (`range` and the conditional `if-*` headers).
pub proof fn lemma_builtin_forges_no_passthrough(url: UrlView, custom_origin: Option<Seq<char>>)
    ensures
        !forged_headers(builtin_table(), url, custom_origin).contains_key("range"@),
        !forged_headers(builtin_table(), url, custom_origin).contains_key("if-range"@),
        !forged_headers(builtin_table(), url, custom_origin).contains_key("if-none-match"@),
        !forged_headers(builtin_table(), url, custom_origin).contains_key("if-modified-since"@),
{
    reveal_strlit("range");
    reveal_strlit("if-range");
    reveal_strlit("if-none-match");
    reveal_strlit("if-modified-since");
    reveal_strlit("user-agent");
    reveal_strlit("accept");
    reveal_strlit("accept-language");
    reveal_strlit("sec-fetch-dest");
    reveal_strlit("sec-fetch-mode");
    reveal_strlit("sec-fetch-site");
    reveal_strlit("cache-control");
    reveal_strlit("pragma");
    reveal_strlit("origin");
    reveal_strlit("referer");
    let f = forged_headers(builtin_table(), url, custom_origin);
    if f.contains_key("range"@) {
        lemma_builtin_forged_names(url, custom_origin, "range"@);
    }
    if f.contains_key("if-range"@) {
        lemma_builtin_forged_names(url, custom_origin, "if-range"@);
    }
    if f.contains_key("if-none-match"@) {
        lemma_builtin_forged_names(url, custom_origin, "if-none-match"@);
        assert("if-none-match"@[0] != "cache-control"@[0]);
    }
    if f.contains_key("if-modified-since"@) {
        lemma_builtin_forged_names(url, custom_origin, "if-modified-since"@);
    }
}

/// With the built-in table, every header that the fixed defaults set keeps
/// its default value: no policy overrides one.
pub proof fn lemma_builtin_keeps_defaults(
    url: UrlView,
    custom_origin: Option<Seq<char>>,
    k: Seq<char>,
)
    requires
        default_headers_spec().contains_key(k),
    ensures
        forged_headers(builtin_table(), url, custom_origin).contains_key(k),
        forged_headers(builtin_table(), url, custom_origin)[k] == default_headers_spec()[k],
{
    lemma_builtin_names();
    reveal_strlit("user-agent");
    reveal_strlit("accept");
    reveal_strlit("accept-language");
    reveal_strlit("sec-fetch-dest");
    reveal_strlit("sec-fetch-mode");
    reveal_strlit("sec-fetch-site");
    reveal_strlit("cache-control");
    reveal_strlit("pragma");
    reveal_strlit("origin");
    reveal_strlit("referer");
    let d = default_headers_spec();
    assert(is_default_name(k));
    assert("accept"@[0] != "pragma"@[0] && "accept"@[0] != "origin"@[0]);
    assert(k != "origin"@ && k != "referer"@ && k != "cache-control"@ && k != "pragma"@);
    let t = builtin_table();
    let host = match url.host {
        Some(h) => h,
        None => Seq::empty(),
    };
    if custom_origin is None && first_match(t, host) is Some {
        let i = first_match(t, host)->0;
        lemma_first_match_from(t, host, 0);
        let m = set_header(set_header(d, "origin"@, t[i].origin), "referer"@, t[i].referer);
        assert forall|j: int| 0 <= j < t[i].extra_headers.len() implies header_name_of(
            #[trigger] t[i].extra_headers[j].0,
        ) != Some(k) by {
            lemma_builtin_extra_headers(i, j);
        }
        lemma_set_headers_keeps(m, t[i].extra_headers, k);
    }
}

/// A text whose characters are all printable ASCII is a valid header value.
proof fn lemma_printable_value(v: Seq<char>)
    requires
        forall|i: int| 0 <= i < v.len() ==> ' ' <= #[trigger] v[i] <= '~',
    ensures
        is_header_value(v),
{
}

/// With the built-in table and no override origin, the first policy that
/// matches the target's host supplies the forged `origin` and `referer`, and
/// its extra headers, where it has them, set `cache-control` and `pragma` to
/// `no-cache`.
pub proof fn lemma_builtin_match_forges(url: UrlView, i: int)
    requires
        first_match(
            builtin_table(),
            match url.host {
                Some(h) => h,
                None => Seq::empty(),
            },
        ) == Some(i),
    ensures
        forged_headers(builtin_table(), url, None).contains_key("origin"@),
        forged_headers(builtin_table(), url, None)["origin"@] == builtin_table()[i].origin,
        forged_headers(builtin_table(), url, None).contains_key("referer"@),
        forged_headers(builtin_table(), url, None)["referer"@] == builtin_table()[i].referer,
        builtin_table()[i].extra_headers.len() > 0 ==> forged_headers(
            builtin_table(),
            url,
            None,
        ).contains_key("cache-control"@) && forged_headers(builtin_table(), url, None)["cache-control"@]
            == "no-cache"@ && forged_headers(builtin_table(), url, None).contains_key("pragma"@)
            && forged_headers(builtin_table(), url, None)["pragma"@] == "no-cache"@,
{
    let t = builtin_table();
    let host = match url.host {
        Some(h) => h,
        None => Seq::empty(),
    };
    lemma_first_match_from(t, host, 0);
    lemma_builtin_names();
    reveal_strlit("cache-control");
    reveal_strlit("pragma");
    reveal_strlit("origin");
    reveal_strlit("referer");
    assert forall|j: int| 0 <= j < t[i].extra_headers.len() implies header_name_of(
        #[trigger] t[i].extra_headers[j].0,
    ) != Some("origin"@) && header_name_of(t[i].extra_headers[j].0) != Some("referer"@) by {
        lemma_builtin_extra_headers(i, j);
        assert("pragma"@[0] != "origin"@[0]);
    }
    lemma_builtin_values_printable(i);
    lemma_printable_value(t[i].origin);
    lemma_printable_value(t[i].referer);
    lemma_matched_policy_forges(t, url, i);
    if t[i].extra_headers.len() > 0 {
        reveal_strlit("no-cache");
        lemma_printable_value("no-cache"@);
        let e = seq![("cache-control"@, "no-cache"@), ("pragma"@, "no-cache"@)];
        assert(t[i].extra_headers =~= e);
        assert("pragma"@[0] != "cache-control"@[0]);
        let m = set_header(
            set_header(default_headers_spec(), "origin"@, t[i].origin),
            "referer"@,
            t[i].referer,
        );
        assert(e.drop_last() =~= seq![("cache-control"@, "no-cache"@)]);
        assert(seq![("cache-control"@, "no-cache"@)].drop_last() =~= Seq::<
            (Seq<char>, Seq<char>),
        >::empty());
        let one = seq![("cache-control"@, "no-cache"@)];
        assert(set_headers(m, Seq::<(Seq<char>, Seq<char>)>::empty()) == m);
        assert(set_headers(m, one) == set_header(m, "cache-control"@, "no-cache"@));
        assert(e.last() == ("pragma"@, "no-cache"@));
        assert(set_headers(m, e) == set_header(set_headers(m, one), "pragma"@, "no-cache"@));
        assert(set_headers(m, e) == set_header(
            set_header(m, "cache-control"@, "no-cache"@),
            "pragma"@,
            "no-cache"@,
        ));
    }
}

} // verus!
