//! Absolute URLs, and the resolution of playlist references against the
//! playlist's own location.

use vstd::prelude::*;
use crate::text::opt_string;

verus! {

/// `url::Url`, carried opaquely inside a `WebUrl`.
#[verifier::external_type_specification]
#[verifier::external_body]
pub struct ExUrl(url::Url);

/// The serialization of what `url::Url::parse` makes of `s`, or `None` where it
/// refuses `s` (a relative reference, a malformed URL).
pub uninterp spec fn url_parse(s: Seq<char>) -> Option<Seq<char>>;

/// The serialization of what `url::Url::join` makes of the reference `r` against
/// the URL serialized as `base`, or `None` where the join fails.
pub uninterp spec fn url_join(base: Seq<char>, r: Seq<char>) -> Option<Seq<char>>;

/// The host that `url::Url::host_str` reads from the URL serialized as `href`.
pub uninterp spec fn url_host(href: Seq<char>) -> Option<Seq<char>>;

/// `scheme` is the part of `href` before its first `:`.
pub open spec fn is_scheme_of(scheme: Seq<char>, href: Seq<char>) -> bool {
    &&& scheme.len() < href.len()
    &&& href.subrange(0, scheme.len() as int) == scheme
    &&& href[scheme.len() as int] == ':'
    &&& forall|i: int| 0 <= i < scheme.len() ==> scheme[i] != ':'
}

/// What a `WebUrl` stands for: its serialization, its scheme and its host.
pub struct UrlView {
    pub href: Seq<char>,
    pub scheme: Seq<char>,
    pub host: Option<Seq<char>>,
}

/// An absolute URL, as parsed by the `url` crate. Its fields are only ever
/// filled, all together, from one parsed `url::Url`.
pub struct WebUrl {
    inner: url::Url,
    href: String,
    scheme: String,
    host: Option<String>,
}

impl View for WebUrl {
    type V = UrlView;

    closed spec fn view(&self) -> UrlView {
        UrlView { href: self.href@, scheme: self.scheme@, host: opt_string(self.host) }
    }
}

impl UrlView {
    /// The scheme and host are those of the serialization.
    pub open spec fn wf(self) -> bool {
        &&& is_scheme_of(self.scheme, self.href)
        &&& self.host == url_host(self.href)
    }
}

/// Relies on `url::Url::parse`, read back through `Url::as_str`, `Url::scheme`
/// (the serialization up to its first `:`) and `Url::host_str`.
#[verifier::external_body]
fn parse_with_url_crate(s: &str) -> (r: Option<WebUrl>)
    ensures
        r is Some <==> url_parse(s@) is Some,
        r matches Some(u) ==> u@.href == url_parse(s@)->0,
        r matches Some(u) ==> u@.host == url_host(u@.href),
        r matches Some(u) ==> is_scheme_of(u@.scheme, u@.href),
{
    match url::Url::parse(s) {
        Ok(u) => Some(
            WebUrl {
                href: u.as_str().to_string(),
                scheme: u.scheme().to_string(),
                host: u.host_str().map(str::to_string),
                inner: u,
            },
        ),
        Err(_) => None,
    }
}

/// Relies on `url::Url::join`, read back through `Url::as_str`.
#[verifier::external_body]
fn join_with_url_crate(base: &WebUrl, r: &str) -> (res: Option<String>)
    ensures
        res is Some <==> url_join(base@.href, r@) is Some,
        res matches Some(t) ==> t@ == url_join(base@.href, r@)->0,
{
    match base.inner.join(r) {
        Ok(u) => Some(u.as_str().to_string()),
        Err(_) => None,
    }
}

/// Where a reference `raw` found in a document fetched from `base` points:
/// `raw` itself where it is an absolute URL, else `raw` joined to `base`,
/// else `base`.
pub open spec fn resolve_spec(raw: Seq<char>, base: Seq<char>) -> Seq<char> {
    match url_parse(raw) {
        Some(u) => u,
        None => match url_join(base, raw) {
            Some(j) => j,
            None => base,
        },
    }
}

impl WebUrl {
    /// Parses an absolute URL.
    pub fn parse(s: &str) -> (r: Option<WebUrl>)
        ensures
            r is Some <==> url_parse(s@) is Some,
            r matches Some(u) ==> u@.href == url_parse(s@)->0 && u@.wf(),
    {
        parse_with_url_crate(s)
    }

    /// The serialization of the URL.
    pub fn as_str(&self) -> (r: &str)
        ensures
            r@ == self@.href,
    {
        self.href.as_str()
    }

    /// The scheme, lower-cased, without its `:`.
    pub fn scheme(&self) -> (r: &str)
        ensures
            r@ == self@.scheme,
    {
        self.scheme.as_str()
    }

    /// The host, where the URL has one.
    pub fn host_str(&self) -> (r: Option<&str>)
        ensures
            r matches Some(h) ==> self@.host == Some(h@),
            r is None ==> self@.host is None,
    {
        match &self.host {
            Some(h) => Some(h.as_str()),
            None => None,
        }
    }
}

/// Resolves a reference found in a document fetched from `base`; a reference
/// that cannot be joined falls back to `base` itself.
pub fn get_url(line: &str, base: &WebUrl) -> (r: String)
    ensures
        r@ == resolve_spec(line@, base@.href),
{
    match parse_with_url_crate(line) {
        Some(u) => u.href,
        None => match join_with_url_crate(base, line) {
            Some(j) => j,
            None => base.href.clone(),
        },
    }
}

/// An absolute reference resolves to itself, whatever the base.
pub proof fn lemma_absolute_ignores_base(u: Seq<char>, base: Seq<char>)
    requires
        url_parse(u) is Some,
    ensures
        resolve_spec(u, base) == url_parse(u)->0,
{
}

/// A reference that is not absolute resolves to its join with the base, or to
/// the base where the join fails.
pub proof fn lemma_relative_joins_base(r: Seq<char>, base: Seq<char>)
    requires
        url_parse(r) is None,
    ensures
        url_join(base, r) matches Some(j) ==> resolve_spec(r, base) == j,
        url_join(base, r) is None ==> resolve_spec(r, base) == base,
{
}

} // verus!
