//! The gatekeeper: which caller origins may use the proxy, and what the
//! response echoes back in `Access-Control-Allow-Origin`.

use vstd::prelude::*;
use crate::text::{
    chars_eq, chars_of, find_from, find_from_exec, lemma_find_from_occurs, occurs_at_exec, opt_str,
    slice_of, starts_with, string_of, trim, trim_range,
};

verus! {

/// Origin enforcement, read once at start-up.
pub struct OriginPolicy {
    /// Whether callers are checked at all.
    pub enforce: bool,
    /// The origins that may call the proxy.
    pub allowed: Vec<String>,
}

/// The text of each string of a list.
pub open spec fn texts(v: Seq<String>) -> Seq<Seq<char>> {
    v.map_values(|s: String| s@)
}

/// The first entry at or after `i` that `r` starts with.
pub open spec fn first_prefix_from(allowed: Seq<Seq<char>>, r: Seq<char>, i: int) -> Option<int>
    decreases allowed.len() - i,
{
    if i < 0 || i >= allowed.len() {
        None
    } else if starts_with(r, allowed[i]) {
        Some(i)
    } else {
        first_prefix_from(allowed, r, i + 1)
    }
}

/// The allow-list entry that approves a caller: its `Origin` where the list
/// holds it exactly, else the first entry that its `Referer` starts with.
pub open spec fn approved_origin(
    allowed: Seq<Seq<char>>,
    origin: Option<Seq<char>>,
    referer: Option<Seq<char>>,
) -> Option<Seq<char>> {
    if origin is Some && allowed.contains(origin->0) {
        origin
    } else if referer is Some && first_prefix_from(allowed, referer->0, 0) is Some {
        Some(allowed[first_prefix_from(allowed, referer->0, 0)->0])
    } else {
        None
    }
}

/// The `Access-Control-Allow-Origin` value for a caller, or `None` where the
/// caller is refused: `*` when enforcement is off, else the approving entry.
pub open spec fn allow_origin_spec(
    enforce: bool,
    allowed: Seq<Seq<char>>,
    origin: Option<Seq<char>>,
    referer: Option<Seq<char>>,
) -> Option<Seq<char>> {
    if !enforce {
        Some("*"@)
    } else {
        approved_origin(allowed, origin, referer)
    }
}

fn opt_chars(o: Option<&str>) -> (r: Option<Vec<char>>)
    ensures
        r is Some <==> o is Some,
        r matches Some(v) ==> v@ == o->0@,
{
    match o {
        Some(s) => Some(chars_of(s)),
        None => None,
    }
}

impl OriginPolicy {
    /// The allow-list entry that approves the caller with these `Origin` and
    /// `Referer` headers; `None` where enforcement is off or nothing approves it.
    pub fn get_valid_origin(&self, origin: Option<&str>, referer: Option<&str>) -> (r: Option<
        String,
    >)
        ensures
            !self.enforce ==> r is None,
            self.enforce ==> (r matches Some(s) ==> approved_origin(
                texts(self.allowed@),
                opt_str(origin),
                opt_str(referer),
            ) == Some(s@)),
            self.enforce ==> (r is None ==> approved_origin(
                texts(self.allowed@),
                opt_str(origin),
                opt_str(referer),
            ) is None),
    {
        if !self.enforce {
            return None;
        }
        let ghost allowed = texts(self.allowed@);
        let o = opt_chars(origin);
        let rf = opt_chars(referer);
        if let Some(ov) = &o {
            let mut i: usize = 0;
            while i < self.allowed.len()
                invariant
                    i <= self.allowed.len(),
                    allowed == texts(self.allowed@),
                    self.enforce,
                    origin is Some,
                    ov@ == origin->0@,
                    forall|k: int| 0 <= k < i ==> allowed[k] != ov@,
                decreases self.allowed.len() - i,
            {
                let a = chars_of(self.allowed[i].as_str());
                if chars_eq(&a, ov) {
                    assert(allowed[i as int] == ov@);
                    return Some(string_of(ov));
                }
                i += 1;
            }
            assert(!allowed.contains(ov@));
        }
        if let Some(rv) = &rf {
            let mut i: usize = 0;
            while i < self.allowed.len()
                invariant
                    i <= self.allowed.len(),
                    allowed == texts(self.allowed@),
                    self.enforce,
                    referer is Some,
                    rv@ == referer->0@,
                    !(opt_str(origin) is Some && allowed.contains(opt_str(origin)->0)),
                    first_prefix_from(allowed, rv@, 0) == first_prefix_from(allowed, rv@, i as int),
                decreases self.allowed.len() - i,
            {
                let a = chars_of(self.allowed[i].as_str());
                if occurs_at_exec(rv, &a, 0) {
                    return Some(string_of(&a));
                }
                i += 1;
            }
        }
        None
    }

    /// The `Access-Control-Allow-Origin` value for the caller, or `None` where
    /// the caller must be refused with 403.
    pub fn access_control_allow_origin(&self, origin: Option<&str>, referer: Option<&str>) -> (r:
        Option<String>)
        ensures
            r matches Some(s) ==> allow_origin_spec(
                self.enforce,
                texts(self.allowed@),
                opt_str(origin),
                opt_str(referer),
            ) == Some(s@),
            r is None ==> allow_origin_spec(
                self.enforce,
                texts(self.allowed@),
                opt_str(origin),
                opt_str(referer),
            ) is None,
    {
        if !self.enforce {
            return Some(string_of(&chars_of("*")));
        }
        self.get_valid_origin(origin, referer)
    }
}

/// A trimmed entry of the allow-list, kept only when it is not empty.
pub open spec fn keep_entry(t: Seq<char>) -> Seq<Seq<char>> {
    if t.len() == 0 {
        Seq::empty()
    } else {
        seq![t]
    }
}

/// The entries of a comma-separated list from position `start` on, each
/// trimmed of white space, the empty ones dropped.
pub open spec fn origins_from(s: Seq<char>, start: int) -> Seq<Seq<char>>
    decreases s.len() - start,
{
    if start < 0 || start > s.len() {
        Seq::empty()
    } else {
        match find_from(s, ","@, start) {
            Some(i) => if start <= i < s.len() {
                keep_entry(trim(s.subrange(start, i), false)) + origins_from(s, i + 1)
            } else {
                Seq::empty()
            },
            None => keep_entry(trim(s.subrange(start, s.len() as int), false)),
        }
    }
}

/// Reads an allow-list written as comma-separated origins.
pub fn parse_allowed_origins(s: &str) -> (r: Vec<String>)
    ensures
        texts(r@) == origins_from(s@, 0),
{
    let v = chars_of(s);
    let comma = chars_of(",");
    proof {
        reveal_strlit(",");
    }
    let mut out: Vec<String> = Vec::new();
    let mut pos: usize = 0;
    loop
        invariant
            pos <= v.len(),
            v@ == s@,
            comma@ == ","@,
            comma@.len() == 1,
            origins_from(v@, 0) == texts(out@) + origins_from(v@, pos as int),
        decreases v.len() - pos,
    {
        let ghost before = texts(out@);
        let (end, last) = match find_from_exec(&v, &comma, pos) {
            Some(i) => {
                proof {
                    lemma_find_from_occurs(v@, comma@, pos as int);
                    assert(v@.len() == v.len());
                }
                (i, false)
            },
            None => (v.len(), true),
        };
        let (a, b) = trim_range(&v, pos, end, false);
        if a < b {
            out.push(string_of(&slice_of(&v, a, b)));
        }
        assert(texts(out@) =~= before + keep_entry(trim(v@.subrange(pos as int, end as int), false)));
        if last {
            assert(origins_from(v@, 0) =~= texts(out@));
            return out;
        }
        pos = end + 1;
    }
}

/// Whether the enforcement flag's text switches enforcement on: `true` or `1`.
pub fn parse_enable_flag(v: &str) -> (r: bool)
    ensures
        r == (v@ == "true"@ || v@ == "1"@),
{
    let c = chars_of(v);
    chars_eq(&c, &chars_of("true")) || chars_eq(&c, &chars_of("1"))
}

impl OriginPolicy {
    /// The policy that the two configuration values give: enforcement off
    /// unless the flag says otherwise, and, where no list is given, the two
    /// local development origins.
    pub fn from_config(enable: Option<&str>, origins: Option<&str>) -> (r: OriginPolicy)
        ensures
            r.enforce == (enable matches Some(e) && (e@ == "true"@ || e@ == "1"@)),
            origins matches Some(o) ==> texts(r.allowed@) == origins_from(o@, 0),
            origins is None ==> texts(r.allowed@) == origins_from(
                "http://localhost:5173,http://localhost:3000"@,
                0,
            ),
    {
        let enforce = match enable {
            Some(e) => parse_enable_flag(e),
            None => false,
        };
        let allowed = match origins {
            Some(o) => parse_allowed_origins(o),
            None => parse_allowed_origins("http://localhost:5173,http://localhost:3000"),
        };
        OriginPolicy { enforce, allowed }
    }
}

} // verus!
