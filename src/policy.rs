//! Domain policies: which `Origin`, `Referer` and extra headers an outbound
//! request carries, chosen by matching the target's host against an ordered
//! table of patterns.

use vstd::prelude::*;

verus! {

/// `regex::Regex`, carried opaquely inside a `HostPattern`.
#[verifier::external_type_specification]
#[verifier::external_body]
pub struct ExRegex(regex::Regex);

/// Whether `regex::Regex::new` accepts `pattern`.
pub uninterp spec fn regex_compiles(pattern: Seq<char>) -> bool;

/// Whether the regex compiled from `pattern` matches somewhere in `text`.
pub uninterp spec fn regex_is_match(pattern: Seq<char>, text: Seq<char>) -> bool;

/// A compiled host pattern, with the text it was compiled from; both fields
/// are only ever filled together, from one successful compilation.
pub struct HostPattern {
    source: String,
    re: regex::Regex,
}

impl View for HostPattern {
    type V = Seq<char>;

    closed spec fn view(&self) -> Seq<char> {
        self.source@
    }
}

/// Relies on `regex::Regex::new`: it fails exactly on the patterns that the
/// crate refuses, and keeps the pattern's text beside the compiled form.
#[verifier::external_body]
fn compile_pattern(p: &str) -> (r: Option<HostPattern>)
    ensures
        r is Some <==> regex_compiles(p@),
        r matches Some(x) ==> x@ == p@,
{
    match regex::Regex::new(p) {
        Ok(re) => Some(HostPattern { source: p.to_string(), re }),
        Err(_) => None,
    }
}

/// Relies on `regex::Regex::is_match`, on the regex compiled from the pattern's text.
#[verifier::external_body]
fn pattern_is_match(p: &HostPattern, text: &str) -> (r: bool)
    ensures
        r == regex_is_match(p@, text@),
{
    p.re.is_match(text)
}

/// A policy as written down, before its patterns are compiled.
pub struct PolicySource {
    /// Host patterns, as regular expressions.
    pub patterns: Vec<String>,
    /// The forged `Origin`.
    pub origin: String,
    /// The forged `Referer`.
    pub referer: String,
    /// Further headers, name and value, set after origin and referer.
    pub extra_headers: Vec<(String, String)>,
}

/// What a policy says.
pub struct PolicyView {
    pub patterns: Seq<Seq<char>>,
    pub origin: Seq<char>,
    pub referer: Seq<char>,
    pub extra_headers: Seq<(Seq<char>, Seq<char>)>,
}

/// The texts of a list of strings.
pub open spec fn string_texts(v: Seq<String>) -> Seq<Seq<char>> {
    v.map_values(|s: String| s@)
}

/// What a written-down policy says.
pub open spec fn source_view(s: PolicySource) -> PolicyView {
    PolicyView {
        patterns: string_texts(s.patterns@),
        origin: s.origin@,
        referer: s.referer@,
        extra_headers: s.extra_headers.deep_view(),
    }
}

/// A policy with compiled patterns.
pub struct DomainPolicy {
    patterns: Vec<HostPattern>,
    origin: String,
    referer: String,
    extra_headers: Vec<(String, String)>,
}

impl View for DomainPolicy {
    type V = PolicyView;

    closed spec fn view(&self) -> PolicyView {
        PolicyView {
            patterns: self.patterns@.map_values(|p: HostPattern| p@),
            origin: self.origin@,
            referer: self.referer@,
            extra_headers: self.extra_headers.deep_view(),
        }
    }
}

/// Whether one of the policy's patterns matches `host`.
pub open spec fn policy_matches(p: PolicyView, host: Seq<char>) -> bool {
    exists|k: int| 0 <= k < p.patterns.len() && regex_is_match(#[trigger] p.patterns[k], host)
}

/// The first policy at or after `i` that matches `host`.
pub open spec fn first_match_from(ps: Seq<PolicyView>, host: Seq<char>, i: int) -> Option<int>
    decreases ps.len() - i,
{
    if i < 0 || i >= ps.len() {
        None
    } else if policy_matches(ps[i], host) {
        Some(i)
    } else {
        first_match_from(ps, host, i + 1)
    }
}

/// The first policy of the table that matches `host`; `None` stands for the catch-all.
pub open spec fn first_match(ps: Seq<PolicyView>, host: Seq<char>) -> Option<int> {
    first_match_from(ps, host, 0)
}

/// The policy that a scan from `i` picks matches, and none before it does.
pub proof fn lemma_first_match_from(ps: Seq<PolicyView>, host: Seq<char>, i: int)
    requires
        0 <= i,
    ensures
        first_match_from(ps, host, i) matches Some(j) ==> i <= j < ps.len() && policy_matches(
            ps[j],
            host,
        ) && forall|k: int| i <= k < j ==> !policy_matches(#[trigger] ps[k], host),
        first_match_from(ps, host, i) is None ==> forall|k: int|
            i <= k < ps.len() ==> !policy_matches(#[trigger] ps[k], host),
    decreases ps.len() - i,
{
    if i < ps.len() && !policy_matches(ps[i], host) {
        lemma_first_match_from(ps, host, i + 1);
    }
}

/// Of two policies that both match a host, the one declared first is chosen,
/// or one declared before it: the later one never is.
pub proof fn lemma_first_declared_wins(ps: Seq<PolicyView>, host: Seq<char>, i: int, j: int)
    requires
        0 <= i < j < ps.len(),
        policy_matches(ps[i], host),
        policy_matches(ps[j], host),
    ensures
        first_match(ps, host) matches Some(m) && m <= i,
        first_match(ps, host) != Some(j),
{
    lemma_first_match_from(ps, host, 0);
}

/// A host that no pattern of the table matches gets the catch-all.
pub proof fn lemma_unmatched_host_is_catch_all(ps: Seq<PolicyView>, host: Seq<char>)
    requires
        forall|k: int| 0 <= k < ps.len() ==> !policy_matches(#[trigger] ps[k], host),
    ensures
        first_match(ps, host) is None,
{
    lemma_first_match_from(ps, host, 0);
}

impl DomainPolicy {
    /// Whether one of the policy's patterns matches `host`.
    pub fn matches(&self, host: &str) -> (r: bool)
        ensures
            r == policy_matches(self@, host@),
    {
        let mut k: usize = 0;
        while k < self.patterns.len()
            invariant
                k <= self.patterns.len(),
                forall|m: int| 0 <= m < k ==> !regex_is_match(#[trigger] self@.patterns[m], host@),
            decreases self.patterns.len() - k,
        {
            if pattern_is_match(&self.patterns[k], host) {
                assert(regex_is_match(self@.patterns[k as int], host@));
                return true;
            }
            k += 1;
        }
        false
    }

    /// The forged `Origin`.
    pub fn origin(&self) -> (r: &str)
        ensures
            r@ == self@.origin,
    {
        self.origin.as_str()
    }

    /// The forged `Referer`.
    pub fn referer(&self) -> (r: &str)
        ensures
            r@ == self@.referer,
    {
        self.referer.as_str()
    }

    /// The extra headers.
    pub fn extra_headers(&self) -> (r: &Vec<(String, String)>)
        ensures
            r.deep_view() == self@.extra_headers,
    {
        &self.extra_headers
    }
}

/// The ordered policy table, with compiled patterns; the catch-all is implicit.
pub struct PolicyTable {
    policies: Vec<DomainPolicy>,
}

impl View for PolicyTable {
    type V = Seq<PolicyView>;

    closed spec fn view(&self) -> Seq<PolicyView> {
        self.policies@.map_values(|p: DomainPolicy| p@)
    }
}

/// Whether every pattern of every written-down policy compiles.
pub open spec fn all_compile(sources: Seq<PolicySource>) -> bool {
    forall|i: int, k: int|
        0 <= i < sources.len() && 0 <= k < sources[i].patterns@.len() ==> regex_compiles(
            #[trigger] sources[i].patterns@[k]@,
        )
}

/// A pattern that does not compile.
pub struct InvalidPattern {
    pub pattern: String,
}

fn compile_policy(s: &PolicySource) -> (r: Result<DomainPolicy, InvalidPattern>)
    ensures
        r matches Ok(p) ==> p@ == source_view(*s),
        r is Ok <==> forall|k: int|
            0 <= k < s.patterns@.len() ==> regex_compiles(#[trigger] s.patterns@[k]@),
        r matches Err(e) ==> !regex_compiles(e.pattern@) && exists|k: int|
            0 <= k < s.patterns@.len() && e.pattern@ == (#[trigger] s.patterns@[k])@,
{
    let mut pats: Vec<HostPattern> = Vec::new();
    let mut k: usize = 0;
    while k < s.patterns.len()
        invariant
            k <= s.patterns.len(),
            pats@.len() == k,
            forall|m: int| 0 <= m < k ==> regex_compiles(#[trigger] s.patterns@[m]@),
            forall|m: int| 0 <= m < k ==> (#[trigger] pats@[m])@ == s.patterns@[m]@,
        decreases s.patterns.len() - k,
    {
        match compile_pattern(s.patterns[k].as_str()) {
            Some(p) => {
                pats.push(p);
            },
            None => {
                return Err(InvalidPattern { pattern: s.patterns[k].clone() });
            },
        }
        k += 1;
    }
    let p = DomainPolicy {
        patterns: pats,
        origin: s.origin.clone(),
        referer: s.referer.clone(),
        extra_headers: clone_pairs(&s.extra_headers),
    };
    assert(p@.patterns =~= source_view(*s).patterns);
    Ok(p)
}

/// A copy of a list of name/value pairs.
pub fn clone_pairs(v: &Vec<(String, String)>) -> (r: Vec<(String, String)>)
    ensures
        r.deep_view() == v.deep_view(),
{
    let mut out: Vec<(String, String)> = Vec::new();
    let mut i: usize = 0;
    while i < v.len()
        invariant
            i <= v.len(),
            out@.len() == i,
            forall|k: int|
                0 <= k < i ==> (#[trigger] out@[k]).0@ == v@[k].0@ && out@[k].1@ == v@[k].1@,
        decreases v.len() - i,
    {
        let a = v[i].0.clone();
        let b = v[i].1.clone();
        out.push((a, b));
        i += 1;
    }
    assert(out.deep_view() =~= v.deep_view());
    out
}

impl PolicyTable {
    /// Compiles a written-down table; where a pattern does not compile, the
    /// first such pattern is reported.
    pub fn compile(sources: &Vec<PolicySource>) -> (r: Result<PolicyTable, InvalidPattern>)
        ensures
            r is Ok <==> all_compile(sources@),
            r matches Ok(t) ==> t@ == sources@.map_values(|s: PolicySource| source_view(s)),
            r matches Err(e) ==> !regex_compiles(e.pattern@) && exists|i: int, k: int|
                0 <= i < sources@.len() && 0 <= k < sources@[i].patterns@.len() && e.pattern@ == (
                #[trigger] sources@[i].patterns@[k])@,
    {
        let mut ps: Vec<DomainPolicy> = Vec::new();
        let mut i: usize = 0;
        while i < sources.len()
            invariant
                i <= sources.len(),
                ps@.len() == i,
                forall|m: int| 0 <= m < i ==> (#[trigger] ps@[m])@ == source_view(sources@[m]),
                forall|m: int, k: int|
                    0 <= m < i && 0 <= k < sources@[m].patterns@.len() ==> regex_compiles(
                        #[trigger] sources@[m].patterns@[k]@,
                    ),
            decreases sources.len() - i,
        {
            match compile_policy(&sources[i]) {
                Ok(p) => {
                    ps.push(p);
                },
                Err(e) => {
                    return Err(e);
                },
            }
            i += 1;
        }
        let t = PolicyTable { policies: ps };
        assert(t@ =~= sources@.map_values(|s: PolicySource| source_view(s)));
        Ok(t)
    }

    /// The index of the first policy that matches `host`; `None` where only
    /// the catch-all does.
    pub fn find_policy(&self, host: &str) -> (r: Option<usize>)
        ensures
            r matches Some(i) ==> first_match(self@, host@) == Some(i as int),
            r is None ==> first_match(self@, host@) is None,
    {
        let mut i: usize = 0;
        while i < self.policies.len()
            invariant
                i <= self.policies.len(),
                first_match(self@, host@) == first_match_from(self@, host@, i as int),
            decreases self.policies.len() - i,
        {
            if self.policies[i].matches(host) {
                return Some(i);
            }
            i += 1;
        }
        None
    }

    /// The policy at `i`.
    pub fn policy(&self, i: usize) -> (r: &DomainPolicy)
        requires
            i < self@.len(),
        ensures
            r@ == self@[i as int],
    {
        &self.policies[i]
    }

    /// The number of policies, the catch-all not counted.
    pub fn len(&self) -> (r: usize)
        ensures
            r == self@.len(),
    {
        self.policies.len()
    }
}

/// What a policy written with literal texts says.
pub open spec fn literal_policy(
    patterns: Seq<&str>,
    origin: &str,
    referer: &str,
    extra: Seq<(&str, &str)>,
) -> PolicyView {
    PolicyView {
        patterns: patterns.map_values(|p: &str| p@),
        origin: origin@,
        referer: referer@,
        extra_headers: extra.map_values(|e: (&str, &str)| (e.0@, e.1@)),
    }
}

/// The built-in policy at position `k` of the table.
pub open spec fn builtin_entry(k: int) -> PolicyView {
    if k == 0 {
        literal_policy(
            seq![
                r"(?i)\.padorupado\.ru$",
                r"(?i)\.kwikie\.ru$",
            ],
            "https://kwik.si",
            "https://kwik.si/",
            seq![("cache-control", "no-cache"), ("pragma", "no-cache")],
        )
    } else if k == 1 {
        literal_policy(
            seq![
                r"(?i)\.streamtape\.to$",
            ],
            "https://streamtape.to",
            "https://streamtape.to/",
            Seq::empty(),
        )
    } else if k == 2 {
        literal_policy(
            seq![
                r"(?i)vidcache\.net$",
            ],
            "https://www.animegg.org",
            "https://www.animegg.org/",
            Seq::empty(),
        )
    } else if k == 3 {
        literal_policy(
            seq![
                r"(?i)krussdomi\.com$",
                r"(?i)revolutionizingtheweb\.xyz$",
                r"(?i)nextgentechnologytrends\.xyz$",
                r"(?i)smartinvestmentstrategies\.xyz$",
                r"(?i)creativedesignstudioxyz\.xyz$",
                r"(?i)breakingdigitalboundaries\.xyz$",
                r"(?i)ultimatetechinnovation\.xyz$",
            ],
            "https://krussdomi.com",
            "https://krussdomi.com/",
            Seq::empty(),
        )
    } else if k == 4 {
        literal_policy(
            seq![
                r"(?i)\.akamaized\.net$",
            ],
            "https://players.akamai.com",
            "https://players.akamai.com/",
            Seq::empty(),
        )
    } else if k == 5 {
        literal_policy(
            seq![
                r"(?i)(?:^|\.)shadowlandschronicles\.",
                r"(?i)digitalshinecollective\.xyz$",
                r"(?i)thrivequesthub\.xyz$",
                r"(?i)novaedgelabs\.xyz$",
            ],
            "https://cloudnestra.com",
            "https://cloudnestra.com/",
            Seq::empty(),
        )
    } else if k == 6 {
        literal_policy(
            seq![
                r"(?i)(?:^|\.)viddsn\.",
                r"(?i)\.anilike\.cyou$",
            ],
            "https://vidwish.live/",
            "https://vidwish.live/",
            Seq::empty(),
        )
    } else if k == 7 {
        literal_policy(
            seq![
                r"(?i)(?:^|\.)dotstream\.",
                r"(?i)(?:^|\.)playcloud1\.",
            ],
            "https://megaplay.buzz/",
            "https://megaplay.buzz/",
            Seq::empty(),
        )
    } else if k == 8 {
        literal_policy(
            seq![
                r"(?i)\.cloudfront\.net$",
            ],
            "https://d2zihajmogu5jn.cloudfront.net",
            "https://d2zihajmogu5jn.cloudfront.net/",
            Seq::empty(),
        )
    } else if k == 9 {
        literal_policy(
            seq![
                r"(?i)\.ttvnw\.net$",
            ],
            "https://www.twitch.tv",
            "https://www.twitch.tv/",
            Seq::empty(),
        )
    } else if k == 10 {
        literal_policy(
            seq![
                r"(?i)\.xx\.fbcdn\.net$",
            ],
            "https://www.facebook.com",
            "https://www.facebook.com/",
            Seq::empty(),
        )
    } else if k == 11 {
        literal_policy(
            seq![
                r"(?i)\.anih1\.top$",
                r"(?i)\.xyk3\.top$",
            ],
            "https://ee.anih1.top",
            "https://ee.anih1.top/",
            Seq::empty(),
        )
    } else if k == 12 {
        literal_policy(
            seq![
                r"(?i)\.premilkyway\.com$",
            ],
            "https://uqloads.xyz",
            "https://uqloads.xyz/",
            Seq::empty(),
        )
    } else if k == 13 {
        literal_policy(
            seq![
                r"(?i)\.streamcdn\.com$",
            ],
            "https://anime.uniquestream.net",
            "https://anime.uniquestream.net/",
            Seq::empty(),
        )
    } else if k == 14 {
        literal_policy(
            seq![
                r"(?i)\.raffaellocdn\.net$",
                r"(?i)\.feetcdn\.com$",
                r"(?i)clearskydrift45\.site$",
            ],
            "https://kerolaunochan.online",
            "https://kerolaunochan.online/",
            Seq::empty(),
        )
    } else if k == 15 {
        literal_policy(
            seq![
                r"(?i)dewbreeze84\.online$",
                r"(?i)cloudydrift38\.site$",
                r"(?i)sunshinerays93\.live$",
                r"(?i)clearbluesky72\.wiki$",
                r"(?i)breezygale56\.online$",
                r"(?i)frostbite27\.pro$",
                r"(?i)frostywinds57\.live$",
                r"(?i)icyhailstorm64\.wiki$",
                r"(?i)icyhailstorm29\.online$",
                r"(?i)windflash93\.xyz$",
                r"(?i)stormdrift27\.site$",
                r"(?i)tempestcloud61\.wiki$",
                r"(?i)sunburst66\.pro$",
                r"(?i)douvid\.xyz$",
            ],
            "https://megacloud.blog",
            "https://megacloud.blog/",
            seq![("cache-control", "no-cache"), ("pragma", "no-cache")],
        )
    } else if k == 16 {
        literal_policy(
            seq![
                r"(?i)\.echovideo\.to$",
            ],
            "https://aniwave.se",
            "https://aniwave.se/",
            Seq::empty(),
        )
    } else if k == 17 {
        literal_policy(
            seq![
                r"(?i)\.vid-cdn\.xyz$",
            ],
            "https://anizone.to/",
            "https://anizone.to/",
            Seq::empty(),
        )
    } else if k == 18 {
        literal_policy(
            seq![
                r"(?i)\.1stkmgv1\.com$",
            ],
            "https://animeyy.com",
            "https://animeyy.com/",
            Seq::empty(),
        )
    } else if k == 19 {
        literal_policy(
            seq![
                r"(?i)lightningspark77\.pro$",
                r"(?i)thunderwave48\.xyz$",
                r"(?i)stormwatch95\.site$",
                r"(?i)windyrays29\.online$",
                r"(?i)thunderstrike77\.online$",
                r"(?i)lightningflash39\.live$",
                r"(?i)cloudburst82\.xyz$",
                r"(?i)drizzleshower19\.site$",
                r"(?i)rainstorm92\.xyz$",
            ],
            "https://megacloud.club",
            "https://megacloud.club/",
            Seq::empty(),
        )
    } else if k == 20 {
        literal_policy(
            seq![
                r"(?i)cloudburst99\.xyz$",
                r"(?i)frostywinds73\.pro$",
                r"(?i)stormwatch39\.live$",
                r"(?i)sunnybreeze16\.live$",
                r"(?i)mistydawn62\.pro$",
                r"(?i)lightningbolt21\.live$",
                r"(?i)gentlebreeze85\.xyz$",
            ],
            "https://videostr.net",
            "https://videostr.net/",
            Seq::empty(),
        )
    } else if k == 21 {
        literal_policy(
            seq![
                r"(?i)vmeas\.cloud$",
            ],
            "https://vidmoly.to",
            "https://vidmoly.to/",
            Seq::empty(),
        )
    } else if k == 22 {
        literal_policy(
            seq![
                r"(?i)nextwaveinitiative\.xyz$",
            ],
            "https://edgedeliverynetwork.org",
            "https://edgedeliverynetwork.org/",
            Seq::empty(),
        )
    } else if k == 23 {
        literal_policy(
            seq![
                r"(?i)lightningbolts\.ru$",
                r"(?i)lightningbolt\.site$",
                r"(?i)vyebzzqlojvrl\.top$",
            ],
            "https://vidsrc.cc",
            "https://vidsrc.cc/",
            Seq::empty(),
        )
    } else if k == 24 {
        literal_policy(
            seq![
                r"(?i)vidlvod\.store$",
            ],
            "https://vidlink.pro",
            "https://vidlink.pro/",
            Seq::empty(),
        )
    } else if k == 25 {
        literal_policy(
            seq![
                r"(?i)sunnybreeze16\.live$",
            ],
            "https://megacloud.store",
            "https://megacloud.store/",
            Seq::empty(),
        )
    } else if k == 26 {
        literal_policy(
            seq![
                r"(?i)heatwave90\.pro$",
                r"(?i)humidmist27\.wiki$",
                r"(?i)frozenbreeze65\.live$",
                r"(?i)drizzlerain73\.online$",
                r"(?i)sunrays81\.xyz$",
            ],
            "https://kerolaunochan.live",
            "https://kerolaunochan.live/",
            Seq::empty(),
        )
    } else if k == 27 {
        literal_policy(
            seq![
                r"(?i)\.vkcdn5\.com$",
            ],
            "https://vkspeed.com",
            "https://vkspeed.com/",
            Seq::empty(),
        )
    } else {
        literal_policy(
            seq![
                r"(?i)embed\.su$",
                r"(?i)usbigcdn\.cc$",
                r"(?i)\.congacdn\.cc$",
            ],
            "https://embed.su",
            "https://embed.su/",
            Seq::empty(),
        )
    }
}

/// The built-in policy table, in the order in which it is consulted.
pub open spec fn builtin_table() -> Seq<PolicyView> {
    Seq::new(29, |k: int| builtin_entry(k))
}

/// The only extra headers of the built-in table are `cache-control` and
/// `pragma`, both `no-cache`.
pub proof fn lemma_builtin_extra_headers(i: int, j: int)
    requires
        0 <= i < builtin_table().len(),
        0 <= j < builtin_table()[i].extra_headers.len(),
    ensures
        builtin_table()[i].extra_headers[j] == ("cache-control"@, "no-cache"@)
            || builtin_table()[i].extra_headers[j] == ("pragma"@, "no-cache"@),
{
}

/// Every origin and referer of the built-in table is printable ASCII.
pub proof fn lemma_builtin_values_printable(i: int)
    requires
        0 <= i < builtin_table().len(),
    ensures
        forall|k: int|
            0 <= k < builtin_table()[i].origin.len() ==> ' ' <= #[trigger] builtin_table()[i].origin[k]
                <= '~',
        forall|k: int|
            0 <= k < builtin_table()[i].referer.len() ==> ' ' <= #[trigger] builtin_table()[i].referer[k]
                <= '~',
{
    reveal_strlit("https://anime.uniquestream.net");
    reveal_strlit("https://anime.uniquestream.net/");
    reveal_strlit("https://animeyy.com");
    reveal_strlit("https://animeyy.com/");
    reveal_strlit("https://aniwave.se");
    reveal_strlit("https://aniwave.se/");
    reveal_strlit("https://anizone.to/");
    reveal_strlit("https://cloudnestra.com");
    reveal_strlit("https://cloudnestra.com/");
    reveal_strlit("https://d2zihajmogu5jn.cloudfront.net");
    reveal_strlit("https://d2zihajmogu5jn.cloudfront.net/");
    reveal_strlit("https://edgedeliverynetwork.org");
    reveal_strlit("https://edgedeliverynetwork.org/");
    reveal_strlit("https://ee.anih1.top");
    reveal_strlit("https://ee.anih1.top/");
    reveal_strlit("https://embed.su");
    reveal_strlit("https://embed.su/");
    reveal_strlit("https://kerolaunochan.live");
    reveal_strlit("https://kerolaunochan.live/");
    reveal_strlit("https://kerolaunochan.online");
    reveal_strlit("https://kerolaunochan.online/");
    reveal_strlit("https://krussdomi.com");
    reveal_strlit("https://krussdomi.com/");
    reveal_strlit("https://kwik.si");
    reveal_strlit("https://kwik.si/");
    reveal_strlit("https://megacloud.blog");
    reveal_strlit("https://megacloud.blog/");
    reveal_strlit("https://megacloud.club");
    reveal_strlit("https://megacloud.club/");
    reveal_strlit("https://megacloud.store");
    reveal_strlit("https://megacloud.store/");
    reveal_strlit("https://megaplay.buzz/");
    reveal_strlit("https://players.akamai.com");
    reveal_strlit("https://players.akamai.com/");
    reveal_strlit("https://streamtape.to");
    reveal_strlit("https://streamtape.to/");
    reveal_strlit("https://uqloads.xyz");
    reveal_strlit("https://uqloads.xyz/");
    reveal_strlit("https://videostr.net");
    reveal_strlit("https://videostr.net/");
    reveal_strlit("https://vidlink.pro");
    reveal_strlit("https://vidlink.pro/");
    reveal_strlit("https://vidmoly.to");
    reveal_strlit("https://vidmoly.to/");
    reveal_strlit("https://vidsrc.cc");
    reveal_strlit("https://vidsrc.cc/");
    reveal_strlit("https://vidwish.live/");
    reveal_strlit("https://vkspeed.com");
    reveal_strlit("https://vkspeed.com/");
    reveal_strlit("https://www.animegg.org");
    reveal_strlit("https://www.animegg.org/");
    reveal_strlit("https://www.facebook.com");
    reveal_strlit("https://www.facebook.com/");
    reveal_strlit("https://www.twitch.tv");
    reveal_strlit("https://www.twitch.tv/");
}

fn source_of(patterns: Vec<&str>, origin: &str, referer: &str, extra: Vec<(&str, &str)>) -> (r:
    PolicySource)
    ensures
        source_view(r) == literal_policy(patterns@, origin, referer, extra@),
{
    let mut ps: Vec<String> = Vec::new();
    let mut i: usize = 0;
    while i < patterns.len()
        invariant
            i <= patterns.len(),
            ps@.len() == i,
            forall|k: int| 0 <= k < i ==> (#[trigger] ps@[k])@ == patterns@[k]@,
        decreases patterns.len() - i,
    {
        let p: &str = patterns[i];
        let o = p.to_owned();
        assert(o@ == patterns@[i as int]@);
        ps.push(o);
        i += 1;
    }
    let mut es: Vec<(String, String)> = Vec::new();
    let mut j: usize = 0;
    while j < extra.len()
        invariant
            j <= extra.len(),
            es@.len() == j,
            forall|k: int|
                0 <= k < j ==> (#[trigger] es@[k]).0@ == extra@[k].0@ && es@[k].1@ == extra@[k].1@,
        decreases extra.len() - j,
    {
        let (k, v) = extra[j];
        let ko = k.to_owned();
        let vo = v.to_owned();
        es.push((ko, vo));
        j += 1;
    }
    assert(string_texts(ps@) =~= patterns@.map_values(|p: &str| p@));
    assert(es.deep_view() =~= extra@.map_values(|e: (&str, &str)| (e.0@, e.1@)));
    PolicySource {
        patterns: ps,
        origin: origin.to_owned(),
        referer: referer.to_owned(),
        extra_headers: es,
    }
}

/// The built-in policy table, written down.
#[verifier::rlimit(100)]
#[verifier::spinoff_prover]
pub fn builtin_policy_sources() -> (r: Vec<PolicySource>)
    ensures
        r@.map_values(|s: PolicySource| source_view(s)) == builtin_table(),
{
    let mut t: Vec<PolicySource> = Vec::new();
    let p0 = source_of(
        vec![
            r"(?i)\.padorupado\.ru$",
            r"(?i)\.kwikie\.ru$",
        ],
        "https://kwik.si",
        "https://kwik.si/",
        vec![("cache-control", "no-cache"), ("pragma", "no-cache")],
    );
    assert(source_view(p0) == builtin_entry(0)) by {
        assert(source_view(p0).patterns == builtin_entry(0).patterns);
        assert(source_view(p0).extra_headers == builtin_entry(0).extra_headers);
    }
    t.push(p0);
    let p1 = source_of(
        vec![
            r"(?i)\.streamtape\.to$",
        ],
        "https://streamtape.to",
        "https://streamtape.to/",
        Vec::<(&str, &str)>::new(),
    );
    assert(source_view(p1) == builtin_entry(1)) by {
        assert(source_view(p1).patterns == builtin_entry(1).patterns);
        assert(source_view(p1).extra_headers == builtin_entry(1).extra_headers);
    }
    t.push(p1);
    let p2 = source_of(
        vec![
            r"(?i)vidcache\.net$",
        ],
        "https://www.animegg.org",
        "https://www.animegg.org/",
        Vec::<(&str, &str)>::new(),
    );
    assert(source_view(p2) == builtin_entry(2)) by {
        assert(source_view(p2).patterns == builtin_entry(2).patterns);
        assert(source_view(p2).extra_headers == builtin_entry(2).extra_headers);
    }
    t.push(p2);
    let p3 = source_of(
        vec![
            r"(?i)krussdomi\.com$",
            r"(?i)revolutionizingtheweb\.xyz$",
            r"(?i)nextgentechnologytrends\.xyz$",
            r"(?i)smartinvestmentstrategies\.xyz$",
            r"(?i)creativedesignstudioxyz\.xyz$",
            r"(?i)breakingdigitalboundaries\.xyz$",
            r"(?i)ultimatetechinnovation\.xyz$",
        ],
        "https://krussdomi.com",
        "https://krussdomi.com/",
        Vec::<(&str, &str)>::new(),
    );
    assert(source_view(p3) == builtin_entry(3)) by {
        assert(source_view(p3).patterns == builtin_entry(3).patterns);
        assert(source_view(p3).extra_headers == builtin_entry(3).extra_headers);
    }
    t.push(p3);
    let p4 = source_of(
        vec![
            r"(?i)\.akamaized\.net$",
        ],
        "https://players.akamai.com",
        "https://players.akamai.com/",
        Vec::<(&str, &str)>::new(),
    );
    assert(source_view(p4) == builtin_entry(4)) by {
        assert(source_view(p4).patterns == builtin_entry(4).patterns);
        assert(source_view(p4).extra_headers == builtin_entry(4).extra_headers);
    }
    t.push(p4);
    let p5 = source_of(
        vec![
            r"(?i)(?:^|\.)shadowlandschronicles\.",
            r"(?i)digitalshinecollective\.xyz$",
            r"(?i)thrivequesthub\.xyz$",
            r"(?i)novaedgelabs\.xyz$",
        ],
        "https://cloudnestra.com",
        "https://cloudnestra.com/",
        Vec::<(&str, &str)>::new(),
    );
    assert(source_view(p5) == builtin_entry(5)) by {
        assert(source_view(p5).patterns == builtin_entry(5).patterns);
        assert(source_view(p5).extra_headers == builtin_entry(5).extra_headers);
    }
    t.push(p5);
    let p6 = source_of(
        vec![
            r"(?i)(?:^|\.)viddsn\.",
            r"(?i)\.anilike\.cyou$",
        ],
        "https://vidwish.live/",
        "https://vidwish.live/",
        Vec::<(&str, &str)>::new(),
    );
    assert(source_view(p6) == builtin_entry(6)) by {
        assert(source_view(p6).patterns == builtin_entry(6).patterns);
        assert(source_view(p6).extra_headers == builtin_entry(6).extra_headers);
    }
    t.push(p6);
    let p7 = source_of(
        vec![
            r"(?i)(?:^|\.)dotstream\.",
            r"(?i)(?:^|\.)playcloud1\.",
        ],
        "https://megaplay.buzz/",
        "https://megaplay.buzz/",
        Vec::<(&str, &str)>::new(),
    );
    assert(source_view(p7) == builtin_entry(7)) by {
        assert(source_view(p7).patterns == builtin_entry(7).patterns);
        assert(source_view(p7).extra_headers == builtin_entry(7).extra_headers);
    }
    t.push(p7);
    let p8 = source_of(
        vec![
            r"(?i)\.cloudfront\.net$",
        ],
        "https://d2zihajmogu5jn.cloudfront.net",
        "https://d2zihajmogu5jn.cloudfront.net/",
        Vec::<(&str, &str)>::new(),
    );
    assert(source_view(p8) == builtin_entry(8)) by {
        assert(source_view(p8).patterns == builtin_entry(8).patterns);
        assert(source_view(p8).extra_headers == builtin_entry(8).extra_headers);
    }
    t.push(p8);
    let p9 = source_of(
        vec![
            r"(?i)\.ttvnw\.net$",
        ],
        "https://www.twitch.tv",
        "https://www.twitch.tv/",
        Vec::<(&str, &str)>::new(),
    );
    assert(source_view(p9) == builtin_entry(9)) by {
        assert(source_view(p9).patterns == builtin_entry(9).patterns);
        assert(source_view(p9).extra_headers == builtin_entry(9).extra_headers);
    }
    t.push(p9);
    let p10 = source_of(
        vec![
            r"(?i)\.xx\.fbcdn\.net$",
        ],
        "https://www.facebook.com",
        "https://www.facebook.com/",
        Vec::<(&str, &str)>::new(),
    );
    assert(source_view(p10) == builtin_entry(10)) by {
        assert(source_view(p10).patterns == builtin_entry(10).patterns);
        assert(source_view(p10).extra_headers == builtin_entry(10).extra_headers);
    }
    t.push(p10);
    let p11 = source_of(
        vec![
            r"(?i)\.anih1\.top$",
            r"(?i)\.xyk3\.top$",
        ],
        "https://ee.anih1.top",
        "https://ee.anih1.top/",
        Vec::<(&str, &str)>::new(),
    );
    assert(source_view(p11) == builtin_entry(11)) by {
        assert(source_view(p11).patterns == builtin_entry(11).patterns);
        assert(source_view(p11).extra_headers == builtin_entry(11).extra_headers);
    }
    t.push(p11);
    let p12 = source_of(
        vec![
            r"(?i)\.premilkyway\.com$",
        ],
        "https://uqloads.xyz",
        "https://uqloads.xyz/",
        Vec::<(&str, &str)>::new(),
    );
    assert(source_view(p12) == builtin_entry(12)) by {
        assert(source_view(p12).patterns == builtin_entry(12).patterns);
        assert(source_view(p12).extra_headers == builtin_entry(12).extra_headers);
    }
    t.push(p12);
    let p13 = source_of(
        vec![
            r"(?i)\.streamcdn\.com$",
        ],
        "https://anime.uniquestream.net",
        "https://anime.uniquestream.net/",
        Vec::<(&str, &str)>::new(),
    );
    assert(source_view(p13) == builtin_entry(13)) by {
        assert(source_view(p13).patterns == builtin_entry(13).patterns);
        assert(source_view(p13).extra_headers == builtin_entry(13).extra_headers);
    }
    t.push(p13);
    let p14 = source_of(
        vec![
            r"(?i)\.raffaellocdn\.net$",
            r"(?i)\.feetcdn\.com$",
            r"(?i)clearskydrift45\.site$",
        ],
        "https://kerolaunochan.online",
        "https://kerolaunochan.online/",
        Vec::<(&str, &str)>::new(),
    );
    assert(source_view(p14) == builtin_entry(14)) by {
        assert(source_view(p14).patterns == builtin_entry(14).patterns);
        assert(source_view(p14).extra_headers == builtin_entry(14).extra_headers);
    }
    t.push(p14);
    let p15 = source_of(
        vec![
            r"(?i)dewbreeze84\.online$",
            r"(?i)cloudydrift38\.site$",
            r"(?i)sunshinerays93\.live$",
            r"(?i)clearbluesky72\.wiki$",
            r"(?i)breezygale56\.online$",
            r"(?i)frostbite27\.pro$",
            r"(?i)frostywinds57\.live$",
            r"(?i)icyhailstorm64\.wiki$",
            r"(?i)icyhailstorm29\.online$",
            r"(?i)windflash93\.xyz$",
            r"(?i)stormdrift27\.site$",
            r"(?i)tempestcloud61\.wiki$",
            r"(?i)sunburst66\.pro$",
            r"(?i)douvid\.xyz$",
        ],
        "https://megacloud.blog",
        "https://megacloud.blog/",
        vec![("cache-control", "no-cache"), ("pragma", "no-cache")],
    );
    assert(source_view(p15) == builtin_entry(15)) by {
        assert(source_view(p15).patterns == builtin_entry(15).patterns);
        assert(source_view(p15).extra_headers == builtin_entry(15).extra_headers);
    }
    t.push(p15);
    let p16 = source_of(
        vec![
            r"(?i)\.echovideo\.to$",
        ],
        "https://aniwave.se",
        "https://aniwave.se/",
        Vec::<(&str, &str)>::new(),
    );
    assert(source_view(p16) == builtin_entry(16)) by {
        assert(source_view(p16).patterns == builtin_entry(16).patterns);
        assert(source_view(p16).extra_headers == builtin_entry(16).extra_headers);
    }
    t.push(p16);
    let p17 = source_of(
        vec![
            r"(?i)\.vid-cdn\.xyz$",
        ],
        "https://anizone.to/",
        "https://anizone.to/",
        Vec::<(&str, &str)>::new(),
    );
    assert(source_view(p17) == builtin_entry(17)) by {
        assert(source_view(p17).patterns == builtin_entry(17).patterns);
        assert(source_view(p17).extra_headers == builtin_entry(17).extra_headers);
    }
    t.push(p17);
    let p18 = source_of(
        vec![
            r"(?i)\.1stkmgv1\.com$",
        ],
        "https://animeyy.com",
        "https://animeyy.com/",
        Vec::<(&str, &str)>::new(),
    );
    assert(source_view(p18) == builtin_entry(18)) by {
        assert(source_view(p18).patterns == builtin_entry(18).patterns);
        assert(source_view(p18).extra_headers == builtin_entry(18).extra_headers);
    }
    t.push(p18);
    let p19 = source_of(
        vec![
            r"(?i)lightningspark77\.pro$",
            r"(?i)thunderwave48\.xyz$",
            r"(?i)stormwatch95\.site$",
            r"(?i)windyrays29\.online$",
            r"(?i)thunderstrike77\.online$",
            r"(?i)lightningflash39\.live$",
            r"(?i)cloudburst82\.xyz$",
            r"(?i)drizzleshower19\.site$",
            r"(?i)rainstorm92\.xyz$",
        ],
        "https://megacloud.club",
        "https://megacloud.club/",
        Vec::<(&str, &str)>::new(),
    );
    assert(source_view(p19) == builtin_entry(19)) by {
        assert(source_view(p19).patterns == builtin_entry(19).patterns);
        assert(source_view(p19).extra_headers == builtin_entry(19).extra_headers);
    }
    t.push(p19);
    let p20 = source_of(
        vec![
            r"(?i)cloudburst99\.xyz$",
            r"(?i)frostywinds73\.pro$",
            r"(?i)stormwatch39\.live$",
            r"(?i)sunnybreeze16\.live$",
            r"(?i)mistydawn62\.pro$",
            r"(?i)lightningbolt21\.live$",
            r"(?i)gentlebreeze85\.xyz$",
        ],
        "https://videostr.net",
        "https://videostr.net/",
        Vec::<(&str, &str)>::new(),
    );
    assert(source_view(p20) == builtin_entry(20)) by {
        assert(source_view(p20).patterns == builtin_entry(20).patterns);
        assert(source_view(p20).extra_headers == builtin_entry(20).extra_headers);
    }
    t.push(p20);
    let p21 = source_of(
        vec![
            r"(?i)vmeas\.cloud$",
        ],
        "https://vidmoly.to",
        "https://vidmoly.to/",
        Vec::<(&str, &str)>::new(),
    );
    assert(source_view(p21) == builtin_entry(21)) by {
        assert(source_view(p21).patterns == builtin_entry(21).patterns);
        assert(source_view(p21).extra_headers == builtin_entry(21).extra_headers);
    }
    t.push(p21);
    let p22 = source_of(
        vec![
            r"(?i)nextwaveinitiative\.xyz$",
        ],
        "https://edgedeliverynetwork.org",
        "https://edgedeliverynetwork.org/",
        Vec::<(&str, &str)>::new(),
    );
    assert(source_view(p22) == builtin_entry(22)) by {
        assert(source_view(p22).patterns == builtin_entry(22).patterns);
        assert(source_view(p22).extra_headers == builtin_entry(22).extra_headers);
    }
    t.push(p22);
    let p23 = source_of(
        vec![
            r"(?i)lightningbolts\.ru$",
            r"(?i)lightningbolt\.site$",
            r"(?i)vyebzzqlojvrl\.top$",
        ],
        "https://vidsrc.cc",
        "https://vidsrc.cc/",
        Vec::<(&str, &str)>::new(),
    );
    assert(source_view(p23) == builtin_entry(23)) by {
        assert(source_view(p23).patterns == builtin_entry(23).patterns);
        assert(source_view(p23).extra_headers == builtin_entry(23).extra_headers);
    }
    t.push(p23);
    let p24 = source_of(
        vec![
            r"(?i)vidlvod\.store$",
        ],
        "https://vidlink.pro",
        "https://vidlink.pro/",
        Vec::<(&str, &str)>::new(),
    );
    assert(source_view(p24) == builtin_entry(24)) by {
        assert(source_view(p24).patterns == builtin_entry(24).patterns);
        assert(source_view(p24).extra_headers == builtin_entry(24).extra_headers);
    }
    t.push(p24);
    let p25 = source_of(
        vec![
            r"(?i)sunnybreeze16\.live$",
        ],
        "https://megacloud.store",
        "https://megacloud.store/",
        Vec::<(&str, &str)>::new(),
    );
    assert(source_view(p25) == builtin_entry(25)) by {
        assert(source_view(p25).patterns == builtin_entry(25).patterns);
        assert(source_view(p25).extra_headers == builtin_entry(25).extra_headers);
    }
    t.push(p25);
    let p26 = source_of(
        vec![
            r"(?i)heatwave90\.pro$",
            r"(?i)humidmist27\.wiki$",
            r"(?i)frozenbreeze65\.live$",
            r"(?i)drizzlerain73\.online$",
            r"(?i)sunrays81\.xyz$",
        ],
        "https://kerolaunochan.live",
        "https://kerolaunochan.live/",
        Vec::<(&str, &str)>::new(),
    );
    assert(source_view(p26) == builtin_entry(26)) by {
        assert(source_view(p26).patterns == builtin_entry(26).patterns);
        assert(source_view(p26).extra_headers == builtin_entry(26).extra_headers);
    }
    t.push(p26);
    let p27 = source_of(
        vec![
            r"(?i)\.vkcdn5\.com$",
        ],
        "https://vkspeed.com",
        "https://vkspeed.com/",
        Vec::<(&str, &str)>::new(),
    );
    assert(source_view(p27) == builtin_entry(27)) by {
        assert(source_view(p27).patterns == builtin_entry(27).patterns);
        assert(source_view(p27).extra_headers == builtin_entry(27).extra_headers);
    }
    t.push(p27);
    let p28 = source_of(
        vec![
            r"(?i)embed\.su$",
            r"(?i)usbigcdn\.cc$",
            r"(?i)\.congacdn\.cc$",
        ],
        "https://embed.su",
        "https://embed.su/",
        Vec::<(&str, &str)>::new(),
    );
    assert(source_view(p28) == builtin_entry(28)) by {
        assert(source_view(p28).patterns == builtin_entry(28).patterns);
        assert(source_view(p28).extra_headers == builtin_entry(28).extra_headers);
    }
    t.push(p28);
    assert(t@.len() == builtin_table().len());
    assert(t@.map_values(|s: PolicySource| source_view(s)) =~= builtin_table());
    t
}

} // verus!
