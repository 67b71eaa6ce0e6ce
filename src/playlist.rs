//! Rewriting of HLS playlists: every reference in the text is resolved
//! against the playlist's own location and replaced by a URL that routes
//! the fetch back through this proxy.

use vstd::prelude::*;
use crate::percent::{encode_component, encode_spec};
use crate::text::{
    chars_eq, chars_of, contains, find, find_from, find_from_exec, lemma_find_from_occurs,
    occurs_at_exec, opt_str, push_all, slice_of, starts_with, string_of, trim,
    trim_range,
};
use crate::weburl::{get_url, resolve_spec, WebUrl};

verus! {

/// The proxy's own URL for `target`: `/?url=` and the percent-encoded target,
/// then `&headers=` and the caller's header blob as received, if there is one.
pub open spec fn proxied_spec(target: Seq<char>, headers: Option<Seq<char>>) -> Seq<char> {
    "/?url="@ + encode_spec(target) + match headers {
        Some(h) => "&headers="@ + h,
        None => Seq::empty(),
    }
}

/// The proxied URL of a reference `raw` found in a playlist fetched from `base`.
pub open spec fn proxied_ref(raw: Seq<char>, base: Seq<char>, headers: Option<Seq<char>>) -> Seq<
    char,
> {
    proxied_spec(resolve_spec(raw, base), headers)
}

/// A key tag with a quoted `URI="..."` value: only the quoted value is replaced.
pub open spec fn key_line(line: Seq<char>, base: Seq<char>, headers: Option<Seq<char>>) -> Option<
    Seq<char>,
> {
    if starts_with(line, "#EXT-X-KEY"@) {
        match find(line, "URI=\""@) {
            Some(u) => {
                let st = u + "URI=\""@.len();
                match find_from(line, "\""@, st) {
                    Some(q) => Some(
                        line.subrange(0, st) + proxied_ref(line.subrange(st, q), base, headers)
                            + line.subrange(q, line.len() as int),
                    ),
                    None => None,
                }
            },
            None => None,
        }
    } else {
        None
    }
}

/// A map tag `#EXT-X-MAP:URI="..."` whose value runs to the last character.
pub open spec fn is_map_line(line: Seq<char>) -> bool {
    line.len() > "#EXT-X-MAP:URI=\""@.len() && starts_with(line, "#EXT-X-MAP:URI=\""@)
}

/// The rewritten map tag.
pub open spec fn map_line(line: Seq<char>, base: Seq<char>, headers: Option<Seq<char>>) -> Seq<
    char,
> {
    let n = "#EXT-X-MAP:URI=\""@.len() as int;
    "#EXT-X-MAP:URI=\""@ + proxied_ref(line.subrange(n, line.len() - 1), base, headers) + "\""@
}

/// A tag that names a `URI=` or `URL=` attribute after a `:`.
pub open spec fn is_attr_line(line: Seq<char>) -> bool {
    &&& (contains(line, "URI="@) || contains(line, "URL="@))
    &&& contains(line, ":"@)
}

/// One attribute `KEY=value`: where the trimmed key is exactly `URI` or `URL`,
/// its value, trimmed and unquoted, becomes a quoted proxied URL; any other
/// attribute stays as it is.
pub open spec fn rewrite_attr(a: Seq<char>, base: Seq<char>, headers: Option<Seq<char>>) -> Seq<
    char,
> {
    match find(a, "="@) {
        Some(e) => {
            let key = trim(a.subrange(0, e), false);
            let value = trim(trim(a.subrange(e + 1, a.len() as int), false), true);
            if key == "URI"@ || key == "URL"@ {
                key + "=\""@ + proxied_ref(value, base, headers) + "\""@
            } else {
                a
            }
        },
        None => a,
    }
}

/// The comma-separated attributes of `s` from position `start` on, each rewritten,
/// joined again with commas.
pub open spec fn rewrite_attrs_from(
    s: Seq<char>,
    start: int,
    base: Seq<char>,
    headers: Option<Seq<char>>,
) -> Seq<char>
    decreases s.len() - start,
{
    if start < 0 || start > s.len() {
        Seq::empty()
    } else {
        match find_from(s, ","@, start) {
            Some(i) => if start <= i < s.len() {
                rewrite_attr(s.subrange(start, i), base, headers) + ","@ + rewrite_attrs_from(
                    s,
                    i + 1,
                    base,
                    headers,
                )
            } else {
                Seq::empty()
            },
            None => rewrite_attr(s.subrange(start, s.len() as int), base, headers),
        }
    }
}

/// The rewritten attribute tag: the tag name up to its first `:` stays, the
/// attributes after it are rewritten one by one.
pub open spec fn attr_line(line: Seq<char>, base: Seq<char>, headers: Option<Seq<char>>) -> Seq<
    char,
> {
    let c = find(line, ":"@)->0;
    line.subrange(0, c + 1) + rewrite_attrs_from(line, c + 1, base, headers)
}

/// What one playlist line becomes.
pub open spec fn rewrite_line_spec(
    line: Seq<char>,
    base: Seq<char>,
    headers: Option<Seq<char>>,
) -> Seq<char> {
    if line.len() == 0 {
        line
    } else if line[0] == '#' {
        if key_line(line, base, headers) is Some {
            key_line(line, base, headers)->0
        } else if is_map_line(line) {
            map_line(line, base, headers)
        } else if is_attr_line(line) {
            attr_line(line, base, headers)
        } else {
            line
        }
    } else {
        proxied_ref(line, base, headers)
    }
}

/// Rewriting is a one-pass transformation: a bare reference line becomes a
/// proxied URL, which a second pass takes for a bare reference again and
/// wraps once more.
pub proof fn lemma_second_pass_reproxies(
    line: Seq<char>,
    base: Seq<char>,
    headers: Option<Seq<char>>,
)
    requires
        line.len() > 0,
        line[0] != '#',
    ensures
        rewrite_line_spec(rewrite_line_spec(line, base, headers), base, headers) == proxied_ref(
            rewrite_line_spec(line, base, headers),
            base,
            headers,
        ),
{
    reveal_strlit("/?url=");
    let once = rewrite_line_spec(line, base, headers);
    assert(once[0] == "/?url="@[0]);
}

/// A line without the `\r` of a `\r\n` ending.
pub open spec fn strip_cr(l: Seq<char>) -> Seq<char> {
    if l.len() > 0 && l.last() == '\r' {
        l.drop_last()
    } else {
        l
    }
}

/// The lines of `s` from position `start` on, split at `\n` (a `\r` before it
/// dropped); a final line ending adds no empty line.
pub open spec fn lines_from(s: Seq<char>, start: int) -> Seq<Seq<char>>
    decreases s.len() - start,
{
    if start < 0 || start >= s.len() {
        Seq::empty()
    } else {
        match find_from(s, "\n"@, start) {
            Some(i) => if start <= i < s.len() {
                seq![strip_cr(s.subrange(start, i))] + lines_from(s, i + 1)
            } else {
                Seq::empty()
            },
            None => seq![s.subrange(start, s.len() as int)],
        }
    }
}

/// The lines of `s`.
pub open spec fn lines_of(s: Seq<char>) -> Seq<Seq<char>> {
    lines_from(s, 0)
}

/// Lines joined with `\n` between them.
pub open spec fn join_lines(ls: Seq<Seq<char>>) -> Seq<char>
    decreases ls.len(),
{
    if ls.len() == 0 {
        Seq::empty()
    } else if ls.len() == 1 {
        ls[0]
    } else {
        join_lines(ls.drop_last()) + "\n"@ + ls.last()
    }
}

/// Each line of the playlist rewritten on its own, in order, joined with `\n`.
pub open spec fn rewrite_playlist_spec(
    text: Seq<char>,
    base: Seq<char>,
    headers: Option<Seq<char>>,
) -> Seq<char> {
    join_lines(rewrite_lines(lines_of(text), base, headers))
}

/// Each line rewritten on its own.
pub open spec fn rewrite_lines(
    ls: Seq<Seq<char>>,
    base: Seq<char>,
    headers: Option<Seq<char>>,
) -> Seq<Seq<char>> {
    ls.map_values(|l: Seq<char>| rewrite_line_spec(l, base, headers))
}

/// The proxy's own URL for `target`, carrying the caller's header blob unchanged.
pub fn proxied_url(target: &str, headers: Option<&str>) -> (r: String)
    ensures
        r@ == proxied_spec(target@, opt_str(headers)),
{
    let enc = encode_component(target);
    let mut out = chars_of("/?url=");
    push_all(&mut out, &chars_of(enc.as_str()));
    match headers {
        Some(h) => {
            let ghost before = out@;
            push_all(&mut out, &chars_of("&headers="));
            push_all(&mut out, &chars_of(h));
            assert(out@ =~= before + ("&headers="@ + h@));
        },
        None => {
            assert(out@ =~= out@ + Seq::<char>::empty());
        },
    }
    string_of(&out)
}

fn proxied_chars(raw: &Vec<char>, base: &WebUrl, headers: Option<&str>) -> (r: Vec<char>)
    ensures
        r@ == proxied_ref(raw@, base@.href, opt_str(headers)),
{
    let raw_s = string_of(raw);
    let resolved = get_url(raw_s.as_str(), base);
    let p = proxied_url(resolved.as_str(), headers);
    chars_of(p.as_str())
}

fn rewrite_key_line(line: &Vec<char>, base: &WebUrl, headers: Option<&str>) -> (r: Option<
    Vec<char>,
>)
    ensures
        r matches Some(v) ==> key_line(line@, base@.href, opt_str(headers)) == Some(v@),
        r is None ==> key_line(line@, base@.href, opt_str(headers)) is None,
{
    let tag = chars_of("#EXT-X-KEY");
    if !occurs_at_exec(line, &tag, 0) {
        return None;
    }
    let pat = chars_of("URI=\"");
    match find_from_exec(line, &pat, 0) {
        None => None,
        Some(u) => {
            proof {
                lemma_find_from_occurs(line@, pat@, 0);
                assert(line@.len() == line.len());
            }
            let st = u + pat.len();
            let quote = chars_of("\"");
            match find_from_exec(line, &quote, st) {
                None => None,
                Some(q) => {
                    proof {
                        lemma_find_from_occurs(line@, quote@, st as int);
                    }
                    let mut out = slice_of(line, 0, st);
                    let mid = proxied_chars(&slice_of(line, st, q), base, headers);
                    push_all(&mut out, &mid);
                    push_all(&mut out, &slice_of(line, q, line.len()));
                    Some(out)
                },
            }
        },
    }
}

fn rewrite_attr_exec(a: &Vec<char>, base: &WebUrl, headers: Option<&str>) -> (r: Vec<char>)
    ensures
        r@ == rewrite_attr(a@, base@.href, opt_str(headers)),
{
    let eq = chars_of("=");
    proof {
        reveal_strlit("=");
    }
    match find_from_exec(a, &eq, 0) {
        None => slice_of(a, 0, a.len()),
        Some(e) => {
            proof {
                lemma_find_from_occurs(a@, eq@, 0);
                assert(a@.len() == a.len());
            }
            let (k0, k1) = trim_range(a, 0, e, false);
            let key = slice_of(a, k0, k1);
            let (v0, v1) = trim_range(a, e + 1, a.len(), false);
            let (w0, w1) = trim_range(a, v0, v1, true);
            if chars_eq(&key, &chars_of("URI")) || chars_eq(&key, &chars_of("URL")) {
                let mut out = key;
                push_all(&mut out, &chars_of("=\""));
                push_all(&mut out, &proxied_chars(&slice_of(a, w0, w1), base, headers));
                push_all(&mut out, &chars_of("\""));
                out
            } else {
                slice_of(a, 0, a.len())
            }
        },
    }
}

fn rewrite_attrs_exec(s: &Vec<char>, start: usize, base: &WebUrl, headers: Option<&str>) -> (r:
    Vec<char>)
    requires
        start <= s.len(),
    ensures
        r@ == rewrite_attrs_from(s@, start as int, base@.href, opt_str(headers)),
{
    let comma = chars_of(",");
    proof {
        reveal_strlit(",");
    }
    let mut out: Vec<char> = Vec::new();
    let mut pos = start;
    loop
        invariant
            pos <= s.len(),
            comma@ == ","@,
            comma@.len() == 1,
            rewrite_attrs_from(s@, start as int, base@.href, opt_str(headers)) == out@
                + rewrite_attrs_from(s@, pos as int, base@.href, opt_str(headers)),
        decreases s.len() - pos,
    {
        match find_from_exec(s, &comma, pos) {
            Some(i) => {
                proof {
                    lemma_find_from_occurs(s@, comma@, pos as int);
                }
                let ghost before = out@;
                let piece = rewrite_attr_exec(&slice_of(s, pos, i), base, headers);
                push_all(&mut out, &piece);
                push_all(&mut out, &comma);
                assert(before + rewrite_attrs_from(s@, pos as int, base@.href, opt_str(headers))
                    =~= out@ + rewrite_attrs_from(s@, i + 1, base@.href, opt_str(headers)));
                pos = i + 1;
            },
            None => {
                let piece = rewrite_attr_exec(&slice_of(s, pos, s.len()), base, headers);
                push_all(&mut out, &piece);
                return out;
            },
        }
    }
}

fn rewrite_line_chars(line: &Vec<char>, base: &WebUrl, headers: Option<&str>) -> (r: Vec<char>)
    ensures
        r@ == rewrite_line_spec(line@, base@.href, opt_str(headers)),
{
    if line.len() == 0 {
        return slice_of(line, 0, 0);
    }
    if line[0] != '#' {
        return proxied_chars(line, base, headers);
    }
    match rewrite_key_line(line, base, headers) {
        Some(v) => {
            return v;
        },
        None => {},
    }
    let map = chars_of("#EXT-X-MAP:URI=\"");
    if line.len() > map.len() && occurs_at_exec(line, &map, 0) {
        let inner = slice_of(line, map.len(), line.len() - 1);
        let mut out = chars_of("#EXT-X-MAP:URI=\"");
        push_all(&mut out, &proxied_chars(&inner, base, headers));
        push_all(&mut out, &chars_of("\""));
        return out;
    }
    if (find_from_exec(line, &chars_of("URI="), 0).is_some() || find_from_exec(
        line,
        &chars_of("URL="),
        0,
    ).is_some()) {
        let colon = chars_of(":");
        proof {
            reveal_strlit(":");
        }
        match find_from_exec(line, &colon, 0) {
            Some(c) => {
                proof {
                    lemma_find_from_occurs(line@, colon@, 0);
                }
                let mut out = slice_of(line, 0, c + 1);
                push_all(&mut out, &rewrite_attrs_exec(line, c + 1, base, headers));
                return out;
            },
            None => {},
        }
    }
    slice_of(line, 0, line.len())
}

/// Rewrites one playlist line fetched from `scrape_url`.
pub fn process_m3u8_line(line: &str, scrape_url: &WebUrl, headers_param: Option<&str>) -> (r:
    String)
    ensures
        r@ == rewrite_line_spec(line@, scrape_url@.href, opt_str(headers_param)),
{
    let v = chars_of(line);
    string_of(&rewrite_line_chars(&v, scrape_url, headers_param))
}

/// Rewrites a whole playlist fetched from `scrape_url`, line by line.
pub fn rewrite_playlist(text: &str, scrape_url: &WebUrl, headers_param: Option<&str>) -> (r:
    String)
    ensures
        r@ == rewrite_playlist_spec(text@, scrape_url@.href, opt_str(headers_param)),
{
    let s = chars_of(text);
    let nl = chars_of("\n");
    let sep = chars_of("\n");
    proof {
        reveal_strlit("\n");
    }
    let ghost base = scrape_url@.href;
    let ghost h = opt_str(headers_param);
    let ghost mut done: Seq<Seq<char>> = Seq::empty();
    let mut out: Vec<char> = Vec::new();
    let mut first = true;
    let mut pos: usize = 0;
    while pos < s.len()
        invariant
            pos <= s.len(),
            nl@ == "\n"@,
            sep@ == "\n"@,
            nl@.len() == 1,
            s@ == text@,
            base == scrape_url@.href,
            h == opt_str(headers_param),
            lines_of(s@) == done + lines_from(s@, pos as int),
            first == (done.len() == 0),
            out@ == join_lines(rewrite_lines(done, base, h)),
        decreases s.len() - pos,
    {
        let (line, next) = match find_from_exec(&s, &nl, pos) {
            Some(i) => {
                proof {
                    lemma_find_from_occurs(s@, nl@, pos as int);
                    assert(s@.len() == s.len());
                }
                let mut end = i;
                if end > pos && s[end - 1] == '\r' {
                    end = end - 1;
                }
                let l = slice_of(&s, pos, end);
                assert(l@ == strip_cr(s@.subrange(pos as int, i as int)));
                (l, i + 1)
            },
            None => (slice_of(&s, pos, s.len()), s.len()),
        };
        let ghost old_done = done;
        proof {
            assert(lines_from(s@, pos as int) =~= seq![line@] + lines_from(s@, next as int));
            done = done.push(line@);
            assert(lines_of(s@) =~= done + lines_from(s@, next as int));
            assert(rewrite_lines(done, base, h).drop_last() =~= rewrite_lines(old_done, base, h));
        }
        let piece = rewrite_line_chars(&line, scrape_url, headers_param);
        assert(piece@ == rewrite_line_spec(line@, base, h));
        assert(rewrite_lines(done, base, h).last() == piece@);
        if first {
            assert(rewrite_lines(done, base, h) =~= seq![piece@]);
            out = piece;
            first = false;
        } else {
            push_all(&mut out, &sep);
            push_all(&mut out, &piece);
        }
        pos = next;
    }
    proof {
        assert(lines_from(s@, pos as int) =~= Seq::<Seq<char>>::empty());
        assert(done =~= lines_of(s@));
    }
    string_of(&out)
}

} // verus!
