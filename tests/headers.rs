use m3u8_proxy::headers::{default_headers, generate_headers_for_url, HeaderSet};
use m3u8_proxy::policy::{builtin_policy_sources, PolicySource, PolicyTable};
use m3u8_proxy::weburl::WebUrl;

fn table() -> PolicyTable {
    match PolicyTable::compile(&builtin_policy_sources()) {
        Ok(t) => t,
        Err(_) => panic!("built-in patterns compile"),
    }
}

fn source(patterns: &[&str], origin: &str) -> PolicySource {
    PolicySource {
        patterns: patterns.iter().map(|s| s.to_string()).collect(),
        origin: origin.to_string(),
        referer: format!("{}/", origin),
        extra_headers: Vec::new(),
    }
}

#[test]
fn builtin_table_compiles() {
    assert_eq!(table().len(), builtin_policy_sources().len());
}

#[test]
fn matching_host_gets_policy_headers() {
    let t = table();
    let u = WebUrl::parse("https://x.padorupado.ru/a.m3u8").unwrap();
    let h = generate_headers_for_url(&t, &u, None);
    assert_eq!(h.get("origin").as_deref(), Some("https://kwik.si"));
    assert_eq!(h.get("Referer").as_deref(), Some("https://kwik.si/"));
    assert_eq!(h.get("cache-control").as_deref(), Some("no-cache"));
    assert_eq!(h.get("pragma").as_deref(), Some("no-cache"));
    assert_eq!(h.get("accept").as_deref(), Some("*/*"));
}

#[test]
fn pattern_match_ignores_case() {
    let t = table();
    let u = WebUrl::parse("https://EDGE.TTVNW.NET/x.m3u8").unwrap();
    assert_eq!(t.find_policy(u.host_str().unwrap()), Some(9));
    let h = generate_headers_for_url(&t, &u, None);
    assert_eq!(h.get("origin").as_deref(), Some("https://www.twitch.tv"));
}

#[test]
fn unmatched_host_uses_its_own_origin() {
    let t = table();
    let u = WebUrl::parse("http://Example.COM:8080/v.m3u8").unwrap();
    assert_eq!(t.find_policy("example.com"), None);
    let h = generate_headers_for_url(&t, &u, None);
    assert_eq!(h.get("origin").as_deref(), Some("http://example.com"));
    assert_eq!(h.get("referer").as_deref(), Some("http://example.com/"));
    assert_eq!(h.get("cache-control"), None);
}

#[test]
fn url_without_host_gets_no_origin() {
    let t = table();
    let u = WebUrl::parse("data:text/plain,x").unwrap();
    let h = generate_headers_for_url(&t, &u, None);
    assert_eq!(h.get("origin"), None);
    assert_eq!(h.get("user-agent").is_some(), true);
}

#[test]
fn override_origin_wins_over_policy() {
    let t = table();
    let u = WebUrl::parse("https://x.padorupado.ru/a.m3u8").unwrap();
    let h = generate_headers_for_url(&t, &u, Some("https://mine.test"));
    assert_eq!(h.get("origin").as_deref(), Some("https://mine.test"));
    assert_eq!(h.get("referer").as_deref(), Some("https://mine.test/"));
    assert_eq!(h.get("pragma"), None);
    let h2 = generate_headers_for_url(&t, &u, Some("https://mine.test/"));
    assert_eq!(h2.get("referer").as_deref(), Some("https://mine.test/"));
}

#[test]
fn first_declared_policy_wins() {
    let t = match PolicyTable::compile(&vec![
        source(&[r"(?i)\.shared\.test$"], "https://first.test"),
        source(&[r"(?i)shared\.test$"], "https://second.test"),
    ]) {
        Ok(t) => t,
        Err(_) => panic!("compiles"),
    };
    assert_eq!(t.find_policy("a.shared.test"), Some(0));
    assert_eq!(t.find_policy("shared.test"), Some(1));
    assert_eq!(t.find_policy("other.test"), None);
    let u = WebUrl::parse("https://a.shared.test/").unwrap();
    let h = generate_headers_for_url(&t, &u, None);
    assert_eq!(h.get("origin").as_deref(), Some("https://first.test"));
}

#[test]
fn bad_pattern_is_reported() {
    match PolicyTable::compile(&vec![source(&["ok", "(unclosed"], "https://x.test")]) {
        Ok(_) => panic!("must fail"),
        Err(e) => assert_eq!(e.pattern, "(unclosed"),
    }
}

#[test]
fn header_set_overrides_and_ignores_invalid() {
    let mut h = HeaderSet::new();
    h.set("X-Thing", "a");
    h.set("x-thing", "b");
    h.set("bad name", "c");
    h.set("x-other", "line\nbreak");
    assert_eq!(h.get("X-THING").as_deref(), Some("b"));
    assert_eq!(h.get("bad name"), None);
    assert_eq!(h.get("x-other"), None);
    assert_eq!(h.entries().len(), 2);
}

#[test]
fn defaults_are_browser_like() {
    let h = default_headers();
    assert_eq!(h.get("sec-fetch-mode").as_deref(), Some("cors"));
    assert_eq!(h.get("accept-language").as_deref(), Some("en-US,en;q=0.5"));
    assert_eq!(h.entries().len(), 6);
}

#[test]
fn first_declared_builtin_policy_wins() {
    let t = table();
    let u = WebUrl::parse("https://cdn.sunnybreeze16.live/hls/index.m3u8").unwrap();
    let h = generate_headers_for_url(&t, &u, None);
    assert_eq!(h.get("origin").as_deref(), Some("https://videostr.net"));
    assert_eq!(h.get("referer").as_deref(), Some("https://videostr.net/"));
}

#[test]
fn kwikie_hosts_get_kwik_headers() {
    let t = table();
    let u = WebUrl::parse("https://a.kwikie.ru/x.m3u8").unwrap();
    let h = generate_headers_for_url(&t, &u, None);
    assert_eq!(h.get("origin").as_deref(), Some("https://kwik.si"));
    assert_eq!(h.get("referer").as_deref(), Some("https://kwik.si/"));
    assert_eq!(h.get("cache-control").as_deref(), Some("no-cache"));
    assert_eq!(h.get("pragma").as_deref(), Some("no-cache"));
    assert_eq!(
        h.get("user-agent").as_deref(),
        Some("Mozilla/5.0 (Windows NT 10.0; Win64; x64; rv:137.0) Gecko/20100101 Firefox/137.0")
    );
    assert_eq!(h.get("range"), None);
}

#[test]
fn builtin_sources_hold_the_table() {
    let s = builtin_policy_sources();
    assert_eq!(s.len(), 29);
    assert_eq!(s[0].origin, "https://kwik.si");
    assert_eq!(s[15].origin, "https://megacloud.blog");
    assert_eq!(s[15].extra_headers.len(), 2);
    assert_eq!(s[28].patterns.len(), 3);
}
