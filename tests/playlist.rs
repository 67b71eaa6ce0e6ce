use m3u8_proxy::percent::{decode_component, encode_component};
use m3u8_proxy::playlist::{process_m3u8_line, proxied_url, rewrite_playlist};
use m3u8_proxy::weburl::{get_url, WebUrl};

fn base(s: &str) -> WebUrl {
    WebUrl::parse(s).expect("base parses")
}

#[test]
fn playlist_with_segment_is_rewritten() {
    let b = base("https://example.com/v.m3u8");
    let out = rewrite_playlist("#EXTM3U\n#EXT-X-VERSION:3\nsegment1.ts\n", &b, None);
    assert_eq!(
        out,
        "#EXTM3U\n#EXT-X-VERSION:3\n/?url=https%3A%2F%2Fexample.com%2Fsegment1.ts"
    );
}

#[test]
fn key_tag_keeps_other_attributes() {
    let b = base("https://example.com/path/pl.m3u8");
    let out = process_m3u8_line("#EXT-X-KEY:METHOD=AES-128,URI=\"key.bin\",IV=0x1234", &b, None);
    assert_eq!(
        out,
        "#EXT-X-KEY:METHOD=AES-128,URI=\"/?url=https%3A%2F%2Fexample.com%2Fpath%2Fkey.bin\",IV=0x1234"
    );
}

#[test]
fn key_tag_replaces_only_the_quoted_value() {
    let b = base("https://example.com/path/pl.m3u8");
    let out = process_m3u8_line("#EXT-X-KEY:METHOD=AES-128, URI=\"k,1.bin\" ,IV=0x1", &b, None);
    assert_eq!(
        out,
        "#EXT-X-KEY:METHOD=AES-128, URI=\"/?url=https%3A%2F%2Fexample.com%2Fpath%2Fk%2C1.bin\" ,IV=0x1"
    );
}

#[test]
fn map_tag_is_reserialized() {
    let b = base("https://cdn.test/a/b.m3u8");
    let out = process_m3u8_line("#EXT-X-MAP:URI=\"init.mp4\"", &b, Some("{\"x\":\"y\"}"));
    assert_eq!(
        out,
        "#EXT-X-MAP:URI=\"/?url=https%3A%2F%2Fcdn.test%2Fa%2Finit.mp4&headers={\"x\":\"y\"}\""
    );
}

#[test]
fn media_tag_rewrites_uri_attribute_only() {
    let b = base("https://cdn.test/a/master.m3u8");
    let out = process_m3u8_line(
        "#EXT-X-MEDIA:TYPE=AUDIO,GROUP-ID=\"aud\",NAME=\"English\",URI=\"audio/en.m3u8\"",
        &b,
        None,
    );
    assert_eq!(
        out,
        "#EXT-X-MEDIA:TYPE=AUDIO,GROUP-ID=\"aud\",NAME=\"English\",URI=\"/?url=https%3A%2F%2Fcdn.test%2Fa%2Faudio%2Fen.m3u8\""
    );
}

#[test]
fn url_attribute_is_rewritten_too() {
    let b = base("https://cdn.test/a/master.m3u8");
    let out = process_m3u8_line("#EXT-X-SESSION-DATA:DATA-ID=\"x\",URL=u.json", &b, None);
    assert_eq!(
        out,
        "#EXT-X-SESSION-DATA:DATA-ID=\"x\",URL=\"/?url=https%3A%2F%2Fcdn.test%2Fa%2Fu.json\""
    );
}

#[test]
fn lowercase_uri_key_is_left_alone() {
    let b = base("https://cdn.test/a/master.m3u8");
    let line = "#EXT-X-CUSTOM-TAG:uri=\"x.ts\",URIX=\"y\"";
    assert_eq!(process_m3u8_line(line, &b, None), line);
}

#[test]
fn comment_without_uri_passes_through() {
    let b = base("https://cdn.test/a/master.m3u8");
    assert_eq!(process_m3u8_line("#EXTINF:10.0,", &b, None), "#EXTINF:10.0,");
    assert_eq!(process_m3u8_line("#EXT-X-ENDLIST", &b, None), "#EXT-X-ENDLIST");
}

#[test]
fn empty_line_stays_empty() {
    let b = base("https://cdn.test/a/master.m3u8");
    assert_eq!(process_m3u8_line("", &b, None), "");
    assert_eq!(rewrite_playlist("#EXTM3U\n\nseg.ts", &b, None).matches('\n').count(), 2);
}

#[test]
fn absolute_segment_is_kept_and_headers_forwarded() {
    let b = base("https://cdn.test/a/master.m3u8");
    let out = process_m3u8_line("https://other.test/x.ts?a=1", &b, Some("%7B%7D"));
    assert_eq!(out, "/?url=https%3A%2F%2Fother.test%2Fx.ts%3Fa%3D1&headers=%7B%7D");
}

#[test]
fn crlf_line_endings_are_dropped() {
    let b = base("https://cdn.test/a/master.m3u8");
    let out = rewrite_playlist("#EXTM3U\r\nseg.ts\r\n", &b, None);
    assert_eq!(out, "#EXTM3U\n/?url=https%3A%2F%2Fcdn.test%2Fa%2Fseg.ts");
}

#[test]
fn empty_playlist_gives_empty_text() {
    let b = base("https://cdn.test/a/master.m3u8");
    assert_eq!(rewrite_playlist("", &b, None), "");
}

#[test]
fn rewriting_twice_proxies_again() {
    let b = base("https://example.com/v.m3u8");
    let once = rewrite_playlist("seg.ts", &b, None);
    let twice = rewrite_playlist(&once, &b, None);
    assert_eq!(once, "/?url=https%3A%2F%2Fexample.com%2Fseg.ts");
    assert_ne!(once, twice);
    assert_eq!(
        twice,
        "/?url=https%3A%2F%2Fexample.com%2F%3Furl%3Dhttps%253A%252F%252Fexample.com%252Fseg.ts"
    );
}

#[test]
fn proxied_url_round_trips_through_decoding() {
    for u in ["https://example.com/a b/ü.ts?x=1&y=2", "", "~-._AZaz09", "%41+"] {
        let p = proxied_url(u, None);
        let enc = p.strip_prefix("/?url=").expect("prefix");
        assert_eq!(decode_component(enc).as_deref(), Some(u));
    }
}

#[test]
fn encoding_escapes_reserved_bytes() {
    assert_eq!(encode_component("a b/é~"), "a%20b%2F%C3%A9~");
    assert_eq!(decode_component("a%20b%2f%C3%A9~+"), Some("a b/é~+".to_string()));
    assert_eq!(decode_component("%zz%4"), Some("%zz%4".to_string()));
    assert_eq!(decode_component("%FF"), None);
}

#[test]
fn absolute_reference_ignores_base() {
    let b1 = base("https://a.test/x/y.m3u8");
    let b2 = base("http://b.test/");
    for u in ["https://c.test/seg.ts", "http://d.test:8080/p?q=1"] {
        let parsed = WebUrl::parse(u).unwrap();
        assert_eq!(get_url(u, &b1), parsed.as_str());
        assert_eq!(get_url(u, &b2), parsed.as_str());
    }
}

#[test]
fn relative_reference_joins_base() {
    let b = base("https://a.test/x/y/list.m3u8?tok=1");
    assert_eq!(get_url("seg.ts", &b), "https://a.test/x/y/seg.ts");
    assert_eq!(get_url("../z.ts", &b), "https://a.test/x/z.ts");
    assert_eq!(get_url("/root.ts", &b), "https://a.test/root.ts");
    assert_eq!(get_url("//cdn.test/q.ts", &b), "https://cdn.test/q.ts");
}

#[test]
fn failed_join_falls_back_to_base() {
    let b = base("data:text/plain,hello");
    assert_eq!(get_url("seg.ts", &b), "data:text/plain,hello");
}

#[test]
fn short_attribute_line_is_rewritten() {
    let b = base("https://cdn.test/a/master.m3u8");
    assert_eq!(process_m3u8_line("#X:URI=a", &b, None), "#X:URI=\"/?url=https%3A%2F%2Fcdn.test%2Fa%2Fa\"");
}
