use m3u8_proxy::policy::{builtin_policy_sources, PolicyTable};
use m3u8_proxy::proxy::{
    decode_request, is_playlist_body, is_playlist_content_type, is_playlist_response,
    is_playlist_url, is_relayed_header, needs_playlist_check, outbound_headers, RequestError,
};
use m3u8_proxy::request::{decode_url, parse_header_json, Query};
use m3u8_proxy::weburl::WebUrl;

#[test]
fn base64_target_is_decoded() {
    let u = decode_url("aHR0cHM6Ly9leGFtcGxlLmNvbS9hLm0zdTg").expect("decodes");
    assert_eq!(u.as_str(), "https://example.com/a.m3u8");
}

#[test]
fn padded_base64_target_is_decoded() {
    let u = decode_url("aHR0cHM6Ly9leGFtcGxlLmNvbS8=").expect("decodes");
    assert_eq!(u.as_str(), "https://example.com/");
}

#[test]
fn plain_target_is_parsed() {
    let u = decode_url("https://example.com/a.m3u8").unwrap();
    assert_eq!(u.as_str(), "https://example.com/a.m3u8");
    assert_eq!(u.scheme(), "https");
    assert_eq!(u.host_str(), Some("example.com"));
}

#[test]
fn surrounding_white_space_is_ignored() {
    let u = decode_url(" https://example.com/a.m3u8\u{a0}\n").expect("parses");
    assert_eq!(u.as_str(), "https://example.com/a.m3u8");
    let b = decode_url("\taHR0cHM6Ly9leGFtcGxlLmNvbS9hLm0zdTg ").expect("decodes");
    assert_eq!(b.as_str(), "https://example.com/a.m3u8");
}

#[test]
fn undecodable_target_is_refused() {
    assert!(decode_url("not a url").is_none());
    assert!(decode_url("abcd").is_none());
    assert!(decode_url("aGVsbG8gd29ybGQ").is_none());
}

#[test]
fn query_is_split_and_decoded() {
    let q = Query::parse("url=https%3A%2F%2Fa.test%2Fx&flag&url=second&bad=%FF&k=a=b");
    assert_eq!(q.get("url").as_deref(), Some("second"));
    assert_eq!(q.get("flag").as_deref(), Some(""));
    assert_eq!(q.get("bad"), None);
    assert_eq!(q.get("k").as_deref(), Some("a=b"));
    assert_eq!(q.get("missing"), None);
}

#[test]
fn request_needs_url() {
    assert!(matches!(decode_request("headers=%7B%7D"), Err(RequestError::MissingUrl)));
    match decode_request("url=nope") {
        Err(RequestError::InvalidUrl { value }) => assert_eq!(value, "nope"),
        _ => panic!("expected an invalid url"),
    }
}

#[test]
fn invalid_url_is_reported_trimmed() {
    match decode_request("url=%20%20nope%09") {
        Err(RequestError::InvalidUrl { value }) => assert_eq!(value, "nope"),
        _ => panic!("expected an invalid url"),
    }
}

#[test]
fn playlist_url_is_judged_by_its_path() {
    let q = WebUrl::parse("https://a.test/x.m3u8?token=1").unwrap();
    assert!(is_playlist_url(&q));
    let f = WebUrl::parse("https://a.test/x.M3U8#frag").unwrap();
    assert!(is_playlist_url(&f));
    let n = WebUrl::parse("https://a.test/x?f=.m3u8").unwrap();
    assert!(!is_playlist_url(&n));
}

#[test]
fn request_carries_params() {
    let r = match decode_request(
        "url=https%3A%2F%2Fexample.com%2Fv.m3u8&headers=%7B%22x-a%22%3A%221%22%7D&origin=https%3A%2F%2Fo.test",
    ) {
        Ok(r) => r,
        Err(_) => panic!("decodes"),
    };
    assert_eq!(r.target.as_str(), "https://example.com/v.m3u8");
    assert_eq!(r.headers_param.as_deref(), Some("{\"x-a\":\"1\"}"));
    assert_eq!(r.origin_param.as_deref(), Some("https://o.test"));
}

#[test]
fn header_json_reads_string_objects_only() {
    assert_eq!(
        parse_header_json("{\"b\":\"2\",\"a\":\"1\"}"),
        Some(vec![("a".to_string(), "1".to_string()), ("b".to_string(), "2".to_string())])
    );
    assert_eq!(parse_header_json("{\"a\":1}"), None);
    assert_eq!(parse_header_json("nope"), None);
}

#[test]
fn outbound_headers_layer_in_order() {
    let t = match PolicyTable::compile(&builtin_policy_sources()) {
        Ok(t) => t,
        Err(_) => panic!("compiles"),
    };
    let r = match decode_request(
        "url=https%3A%2F%2Fx.streamtape.to%2Fv.m3u8&headers=%7B%22Referer%22%3A%22https%3A%2F%2Fr.test%2F%22%2C%22range%22%3A%22bytes%3D0-1%22%7D",
    ) {
        Ok(r) => r,
        Err(_) => panic!("decodes"),
    };
    let pass = vec![("Range".to_string(), "bytes=5-".to_string())];
    let h = outbound_headers(&t, &r, &pass);
    assert_eq!(h.get("origin").as_deref(), Some("https://streamtape.to"));
    assert_eq!(h.get("referer").as_deref(), Some("https://r.test/"));
    assert_eq!(h.get("range").as_deref(), Some("bytes=5-"));
}

#[test]
fn malformed_header_blob_is_ignored() {
    let t = match PolicyTable::compile(&builtin_policy_sources()) {
        Ok(t) => t,
        Err(_) => panic!("compiles"),
    };
    let r = match decode_request("url=https%3A%2F%2Fa.test%2F&headers=%7Bbroken") {
        Ok(r) => r,
        Err(_) => panic!("decodes"),
    };
    let h = outbound_headers(&t, &r, &Vec::new());
    assert_eq!(h.get("origin").as_deref(), Some("https://a.test"));
    assert_eq!(h.entries().len(), 8);
}

#[test]
fn transport_stream_is_relayed() {
    let u = WebUrl::parse("https://example.com/seg1.ts").unwrap();
    assert!(!is_playlist_content_type("video/mp2t"));
    assert!(!needs_playlist_check("video/mp2t", &u));
    assert!(is_relayed_header("Content-Type"));
    assert!(is_relayed_header("etag"));
    assert!(!is_relayed_header("set-cookie"));
}

#[test]
fn playlist_detection() {
    let u = WebUrl::parse("https://example.com/Live.M3U8").unwrap();
    assert!(is_playlist_url(&u));
    assert!(is_playlist_content_type("Application/VND.Apple.MPEGURL; charset=utf-8"));
    assert!(is_playlist_content_type("audio/x-mpegurl"));
    assert!(needs_playlist_check("text/plain", &u));
    assert!(is_playlist_body("  \n#EXTM3U\n#EXT-X-VERSION:3"));
    assert!(!is_playlist_body("<html>"));
    assert!(!is_playlist_response("text/html", "<html>#EXTM3U"));
    assert!(is_playlist_response("application/vnd.apple.mpegurl", "garbage"));
}
