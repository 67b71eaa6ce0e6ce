use m3u8_proxy::gate::{parse_allowed_origins, parse_enable_flag, OriginPolicy};

fn policy(enforce: bool, allowed: &[&str]) -> OriginPolicy {
    OriginPolicy { enforce, allowed: allowed.iter().map(|s| s.to_string()).collect() }
}

#[test]
fn disallowed_origin_is_refused() {
    let p = policy(true, &["http://foo.test"]);
    assert_eq!(p.access_control_allow_origin(Some("http://bar.test"), None), None);
    assert_eq!(p.get_valid_origin(Some("http://bar.test"), None), None);
}

#[test]
fn exact_origin_is_echoed() {
    let p = policy(true, &["http://foo.test", "http://baz.test"]);
    assert_eq!(
        p.access_control_allow_origin(Some("http://baz.test"), None).as_deref(),
        Some("http://baz.test")
    );
    assert_eq!(p.access_control_allow_origin(Some("http://baz.test/"), None), None);
}

#[test]
fn referer_prefix_gives_the_entry() {
    let p = policy(true, &["http://foo.test", "http://fo"]);
    assert_eq!(
        p.get_valid_origin(Some("http://evil.test"), Some("http://foo.test/watch?v=1")).as_deref(),
        Some("http://foo.test")
    );
    assert_eq!(
        p.get_valid_origin(None, Some("http://fox.test/")).as_deref(),
        Some("http://fo")
    );
    assert_eq!(p.get_valid_origin(None, Some("https://foo.test/")), None);
}

#[test]
fn enforcement_off_allows_everyone() {
    let p = policy(false, &["http://foo.test"]);
    assert_eq!(p.access_control_allow_origin(Some("http://bar.test"), None).as_deref(), Some("*"));
    assert_eq!(p.access_control_allow_origin(None, None).as_deref(), Some("*"));
    assert_eq!(p.get_valid_origin(Some("http://foo.test"), None), None);
}

#[test]
fn allow_list_text_is_split_and_trimmed() {
    assert_eq!(
        parse_allowed_origins(" http://a.test , ,http://b.test,\t"),
        vec!["http://a.test".to_string(), "http://b.test".to_string()]
    );
    assert!(parse_allowed_origins("").is_empty());
}

#[test]
fn enable_flag_accepts_true_and_one() {
    assert!(parse_enable_flag("true"));
    assert!(parse_enable_flag("1"));
    assert!(!parse_enable_flag("TRUE"));
    assert!(!parse_enable_flag("yes"));
}

#[test]
fn config_defaults() {
    let p = OriginPolicy::from_config(None, None);
    assert!(!p.enforce);
    assert_eq!(
        p.allowed,
        vec!["http://localhost:5173".to_string(), "http://localhost:3000".to_string()]
    );
    let q = OriginPolicy::from_config(Some("1"), Some("http://x.test"));
    assert!(q.enforce);
    assert_eq!(q.allowed, vec!["http://x.test".to_string()]);
}
