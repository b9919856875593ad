use codex_pet_limit_rings::rate_limits::{
    accepts_usage_status, authorization_value, extract_rate_limit_json, first_reported,
};

#[test]
fn extracts_simple_event() {
    let body = r#"prefix {"type":"codex.rate_limits","rate_limits":{"primary":{"used_percent":12.5}}} suffix"#;
    assert_eq!(
        extract_rate_limit_json(body).as_deref(),
        Some(r#"{"type":"codex.rate_limits","rate_limits":{"primary":{"used_percent":12.5}}}"#)
    );
}

#[test]
fn braces_inside_strings_are_ignored() {
    let body = r#"x {"type":"codex.rate_limits","note":"a } and { \" }"} tail}"#;
    assert_eq!(
        extract_rate_limit_json(body).as_deref(),
        Some(r#"{"type":"codex.rate_limits","note":"a } and { \" }"}"#)
    );
}

#[test]
fn escaped_backslash_ends_escape() {
    let body = r#"{"type":"codex.rate_limits","p":"c:\\"}}"#;
    assert_eq!(
        extract_rate_limit_json(body).as_deref(),
        Some(r#"{"type":"codex.rate_limits","p":"c:\\"}"#)
    );
}

#[test]
fn missing_marker_gives_nothing() {
    assert_eq!(extract_rate_limit_json(r#"{"type":"codex.other"}"#), None);
    assert_eq!(extract_rate_limit_json(""), None);
}

#[test]
fn unclosed_object_gives_nothing() {
    assert_eq!(extract_rate_limit_json(r#"{"type":"codex.rate_limits","a":{"b":1}"#), None);
}

#[test]
fn first_marker_wins() {
    let body = r#"{"type":"codex.rate_limits","n":1} {"type":"codex.rate_limits","n":2}"#;
    assert_eq!(
        extract_rate_limit_json(body).as_deref(),
        Some(r#"{"type":"codex.rate_limits","n":1}"#)
    );
}

#[test]
fn non_ascii_text_around_event() {
    let body = r#"é→ {"type":"codex.rate_limits","s":"ü{"} ✓"#;
    assert_eq!(
        extract_rate_limit_json(body).as_deref(),
        Some(r#"{"type":"codex.rate_limits","s":"ü{"}"#)
    );
}

#[test]
fn usage_status_below_300_is_success() {
    assert!(accepts_usage_status(200));
    assert!(accepts_usage_status(299));
    assert!(!accepts_usage_status(300));
    assert!(!accepts_usage_status(401));
}

#[test]
fn bearer_header() {
    assert_eq!(authorization_value("abc.def"), "Bearer abc.def");
}

#[test]
fn first_reported_prefers_primary() {
    assert_eq!(first_reported(Some(1), Some(2)), Some(1));
    assert_eq!(first_reported(None, Some(2)), Some(2));
    assert_eq!(first_reported::<i32>(None, None), None);
}
