use codex_pet_limit_rings::json::{find_string_property, JsonValue};

fn text(s: &str) -> JsonValue {
    JsonValue::Text(s.to_string())
}

fn object(members: Vec<(&str, JsonValue)>) -> JsonValue {
    JsonValue::Object(members.into_iter().map(|(k, v)| (k.to_string(), v)).collect())
}

#[test]
fn finds_top_level_token() {
    let doc = object(vec![("access_token", text("tok")), ("other", JsonValue::Other)]);
    assert_eq!(find_string_property(&doc, "access_token").as_deref(), Some("tok"));
}

#[test]
fn finds_nested_token() {
    let doc = object(vec![
        ("auth_mode", text("chatgpt")),
        ("tokens", object(vec![("id_token", text("id")), ("access_token", text("deep"))])),
    ]);
    assert_eq!(find_string_property(&doc, "access_token").as_deref(), Some("deep"));
}

#[test]
fn member_comes_before_its_contents_and_siblings() {
    let doc = object(vec![
        ("a", object(vec![("key", text("inner"))])),
        ("key", text("outer")),
    ]);
    assert_eq!(find_string_property(&doc, "key").as_deref(), Some("inner"));
    let doc2 = object(vec![
        ("key", object(vec![("key", text("inner"))])),
        ("z", text("x")),
    ]);
    // The outer `key` holds an object, so the search goes inside it.
    assert_eq!(find_string_property(&doc2, "key").as_deref(), Some("inner"));
}

#[test]
fn searches_arrays_in_order() {
    let doc = JsonValue::Array(vec![
        JsonValue::Other,
        object(vec![("k", JsonValue::Other)]),
        object(vec![("k", text("second"))]),
        object(vec![("k", text("third"))]),
    ]);
    assert_eq!(find_string_property(&doc, "k").as_deref(), Some("second"));
}

#[test]
fn non_string_values_do_not_count() {
    let doc = object(vec![("access_token", JsonValue::Other)]);
    assert_eq!(find_string_property(&doc, "access_token"), None);
    assert_eq!(find_string_property(&text("access_token"), "access_token"), None);
}
