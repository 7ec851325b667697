use garage_ssh_gate::json::{sanitize_json_value, JsonNumber, JsonValue};
use garage_ssh_gate::sanitize::{
    sanitize_short_string, sanitize_string, sanitize_within, try_sanitize_short_string,
    try_sanitize_string,
};

#[test]
fn test_sanitize_xss() {
    assert_eq!(sanitize_string("<script>alert('xss')</script>Hello"), "Hello");
}

#[test]
fn test_sanitize_normal_string() {
    assert_eq!(sanitize_string("Max's iPad"), "Max's iPad");
}

#[test]
fn test_sanitize_long_string() {
    let long = "a".repeat(2000);
    assert_eq!(sanitize_string(&long).len(), 1024);
}

#[test]
fn short_string_is_cut_to_256_bytes() {
    let long = "b".repeat(300);
    assert_eq!(sanitize_short_string(&long), "b".repeat(256));
}

#[test]
fn short_string_keeps_safe_markup_text() {
    assert_eq!(sanitize_short_string("<b>Max</b>"), "<b>Max</b>");
}

#[test]
fn cut_inside_a_character_is_refused() {
    // 255 ASCII bytes followed by a two-byte character: the 256-byte cut
    // falls inside it.
    let text = format!("{}é", "a".repeat(255));
    assert_eq!(try_sanitize_short_string(&text), None);
    assert_eq!(sanitize_within(&text, 257), Some(text.clone()));
    let ok = format!("{}é", "a".repeat(254));
    assert_eq!(try_sanitize_short_string(&ok), Some(ok.clone()));
}

#[test]
fn try_sanitize_string_agrees_with_sanitize_string() {
    assert_eq!(try_sanitize_string("<p>hi</p>"), Some(sanitize_string("<p>hi</p>")));
}

#[test]
fn json_arrays_are_cut_to_100_elements() {
    let items: Vec<JsonValue> = (0..150)
        .map(|i| JsonValue::Number(JsonNumber { repr: i.to_string() }))
        .collect();
    match sanitize_json_value(&JsonValue::Array(items)) {
        JsonValue::Array(out) => {
            assert_eq!(out.len(), 100);
            match &out[99] {
                JsonValue::Number(n) => assert_eq!(n.repr, "99"),
                other => panic!("unexpected {:?}", other),
            }
        }
        other => panic!("unexpected {:?}", other),
    }
}

#[test]
fn json_objects_keep_their_first_50_members() {
    let members: Vec<(String, JsonValue)> = (0..60)
        .map(|i| (format!("k{:02}", i), JsonValue::Bool(i % 2 == 0)))
        .collect();
    match sanitize_json_value(&JsonValue::Object(members)) {
        JsonValue::Object(out) => {
            assert_eq!(out.len(), 50);
            assert_eq!(out[0].0, "k00");
            assert_eq!(out[49].0, "k49");
        }
        other => panic!("unexpected {:?}", other),
    }
}

#[test]
fn json_strings_and_keys_are_cleaned() {
    let doc = JsonValue::Object(vec![(
        "<script>x</script>name".to_string(),
        JsonValue::String("<script>alert(1)</script>Bob".to_string()),
    )]);
    match sanitize_json_value(&doc) {
        JsonValue::Object(out) => {
            assert_eq!(out.len(), 1);
            assert_eq!(out[0].0, "name");
            match &out[0].1 {
                JsonValue::String(s) => assert_eq!(s, "Bob"),
                other => panic!("unexpected {:?}", other),
            }
        }
        other => panic!("unexpected {:?}", other),
    }
}

#[test]
fn json_keys_that_clean_alike_merge() {
    let doc = JsonValue::Object(vec![
        ("<script>z</script>a".to_string(), JsonValue::Null),
        ("a".to_string(), JsonValue::Bool(true)),
    ]);
    match sanitize_json_value(&doc) {
        JsonValue::Object(out) => {
            assert_eq!(out.len(), 1);
            assert_eq!(out[0].0, "a");
            assert!(matches!(out[0].1, JsonValue::Bool(true)));
        }
        other => panic!("unexpected {:?}", other),
    }
}
