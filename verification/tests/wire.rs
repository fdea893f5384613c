use valentine_backend::json::json_escape;
use valentine_backend::json::to_json_object2;

#[test]
fn plain_text_is_unchanged() {
    assert_eq!(json_escape("hello world"), "hello world");
    assert_eq!(json_escape("I'd find you sooner: yes, always."), "I'd find you sooner: yes, always.");
}

#[test]
fn empty_text_stays_empty() {
    assert_eq!(json_escape(""), "");
}

#[test]
fn named_escapes_are_written() {
    assert_eq!(json_escape("a\"b"), "a\\\"b");
    assert_eq!(json_escape("a\\b"), "a\\\\b");
    assert_eq!(json_escape("a\nb\tc\rd"), "a\\nb\\tc\\rd");
    assert_eq!(json_escape("\u{0008}\u{000C}"), "\\b\\f");
}

#[test]
fn other_control_characters_use_hex() {
    assert_eq!(json_escape("\u{0001}"), "\\u0001");
    assert_eq!(json_escape("\u{001F}"), "\\u001f");
    assert_eq!(json_escape("x\u{0000}y"), "x\\u0000y");
}

#[test]
fn non_ascii_text_passes_through() {
    assert_eq!(json_escape("c\u{0153}ur \u{2764}"), "c\u{0153}ur \u{2764}");
}

#[test]
fn object_is_written_in_field_order() {
    assert_eq!(to_json_object2("a", "x", "b", "y"), "{\"a\":\"x\",\"b\":\"y\"}");
    assert_eq!(
        to_json_object2("status", "ok", "service", "valentine-backend"),
        "{\"status\":\"ok\",\"service\":\"valentine-backend\"}"
    );
}

#[test]
fn object_escapes_keys_and_values() {
    assert_eq!(
        to_json_object2("message", "say \"hi\"", "fr\nom", "me"),
        "{\"message\":\"say \\\"hi\\\"\",\"fr\\nom\":\"me\"}"
    );
}
