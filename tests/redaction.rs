use redact::redaction::redaction_marker;
use redact::Secret;

#[test]
fn marker_shows_type_name() {
    assert_eq!(redaction_marker(Some("&str")), "[REDACTED &str]");
}

#[test]
fn marker_hides_type_name() {
    assert_eq!(redaction_marker(None), "[REDACTED]");
}

#[test]
fn marker_holds_nothing_of_the_value() {
    let text = redaction_marker(Some("&str"));
    assert!(!text.contains("hello"));
    assert!(!text.contains("world"));
    assert!(!redaction_marker(None).contains("hello"));
}

#[test]
fn marker_for_u32() {
    assert_eq!(
        redaction_marker(Some("u32")),
        "[REDACTED u32]"
    );
}

#[test]
fn secret_text_ignores_the_value() {
    let a = Secret::new(String::from("correct horse"));
    let b = Secret::new(String::from("battery staple"));
    let label = Some("alloc::string::String");
    assert_eq!(a.redacted(label), b.redacted(label));
    assert_eq!(a.redacted(label), "[REDACTED alloc::string::String]");
    assert_eq!(a.redacted(None), "[REDACTED]");
    assert!(!a.redacted(label).contains("horse"));
}
