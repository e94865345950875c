use apns_payload::json::{push_member, JsonValue};
use apns_payload::payload::{APSAlert, Payload};

fn written(text: &str) -> String {
    JsonValue::Text(text.to_string()).to_string()
}

fn is_plain(c: char) -> bool {
    c != '"' && c != '\\' && c != '\u{7f}' && (c as u32) >= 0x20
}

#[test]
fn null_text() {
    assert_eq!(JsonValue::Null.to_string(), "null");
}

#[test]
fn number_text() {
    assert_eq!(JsonValue::Number(0).to_string(), "0");
    assert_eq!(JsonValue::Number(9).to_string(), "9");
    assert_eq!(JsonValue::Number(10).to_string(), "10");
    assert_eq!(JsonValue::Number(1234567890).to_string(), "1234567890");
    assert_eq!(JsonValue::Number(u64::MAX).to_string(), "18446744073709551615");
}

#[test]
fn plain_string_is_quoted_as_it_is() {
    assert_eq!(written(""), "\"\"");
    assert_eq!(written("default"), "\"default\"");
    assert_eq!(written("a/b c~"), "\"a/b c~\"");
    assert_eq!(written("\u{e9}\u{2603}\u{1f600}\u{80}"), "\"\u{e9}\u{2603}\u{1f600}\u{80}\"");
}

#[test]
fn every_plain_character_is_copied() {
    let mut samples: Vec<char> = (0u32..0x100).filter_map(char::from_u32).collect();
    samples.extend(['\u{7ff}', '\u{800}', '\u{ffff}', '\u{10000}', '\u{10ffff}']);
    for c in samples {
        let text = format!("a{}b", c);
        let quoted = format!("\"{}\"", text);
        if is_plain(c) {
            assert_eq!(written(&text), quoted);
        } else {
            assert_ne!(written(&text), quoted);
        }
    }
}

#[test]
fn special_characters_are_escaped() {
    assert_eq!(written("a\"b"), r#""a\"b""#);
    assert_eq!(written("a\\b"), r#""a\\b""#);
    assert_eq!(written("a\nb"), r#""a\nb""#);
    assert_eq!(written("\r\t"), r#""\r\t""#);
    assert_eq!(written("\u{8}\u{c}"), r#""\b\f""#);
    assert_eq!(written("\u{0}\u{1}\u{1f}"), r#""\u0000\u0001\u001f""#);
    assert_eq!(written("\u{7f}"), r#""\u007f""#);
}

#[test]
fn escapes_reach_the_payload_text() {
    let payload = Payload::new(APSAlert::Plain("say \"hi\"\n".to_string()), 1, "a\\b", None);
    assert_eq!(
        payload.to_string(),
        r#"{"aps":{"alert":"say \"hi\"\n","badge":1,"sound":"a\\b"}}"#
    );
    assert_eq!(payload.len(), payload.to_string().len());
}

#[test]
fn array_text() {
    assert_eq!(JsonValue::Array(vec![]).to_string(), "[]");
    assert_eq!(JsonValue::Array(vec![JsonValue::Null]).to_string(), "[null]");
    assert_eq!(
        JsonValue::Array(vec![
            JsonValue::Number(1),
            JsonValue::Text("x".to_string()),
            JsonValue::Array(vec![JsonValue::Number(2), JsonValue::Number(3)]),
        ])
        .to_string(),
        r#"[1,"x",[2,3]]"#
    );
}

#[test]
fn object_text_keeps_member_order() {
    assert_eq!(JsonValue::Object(vec![]).to_string(), "{}");
    let mut members: Vec<(String, JsonValue)> = Vec::new();
    push_member(&mut members, "zeta", JsonValue::Number(1));
    push_member(&mut members, "alpha", JsonValue::Null);
    push_member(&mut members, "k\"ey", JsonValue::Object(vec![]));
    assert_eq!(members.len(), 3);
    assert_eq!(members[0].0, "zeta");
    assert_eq!(
        JsonValue::Object(members).to_string(),
        r#"{"zeta":1,"alpha":null,"k\"ey":{}}"#
    );
}

#[test]
fn push_member_appends() {
    let mut members = vec![("a".to_string(), JsonValue::Null)];
    push_member(&mut members, "b", JsonValue::Number(5));
    assert_eq!(
        members,
        vec![("a".to_string(), JsonValue::Null), ("b".to_string(), JsonValue::Number(5))]
    );
}
