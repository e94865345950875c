use apns_payload::json::JsonValue;
use apns_payload::payload::{APSAlert, APSLocalizedAlert, Payload, APS};

fn plain(text: &str) -> APSAlert {
    APSAlert::Plain(text.to_string())
}

fn localized(title: &str, body: &str) -> APSLocalizedAlert {
    APSLocalizedAlert {
        title: title.to_string(),
        body: body.to_string(),
        title_loc_key: None,
        title_loc_args: None,
        action_loc_key: None,
        loc_key: None,
        loc_args: None,
        launch_image: None,
    }
}

fn text(s: &str) -> JsonValue {
    JsonValue::Text(s.to_string())
}

fn member(key: &str, value: JsonValue) -> (String, JsonValue) {
    (key.to_string(), value)
}

fn body_keys(payload: &Payload) -> Vec<String> {
    match payload.aps.to_json() {
        JsonValue::Object(members) => members.into_iter().map(|m| m.0).collect(),
        other => panic!("the notification body is no object: {:?}", other),
    }
}

#[test]
fn standard_notification_text() {
    let payload = Payload::new(plain("Hi"), 1, "default", None);
    assert_eq!(
        payload.to_string(),
        r#"{"aps":{"alert":"Hi","badge":1,"sound":"default"}}"#
    );
}

#[test]
fn standard_notification_with_category_text() {
    let payload = Payload::new(plain("Hi"), 7, "ping.aiff", Some("INVITE".to_string()));
    assert_eq!(
        payload.to_string(),
        r#"{"aps":{"alert":"Hi","badge":7,"sound":"ping.aiff","category":"INVITE"}}"#
    );
}

#[test]
fn standard_notification_keys_without_category() {
    let payload = Payload::new(plain("Hi"), 1, "default", None);
    assert_eq!(body_keys(&payload), vec!["alert", "badge", "sound"]);
}

#[test]
fn standard_notification_keys_with_category() {
    let payload = Payload::new(plain("Hi"), 1, "default", Some("C".to_string()));
    assert_eq!(body_keys(&payload), vec!["alert", "badge", "sound", "category"]);
    assert!(!body_keys(&payload).contains(&"content-available".to_string()));
}

#[test]
fn standard_notification_fields() {
    let payload = Payload::new(plain("Hi"), 3, "default", Some("C".to_string()));
    assert!(matches!(payload.aps.alert, Some(APSAlert::Plain(ref s)) if s == "Hi"));
    assert_eq!(payload.aps.badge, Some(3));
    assert_eq!(payload.aps.sound, Some("default".to_string()));
    assert_eq!(payload.aps.content_available, None);
    assert_eq!(payload.aps.category, Some("C".to_string()));
}

#[test]
fn standard_notification_accepts_empty_sound() {
    let payload = Payload::new(plain(""), 0, "", None);
    assert_eq!(payload.to_string(), r#"{"aps":{"alert":"","badge":0,"sound":""}}"#);
}

#[test]
fn standard_notification_largest_badge() {
    let payload = Payload::new(plain("x"), u32::MAX, "s", None);
    assert_eq!(
        payload.to_string(),
        r#"{"aps":{"alert":"x","badge":4294967295,"sound":"s"}}"#
    );
}

#[test]
fn silent_notification_text() {
    let first = Payload::new_silent_notification().to_string();
    let second = Payload::new_silent_notification().to_string();
    assert_eq!(first, r#"{"aps":{"content-available":1}}"#);
    assert_eq!(second, r#"{"aps":{"content-available":1}}"#);
}

#[test]
fn silent_notification_fields() {
    let payload = Payload::new_silent_notification();
    assert!(payload.aps.alert.is_none());
    assert_eq!(payload.aps.badge, None);
    assert_eq!(payload.aps.sound, None);
    assert_eq!(payload.aps.content_available, Some(1));
    assert_eq!(payload.aps.category, None);
    assert_eq!(payload.len(), 31);
}

#[test]
fn rendering_twice_gives_the_same_text() {
    let mut alert = localized("T", "B");
    alert.loc_args = Some(vec!["a\"b".to_string(), "c".to_string()]);
    let payload = Payload::new(APSAlert::Localized(alert), 2, "s", Some("c".to_string()));
    let first = payload.to_string();
    let second = payload.to_string();
    assert_eq!(first.as_bytes(), second.as_bytes());
}

#[test]
fn len_is_the_byte_length_of_the_text() {
    let payload = Payload::new(plain("Hi"), 1, "default", None);
    assert_eq!(payload.len(), 50);
    assert_eq!(payload.len(), payload.to_string().len());
}

#[test]
fn len_counts_bytes_not_characters() {
    let payload = Payload::new(plain("h\u{e9}llo \u{2603}"), 1, "s", None);
    let text = payload.to_string();
    assert_eq!(text, "{\"aps\":{\"alert\":\"h\u{e9}llo \u{2603}\",\"badge\":1,\"sound\":\"s\"}}");
    assert_eq!(payload.len(), text.len());
    assert_eq!(payload.len(), text.chars().count() + 3);
}

#[test]
fn localized_alert_absent_fields_are_null() {
    let payload = Payload {
        aps: APS {
            alert: Some(APSAlert::Localized(localized("T", "B"))),
            badge: None,
            sound: None,
            content_available: None,
            category: None,
        },
    };
    assert_eq!(
        payload.to_string(),
        r#"{"aps":{"alert":{"title":"T","body":"B","title-loc-key":null,"title-loc-args":null,"action-loc-key":null,"loc-key":null,"loc-args":null}}}"#
    );
}

#[test]
fn localized_alert_tree_without_optional_fields() {
    let json = localized("T", "B").to_json();
    assert_eq!(
        json,
        JsonValue::Object(vec![
            member("title", text("T")),
            member("body", text("B")),
            member("title-loc-key", JsonValue::Null),
            member("title-loc-args", JsonValue::Null),
            member("action-loc-key", JsonValue::Null),
            member("loc-key", JsonValue::Null),
            member("loc-args", JsonValue::Null),
        ])
    );
}

#[test]
fn localized_alert_with_every_field() {
    let alert = APSLocalizedAlert {
        title: "T".to_string(),
        body: "B".to_string(),
        title_loc_key: Some("TK".to_string()),
        title_loc_args: Some(vec!["a".to_string(), "b".to_string()]),
        action_loc_key: Some("AK".to_string()),
        loc_key: Some("LK".to_string()),
        loc_args: Some(vec![]),
        launch_image: Some("img.png".to_string()),
    };
    assert_eq!(
        alert.to_json().to_string(),
        r#"{"title":"T","body":"B","title-loc-key":"TK","title-loc-args":["a","b"],"action-loc-key":"AK","loc-key":"LK","loc-args":[],"launch-image":"img.png"}"#
    );
}

#[test]
fn localized_alert_launch_image_only_when_set() {
    let mut alert = localized("T", "B");
    assert!(!alert.to_json().to_string().contains("launch-image"));
    alert.launch_image = Some("i".to_string());
    assert!(alert.to_json().to_string().ends_with(r#","launch-image":"i"}"#));
}

#[test]
fn plain_alert_is_a_bare_string() {
    assert_eq!(plain("Hello").to_json(), text("Hello"));
    assert_eq!(plain("Hello").to_json().to_string(), r#""Hello""#);
    let payload = Payload::new(plain("Hello"), 1, "s", None);
    assert_eq!(
        payload.aps.to_json(),
        JsonValue::Object(vec![
            member("alert", text("Hello")),
            member("badge", JsonValue::Number(1)),
            member("sound", text("s")),
        ])
    );
}

#[test]
fn action_notification_without_badge() {
    let payload = Payload::new_action_notification(plain("Reminder"), None, "chime", "REMINDER_CAT");
    assert_eq!(
        payload.to_string(),
        r#"{"aps":{"alert":"Reminder","sound":"chime","category":"REMINDER_CAT"}}"#
    );
    assert_eq!(body_keys(&payload), vec!["alert", "sound", "category"]);
}

#[test]
fn action_notification_with_badge() {
    let payload = Payload::new_action_notification(plain("R"), Some(0), "chime", "CAT");
    assert_eq!(
        payload.to_string(),
        r#"{"aps":{"alert":"R","badge":0,"sound":"chime","category":"CAT"}}"#
    );
    assert_eq!(payload.aps.content_available, None);
}

#[test]
fn localized_alert_with_loc_key() {
    let mut alert = localized("New Message", "You have mail");
    alert.loc_key = Some("MSG_KEY".to_string());
    let payload = Payload {
        aps: APS {
            alert: Some(APSAlert::Localized(alert)),
            badge: None,
            sound: None,
            content_available: None,
            category: None,
        },
    };
    assert_eq!(
        payload.to_string(),
        r#"{"aps":{"alert":{"title":"New Message","body":"You have mail","title-loc-key":null,"title-loc-args":null,"action-loc-key":null,"loc-key":"MSG_KEY","loc-args":null}}}"#
    );
}

#[test]
fn body_members_keep_their_order() {
    let payload = Payload {
        aps: APS {
            alert: Some(plain("a")),
            badge: Some(2),
            sound: Some("s".to_string()),
            content_available: Some(1),
            category: Some("c".to_string()),
        },
    };
    assert_eq!(
        payload.to_string(),
        r#"{"aps":{"alert":"a","badge":2,"sound":"s","content-available":1,"category":"c"}}"#
    );
}

#[test]
fn empty_body_is_an_empty_object() {
    let payload = Payload {
        aps: APS { alert: None, badge: None, sound: None, content_available: None, category: None },
    };
    assert_eq!(payload.to_string(), r#"{"aps":{}}"#);
    assert_eq!(payload.len(), 10);
}

#[test]
fn payload_tree_has_one_member() {
    let payload = Payload::new_silent_notification();
    assert_eq!(
        payload.to_json(),
        JsonValue::Object(vec![member(
            "aps",
            JsonValue::Object(vec![member("content-available", JsonValue::Number(1))])
        )])
    );
}

#[test]
fn constructors_build_the_documented_values() {
    assert_eq!(
        Payload::new(plain("a"), 4, "s", Some("c".to_string())),
        Payload {
            aps: APS {
                alert: Some(plain("a")),
                badge: Some(4),
                sound: Some("s".to_string()),
                content_available: None,
                category: Some("c".to_string()),
            },
        }
    );
    assert_eq!(
        Payload::new_action_notification(plain("a"), None, "s", "c"),
        Payload {
            aps: APS {
                alert: Some(plain("a")),
                badge: None,
                sound: Some("s".to_string()),
                content_available: None,
                category: Some("c".to_string()),
            },
        }
    );
    assert_eq!(
        Payload::new_silent_notification(),
        Payload {
            aps: APS {
                alert: None,
                badge: None,
                sound: None,
                content_available: Some(1),
                category: None,
            },
        }
    );
}
