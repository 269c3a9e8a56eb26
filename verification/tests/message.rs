use june_analytics::message::{
    Alias, Batch, BatchMessage, Group, Identify, Page, Screen, Track, User,
};
use june_analytics::wire::encode_message;
use june_analytics::Message;

fn json_obj(pairs: &[(&str, &str)]) -> serde_json::Value {
    let mut m = serde_json::Map::new();
    for (k, v) in pairs {
        m.insert((*k).to_owned(), serde_json::Value::String((*v).to_owned()));
    }
    serde_json::Value::Object(m)
}

fn empty_obj() -> serde_json::Value {
    serde_json::Value::Object(serde_json::Map::new())
}

fn encoded(msg: &Message) -> String {
    String::from_utf8(encode_message(msg).unwrap()).unwrap()
}

#[test]
fn serialize() {
    let mut extra = serde_json::Map::new();
    extra.insert(
        "messageId".to_owned(),
        serde_json::Value::String("123".to_owned()),
    );
    assert_eq!(
        encoded(&Message::Identify(Identify {
            user: User::UserId {
                user_id: "foo".to_owned()
            },
            traits: json_obj(&[("foo", "bar"), ("baz", "quux")]),
            extra,
            ..Default::default()
        })),
        r#"{"userId":"foo","traits":{"baz":"quux","foo":"bar"},"messageId":"123"}"#.to_owned(),
    );

    assert_eq!(
        encoded(&Message::Track(Track {
            user: User::AnonymousId {
                anonymous_id: "foo".to_owned()
            },
            event: "Foo".to_owned(),
            properties: json_obj(&[("foo", "bar"), ("baz", "quux")]),
            ..Default::default()
        })),
        r#"{"anonymousId":"foo","event":"Foo","properties":{"baz":"quux","foo":"bar"}}"#
            .to_owned(),
    );

    assert_eq!(
        encoded(&Message::Page(Page {
            user: User::Both {
                user_id: "foo".to_owned(),
                anonymous_id: "bar".to_owned()
            },
            name: "Foo".to_owned(),
            properties: json_obj(&[("foo", "bar"), ("baz", "quux")]),
            ..Default::default()
        })),
        r#"{"userId":"foo","anonymousId":"bar","name":"Foo","properties":{"baz":"quux","foo":"bar"}}"#
            .to_owned(),
    );

    assert_eq!(
        encoded(&Message::Screen(Screen {
            user: User::Both {
                user_id: "foo".to_owned(),
                anonymous_id: "bar".to_owned()
            },
            name: "Foo".to_owned(),
            properties: json_obj(&[("foo", "bar"), ("baz", "quux")]),
            ..Default::default()
        })),
        r#"{"userId":"foo","anonymousId":"bar","name":"Foo","properties":{"baz":"quux","foo":"bar"}}"#
            .to_owned(),
    );

    assert_eq!(
        encoded(&Message::Group(Group {
            user: User::UserId {
                user_id: "foo".to_owned()
            },
            group_id: "bar".to_owned(),
            traits: json_obj(&[("foo", "bar"), ("baz", "quux")]),
            ..Default::default()
        })),
        r#"{"userId":"foo","groupId":"bar","traits":{"baz":"quux","foo":"bar"}}"#.to_owned(),
    );

    assert_eq!(
        encoded(&Message::Alias(Alias {
            user: User::UserId {
                user_id: "foo".to_owned()
            },
            previous_id: "bar".to_owned(),
            ..Default::default()
        })),
        r#"{"userId":"foo","previousId":"bar"}"#.to_owned(),
    );

    assert_eq!(
        encoded(&Message::Batch(Batch {
            batch: vec![
                BatchMessage::Track(Track {
                    user: User::UserId {
                        user_id: "foo".to_owned()
                    },
                    event: "Foo".to_owned(),
                    properties: empty_obj(),
                    ..Default::default()
                }),
                BatchMessage::Track(Track {
                    user: User::UserId {
                        user_id: "bar".to_owned()
                    },
                    event: "Bar".to_owned(),
                    properties: empty_obj(),
                    ..Default::default()
                }),
                BatchMessage::Track(Track {
                    user: User::UserId {
                        user_id: "baz".to_owned()
                    },
                    event: "Baz".to_owned(),
                    properties: empty_obj(),
                    ..Default::default()
                })
            ],
            context: Some(json_obj(&[("foo", "bar")])),
            ..Default::default()
        })),
        r#"{"batch":[{"type":"track","userId":"foo","event":"Foo","properties":{}},{"type":"track","userId":"bar","event":"Bar","properties":{}},{"type":"track","userId":"baz","event":"Baz","properties":{}}],"context":{"foo":"bar"}}"#
            .to_owned(),
    );
}

#[test]
fn serialize_timestamp_in_rfc3339_form() {
    let ts = time::OffsetDateTime::from_unix_timestamp(1609459200).unwrap();
    let rendered = ts
        .format(&time::format_description::well_known::Rfc3339)
        .unwrap();
    let msg = Message::Track(Track {
        user: User::UserId {
            user_id: "foo".to_owned(),
        },
        event: "Foo".to_owned(),
        timestamp: Some(ts),
        ..Default::default()
    });
    assert_eq!(
        encoded(&msg),
        format!(
            r#"{{"userId":"foo","event":"Foo","properties":null,"timestamp":"{}"}}"#,
            rendered
        ),
    );
}

#[test]
fn user_id_string_prefers_the_user_id() {
    let both = User::Both {
        user_id: "u".to_owned(),
        anonymous_id: "a".to_owned(),
    };
    assert_eq!("u", both.id_string());
    let anon = User::AnonymousId {
        anonymous_id: "a".to_owned(),
    };
    assert_eq!("a", anon.id_string());
    assert_eq!(
        User::AnonymousId {
            anonymous_id: String::new()
        },
        User::default()
    );
}
