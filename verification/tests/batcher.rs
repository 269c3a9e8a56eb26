use june_analytics::batcher::Batcher;
use june_analytics::message::{BatchMessage, Track, User};
use june_analytics::wire::encode_batch_message;
use june_analytics::Message;

fn json_obj(pairs: &[(&str, &str)]) -> serde_json::Value {
    let mut m = serde_json::Map::new();
    for (k, v) in pairs {
        m.insert((*k).to_owned(), serde_json::Value::String((*v).to_owned()));
    }
    serde_json::Value::Object(m)
}

#[test]
fn test_push_and_into() {
    let batch_msg = BatchMessage::Track(Track {
        ..Default::default()
    });

    let context = json_obj(&[("foo", "bar")]);

    let mut batcher = Batcher::new(Some(context.clone()));
    batcher.without_auto_timestamp();
    let result = batcher.push(batch_msg.clone());
    assert_eq!(None, result.ok().unwrap());

    let batch = batcher.into_message();
    let inner_batch = match batch {
        Message::Batch(b) => b,
        _ => panic!("invalid message type"),
    };
    assert_eq!(context, inner_batch.context.unwrap());
    assert_eq!(1, inner_batch.batch.len());

    assert_eq!(inner_batch.batch, vec![batch_msg]);
}

#[test]
fn test_bad_message_size() {
    let batch_msg = Track {
        user: User::UserId {
            user_id: String::from_utf8(vec![b'a'; 1024 * 33]).unwrap(),
        },
        ..Default::default()
    };

    let mut batcher = Batcher::new(None);
    let result = batcher.push(BatchMessage::from(batch_msg));

    let err = result.err().unwrap();
    assert!(err.describe().contains("message too large"));
}

#[test]
fn test_max_buffer() {
    let batch_msg = Track {
        user: User::UserId {
            user_id: String::from_utf8(vec![b'a'; 1024 * 30]).unwrap(),
        },
        ..Default::default()
    };

    let mut batcher = Batcher::new(None);
    batcher.without_auto_timestamp();
    let mut result = Ok(None);
    for _i in 0..20 {
        result = batcher.push(BatchMessage::from(batch_msg.clone()));
        if result.is_ok() && result.as_ref().ok().unwrap().is_some() {
            break;
        }
    }

    let msg = result.ok().unwrap();
    assert_eq!(BatchMessage::from(batch_msg), msg.unwrap());
}

#[test]
fn oversize_rejection_leaves_buffer_unchanged() {
    let small = BatchMessage::Track(Track {
        user: User::UserId {
            user_id: "u1".to_owned(),
        },
        event: "kept".to_owned(),
        ..Default::default()
    });
    let oversized = BatchMessage::Track(Track {
        user: User::UserId {
            user_id: "a".repeat(1024 * 33),
        },
        ..Default::default()
    });

    let mut batcher = Batcher::new(None);
    batcher.without_auto_timestamp();
    assert!(batcher.push(small.clone()).unwrap().is_none());
    assert!(batcher.push(oversized).is_err());

    let env = match batcher.into_message() {
        Message::Batch(b) => b,
        _ => panic!("invalid message type"),
    };
    assert_eq!(env.batch, vec![small]);
}

#[test]
fn boundary_exact_fit_is_accepted() {
    // Pad the user ID so that every message costs exactly 4096 bytes
    // (serialized size 4095 plus the one-byte separator overhead); 128
    // such messages land exactly at the 512 KiB batch cap.
    let base = encode_batch_message(&BatchMessage::Track(Track {
        user: User::UserId {
            user_id: String::new(),
        },
        ..Default::default()
    }))
    .unwrap()
    .len();
    let msg = BatchMessage::Track(Track {
        user: User::UserId {
            user_id: "a".repeat(4095 - base),
        },
        ..Default::default()
    });
    assert_eq!(4095, encode_batch_message(&msg).unwrap().len());

    let mut batcher = Batcher::new(None);
    batcher.without_auto_timestamp();
    for _ in 0..128 {
        assert!(batcher.push(msg.clone()).unwrap().is_none());
    }
    // The batch stands exactly at the cap: the next push is handed back.
    let rejected = batcher.push(msg.clone()).unwrap();
    assert_eq!(Some(msg), rejected);

    let env = match batcher.into_message() {
        Message::Batch(b) => b,
        _ => panic!("invalid message type"),
    };
    assert_eq!(128, env.batch.len());
}

#[test]
fn thirty_kib_messages_overflow_before_twenty() {
    let batch_msg = Track {
        user: User::UserId {
            user_id: "a".repeat(1024 * 30),
        },
        ..Default::default()
    };
    let size = encode_batch_message(&BatchMessage::from(batch_msg.clone()))
        .unwrap()
        .len();
    let expected_accepted = (1024 * 512) / (size + 1);
    assert!(expected_accepted < 20);

    let mut batcher = Batcher::new(None);
    batcher.without_auto_timestamp();
    let mut accepted = 0;
    let mut returned = None;
    for _ in 0..20 {
        match batcher.push(BatchMessage::from(batch_msg.clone())).unwrap() {
            None => accepted += 1,
            Some(m) => {
                returned = Some(m);
                break;
            }
        }
    }
    assert_eq!(expected_accepted, accepted);
    assert_eq!(Some(BatchMessage::from(batch_msg)), returned);

    let env = match batcher.into_message() {
        Message::Batch(b) => b,
        _ => panic!("invalid message type"),
    };
    assert_eq!(accepted, env.batch.len());
}

#[test]
fn decision_thresholds_are_exact() {
    assert!(june_analytics::batcher::message_fits(1024 * 32));
    assert!(!june_analytics::batcher::message_fits(1024 * 32 + 1));
    // 491519 + 32768 + 1 lands exactly at the 512 KiB cap: admitted.
    assert!(june_analytics::batcher::batch_admits(491519, 1024 * 32));
    // One byte more would exceed it: refused.
    assert!(!june_analytics::batcher::batch_admits(491520, 1024 * 32));
}

#[test]
fn order_is_preserved() {
    let events = ["first", "second", "third"];
    let mut batcher = Batcher::new(None);
    batcher.without_auto_timestamp();
    for event in events {
        let msg = BatchMessage::Track(Track {
            user: User::UserId {
                user_id: "u1".to_owned(),
            },
            event: event.to_owned(),
            ..Default::default()
        });
        assert!(batcher.push(msg).unwrap().is_none());
    }
    let env = match batcher.into_message() {
        Message::Batch(b) => b,
        _ => panic!("invalid message type"),
    };
    assert_eq!(events.len(), env.batch.len());
    for (i, event) in events.iter().enumerate() {
        match &env.batch[i] {
            BatchMessage::Track(t) => assert_eq!(*event, t.event),
            _ => panic!("invalid message type"),
        }
    }
}

#[test]
fn auto_timestamp_fills_missing_timestamps_only() {
    let msg = BatchMessage::Track(Track {
        user: User::UserId {
            user_id: "u1".to_owned(),
        },
        ..Default::default()
    });

    let mut with_auto = Batcher::new(None);
    assert!(with_auto.push(msg.clone()).unwrap().is_none());
    let env = match with_auto.into_message() {
        Message::Batch(b) => b,
        _ => panic!("invalid message type"),
    };
    match &env.batch[0] {
        BatchMessage::Track(t) => assert!(t.timestamp.is_some()),
        _ => panic!("invalid message type"),
    }

    let mut without_auto = Batcher::new(None);
    without_auto.without_auto_timestamp();
    assert!(without_auto.push(msg).unwrap().is_none());
    let env = match without_auto.into_message() {
        Message::Batch(b) => b,
        _ => panic!("invalid message type"),
    };
    match &env.batch[0] {
        BatchMessage::Track(t) => assert!(t.timestamp.is_none()),
        _ => panic!("invalid message type"),
    }
}

#[test]
fn context_is_propagated_regardless_of_contents() {
    let context = json_obj(&[("library", "june")]);
    let batcher = Batcher::new(Some(context.clone()));
    let env = match batcher.into_message() {
        Message::Batch(b) => b,
        _ => panic!("invalid message type"),
    };
    assert_eq!(Some(context), env.context);
    assert!(env.batch.is_empty());
    assert!(env.integrations.is_none());
}

#[test]
fn single_track_event_round_trip() {
    let msg = BatchMessage::Track(Track {
        user: User::UserId {
            user_id: "u1".to_owned(),
        },
        event: "login".to_owned(),
        ..Default::default()
    });
    let mut batcher = Batcher::new(None);
    batcher.without_auto_timestamp();
    assert!(batcher.push(msg).unwrap().is_none());

    let message = batcher.into_message();
    let bytes = june_analytics::wire::encode_message(&message).unwrap();
    let value: serde_json::Value = serde_json::from_slice(&bytes).unwrap();

    let elements = value["batch"].as_array().unwrap();
    assert_eq!(1, elements.len());
    assert_eq!("track", elements[0]["type"].as_str().unwrap());
    assert_eq!("u1", elements[0]["userId"].as_str().unwrap());
    assert_eq!("login", elements[0]["event"].as_str().unwrap());
}
