use std::cell::RefCell;
use std::rc::Rc;

use june_analytics::auto_batcher::AutoBatcher;
use june_analytics::batcher::Batcher;
use june_analytics::message::{BatchMessage, Track, User};
use june_analytics::{Client, Error, Message};

struct Recorder {
    batch_sizes: Rc<RefCell<Vec<usize>>>,
}

impl Client for Recorder {
    fn send(&self, _write_key: String, msg: Message) -> Result<(), Error> {
        match msg {
            Message::Batch(b) => self.batch_sizes.borrow_mut().push(b.batch.len()),
            _ => panic!("expected a batch envelope"),
        }
        Ok(())
    }
}

fn track(user_id: String, event: String) -> BatchMessage {
    BatchMessage::Track(Track {
        user: User::UserId { user_id },
        event,
        ..Default::default()
    })
}

#[test]
fn hundred_small_pushes_then_flush() {
    let batch_sizes = Rc::new(RefCell::new(Vec::new()));
    let recorder = Recorder {
        batch_sizes: Rc::clone(&batch_sizes),
    };
    let batcher = Batcher::new(None);
    let mut auto = AutoBatcher::new(recorder, batcher, "write_key".to_owned());

    for i in 0..100 {
        auto.push(track(format!("user-{}", i), "Example".to_owned()))
            .unwrap();
    }
    auto.flush().unwrap();

    let sizes = batch_sizes.borrow();
    assert!(sizes.iter().any(|n| *n > 0));
    assert_eq!(100usize, sizes.iter().sum::<usize>());
}

#[test]
fn full_batches_are_sent_automatically() {
    let batch_sizes = Rc::new(RefCell::new(Vec::new()));
    let recorder = Recorder {
        batch_sizes: Rc::clone(&batch_sizes),
    };
    let batcher = Batcher::new(None);
    let mut auto = AutoBatcher::new(recorder, batcher, "write_key".to_owned());

    for i in 0..20 {
        auto.push(track("a".repeat(1024 * 30), format!("event-{}", i)))
            .unwrap();
    }
    // At least one full batch went out before any explicit flush.
    assert!(!batch_sizes.borrow().is_empty());

    auto.flush().unwrap();
    let sizes = batch_sizes.borrow();
    assert!(sizes.len() >= 2);
    assert_eq!(20usize, sizes.iter().sum::<usize>());
}

#[test]
fn oversized_message_is_rejected_by_the_auto_batcher() {
    let batch_sizes = Rc::new(RefCell::new(Vec::new()));
    let recorder = Recorder {
        batch_sizes: Rc::clone(&batch_sizes),
    };
    let batcher = Batcher::new(None);
    let mut auto = AutoBatcher::new(recorder, batcher, "write_key".to_owned());

    let err = auto
        .push(track("a".repeat(1024 * 33), "big".to_owned()))
        .unwrap_err();
    assert!(err.describe().contains("message too large"));
    assert!(batch_sizes.borrow().is_empty());
}
