use std::cell::RefCell;
use workpool::tracker::{quota_notice, LimitTracker, Messenger};

struct MockMessenger {
    sent_messages: RefCell<Vec<String>>,
}

impl MockMessenger {
    fn new() -> MockMessenger {
        MockMessenger {
            sent_messages: RefCell::new(vec![]),
        }
    }
}

impl Messenger for MockMessenger {
    fn send(&self, message: &str) {
        self.sent_messages.borrow_mut().push(String::from(message));
    }
}

#[test]
fn it_sends_an_over_75_percent_warning_message() {
    let mock_messenger = MockMessenger::new();
    let mut limit_tracker = LimitTracker::new(&mock_messenger, 100);

    limit_tracker.set_value(80);

    assert_eq!(mock_messenger.sent_messages.borrow().len(), 1);
}

#[test]
fn the_75_percent_message_is_the_warning() {
    let mock_messenger = MockMessenger::new();
    let mut limit_tracker = LimitTracker::new(&mock_messenger, 100);

    limit_tracker.set_value(80);

    assert_eq!(
        mock_messenger.sent_messages.borrow()[0],
        "Warning: You've used up over 75% of your quota!"
    );
}

#[test]
fn quota_thresholds() {
    assert_eq!(quota_notice(74, 100), None);
    assert_eq!(
        quota_notice(75, 100),
        Some("Warning: You've used up over 75% of your quota!")
    );
    assert_eq!(
        quota_notice(89, 100),
        Some("Warning: You've used up over 75% of your quota!")
    );
    assert_eq!(
        quota_notice(90, 100),
        Some("Urgent warning: You've used up over 90% of your quota!")
    );
    assert_eq!(
        quota_notice(99, 100),
        Some("Urgent warning: You've used up over 90% of your quota!")
    );
    assert_eq!(
        quota_notice(100, 100),
        Some("Error: You are over your quota!")
    );
    assert_eq!(
        quota_notice(101, 100),
        Some("Error: You are over your quota!")
    );
}

#[test]
fn quota_with_zero_max() {
    assert_eq!(quota_notice(0, 0), None);
    assert_eq!(quota_notice(1, 0), Some("Error: You are over your quota!"));
}

#[test]
fn a_low_value_sends_nothing() {
    let mock_messenger = MockMessenger::new();
    let mut limit_tracker = LimitTracker::new(&mock_messenger, 100);

    limit_tracker.set_value(10);

    assert_eq!(mock_messenger.sent_messages.borrow().len(), 0);
}
