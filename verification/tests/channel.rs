use biologischer_log::channel::{Channel, Received, SendError, DEFAULT_CAPACITY};
use biologischer_log::clock::Timestamp;
use biologischer_log::event::LogEvent;
use biologischer_log::severity::Severity;

fn event(message: &str) -> LogEvent {
    LogEvent::new(Severity::Info, "svc", None, message, Timestamp::midnight())
}

fn message_of(received: Received) -> String {
    match received {
        Received::Event(e) => e.message().to_string(),
        other => panic!("expected an event, got {:?}", other),
    }
}

#[test]
fn a_new_channel_is_open_and_empty() {
    let c = Channel::new(3).unwrap();
    assert_eq!(c.capacity(), 3);
    assert_eq!(c.len(), 0);
    assert!(c.is_empty());
    assert!(!c.is_full());
    assert!(!c.is_closed());
    assert!(!c.is_finished());
}

#[test]
fn capacity_zero_is_refused() {
    assert!(Channel::new(0).is_none());
}

#[test]
fn default_capacity_is_one_hundred() {
    assert_eq!(DEFAULT_CAPACITY, 100);
    let mut c = Channel::with_default_capacity();
    assert_eq!(c.capacity(), 100);
    for i in 0..100 {
        assert!(c.try_send(event(&format!("{}", i))).is_ok());
    }
    assert!(c.is_full());
    assert!(matches!(c.try_send(event("one too many")), Err(SendError::Full(_))));
    assert_eq!(c.len(), 100);
}

#[test]
fn events_come_out_in_the_order_they_went_in() {
    let mut c = Channel::new(4).unwrap();
    for m in ["e1", "e2", "e3", "e4"] {
        assert!(c.try_send(event(m)).is_ok());
    }
    assert_eq!(message_of(c.try_recv()), "e1");
    assert_eq!(message_of(c.try_recv()), "e2");
    assert_eq!(message_of(c.try_recv()), "e3");
    assert_eq!(message_of(c.try_recv()), "e4");
    assert!(matches!(c.try_recv(), Received::Empty));
}

#[test]
fn sends_and_receives_may_interleave() {
    let mut c = Channel::new(2).unwrap();
    assert!(c.try_send(event("a")).is_ok());
    assert!(c.try_send(event("b")).is_ok());
    assert_eq!(message_of(c.try_recv()), "a");
    assert!(c.try_send(event("c")).is_ok());
    assert_eq!(message_of(c.try_recv()), "b");
    assert_eq!(message_of(c.try_recv()), "c");
    assert!(c.is_empty());
}

#[test]
fn second_send_waits_while_capacity_one_is_taken() {
    let mut c = Channel::new(1).unwrap();
    assert!(c.try_send(event("first")).is_ok());
    let back = match c.try_send(event("second")) {
        Err(SendError::Full(e)) => e,
        other => panic!("expected a full channel, got {:?}", other),
    };
    assert_eq!(back.message(), "second");
    assert_eq!(c.len(), 1);
    assert_eq!(message_of(c.try_recv()), "first");
    assert!(c.try_send(back).is_ok());
    assert_eq!(message_of(c.try_recv()), "second");
    assert!(matches!(c.try_recv(), Received::Empty));
}

#[test]
fn a_closed_channel_refuses_and_gives_the_event_back() {
    let mut c = Channel::new(2).unwrap();
    c.close();
    assert!(c.is_closed());
    match c.try_send(event("late")) {
        Err(SendError::Closed(e)) => assert_eq!(e.message(), "late"),
        other => panic!("expected a closed channel, got {:?}", other),
    }
    assert_eq!(c.len(), 0);
}

#[test]
fn a_full_closed_channel_reports_closed() {
    let mut c = Channel::new(1).unwrap();
    assert!(c.try_send(event("a")).is_ok());
    c.close();
    assert!(matches!(c.try_send(event("b")), Err(SendError::Closed(_))));
}

#[test]
fn pending_events_survive_the_close() {
    let mut c = Channel::new(3).unwrap();
    assert!(c.try_send(event("a")).is_ok());
    assert!(c.try_send(event("b")).is_ok());
    c.close();
    assert!(!c.is_finished());
    assert_eq!(c.len(), 2);
    assert_eq!(message_of(c.try_recv()), "a");
    assert!(!c.is_finished());
    assert_eq!(message_of(c.try_recv()), "b");
    assert!(c.is_finished());
    assert!(matches!(c.try_recv(), Received::Finished));
    assert!(matches!(c.try_recv(), Received::Finished));
}

#[test]
fn an_open_empty_channel_is_not_finished() {
    let mut c = Channel::new(1).unwrap();
    assert!(matches!(c.try_recv(), Received::Empty));
    assert!(!c.is_finished());
}

#[test]
fn closing_twice_is_closing_once() {
    let mut c = Channel::new(2).unwrap();
    assert!(c.try_send(event("a")).is_ok());
    c.close();
    c.close();
    assert!(c.is_closed());
    assert_eq!(c.len(), 1);
    assert_eq!(message_of(c.try_recv()), "a");
    assert!(matches!(c.try_recv(), Received::Finished));
}

#[test]
fn an_event_comes_out_as_it_went_in() {
    let mut c = Channel::new(1).unwrap();
    let stamp = Timestamp::new(1, 2, 3, 4).unwrap();
    let sent = LogEvent::new(Severity::Warn, "a::b", Some(17), "careful", stamp);
    assert!(c.try_send(sent).is_ok());
    match c.try_recv() {
        Received::Event(e) => {
            assert_eq!(e.severity(), Severity::Warn);
            assert_eq!(e.module(), "a::b");
            assert_eq!(e.line(), Some(17));
            assert_eq!(e.message(), "careful");
            assert_eq!(e.timestamp().text(), "01:02:03.004");
        }
        other => panic!("expected an event, got {:?}", other),
    }
}

#[test]
fn a_channel_never_holds_more_than_it_has_room_for() {
    let mut c = Channel::new(3).unwrap();
    for i in 0..10 {
        let _ = c.try_send(event(&format!("{}", i)));
        assert!(c.len() <= c.capacity());
    }
    assert_eq!(c.len(), 3);
    assert!(c.is_full());
    assert_eq!(message_of(c.try_recv()), "0");
    assert!(!c.is_full());
    assert_eq!(c.len(), 2);
}
