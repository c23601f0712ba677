use biologischer_log::clock::Timestamp;
use biologischer_log::event::LogEvent;
use biologischer_log::render::{format_event, format_plain, render_line};
use biologischer_log::severity::Severity;

fn stamp() -> Timestamp {
    Timestamp::new(12, 34, 56, 789).unwrap()
}

#[test]
fn line_without_source_line() {
    let e = LogEvent::new(Severity::Info, "svc::http", None, "started", stamp());
    assert_eq!(format_plain(&e), "12:34:56.789 INFO [svc::http] started");
}

#[test]
fn line_with_source_line() {
    let e = LogEvent::new(Severity::Error, "svc::db", Some(42), "connection lost", stamp());
    assert_eq!(format_plain(&e), "12:34:56.789 ERROR [svc::db@42] connection lost");
}

#[test]
fn line_zero_is_a_line() {
    let e = LogEvent::new(Severity::Debug, "m", Some(0), "x", Timestamp::midnight());
    assert_eq!(format_plain(&e), "00:00:00.000 DEBUG [m@0] x");
}

#[test]
fn every_severity_shows_its_name() {
    let names = [
        (Severity::Error, "ERROR"),
        (Severity::Warn, "WARN"),
        (Severity::Info, "INFO"),
        (Severity::Debug, "DEBUG"),
        (Severity::Trace, "TRACE"),
    ];
    for (severity, name) in names {
        let e = LogEvent::new(severity, "a", Some(7), "msg", stamp());
        assert_eq!(format_plain(&e), format!("12:34:56.789 {} [a@7] msg", name));
    }
}

#[test]
fn empty_message_and_module_keep_the_frame() {
    let e = LogEvent::new(Severity::Trace, "", None, "", stamp());
    assert_eq!(format_plain(&e), "12:34:56.789 TRACE [] ");
}

#[test]
fn message_is_taken_as_it_is() {
    let e = LogEvent::new(Severity::Warn, "a::b", Some(4_294_967_295), "50% [done] @home", stamp());
    assert_eq!(format_plain(&e), "12:34:56.789 WARN [a::b@4294967295] 50% [done] @home");
}

#[test]
fn render_line_joins_its_parts() {
    assert_eq!(
        render_line("09:00:00.001", "INFO", "svc", None, "hello"),
        "09:00:00.001 INFO [svc] hello"
    );
    assert_eq!(
        render_line("09:00:00.001", "<I>", "svc", Some(3), "<hello>"),
        "09:00:00.001 <I> [svc@3] <hello>"
    );
}

#[test]
fn without_colors_the_printed_line_is_the_plain_line() {
    colored::control::set_override(false);
    let e = LogEvent::new(Severity::Info, "svc::http", None, "started", stamp());
    assert_eq!(format_event(&e), "12:34:56.789 INFO [svc::http] started");
    let e = LogEvent::new(Severity::Error, "svc::db", Some(42), "lost", stamp());
    assert_eq!(format_event(&e), format_plain(&e));
}

#[test]
fn without_colors_a_message_with_a_reset_is_kept_as_it_is() {
    colored::control::set_override(false);
    let e = LogEvent::new(Severity::Info, "svc", None, "a\u{1b}[0mb", stamp());
    assert_eq!(format_event(&e), "12:34:56.789 INFO [svc] a\u{1b}[0mb");
}
