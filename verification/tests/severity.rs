use biologischer_log::paint::Color;
use biologischer_log::severity::{Severity, Threshold};

const SEVERITIES: [Severity; 5] =
    [Severity::Error, Severity::Warn, Severity::Info, Severity::Debug, Severity::Trace];

#[test]
fn severities_are_ordered_from_error_to_trace() {
    assert_eq!(Severity::Error.urgency(), 1);
    assert_eq!(Severity::Warn.urgency(), 2);
    assert_eq!(Severity::Info.urgency(), 3);
    assert_eq!(Severity::Debug.urgency(), 4);
    assert_eq!(Severity::Trace.urgency(), 5);
}

#[test]
fn at_least_as_severe_follows_the_order() {
    for (i, a) in SEVERITIES.iter().enumerate() {
        for (j, b) in SEVERITIES.iter().enumerate() {
            assert_eq!(a.at_least_as_severe_as(*b), i <= j);
        }
    }
}

#[test]
fn labels_are_upper_case_names() {
    assert_eq!(Severity::Error.label(), "ERROR");
    assert_eq!(Severity::Warn.label(), "WARN");
    assert_eq!(Severity::Info.label(), "INFO");
    assert_eq!(Severity::Debug.label(), "DEBUG");
    assert_eq!(Severity::Trace.label(), "TRACE");
}

#[test]
fn each_severity_has_its_color() {
    assert_eq!(Severity::Error.color(), Color::Red);
    assert_eq!(Severity::Warn.color(), Color::Yellow);
    assert_eq!(Severity::Info.color(), Color::Green);
    assert_eq!(Severity::Debug.color(), Color::Cyan);
    assert_eq!(Severity::Trace.color(), Color::White);
}

#[test]
fn threshold_lets_through_what_is_at_least_as_urgent() {
    let t = Threshold::Info;
    assert!(t.admits(Severity::Error));
    assert!(t.admits(Severity::Warn));
    assert!(t.admits(Severity::Info));
    assert!(!t.admits(Severity::Debug));
    assert!(!t.admits(Severity::Trace));
}

#[test]
fn threshold_off_lets_nothing_through() {
    for s in SEVERITIES {
        assert!(!Threshold::Off.admits(s));
    }
}

#[test]
fn threshold_trace_lets_everything_through() {
    for s in SEVERITIES {
        assert!(Threshold::Trace.admits(s));
    }
}

#[test]
fn threshold_at_a_severity_admits_it_and_nothing_less_urgent() {
    for (i, s) in SEVERITIES.iter().enumerate() {
        let t = Threshold::at(*s);
        assert_eq!(t.level(), s.urgency());
        for (j, other) in SEVERITIES.iter().enumerate() {
            assert_eq!(t.admits(*other), j <= i);
        }
    }
}

#[test]
fn parse_knows_the_six_keywords() {
    assert_eq!(Threshold::parse("trace"), Some(Threshold::Trace));
    assert_eq!(Threshold::parse("debug"), Some(Threshold::Debug));
    assert_eq!(Threshold::parse("info"), Some(Threshold::Info));
    assert_eq!(Threshold::parse("warn"), Some(Threshold::Warn));
    assert_eq!(Threshold::parse("error"), Some(Threshold::Error));
    assert_eq!(Threshold::parse("off"), Some(Threshold::Off));
}

#[test]
fn parse_ignores_case() {
    assert_eq!(Threshold::parse("TRACE"), Some(Threshold::Trace));
    assert_eq!(Threshold::parse("Debug"), Some(Threshold::Debug));
    assert_eq!(Threshold::parse("iNfO"), Some(Threshold::Info));
    assert_eq!(Threshold::parse("WARN"), Some(Threshold::Warn));
    assert_eq!(Threshold::parse("ErroR"), Some(Threshold::Error));
    assert_eq!(Threshold::parse("OFF"), Some(Threshold::Off));
}

#[test]
fn parse_rejects_everything_else() {
    assert_eq!(Threshold::parse(""), None);
    assert_eq!(Threshold::parse("warning"), None);
    assert_eq!(Threshold::parse("inf"), None);
    assert_eq!(Threshold::parse(" info"), None);
    assert_eq!(Threshold::parse("info "), None);
    assert_eq!(Threshold::parse("verbose"), None);
    assert_eq!(Threshold::parse("1"), None);
    assert_eq!(Threshold::parse("\u{130}nfo"), None);
    assert_eq!(Threshold::parse("wa\u{212b}n"), None);
    assert_eq!(Threshold::parse("[race"), None);
    assert_eq!(Threshold::parse("@ff"), None);
}

#[test]
fn resolve_takes_the_keyword_where_there_is_one() {
    assert_eq!(Threshold::resolve("warn", true), Threshold::Warn);
    assert_eq!(Threshold::resolve("OFF", false), Threshold::Off);
}

#[test]
fn resolve_falls_back_by_build() {
    assert_eq!(Threshold::resolve("", true), Threshold::Trace);
    assert_eq!(Threshold::resolve("", false), Threshold::Info);
    assert_eq!(Threshold::resolve("loud", true), Threshold::Trace);
    assert_eq!(Threshold::resolve("loud", false), Threshold::Info);
}
