use biologischer_log::fault::fault_report;

#[test]
fn report_is_red_and_yellow() {
    colored::control::set_override(true);
    let report = fault_report("main", Some("a.rs:1:2"), Some("boom"));
    let red_bullet = "\u{1b}[31m>\u{1b}[0m";
    let expected = format!(
        "\u{1b}[31m========== Rust panicked! ==========\u{1b}[0m\n\
         {b} \u{1b}[91mThread:\u{1b}[0m \u{1b}[93mmain\u{1b}[0m\n\
         {b} \u{1b}[91mLocation:\u{1b}[0m \u{1b}[93ma.rs:1:2\u{1b}[0m\n\
         {b} \u{1b}[91mMessage:\u{1b}[0m \u{1b}[93mboom\u{1b}[0m\n",
        b = red_bullet
    );
    assert_eq!(report, expected);
}

#[test]
fn report_holds_place_and_message_whole() {
    colored::control::set_override(true);
    let message = "bad byte \u{1b} in [0m input";
    let report = fault_report("main", Some("src/io.rs:3:14"), Some(message));
    assert!(report.contains(message));
    assert!(report.contains("src/io.rs:3:14"));
    assert!(report.contains("main"));
}
