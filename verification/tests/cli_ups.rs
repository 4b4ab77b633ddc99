use argon_utils::cli::ups::{age, json_from_daemon, poweroff, render};
use argon_utils::device::control::Fields;
use argon_utils::json::Json;

fn fields(pairs: &[(&str, &str)]) -> Fields {
    pairs.iter().map(|(k, v)| ((*k).to_owned(), (*v).to_owned())).collect()
}

fn number(j: &Json, key: &str) -> Option<i128> {
    match j.get(key) {
        Some(Json::Number(n)) => Some(*n),
        _ => None,
    }
}

fn text<'a>(j: &'a Json, key: &str) -> Option<&'a str> {
    match j.get(key) {
        Some(Json::Text(s)) => Some(s.as_str()),
        _ => None,
    }
}

fn flag(j: &Json, key: &str) -> Option<bool> {
    match j.get(key) {
        Some(Json::Bool(b)) => Some(*b),
        _ => None,
    }
}

fn is_null(j: &Json, key: &str) -> bool {
    matches!(j.get(key), Some(Json::Null))
}

#[test]
fn a_reading_is_reported_with_its_source_and_age() {
    let out = render(
        &fields(&[
            ("available", "yes"),
            ("level", "on-battery"),
            ("source", "battery"),
            ("percent", "64"),
            ("age_s", "3"),
            ("shutdown_at_unix", ""),
        ]),
        1_000,
    );
    assert!(out.contains("64%"), "{out}");
    assert!(out.contains("battery"), "{out}");
    assert!(out.contains("3s ago"), "{out}");
    assert!(out.contains("none scheduled"), "{out}");
    assert_eq!(
        out,
        "From argond\n-----------\n  charge         64%\n  source         battery\n  \
         level          on-battery\n  last read      3s ago\n  poweroff       none scheduled\n"
    );
}

#[test]
fn a_daemon_with_nothing_to_report_says_so_rather_than_printing_blanks() {
    let out = render(&fields(&[("available", "no")]), 1_000);
    assert!(out.contains("no reading"), "{out}");
    assert!(!out.contains("charge"), "{out}");
}

#[test]
fn monitoring_switched_off_reads_as_a_choice_not_a_fault() {
    let out = render(&fields(&[("available", "no"), ("source_config", "none")]), 1_000);
    assert!(out.contains("off by configuration"), "{out}");
    assert!(out.contains("Nothing is wrong"), "{out}");
}

#[test]
fn a_configured_source_with_no_reading_names_the_source_and_where_to_look() {
    let out = render(&fields(&[("available", "no"), ("source_config", "serial")]), 1_000);
    assert!(out.contains("serial"), "{out}");
    assert!(out.contains("journalctl"), "{out}");
    assert!(out.contains("monitor \"serial\", but"), "{out}");
}

#[test]
fn a_missing_field_never_becomes_a_wrong_number() {
    // An older daemon, or one that failed its last read: the percentage is simply absent.
    let out = render(&fields(&[("available", "yes"), ("level", "unknown")]), 1_000);
    assert!(out.contains("unknown"), "{out}");
    assert!(!out.contains("0%"), "{out}");
}

#[test]
fn a_stale_reading_is_called_stale() {
    // A thread that died leaves a status that otherwise looks perfectly healthy.
    assert!(age("3").contains("3s ago"));
    assert!(!age("59").contains("stale"));
    assert!(age("3600").contains("stale"), "{}", age("3600"));
    assert_eq!(age("not a number"), "-");
}

#[test]
fn a_ups_that_is_gone_is_told_from_one_that_never_was() {
    let out = render(&fields(&[("available", "yes"), ("level", "absent")]), 1_000);
    assert!(out.contains("No UPS connected"), "{out}");
    let out = render(
        &fields(&[
            ("available", "yes"),
            ("level", "missing"),
            ("missing_name", "Argon USB"),
            ("last_seen_unix", "400"),
        ]),
        1_000,
    );
    assert!(out.contains("(Argon USB, last read 10 min ago) cannot be found"), "{out}");
    assert!(out.contains("--forget"), "{out}");
}

#[test]
fn the_json_route_reports_numbers_as_numbers_and_absence_as_null() {
    let v = json_from_daemon(
        &fields(&[
            ("available", "yes"),
            ("level", "critical"),
            ("source", "battery"),
            ("percent", "7"),
            ("updated_unix", "1000"),
            ("age_s", "4"),
            ("shutdown_at_unix", "1300"),
        ]),
        1_000,
    );
    assert_eq!(number(&v, "percent"), Some(7));
    assert_eq!(text(&v, "level"), Some("critical"));
    assert_eq!(text(&v, "source"), Some("battery"));
    assert_eq!(number(&v, "age_s"), Some(4));
    assert_eq!(flag(&v, "stale"), Some(false));
    assert_eq!(number(&v, "shutdown_in_s"), Some(300));
    assert_eq!(text(&v, "route"), Some("argond"));
}

#[test]
fn json_never_turns_a_missing_reading_into_a_zero() {
    // A monitor that cannot tell "no reading" from "0 %" would shut a machine down.
    let v = json_from_daemon(
        &fields(&[("available", "yes"), ("level", "unknown"), ("percent", "")]),
        1_000,
    );
    assert!(is_null(&v, "percent"));
    assert!(is_null(&v, "shutdown_at_unix"));
    assert!(is_null(&v, "shutdown_in_s"));

    let v = json_from_daemon(&fields(&[("available", "no")]), 1_000);
    assert_eq!(flag(&v, "available"), Some(false));
    assert!(is_null(&v, "level"));
    // A charge that no byte holds is no charge.
    assert!(is_null(&json_from_daemon(&fields(&[("percent", "256")]), 0), "percent"));
}

#[test]
fn json_marks_a_stale_reading_at_the_same_threshold_as_the_text() {
    let stale = |age: &str| {
        let v = json_from_daemon(&fields(&[("available", "yes"), ("age_s", age)]), 0);
        flag(&v, "stale").unwrap()
    };
    assert!(!stale("119"));
    assert!(stale("120"));
    // The text output must agree, or a script and a person reading the same daemon disagree about
    // whether to trust it.
    assert!(!age("119").contains("stale"));
    assert!(age("120").contains("stale"));
}

#[test]
fn a_pending_poweroff_is_shown_as_time_left() {
    assert_eq!(poweroff("1300", 1_000), "scheduled in 5m 0s");
    assert_eq!(poweroff("", 1_000), "none scheduled");
    // Already due: no underflow, and no negative time printed.
    assert_eq!(poweroff("900", 1_000), "scheduled in 0m 0s");
}
