use argon_utils::cli::battery::{flow_name, health_line, json_reading, reading_line, reads};
use argon_utils::device::gauge::{Flow, Health, Reading};
use argon_utils::device::ups::PowerSource;
use argon_utils::json::Json;

fn reading(percent: u8, current: i16, flow: Flow) -> Reading {
    Reading {
        percent,
        vcell_uv: 3_912_000,
        current,
        flow,
    }
}

fn number(j: &Json, key: &str) -> i128 {
    match j.get(key) {
        Some(Json::Number(n)) => *n,
        _ => panic!("no number {key}"),
    }
}

fn text<'a>(j: &'a Json, key: &str) -> &'a str {
    match j.get(key) {
        Some(Json::Text(s)) => s,
        _ => panic!("no text {key}"),
    }
}

fn is_null(j: &Json, key: &str) -> bool {
    matches!(j.get(key), None | Some(Json::Null))
}

#[test]
fn a_reading_carries_the_raw_current_and_the_source_the_policy_sees() {
    let r = reading(64, -2256, Flow::Discharging);
    let v = json_reading(
        "i2c-1 @ 0x64",
        Some(Health { cycles: 7, soh: 98 }),
        Ok((r, PowerSource::Battery)),
    );
    assert_eq!(number(&v, "percent"), 64);
    assert_eq!(
        number(&v, "current_raw"),
        -2256,
        "the sign is the direction of charge"
    );
    assert_eq!(text(&v, "flow"), "discharging");
    assert_eq!(text(&v, "source"), "battery");
    assert_eq!(number(&v, "cycles"), 7);
    assert_eq!(number(&v, "state_of_health_percent"), 98);
}

#[test]
fn a_charger_too_weak_for_the_load_still_reads_as_battery() {
    // The ONE UP finding: "on mains" is not a pin, it is which way charge is moving.
    let r = reading(100, -50, Flow::Discharging);
    let v = json_reading("bus", None, Ok((r, PowerSource::Battery)));
    assert_eq!(text(&v, "source"), "battery");
    assert_eq!(number(&v, "percent"), 100);
    assert!(is_null(&v, "cycles"), "invented health");
}

#[test]
fn a_failed_read_reports_the_error_and_no_numbers() {
    let v = json_reading("bus", None, Err("timed out"));
    assert!(is_null(&v, "percent"));
    assert!(is_null(&v, "flow"));
    assert_eq!(text(&v, "error"), "timed out");
}

#[test]
fn a_line_shows_the_charge_the_cell_and_the_flow() {
    let r = reading(64, -2256, Flow::Discharging);
    let line = reading_line(Ok((r, PowerSource::Battery)), "3.912");
    assert!(line.starts_with("     64 %  3.912"), "{line}");
    assert!(line.contains("discharging"), "{line}");
    assert_eq!(flow_name(Flow::Charging), "charging");
    assert_eq!(
        health_line(Err("nak")),
        "  cycles and health unreadable: nak"
    );
    assert!(health_line(Ok(Health { cycles: 24, soh: 98 })).starts_with("  24 charge cycles, "));
}

#[test]
fn there_is_at_least_one_read() {
    assert_eq!(reads(0), 1);
    assert_eq!(reads(5), 5);
}
