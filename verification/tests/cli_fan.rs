use argon_utils::cli::fan::{
    json_state, json_step, may_send, resolve_bus, safe_refusal, set_duty, set_safe, step_line,
    stops_after, t5, t5_read_text, writes_text, Safe, Sending, Trial,
};
use argon_utils::device::config::{Config, PolicyConfig};
use argon_utils::device::fan::Step;
use argon_utils::device::mode::{FanDuty, Mode};
use argon_utils::json::Json;
use argon_utils::time::Duration;

fn config() -> Config {
    Config::with_policy(PolicyConfig {
        low_percent: 20,
        critical_percent: 10,
        recover_margin: 5,
        confirmations: 2,
        min_uptime: Duration::from_secs(120),
    })
}

fn number(j: &Json, key: &str) -> i128 {
    match j.get(key) {
        Some(Json::Number(n)) => *n,
        _ => panic!("no number {key}"),
    }
}

fn truth(j: &Json, key: &str) -> bool {
    match j.get(key) {
        Some(Json::Bool(b)) => *b,
        _ => panic!("no truth value {key}"),
    }
}

#[test]
fn the_state_reports_the_curve_and_what_it_says_now() {
    let config = config();
    let curve = config.fan_curve().expect("the default curve is valid");
    let v = json_state(
        &config,
        Mode::ReadOnly,
        &curve,
        FanDuty::of(55),
        "zone0",
        620,
    );
    assert!(matches!(
        v.get("temperature_c"),
        Some(Json::Decimal {
            units: 620,
            places: 1
        })
    ));
    assert!(matches!(v.get("sensor"), Some(Json::Text(s)) if s == "zone0"));
    assert!(matches!(v.get("curve"), Some(Json::List(c)) if !c.is_empty()));
    // The floor is reported beside the curve, because the curve alone does not say what
    // would be written below its first point.
    assert!(matches!(v.get("floor_percent"), Some(Json::Number(_))));
    assert!(matches!(v.get("stopping_allowed"), Some(Json::Bool(_))));
}

#[test]
fn a_failed_sensor_read_is_not_reported_as_a_temperature() {
    let v = json_step(Step::SensorFailed {
        fallback: FanDuty::of(55),
        consecutive: 3,
    });
    assert!(
        matches!(v.get("temperature_c"), Some(Json::Null)),
        "a fallback read as a reading"
    );
    assert_eq!(number(&v, "duty_percent"), 55);
    assert!(!truth(&v, "sensor_ok"));
    assert_eq!(number(&v, "consecutive_failures"), 3);
}

#[test]
fn an_applied_step_says_whether_it_would_have_written() {
    let v = json_step(Step::Applied {
        decicelsius: 475,
        duty: FanDuty::of(10),
        wrote: false,
    });
    assert!(matches!(
        v.get("temperature_c"),
        Some(Json::Decimal {
            units: 475,
            places: 1
        })
    ));
    assert!(!truth(&v, "would_write"));
    assert!(truth(&v, "sensor_ok"));
}

#[test]
fn a_step_is_printed_with_its_temperature() {
    let line = step_line(
        Step::Applied {
            decicelsius: 475,
            duty: FanDuty::of(10),
            wrote: true,
        },
        "10%",
    );
    assert!(line.contains("47.5"), "{line}");
    assert!(line.contains("10%"), "{line}");
}

#[test]
fn nothing_is_sent_unless_asked_and_alone() {
    assert_eq!(may_send(false, false), Sending::NotAsked);
    assert_eq!(may_send(true, true), Sending::DaemonRuns);
    assert_eq!(may_send(true, false), Sending::Send);
}

#[test]
fn a_bus_is_found_or_named() {
    let mut c = config();
    assert_eq!(c.mcu.bus, "auto");
    assert_eq!(
        resolve_bus(&c, Some("/dev/i2c-1")),
        Ok("/dev/i2c-1".to_owned())
    );
    assert!(resolve_bus(&c, None).is_err());
    c.mcu.bus = "/dev/i2c-7".to_owned();
    assert_eq!(resolve_bus(&c, None), Ok("/dev/i2c-7".to_owned()));
}

#[test]
fn a_duty_is_framed_in_the_dialect_of_the_configuration() {
    let c = config();
    let (bytes, _) = set_duty(&c, 40, 10);
    assert_eq!(bytes, vec![40]);
    // Below what makes the fan turn, it is not asked to crawl.
    let (low, _) = set_duty(&c, 5, 10);
    let (clamped, _) = set_duty(&c, 250, 10);
    assert_eq!(clamped, vec![100]);
    assert_eq!(low.len(), 1);
}

#[test]
fn the_fan_experiment_knows_its_steps() {
    assert!(matches!(t5("probe"), Ok((Trial::Read, _))));
    assert!(t5("nonsense").is_err());
    assert!(t5_read_text(Ok(0x32)).starts_with("\n  returned: 0x32 (50"));
    assert!(t5_read_text(Err("nak")).contains("nak"));
}

#[test]
fn the_safe_duty_needs_a_mode_that_writes_and_an_mcu() {
    assert!(safe_refusal(Mode::ReadOnly).is_some());
    assert_eq!(safe_refusal(Mode::Full), None);
    assert_eq!(set_safe(Ok(true), "/dev/i2c-1"), Safe::Write);
    assert!(matches!(set_safe(Ok(false), "/dev/i2c-1"), Safe::Nothing(s) if s.contains("0x1a")));
    assert!(matches!(set_safe(Err("nak"), "/dev/i2c-1"), Safe::Failed(s) if s.contains("nak")));
}

#[test]
fn a_dry_run_ends_after_its_count() {
    assert!(!stops_after(1, 2));
    assert!(stops_after(2, 2));
    assert!(!stops_after(9, 0));
    assert!(writes_text(&vec![(0x1a, vec![0x32])]).contains("32"));
}
