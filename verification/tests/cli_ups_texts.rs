use argon_utils::cli::ups::{
    battery_line, dash, decode, discarded_text, flag_label, fmt_ids, format_seconds,
    held_by_daemon, identity_text, is_hidraw, json_from_device, json_from_serial, poll_interval,
    serial_path, telemetry_text, watch_head, watch_line, Field, Identity, Label, Reading, Report,
    Usage,
};
use argon_utils::device::config::{Config, PolicyConfig};
use argon_utils::device::mcu::Error;
use argon_utils::device::power::Advice;
use argon_utils::device::status::Level;
use argon_utils::device::ups::{BatteryStatus, Decision, Poll, PowerSource};
use argon_utils::json::Json;
use argon_utils::time::Duration;

fn config() -> Config {
    Config::with_policy(PolicyConfig {
        low_percent: 20,
        critical_percent: 10,
        recover_margin: 5,
        confirmations: 2,
        min_uptime: Duration::from_secs(120),
    })
}

fn field(report_id: u8, usage: Usage) -> Field {
    Field { input: true, report_id, usage }
}

fn poll(percent: u8, source: PowerSource, level: Level, advice: Advice) -> Poll {
    Poll {
        battery: Some(BatteryStatus { percent, source }),
        error: None,
        decision: Decision { level, advice },
        consecutive_failures: 0,
    }
}

fn failed(count: u32) -> Poll {
    Poll {
        battery: None,
        error: Some(Error::Other("timed out".to_owned())),
        decision: Decision { level: Level::Unknown, advice: Advice::Nothing },
        consecutive_failures: count,
    }
}

fn identity() -> Identity {
    Identity {
        firmware: Ok("113".to_owned()),
        clock: Ok(("2026-09-18 12:00:17".to_owned(), true)),
        wake: Ok(None),
    }
}

#[test]
fn reports_are_decoded_by_what_the_descriptor_says_of_their_fields() {
    let fields = vec![
        field(1, Usage::Charge),
        field(1, Usage::RunTime),
        field(2, Usage::Charging),
        field(2, Usage::AcPresent),
        field(2, Usage::ShutdownImminent),
        Field { input: false, report_id: 2, usage: Usage::Voltage },
    ];
    let reports = vec![
        Report { id: 1, values: vec![Some(64), Some(3_725), None, None, None, None] },
        Report { id: 2, values: vec![None, None, Some(0), Some(1), Some(1), Some(12)] },
        Report { id: 3, values: vec![Some(99), None, None, None, None, None] },
    ];
    let (readings, status) = decode(&fields, &reports);
    assert_eq!(
        readings,
        vec![
            Reading { label: Label::Charge, value: "64%".to_owned() },
            Reading { label: Label::RunTime, value: "1h 02m".to_owned() },
        ]
    );
    assert_eq!(status, vec!["on mains", "SHUTDOWN IMMINENT"]);
    assert_eq!(
        telemetry_text(&readings, &status, &vec![1, 1, 2, 3]),
        "\nTelemetry\n---------\n  charge        64%\n  runtime left  1h 02m\n  \
         status        on mains, SHUTDOWN IMMINENT\n\nReports seen: 0x01 0x02 0x03\n"
    );
}

#[test]
fn reports_without_a_known_field_say_so() {
    assert_eq!(
        telemetry_text(&Vec::new(), &Vec::new(), &vec![7]),
        "\nTelemetry\n---------\n  (reports arrived but carried no recognised fields)\n\n\
         Reports seen: 0x07\n"
    );
}

#[test]
fn a_run_time_is_shown_in_its_two_largest_units() {
    assert_eq!(format_seconds(7_260), "2h 01m");
    assert_eq!(format_seconds(61), "1m 01s");
    assert_eq!(format_seconds(59), "59s");
    assert_eq!(format_seconds(-1), "-1 (negative — unexpected)");
}

#[test]
fn only_status_usages_have_a_label() {
    assert_eq!(flag_label(Usage::NeedReplacement), Some("NEEDS REPLACEMENT"));
    assert_eq!(flag_label(Usage::FullyDischarged), Some("fully discharged"));
    assert_eq!(flag_label(Usage::Charge), None);
    assert_eq!(flag_label(Usage::Other), None);
}

#[test]
fn only_neighbours_that_repeat_are_shown_once() {
    assert_eq!(fmt_ids(&vec![1, 1, 2, 1]), "0x01 0x02 0x01");
    assert_eq!(fmt_ids(&Vec::new()), "");
    assert_eq!(dash(""), "-");
    assert_eq!(dash("x"), "x");
}

#[test]
fn what_hidraw_yielded_is_an_object_and_nothing_is_an_empty_one() {
    let readings = vec![Reading { label: Label::Voltage, value: "12".to_owned() }];
    let j = json_from_device("/dev/hidraw0", Some("ABC"), &readings, &vec!["charging"]);
    assert!(matches!(j.get("route"), Some(Json::Text(s)) if s == "hidraw"));
    assert!(matches!(j.get("serial"), Some(Json::Text(s)) if s == "ABC"));
    let inner = j.get("readings").unwrap();
    assert!(matches!(inner.get("voltage"), Some(Json::Text(s)) if s == "12"));
    let empty = json_from_device("/dev/hidraw0", None, &Vec::new(), &Vec::new());
    assert!(matches!(empty.get("serial"), Some(Json::Null)));
    assert!(matches!(empty.get("readings"), Some(Json::Object(m)) if m.is_empty()));
    assert!(matches!(empty.get("status"), Some(Json::List(l)) if l.is_empty()));
}

#[test]
fn a_port_in_use_is_refused_with_its_holder() {
    let free = serial_path("auto", Some("/dev/ttyACM0"), false, None, true).unwrap();
    assert_eq!(free.path, "/dev/ttyACM0");
    assert_eq!(free.note, None);
    let named = serial_path("/dev/x", Some("/dev/ttyACM0"), false, None, false).unwrap();
    assert_eq!(named.path, "/dev/x");
    assert!(named.note.is_some());
    assert_eq!(
        serial_path("auto", None, false, None, true),
        Err("argonctl: no Argon UPS serial port found".to_owned())
    );
    assert!(serial_path("auto", Some("/dev/x"), true, None, true)
        .unwrap_err()
        .contains("sudo systemctl stop argonupsrtcd"));
    assert_eq!(
        serial_path("/dev/x", None, false, Some((12, "cat")), true),
        Err("argonctl: /dev/x is held by pid 12 (cat). Two readers corrupt each other's frames."
            .to_owned())
    );
    assert!(held_by_daemon("/dev/x", true, true).unwrap().starts_with("argonctl: /dev/x belongs"));
    assert_eq!(held_by_daemon("/dev/x", true, false), None);
    assert_eq!(held_by_daemon("/dev/x", false, true), None);
}

#[test]
fn the_identity_is_shown_with_what_could_not_be_read() {
    assert_eq!(
        identity_text(&identity()),
        "  firmware       113\n  clock          2026-09-18 12:00:17\n  wake schedule  none set\n"
    );
    let worse = Identity {
        firmware: Err("timed out".to_owned()),
        clock: Ok(("2000-00-00 00:00:00".to_owned(), false)),
        wake: Ok(Some("2098-07-13 06:29".to_owned())),
    };
    assert_eq!(
        identity_text(&worse),
        "  firmware       unavailable (timed out)\n  \
         clock          2000-00-00 00:00:00  (implausible)\n  wake schedule  2098-07-13 06:29\n"
    );
}

#[test]
fn a_poll_over_serial_is_one_object_and_a_failed_one_has_no_number() {
    let p = poll(
        9,
        PowerSource::Battery,
        Level::Critical,
        Advice::HeldForUptime { remaining: Duration::from_secs(30) },
    );
    let j = json_from_serial("/dev/x", &identity(), &p, None, "10:38:00");
    assert!(matches!(j.get("percent"), Some(Json::Number(9))));
    assert!(matches!(j.get("source"), Some(Json::Text(s)) if s == "battery"));
    assert!(matches!(j.get("advice"), Some(Json::Text(s)) if s == "held-for-uptime"));
    assert!(matches!(j.get("level"), Some(Json::Text(s)) if s == "critical"));
    assert!(matches!(j.get("wake_at"), Some(Json::Null)));
    assert!(matches!(j.get("clock_plausible"), Some(Json::Bool(true))));

    let j = json_from_serial("/dev/x", &identity(), &failed(3), Some("timed out"), "10:38:10");
    assert!(matches!(j.get("percent"), Some(Json::Null)));
    assert!(matches!(j.get("error"), Some(Json::Text(s)) if s == "timed out"));
    assert!(matches!(j.get("consecutive_failures"), Some(Json::Number(3))));
}

#[test]
fn watching_prints_a_head_and_a_line_for_each_poll() {
    let c = config();
    assert_eq!(
        watch_head(&c),
        "\nPolicy: low 20%, critical 10% (confirmed 2x), margin 5%, no advice before 120s \
         uptime\nWatching every 10s. Monitoring only: nothing is shut down. Ctrl-C to stop.\n\n  \
         time       pct  source       level             advice\n"
    );
    let p = poll(9, PowerSource::Battery, Level::Critical, Advice::Shutdown);
    assert_eq!(
        watch_line(&p, "10:38:00", "critical", Some("low"), None),
        "  10:38:00    9%  battery      critical          WOULD SHUT DOWN (not enabled)   \
         <- was low\n"
    );
    assert_eq!(
        watch_line(&failed(2), "10:38:10", "unknown", None, Some("timed out")),
        "  10:38:10     -  -            unknown           \n            \
         read failed (2 in a row): timed out\n"
    );
}

#[test]
fn an_interval_of_nothing_still_waits_a_second() {
    let mut c = config();
    assert_eq!(poll_interval(&c), 10);
    c.ups.poll_interval_s = 0;
    assert_eq!(poll_interval(&c), 1);
}

#[test]
fn the_battery_and_what_was_dropped_are_shown() {
    assert_eq!(battery_line(Some("64% on mains"), None), "  battery        64% on mains");
    assert_eq!(battery_line(None, Some("timed out")), "  battery        unavailable (timed out)");
    assert_eq!(battery_line(None, None), "  battery        unavailable ()");
    assert_eq!(discarded_text(0), None);
    assert_eq!(
        discarded_text(2).unwrap(),
        "\nNote: 2 unsolicited or rejected frame(s) were discarded while waiting for replies."
    );
    assert!(is_hidraw("hidraw0"));
    assert!(!is_hidraw("ttyACM0"));
}
