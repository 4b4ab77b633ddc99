use argon_utils::cli::fan::{daemon_fan_state, now_line, probe_text, report_curve};
use argon_utils::cli::rtc::read_offset;
use argon_utils::cli::ups::json_from_daemon;
use argon_utils::daemon::dbus::{allowed, can_answer, ups_status, BusError, Verdict};
use argon_utils::daemon::exporter::{snapshot, State};
use argon_utils::daemon::ups::{parked_schedule_line, report_cycle, wake_set_line};
use argon_utils::device::config::{Config, PolicyConfig};
use argon_utils::device::control::{
    find_value, request_of, response_of, Body, Fields, Message, Request, Response, Scalar,
};
use argon_utils::device::fan_control::{CoolingDevice, FanReading};
use argon_utils::device::mcu::Error;
use argon_utils::device::mode::{FanDuty, Mode};
use argon_utils::device::power::{Action, Advice};
use argon_utils::device::status::{Level, UpsStatus};
use argon_utils::device::ups::{BatteryStatus, Decision, Gate, Poll, PowerSource, Watch, Writes};
use argon_utils::device::ups_service::{step, Cycle};
use argon_utils::device::ups_time::UpsTime;
use argon_utils::device::wake::ParkReason;
use argon_utils::json::Json;
use argon_utils::time::{Duration, SystemTime};

fn fields(pairs: &[(&str, &str)]) -> Fields {
    pairs.iter().map(|(k, v)| ((*k).to_owned(), (*v).to_owned())).collect()
}

fn cycle(advice: Advice, action: Action) -> Cycle {
    let poll = Poll {
        battery: Some(BatteryStatus { percent: 9, source: PowerSource::Battery }),
        error: None,
        decision: Decision { level: Level::Critical, advice },
        consecutive_failures: 0,
    };
    step(poll, action, None, SystemTime::from_unix(1_000))
}

#[test]
fn a_cycle_logs_its_hold_once_then_what_changed_and_what_was_done() {
    let held = Advice::HeldForUptime { remaining: Duration::from_secs(30) };
    let mut logged = false;
    let now = SystemTime::from_unix(1_000);
    let first = report_cycle(
        &cycle(held, Action::Nothing),
        Some(("low", "critical")),
        None,
        now,
        &mut logged,
    );
    assert_eq!(
        first,
        vec![
            "argond: ups: battery critical, but holding the shutdown for another 30s after boot",
            "argond: ups: low -> critical at 9%",
        ]
    );
    assert!(logged);
    assert!(report_cycle(&cycle(held, Action::Nothing), None, None, now, &mut logged).is_empty());

    let at = SystemTime::from_unix(1_125);
    let c = cycle(Advice::Shutdown, Action::Scheduled { at });
    assert_eq!(
        report_cycle(&c, None, None, now, &mut logged),
        vec!["argond: ups: poweroff SCHEDULED in 2m05s (unix time 1125)"]
    );
    assert!(!logged, "the next hold would not be said");
    let c = cycle(Advice::Shutdown, Action::Adopted { at });
    assert_eq!(
        report_cycle(&c, None, None, now, &mut logged),
        vec!["argond: ups: took back over a poweroff we scheduled before restarting (unix time 1125)"]
    );

    let mut watch = Watch::new();
    let reading: Result<BatteryStatus, Error> = Err(Error::Other("timed out".to_owned()));
    assert_eq!(Watch::observation(&reading), None);
    let decision = Decision { level: Level::Unknown, advice: Advice::Nothing };
    let failed = step(watch.observe(reading, decision), Action::Nothing, None, now);
    assert_eq!(
        report_cycle(&failed, None, Some("timed out"), now, &mut logged),
        vec!["argond: ups: read failed (1 in a row): timed out"]
    );
}

#[test]
fn a_wake_that_was_set_or_parked_is_logged_with_its_time() {
    assert_eq!(
        wake_set_line(7_200, 1_060),
        "argond: ups: wake set for unix 7200, poweroff scheduled for unix 1060, on request"
    );
    let found =
        UpsTime { year: 2026, month: 9, day: 18, hour: 7, minute: 5, second: None };
    assert_eq!(
        parked_schedule_line(found, ParkReason::Past, None),
        "argond: ups: a wake schedule for 2026-09-18 07:05 UTC was Past on a running machine; \
         the wake has been parked (moved to 2097)"
    );
    assert!(parked_schedule_line(found, ParkReason::DueSoon, Some("timed out"))
        .ends_with("was DueSoon on a running machine; PARKING THE WAKE ALSO FAILED (timed out) \
                    -- check it with `argonctl rtc`"));
    assert!(parked_schedule_line(found, ParkReason::Unreadable, None).contains("was Unreadable"));
}

#[test]
fn the_status_on_the_bus_names_the_configured_source() {
    let now = SystemTime::from_unix(1_003);
    let none = ups_status(None, now, "none");
    assert_eq!(none, fields(&[("available", "no"), ("source_config", "none")]));
    let s = UpsStatus {
        updated: SystemTime::from_unix(1_000),
        level: "low".to_owned(),
        percent: Some(18),
        shutdown_at: None,
    };
    let some = ups_status(Some(&s), now, "serial");
    assert_eq!(find_value(&some, "percent"), Some("18"));
    assert_eq!(find_value(&some, "age_s"), Some("3"));
    assert_eq!(find_value(&some, "source_config"), Some("serial"));
    assert_eq!(find_value(&some, "no such key"), None);
}

#[test]
fn only_a_clear_yes_is_allowed() {
    assert_eq!(allowed(Ok(Verdict::Yes), "no"), Ok(()));
    assert_eq!(
        allowed(Ok(Verdict::Challenge), "not you"),
        Err(BusError::AccessDenied("not you".to_owned()))
    );
    assert_eq!(
        allowed(Err("no bus".to_owned()), "not you"),
        Err(BusError::AccessDenied(
            "could not check authorisation, so refusing: no bus".to_owned()
        ))
    );
    assert_eq!(can_answer(Ok(Verdict::Challenge)), "challenge");
    assert_eq!(can_answer(Err("no bus".to_owned())), "no");
}

#[test]
fn metrics_hold_what_the_loop_knows_and_what_the_machine_says() {
    let state = State {
        cpu_decicelsius: Some(452),
        sensor_failures: 2,
        fan_duty_percent: Some(30),
        fan_driving: true,
        updated_unix: Some(1_000),
    };
    let cooling = vec![
        CoolingDevice { kind: "cpufreq".to_owned(), state: 9, max_state: 9 },
        CoolingDevice { kind: "pwm-fan".to_owned(), state: 1, max_state: 4 },
    ];
    let fan = Some(Some(FanReading { pwm: 75, rpm: Some(1_200) }));
    let units = vec![("argononed.service".to_owned(), false)];
    let s = snapshot(Mode::Managed, &state, fan, &cooling, units, true, false);
    assert_eq!(s.mode, "managed");
    assert_eq!(s.cpu_decicelsius, Some(452));
    assert_eq!((s.fan_pwm, s.fan_rpm), (Some(75), Some(1_200)));
    assert_eq!((s.fan_backend, s.fan_writable), (Some("kernel-pwm"), Some(false)));
    assert_eq!(s.governor_state, Some((1, 4)));
    assert_eq!(s.devices, vec![("ups", true), ("zigbee", false)]);
    assert_eq!(s.sensor_failures, 2);

    let bare = snapshot(Mode::Full, &state, None, &Vec::new(), Vec::new(), false, true);
    assert_eq!((bare.fan_pwm, bare.fan_backend, bare.governor_state), (None, None, None));
}

#[test]
fn the_fan_is_described_as_the_daemon_has_it() {
    assert_eq!(
        daemon_fan_state(&fields(&[
            ("available", "yes"),
            ("driving", "yes"),
            ("duty_percent", "30"),
            ("temperature_c", "56.1"),
            ("age_s", "2"),
        ])),
        "argond has the fan 30% at 56.1C, decided 2s ago."
    );
    assert_eq!(
        daemon_fan_state(&fields(&[
            ("available", "yes"),
            ("driving", "yes"),
            ("duty_percent", "0"),
            ("age_s", "2"),
        ])),
        "argond has the fan off, decided 2s ago."
    );
    assert_eq!(
        daemon_fan_state(&fields(&[("available", "no")])),
        "argond is running, but has not completed a control iteration yet."
    );
}

#[test]
fn the_curve_and_what_it_says_now_are_printed() {
    let c = Config::with_policy(PolicyConfig {
        low_percent: 20,
        critical_percent: 10,
        recover_margin: 5,
        confirmations: 2,
        min_uptime: Duration::from_secs(120),
    });
    let points = vec![(55, "30%".to_owned()), (100, "100%".to_owned())];
    assert_eq!(
        report_curve(&c, Mode::ReadOnly, &points),
        "Mode:   read-only\n\nCurve\n-----\n  >=  55C   30%\n  >= 100C   100%\n  \
         hysteresis 3C, floor 10%, safe 55%, stopping not allowed\n"
    );
    assert_eq!(
        now_line(&c, 452, FanDuty::of(0), "off", FanDuty::of(10), "10%"),
        "Now:    45.2C -> curve says off, would write 10% (floor 10%, stopping not allowed)"
    );
    assert_eq!(
        now_line(&c, 561, FanDuty::of(30), "30%", FanDuty::of(30), "30%"),
        "Now:    56.1C -> curve says 30%, would write 30%"
    );
    assert!(probe_text(Ok(true)).1.contains("ANSWERED. Something is at 0x1a"));
    assert!(probe_text(Ok(false)).1.contains("NO ANSWER at 0x1a"));
    assert_eq!(
        probe_text(Err("busy")),
        (false, "\nargonctl: the probe itself failed: busy\n".to_owned())
    );
}

#[test]
fn an_offset_is_the_ups_clock_minus_the_system_clock() {
    let ups = UpsTime::from_unix_seconds(1_789_728_000).unwrap();
    let (offset_s, line) = read_offset(ups, 1_789_728_021).unwrap();
    assert_eq!(offset_s, -21);
    assert!(line.starts_with("  UPS clock        2026-09-18 "), "{line}");
    assert!(line.ends_with("   offset -21 s"), "{line}");
    let never =
        UpsTime { year: 2026, month: 13, day: 1, hour: 0, minute: 0, second: Some(0) };
    assert_eq!(read_offset(never, 0), Err("implausible clock"));
}

#[test]
fn a_message_is_the_one_object_that_its_kind_names() {
    let message = |tag: &str, body: Body| Message { tag: tag.to_owned(), body };
    let members = |list: &[(&str, Scalar)]| {
        Body::Members(list.iter().map(|(k, v)| ((*k).to_owned(), v.clone())).collect())
    };
    let number = Scalar::Number;
    let text = |s: &str| Scalar::Text(s.to_owned());
    let wake = Some(Request::PoweroffWithWake { at_unix: 7_200 });
    let named = members(&[("at_unix", number(7_200))]);
    assert_eq!(request_of(&message("poweroff_with_wake", named.clone())), wake);
    assert_eq!(request_of(&message("reboot", named.clone())), None);
    assert_eq!(response_of(&message("reboot", named)), None);
    let beside = members(&[
        ("note", Scalar::Other),
        ("at_unix", number(7_200)),
        ("note", number(1)),
    ]);
    assert_eq!(request_of(&message("poweroff_with_wake", beside)), wake);
    let twice = members(&[("at_unix", number(7_200)), ("at_unix", number(7_200))]);
    assert_eq!(request_of(&message("poweroff_with_wake", twice)), None);
    for body in [
        members(&[]),
        members(&[("at_unix", text("7200"))]),
        members(&[("at_unix", Scalar::Other)]),
        Body::Items(vec![]),
        Body::Items(vec![text("7200")]),
        Body::Items(vec![number(7_200), number(1)]),
    ] {
        assert_eq!(request_of(&message("poweroff_with_wake", body)), None);
    }
    let listed = Body::Items(vec![number(7_200)]);
    assert_eq!(request_of(&message("poweroff_with_wake", listed)), wake);

    let done = Some(Response::PoweroffScheduled { wake_unix: 2, poweroff_unix: 1 });
    let named = members(&[("poweroff_unix", number(1)), ("wake_unix", number(2))]);
    assert_eq!(response_of(&message("poweroff_scheduled", named)), done);
    let listed = Body::Items(vec![number(2), number(1)]);
    assert_eq!(response_of(&message("poweroff_scheduled", listed)), done);
    let half = members(&[("wake_unix", number(2))]);
    assert_eq!(response_of(&message("poweroff_scheduled", half)), None);
    let error = members(&[("message", text("no"))]);
    assert_eq!(response_of(&message("error", error)), Some(Response::error("no")));
    let listed = Body::Items(vec![text("no")]);
    assert_eq!(response_of(&message("error", listed)), Some(Response::error("no")));
    let wrong = members(&[("message", number(7))]);
    assert_eq!(response_of(&message("error", wrong)), None);
    assert_eq!(Response::error("no"), Response::Error { message: "no".to_owned() });
}

#[test]
fn a_gate_hands_out_what_is_behind_it() {
    let gate = Gate::with_writes(7u8, Writes { clock: true, wake: false });
    assert_eq!(*gate.inner(), 7);
}

#[test]
fn what_the_daemon_holds_is_what_the_tool_shows() {
    let s = UpsStatus {
        updated: SystemTime::from_unix(1_000),
        level: "critical".to_owned(),
        percent: Some(0),
        shutdown_at: Some(SystemTime::from_unix(1_120)),
    };
    let j = json_from_daemon(&ups_status(Some(&s), SystemTime::from_unix(1_004), "serial"), 1_005);
    assert!(matches!(j.get("available"), Some(Json::Bool(true))));
    assert!(matches!(j.get("level"), Some(Json::Text(l)) if l == "critical"));
    assert!(matches!(j.get("percent"), Some(Json::Number(0))));
    assert!(matches!(j.get("age_s"), Some(Json::Number(4))));
    assert!(matches!(j.get("shutdown_at_unix"), Some(Json::Number(1_120))));
    assert!(matches!(j.get("shutdown_in_s"), Some(Json::Number(115))));
    assert!(matches!(j.get("missing_name"), Some(Json::Null)));
}
