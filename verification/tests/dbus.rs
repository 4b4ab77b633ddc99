use argon_utils::daemon::dbus::{
    can, cpu_cap_answer, cpu_cap_change, cpu_cap_line, fan_fields, poweroff, set_cpu_cap, set_oled,
    status_fields, Authorize, BusError, CapChange, CapControl, Verdict,
};
use argon_utils::daemon::exporter::{record, State};
use argon_utils::daemon::oled::{OledControl, Remember};
use argon_utils::device::control::{
    Fields, Request, Response, ACTION_CPU_CAP, ACTION_OLED, ACTION_POWEROFF_WITH_WAKE,
};
use argon_utils::device::status::UpsStatus;
use argon_utils::time::SystemTime;
use std::cell::{Cell, RefCell};

/// Always the same verdict, and a record of whether it was asked to prompt.
struct Fixed(Result<Verdict, String>, RefCell<Vec<bool>>);

impl Fixed {
    fn new(verdict: Result<Verdict, String>) -> Self {
        Fixed(verdict, RefCell::new(Vec::new()))
    }
}

impl Authorize for Fixed {
    fn check(&self, sender: &str, action: &str, interactive: bool) -> Result<Verdict, String> {
        assert_eq!(sender, ":1.5");
        assert!(
            [ACTION_POWEROFF_WITH_WAKE, ACTION_CPU_CAP, ACTION_OLED].contains(&action),
            "{action}"
        );
        self.1.borrow_mut().push(interactive);
        self.0.clone()
    }
}

fn at(unix: u64) -> SystemTime {
    SystemTime::from_unix(unix)
}

fn status(level: &str, percent: Option<u8>, shutdown_at: Option<u64>) -> UpsStatus {
    UpsStatus {
        updated: at(1_000),
        level: level.to_owned(),
        percent,
        shutdown_at: shutdown_at.map(at),
    }
}

fn fan_state(duty: Option<u8>, driving: bool, updated: Option<u64>) -> State {
    State {
        cpu_decicelsius: Some(535),
        sensor_failures: 0,
        fan_duty_percent: duty,
        fan_driving: driving,
        updated_unix: updated,
    }
}

fn field<'a>(f: &'a Fields, key: &str) -> Option<&'a str> {
    f.iter().find(|(k, _)| k == key).map(|(_, v)| v.as_str())
}

#[test]
fn the_fan_state_says_what_the_daemon_has_it_doing() {
    let f = fan_fields(&fan_state(Some(0), true, Some(1_000)), at(1_003));
    assert_eq!(field(&f, "available"), Some("yes"));
    assert_eq!(field(&f, "driving"), Some("yes"));
    assert_eq!(field(&f, "duty_percent"), Some("0"));
    assert_eq!(field(&f, "temperature_c"), Some("53.5"));
    assert_eq!(field(&f, "age_s"), Some("3"));
}

#[test]
fn not_driving_is_reported_as_such_rather_than_as_no_information() {
    // Read-only mode, or no MCU: the daemon reports the fan without setting it. A caller must be
    // able to tell that apart from "nothing is in control".
    let f = fan_fields(&fan_state(Some(30), false, Some(1_000)), at(1_000));
    assert_eq!(field(&f, "available"), Some("yes"));
    assert_eq!(field(&f, "driving"), Some("no"));
}

#[test]
fn before_the_first_iteration_there_is_nothing_to_report() {
    let f = fan_fields(&fan_state(None, true, None), at(1_000));
    assert_eq!(field(&f, "available"), Some("no"));
    assert!(field(&f, "duty_percent").is_none(), "invented a duty");
}

#[test]
fn a_temperature_below_zero_keeps_its_sign() {
    let mut s = fan_state(Some(0), true, Some(1_000));
    s.cpu_decicelsius = Some(-123);
    assert_eq!(field(&fan_fields(&s, at(1_000)), "temperature_c"), Some("-12.3"));
}

#[test]
fn a_reading_is_reported_with_the_source_its_level_implies() {
    let f = status_fields(Some(&status("on-battery", Some(64), None)), at(1_005));
    assert_eq!(field(&f, "available"), Some("yes"));
    assert_eq!(field(&f, "level"), Some("on-battery"));
    assert_eq!(field(&f, "source"), Some("battery"), "a battery level reported as mains");
    assert_eq!(field(&f, "percent"), Some("64"));
    assert_eq!(field(&f, "updated_unix"), Some("1000"));
    assert_eq!(field(&f, "age_s"), Some("5"));
    assert_eq!(field(&f, "shutdown_at_unix"), Some(""));
}

#[test]
fn nothing_read_yet_is_said_plainly_rather_than_as_a_zero() {
    let f = status_fields(None, at(1_000));
    assert_eq!(field(&f, "available"), Some("no"));
    assert!(field(&f, "percent").is_none(), "invented a percentage");
    assert!(field(&f, "level").is_none());
}

#[test]
fn a_failed_read_leaves_the_percentage_empty_not_zero() {
    // The level still says what the policy concluded; the charge is simply unknown.
    let f = status_fields(Some(&status("unknown", None, None)), at(1_000));
    assert_eq!(field(&f, "percent"), Some(""));
    assert_eq!(field(&f, "source"), Some("unknown"));
}

#[test]
fn a_pending_poweroff_is_reported() {
    let f = status_fields(Some(&status("critical", Some(4), Some(1_300))), at(1_000));
    assert_eq!(field(&f, "shutdown_at_unix"), Some("1300"));
    assert_eq!(field(&f, "source"), Some("battery"));
}

#[test]
fn a_clock_that_went_backwards_does_not_make_the_age_wrap() {
    // NTP stepping the clock back must not turn a fresh reading into a 136-year-old one.
    let f = status_fields(Some(&status("on-mains", Some(90), None)), at(900));
    assert_eq!(field(&f, "age_s"), Some("0"));
}

#[test]
fn can_reports_polkit_and_never_turns_an_error_into_yes() {
    assert_eq!(can(&Fixed::new(Ok(Verdict::Yes)), ":1.5", true), "yes");
    assert_eq!(can(&Fixed::new(Ok(Verdict::Challenge)), ":1.5", true), "challenge");
    assert_eq!(can(&Fixed::new(Ok(Verdict::No)), ":1.5", true), "no");
    assert_eq!(can(&Fixed::new(Err("no polkitd".into())), ":1.5", true), "no");
}

/// Records what it was asked to do.
struct FakeCap(Vec<bool>);

impl CapControl for FakeCap {
    fn cap(&mut self) -> Result<(), String> {
        self.0.push(true);
        Ok(())
    }
    fn lift(&mut self) -> Result<(), String> {
        self.0.push(false);
        Ok(())
    }
}

fn verdicts() -> Vec<Result<Verdict, String>> {
    vec![Ok(Verdict::No), Ok(Verdict::Challenge), Err("gone".into())]
}

#[test]
fn the_cpu_cap_is_set_and_lifted_only_for_an_authorised_caller() {
    let mut cpu = FakeCap(Vec::new());
    let auth = Fixed::new(Ok(Verdict::Yes));
    set_cpu_cap(&auth, ":1.5", true, &mut cpu).unwrap();
    set_cpu_cap(&auth, ":1.5", false, &mut cpu).unwrap();
    assert_eq!(cpu.0, vec![true, false]);
    assert_eq!(*auth.1.borrow(), vec![false, false], "the cap check prompted");
    for verdict in verdicts() {
        let mut cpu = FakeCap(Vec::new());
        assert!(set_cpu_cap(&Fixed::new(verdict), ":1.5", true, &mut cpu).is_err());
        assert!(cpu.0.is_empty(), "an unauthorised caller changed the CPU limit");
    }
}

#[test]
fn the_cap_that_is_asked_for_is_the_one_that_is_made() {
    assert_eq!(cpu_cap_change(Ok(Verdict::Yes), true), Ok(CapChange::Cap));
    assert_eq!(cpu_cap_change(Ok(Verdict::Yes), false), Ok(CapChange::Lift));
    assert_eq!(
        cpu_cap_change(Ok(Verdict::No), true),
        Err(BusError::AccessDenied(
            "not authorised by polkit to change the CPU frequency limit".into()
        ))
    );
    assert_eq!(
        cpu_cap_change(Err("gone".into()), true),
        Err(BusError::AccessDenied("could not check authorisation, so refusing: gone".into()))
    );
    assert_eq!(cpu_cap_answer(Ok(())), Ok(()));
    assert_eq!(cpu_cap_answer(Err("busy".into())), Err(BusError::Failed("busy".into())));
    assert_eq!(
        cpu_cap_line(":1.5", true),
        "argond: cpu: capped at its lowest frequency at :1.5's request"
    );
    assert_eq!(cpu_cap_line(":1.5", false), "argond: cpu: cap lifted at :1.5's request");
}

#[test]
fn the_display_is_switched_only_for_an_authorised_caller_and_never_prompts() {
    let mut oled = OledControl::new(None);
    oled.mark_available(true);
    let auth = Fixed::new(Ok(Verdict::Yes));
    set_oled(&auth, ":1.5", false, &mut oled).unwrap();
    assert_eq!(oled.state(), "off");
    assert_eq!(*auth.1.borrow(), vec![false], "the check prompted");
    for verdict in verdicts() {
        assert!(set_oled(&Fixed::new(verdict), ":1.5", true, &mut oled).is_err());
        assert_eq!(oled.state(), "off", "an unauthorised caller switched the display");
    }
}

#[test]
fn hardware_without_a_wake_says_so_whatever_polkit_would_say() {
    // The ONE UP: "na", so the tray does not offer what cannot be done.
    assert_eq!(can(&Fixed::new(Ok(Verdict::Yes)), ":1.5", false), "na");
}

#[test]
fn can_never_prompts() {
    let auth = Fixed::new(Ok(Verdict::Yes));
    let _ = can(&auth, ":1.5", true);
    assert_eq!(*auth.1.borrow(), vec![false], "a query asked interactively");
}

#[test]
fn an_authorised_caller_is_relayed_and_gets_the_times() {
    let relayed = Cell::new(false);
    let got = poweroff(&Fixed::new(Ok(Verdict::Yes)), ":1.5", 1_000, |req| {
        relayed.set(true);
        assert_eq!(req, Request::PoweroffWithWake { at_unix: 1_000 });
        Response::PoweroffScheduled { wake_unix: 960, poweroff_unix: 60 }
    });
    assert_eq!(got.unwrap(), (960, 60));
    assert!(relayed.get());
}

#[test]
fn refusals_and_failed_checks_never_reach_the_ups() {
    for said in [Ok(Verdict::No), Ok(Verdict::Challenge), Err("polkitd gone".to_owned())] {
        let reached = Cell::new(false);
        let got = poweroff(&Fixed::new(said.clone()), ":1.5", 1_000, |_| {
            reached.set(true);
            Response::PoweroffScheduled { wake_unix: 0, poweroff_unix: 0 }
        });
        assert!(matches!(got, Err(BusError::AccessDenied(_))), "{said:?} gave {got:?}");
        assert!(!reached.get(), "{said:?} reached the UPS thread");
    }
}

#[test]
fn the_check_for_the_real_action_is_interactive() {
    // So an authentication agent can prompt where the policy says auth_admin.
    let auth = Fixed::new(Ok(Verdict::Yes));
    let _ = poweroff(&auth, ":1.5", 1, |_| Response::error("x"));
    assert_eq!(*auth.1.borrow(), vec![true]);
}

#[test]
fn a_ups_thread_refusal_comes_back_as_a_failure_with_its_reason() {
    let got = poweroff(&Fixed::new(Ok(Verdict::Yes)), ":1.5", 1, |_| {
        Response::error("the wake would be only 60 s away")
    });
    match got {
        Err(BusError::Failed(m)) => assert!(m.contains("60 s"), "{m}"),
        other => panic!("{other:?}"),
    }
}

#[test]
fn polkits_two_answers_make_a_verdict() {
    assert_eq!(Verdict::of(true, false), Verdict::Yes);
    assert_eq!(Verdict::of(true, true), Verdict::Yes);
    assert_eq!(Verdict::of(false, true), Verdict::Challenge);
    assert_eq!(Verdict::of(false, false), Verdict::No);
}

#[test]
fn nothing_to_switch_without_a_panel() {
    let mut c = OledControl::new(None);
    assert_eq!(c.state(), "na");
    assert!(c.set(false).is_err());
}

#[test]
fn switching_off_is_remembered_across_a_restart() {
    let mut c = OledControl::new(Some(false));
    c.mark_available(true);
    assert_eq!(c.state(), "on");
    assert_eq!(c.set(false), Ok(Remember::WriteMarker));
    assert_eq!(c.state(), "off");
    // A new daemon reads it back.
    let mut again = OledControl::new(Some(true));
    again.mark_available(true);
    assert_eq!(again.state(), "off");
    assert_eq!(again.set(true), Ok(Remember::RemoveMarker));
    assert!(OledControl::new(Some(false)).is_on());
}

#[test]
fn a_failed_sensor_leaves_the_last_temperature_in_place() {
    let mut s = State::default();
    record(&mut s, Some(401), 0, Some(30), true, 10);
    record(&mut s, None, 1, Some(100), true, 15);
    assert_eq!(s.cpu_decicelsius, Some(401));
    assert_eq!(s.sensor_failures, 1);
    assert_eq!(s.fan_duty_percent, Some(100));
    assert_eq!(s.updated_unix, Some(15));
}
