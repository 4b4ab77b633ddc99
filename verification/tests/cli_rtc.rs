use argon_utils::cli::rtc::{
    check_readback, check_wake_readback, decoded_line, exchange_text, fmt, hex, intent,
    port_is_free, read_clock, report, signed_diff, succeeded, t15_preconditions,
    t17_preconditions, wake_line, wake_report, ClockStep, ClockTrial, Intent, Outcome,
    WakeOutcome, WakeStep, WakeTrial, T15_OFFSET_S,
};
use argon_utils::device::config::{Config, PolicyConfig};
use argon_utils::device::ups_time::UpsTime;
use argon_utils::time::Duration;

const NOW: u64 = 1_789_728_000;

/// A UPS: a clock that counts from what it was set to, and a schedule.
struct Ups {
    offset_s: i64,
    wake: Option<UpsTime>,
    ignore_clock_set: bool,
    ignore_wake_set: bool,
}

impl Ups {
    fn new() -> Self {
        Ups {
            offset_s: -123_456,
            wake: None,
            ignore_clock_set: false,
            ignore_wake_set: false,
        }
    }

    // It acknowledges a set that it ignores, as a real device might.
    fn set_clock(&mut self, target: UpsTime, now: u64) -> bool {
        if !self.ignore_clock_set {
            self.offset_s = target.to_unix_seconds().unwrap() as i64 - now as i64;
        }
        true
    }

    fn clock(&self, now: u64) -> UpsTime {
        UpsTime::from_unix_seconds((now as i64 + self.offset_s) as u64).unwrap()
    }
}

fn with_ups(mut ups: Ups) -> Outcome {
    let mut now = NOW;
    let mut sent_at = now;
    let (mut trial, mut step) = ClockTrial::start(now);
    loop {
        step = match step {
            ClockStep::SetClock { target } => {
                sent_at = now;
                let done = ups.set_clock(target, now);
                trial.on_set(done)
            }
            ClockStep::ReadBack { offset_s } => {
                now += 1;
                let (pass, _) = check_readback(Ok(ups.clock(now)), sent_at, offset_s, now);
                trial.on_readback(pass)
            }
            ClockStep::Restore => {
                now += 1;
                trial.restore(now)
            }
            ClockStep::Over(outcome) => return outcome,
        };
    }
}

fn t17_with_ups(mut ups: Ups) -> WakeOutcome {
    let (mut trial, mut step) = WakeTrial::start();
    loop {
        step = match step {
            WakeStep::SetWake { target } => {
                if !ups.ignore_wake_set {
                    ups.wake = Some(target);
                }
                trial.on_set(true)
            }
            WakeStep::ReadBack { target } => {
                let (pass, _) = check_wake_readback(&Ok(ups.wake), target);
                trial.on_readback(pass)
            }
            WakeStep::Over(outcome) => return outcome,
        };
    }
}

#[test]
fn t17_confirms_a_device_that_sets_its_schedule() {
    assert_eq!(
        t17_with_ups(Ups::new()),
        WakeOutcome {
            first: true,
            second: true
        }
    );
}

#[test]
fn t17_does_not_confirm_a_device_that_ignores_the_set() {
    let ups = Ups {
        ignore_wake_set: true,
        ..Ups::new()
    };
    assert_eq!(
        t17_with_ups(ups),
        WakeOutcome {
            first: false,
            second: false
        }
    );
}

#[test]
fn a_device_that_sets_its_clock_is_confirmed_and_restored() {
    assert_eq!(
        with_ups(Ups::new()),
        Outcome {
            confirmed: true,
            restored: true
        }
    );
}

#[test]
fn a_device_that_ignores_the_set_is_not_confirmed() {
    // It still acknowledges the command, as a real device might. Only the read-back can
    // tell the difference, which is the whole point of writing a wrong time first.
    let ups = Ups {
        ignore_clock_set: true,
        ..Ups::new()
    };
    assert_eq!(
        with_ups(ups),
        Outcome {
            confirmed: false,
            restored: false
        }
    );
}

#[test]
fn an_ignored_set_on_an_already_correct_clock_is_still_not_confirmed() {
    // The case a naive "set it to now, read it back" test gets wrong: the clock was right
    // already, so the read-back matches and the ignored write looks like a working one.
    // Writing a distinctive WRONG time first is what catches it. The restore step passes
    // here -- the clock is correct -- and that must not be mistaken for confirmation.
    let ups = Ups {
        offset_s: 0,
        ignore_clock_set: true,
        ..Ups::new()
    };
    assert_eq!(
        with_ups(ups),
        Outcome {
            confirmed: false,
            restored: true
        }
    );
}

#[test]
fn a_set_that_fails_is_restored_all_the_same() {
    let (mut trial, step) = ClockTrial::start(NOW);
    assert_eq!(
        step,
        ClockStep::SetClock {
            target: UpsTime::from_unix_seconds(NOW - T15_OFFSET_S).unwrap()
        }
    );
    assert_eq!(trial.on_set(false), ClockStep::Restore);
    assert_eq!(
        trial.restore(NOW + 1),
        ClockStep::SetClock {
            target: UpsTime::from_unix_seconds(NOW + 1).unwrap()
        }
    );
    assert_eq!(
        trial.on_set(false),
        ClockStep::Over(Outcome {
            confirmed: false,
            restored: false
        })
    );
}

#[test]
fn a_read_back_two_seconds_off_still_passes() {
    let at = |s: u64| UpsTime::from_unix_seconds(s).unwrap();
    assert!(check_readback(Ok(at(NOW + 3)), NOW, 0, NOW + 1).0);
    assert!(!check_readback(Ok(at(NOW + 4)), NOW, 0, NOW + 1).0);
    let (pass, line) = check_readback(Err("timed out"), NOW, 0, NOW + 1);
    assert!(!pass);
    assert_eq!(line, "  read back        failed: timed out");
}

#[test]
fn a_write_has_to_be_asked_for() {
    assert_eq!(intent(false, false, false), Ok(Intent::Look));
    assert_eq!(intent(true, false, true), Ok(Intent::Clock));
    assert_eq!(intent(false, true, true), Ok(Intent::Wake));
    assert!(intent(true, false, false).is_err());
    assert!(intent(false, false, true).is_err());
}

#[test]
fn the_port_is_left_to_whoever_has_it() {
    assert_eq!(port_is_free("/dev/ttyACM0", false, false, None), Ok(()));
    assert!(port_is_free("/dev/ttyACM0", true, false, None).is_err());
    assert!(port_is_free("/dev/ttyACM0", false, true, None).is_err());
    let held = port_is_free("/dev/ttyACM0", false, false, Some((412, "cat")));
    assert!(matches!(held, Err(e) if e.contains("412") && e.contains("cat")));
}

fn config(mode: &str) -> Result<Config, String> {
    let mut c = Config::with_policy(PolicyConfig {
        low_percent: 20,
        critical_percent: 10,
        recover_margin: 5,
        confirmations: 2,
        min_uptime: Duration::from_secs(120),
    });
    c.mode = mode.to_owned();
    Ok(c)
}

#[test]
fn the_experiments_refuse_what_they_could_not_undo() {
    let wake = UpsTime::from_unix_seconds(NOW + 3_600).unwrap();
    assert_eq!(t17_preconditions(&config("full"), &Ok(None)), Ok(()));
    assert!(t17_preconditions(&config("full"), &Ok(Some(wake))).is_err());
    assert!(t17_preconditions(&config("full"), &Err("nak".to_owned())).is_err());
    assert!(t17_preconditions(&config("read-only"), &Ok(None)).is_err());

    assert_eq!(
        t15_preconditions(&config("full"), &Ok(None), true, &[0, 0, 1]),
        Ok(())
    );
    assert!(t15_preconditions(&config("full"), &Ok(None), false, &[0, 0, 1]).is_err());
    assert!(t15_preconditions(&config("full"), &Ok(Some(wake)), true, &[0, 0, 1]).is_err());
}

#[test]
fn times_and_bytes_are_printed() {
    let t = UpsTime {
        year: 2026,
        month: 9,
        day: 18,
        hour: 7,
        minute: 5,
        second: Some(3),
    };
    assert!(fmt(t).starts_with("2026-09-18 07:05"), "{}", fmt(t));
    assert_eq!(hex(&[0xab, 0x01]), "AB 01");
    assert_eq!(signed_diff(5, 7), -2);
    assert_eq!(signed_diff(7, 5), 2);
    assert_eq!(wake_line(&Ok(None)), "  wake schedule    none");
    assert_eq!(wake_line(&Err("nak".to_owned())), "  wake schedule    unreadable: nak");
    assert_eq!(read_clock(t, true), Ok(t));
    assert!(read_clock(t, false).is_err());
    assert!(exchange_text("07:00", &[0x01], &[0x02]).contains("01"));
    assert!(decoded_line(Ok((6, &[0x01]))).contains("frame: command 6, payload "));
}

#[test]
fn the_reports_say_what_was_established() {
    assert!(succeeded(Outcome {
        confirmed: true,
        restored: true
    }));
    assert!(!succeeded(Outcome {
        confirmed: true,
        restored: false
    }));
    assert!(report(Outcome {
        confirmed: true,
        restored: false
    })
    .contains("RESTORE NOT CONFIRMED"));
    assert!(wake_report(
        WakeOutcome {
            first: true,
            second: false
        },
        &Ok(None)
    )
    .contains("NOT CONFIRMED (first true, second false)"));
}
