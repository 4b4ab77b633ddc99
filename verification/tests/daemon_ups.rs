use argon_utils::daemon::ups::{
    action_line, after_poll, check_clock, check_wake, clock_set_failed, clock_was_read_back,
    minute_text, open_link, opened, parked_line, published, sleep_slice, start, state_directory,
    stop_line, unreachable_answer, uptime_or_zero, ClockCheck, Next, Opening, Port, Seen, Start,
    WakeCheck, WakeRequest,
};
use argon_utils::device::clock_sync::THRESHOLD_S;
use argon_utils::device::config::{Config, PolicyConfig};
use argon_utils::device::control::{Request, Response};
use argon_utils::device::drift::{Action as DriftAction, Entry};
use argon_utils::device::power::Action;
use argon_utils::device::ups::{Command, Gate, Writes};
use argon_utils::device::ups_time::UpsTime;
use argon_utils::device::wake::{park_at, same_minute, POWEROFF_DELAY};
use argon_utils::time::{Duration, SystemTime};

const NOW: u64 = 1_789_728_017;

/// A UPS behind a gate: a clock that counts from what it was set to, and a wake schedule.
struct Ups {
    offset_s: i64,
    wake: Option<UpsTime>,
    gate: Gate<()>,
}

impl Ups {
    fn new(writes: Writes) -> Self {
        Ups {
            offset_s: -900_000,
            wake: None,
            gate: Gate::with_writes((), writes),
        }
    }

    fn clock(&self, now: u64) -> UpsTime {
        UpsTime::from_unix_seconds((now as i64 + self.offset_s) as u64).unwrap()
    }

    fn set_clock(&mut self, t: UpsTime, now: u64) -> Result<(), String> {
        match self.gate.passes(Command::SetRtc) {
            Ok(()) => {
                self.offset_s = t.to_unix_seconds().unwrap() as i64 - now as i64;
                Ok(())
            }
            Err(e) => Err(format!("{e:?}")),
        }
    }

    fn set_wake(&mut self, t: UpsTime) -> Result<(), String> {
        match self.gate.passes(Command::SetWake) {
            Ok(()) => {
                self.wake = Some(t);
                Ok(())
            }
            Err(e) => Err(format!("{e:?}")),
        }
    }
}

/// A fake logind: records schedules, can be made to refuse. Nothing here powers off.
#[derive(Default)]
struct FakePower {
    schedules: Vec<(u64, String)>,
    refuse: bool,
}

impl FakePower {
    fn schedule(&mut self, delay_s: u64, message: String) -> Result<SystemTime, String> {
        if self.refuse {
            return Err("polkit: not authorised".to_owned());
        }
        self.schedules.push((delay_s, message));
        Ok(SystemTime::from_unix(NOW + delay_s))
    }
}

fn handle(ups: &mut Ups, at_unix: u64, power: &mut FakePower, wake_writes: bool) -> Response {
    let (mut request, mut next) = WakeRequest::start(
        &Request::PoweroffWithWake { at_unix },
        wake_writes,
        NOW,
    );
    loop {
        next = match next {
            Next::Answer(r) => return r,
            Next::SetWake { at } => {
                let done = ups.set_wake(at);
                request.on_set(done.as_ref().err().map(String::as_str))
            }
            Next::ReadWake => request.on_read(Some(ups.wake), "the schedule"),
            Next::SchedulePoweroff { delay_s, message } => {
                let at = power.schedule(delay_s, message);
                match &at {
                    Ok(t) => request.on_scheduled(Ok(*t)),
                    Err(e) => request.on_scheduled(Err(e)),
                }
            }
            Next::Park => {
                let done = ups.set_wake(park_at());
                request.on_parked(done.as_ref().err().map(String::as_str))
            }
        };
    }
}

/// Looks at the wake schedule as the safety net does, and parks it where it says so.
fn net(ups: &mut Ups, park_allowed: bool) {
    if let WakeCheck::Park { .. } = check_wake(ups.wake, park_allowed, NOW, &mut Seen::Unknown) {
        ups.set_wake(park_at()).unwrap();
    }
}

/// Checks the clock, and sets it where that is what the check says.
fn clock(ups: &mut Ups, clock_writes: bool, synced: bool) -> Option<Entry> {
    match check_clock(ups.clock(NOW), NOW, synced, clock_writes) {
        ClockCheck::Done(entry, _) => entry,
        ClockCheck::SetClock { offset_s } => {
            match ups.set_clock(UpsTime::from_unix_seconds(NOW + 1).unwrap(), NOW + 1) {
                Ok(()) => {
                    let after = Some((ups.clock(NOW + 1), NOW + 1));
                    Some(clock_was_read_back(offset_s, NOW, after).0)
                }
                Err(e) => Some(clock_set_failed(offset_s, NOW, &e).0),
            }
        }
    }
}

const ALL_WRITES: Writes = Writes {
    clock: true,
    wake: true,
};

fn minutes_from_now(min: u64) -> (u64, UpsTime) {
    let at = NOW + min * 60;
    let floored = at - at % 60;
    let mut t = UpsTime::from_unix_seconds(floored).unwrap();
    t.second = None;
    (at, t)
}

#[test]
fn a_wake_request_sets_the_wake_then_schedules_the_poweroff() {
    let (at, expected) = minutes_from_now(30);
    let mut power = FakePower::default();
    let mut ups = Ups::new(ALL_WRITES);
    let resp = handle(&mut ups, at, &mut power, true);
    assert!(
        matches!(resp, Response::PoweroffScheduled { .. }),
        "{resp:?}"
    );
    let after = ups.wake;
    assert!(
        after.is_some_and(|t| same_minute(t, expected)),
        "wake is {after:?}"
    );
    assert_eq!(power.schedules.len(), 1);
    assert_eq!(power.schedules[0].0, POWEROFF_DELAY);
}

#[test]
fn a_wake_too_soon_is_refused_and_nothing_is_written() {
    let (at, _) = minutes_from_now(8);
    let mut power = FakePower::default();
    let mut ups = Ups::new(ALL_WRITES);
    let resp = handle(&mut ups, at, &mut power, true);
    assert!(matches!(resp, Response::Error { .. }));
    assert_eq!(ups.wake, None, "a refused request wrote a schedule");
    assert!(power.schedules.is_empty());
}

#[test]
fn if_the_poweroff_fails_the_wake_is_parked_again() {
    // The one outcome that must never happen: a live schedule on a machine that is not
    // going to power off.
    let (at, _) = minutes_from_now(30);
    let mut power = FakePower {
        refuse: true,
        ..FakePower::default()
    };
    let mut ups = Ups::new(ALL_WRITES);
    let resp = handle(&mut ups, at, &mut power, true);
    assert!(matches!(resp, Response::Error { .. }));
    let after = ups.wake;
    assert_eq!(
        after,
        Some(park_at()),
        "left a live schedule behind: {after:?}"
    );
}

#[test]
fn without_full_mode_a_wake_is_refused_before_anything_is_sent() {
    let (at, _) = minutes_from_now(30);
    let mut power = FakePower::default();
    let mut ups = Ups::new(Writes::default());
    let resp = handle(&mut ups, at, &mut power, false);
    assert!(matches!(resp, Response::Error { .. }));
    assert_eq!(ups.wake, None);
    assert!(power.schedules.is_empty());
}

#[test]
fn the_safety_net_parks_a_schedule_close_to_due() {
    let (_, soon) = minutes_from_now(6);
    let mut ups = Ups::new(ALL_WRITES);
    ups.wake = Some(soon);
    net(&mut ups, true);
    assert_eq!(ups.wake, Some(park_at()));
}

#[test]
fn the_safety_net_parks_a_past_schedule() {
    let mut ups = Ups::new(ALL_WRITES);
    ups.wake = UpsTime::from_unix_seconds(NOW - 3_600).map(|mut t| {
        t.second = None;
        t
    });
    net(&mut ups, true);
    assert_eq!(ups.wake, Some(park_at()));
}

#[test]
fn the_safety_net_leaves_a_distant_schedule_and_cannot_park_without_permission() {
    let (_, later) = minutes_from_now(60);
    let mut ups = Ups::new(ALL_WRITES);
    ups.wake = Some(later);
    net(&mut ups, true);
    assert_eq!(
        ups.wake,
        Some(later),
        "moved a schedule that was far enough away"
    );

    let (_, soon) = minutes_from_now(6);
    let mut ups = Ups::new(Writes::default());
    ups.wake = Some(soon);
    net(&mut ups, false);
    assert_eq!(ups.wake, Some(soon), "wrote without permission");
}

#[test]
fn the_drift_record_gets_what_the_check_did() {
    // The clock starts days away from now, so a check always has to act.
    let entry = clock(&mut Ups::new(ALL_WRITES), true, true);
    let entry = entry.expect("a check that corrected recorded nothing");
    match entry.action {
        DriftAction::Corrected { after_s } => {
            assert!(after_s.abs() <= THRESHOLD_S, "read back {after_s:+} s");
            assert!(
                entry.offset_s.abs() > 3_600,
                "recorded the wrong offset: {entry:?}"
            );
        }
        other => panic!("expected a correction, recorded {other:?}"),
    }

    let entry = clock(&mut Ups::new(Writes::default()), false, true);
    assert_eq!(
        entry.map(|e| e.action),
        Some(DriftAction::LeftAlone),
        "a check without clock writes must not be recorded as a correction"
    );
}

/// The clock's offset after a check of one that starts `offset_s` from the system clock.
fn offset_after(offset_s: i64, clock_writes: bool, synced: bool) -> i64 {
    let mut ups = Ups::new(Writes {
        clock: clock_writes,
        wake: false,
    });
    ups.offset_s = offset_s;
    let _ = clock(&mut ups, clock_writes, synced);
    ups.offset_s
}

#[test]
fn a_slow_clock_is_corrected_when_allowed() {
    // The T15 finding: 21 s slow.
    let after = offset_after(-21, true, true);
    assert!(after.abs() <= THRESHOLD_S, "still {after:+} s off");
}

#[test]
fn a_slow_clock_is_left_alone_without_clock_writes() {
    let after = offset_after(-21, false, true);
    assert!(
        after <= -19,
        "was changed without permission: now {after:+} s"
    );
}

#[test]
fn a_slow_clock_is_left_alone_when_the_system_clock_is_not_synced() {
    let after = offset_after(-21, true, false);
    assert!(
        after <= -19,
        "copied an unsynchronised clock: now {after:+} s"
    );
}

#[test]
fn a_schedule_that_reads_back_wrong_is_parked() {
    let (at, _) = minutes_from_now(30);
    let (mut request, next) =
        WakeRequest::start(&Request::PoweroffWithWake { at_unix: at }, true, NOW);
    assert!(matches!(next, Next::SetWake { .. }));
    assert!(matches!(request.on_set(None), Next::ReadWake));
    assert!(matches!(request.on_read(Some(None), "none"), Next::Park));
    match request.on_parked(Some("timed out")) {
        Next::Answer(Response::Error { message }) => {
            assert!(message.contains("PARKING THE WAKE ALSO FAILED (timed out)"));
        }
        _ => panic!("not an answer"),
    }
    assert_eq!(
        parked_line(None),
        "the wake has been parked (moved to 2097)"
    );
}

fn config() -> Config {
    Config::with_policy(PolicyConfig {
        low_percent: 20,
        critical_percent: 10,
        recover_margin: 5,
        confirmations: 2,
        min_uptime: Duration::from_secs(120),
    })
}

#[test]
fn monitoring_starts_only_where_it_may() {
    let mut c = config();
    c.ups.source = "none".to_owned();
    assert!(matches!(start(&c, &[], None), Start::No(s) if s[0].contains("\"none\"")));
    // A delay that no clock counts to is no matter where nothing is started.
    let mut long = config();
    long.ups.source = "none".to_owned();
    long.ups.shutdown_delay_min = u64::MAX;
    assert!(matches!(start(&long, &[], None), Start::No(_)));
    long.ups.source = "serial".to_owned();
    assert!(matches!(start(&long, &[], Some("no margin")), Start::No(_)));
    let vendor = "argonupsrtcd.service".to_owned();
    assert!(matches!(start(&long, &[vendor], None), Start::No(_)));

    c.ups.source = "serial".to_owned();
    c.mode = "full".to_owned();
    match start(&c, &[], None) {
        Start::Monitor(plan) => {
            assert!(!plan.dry_run);
            assert_eq!(plan.delay_s, c.ups.shutdown_delay_min * 60);
        }
        Start::No(s) => panic!("{s:?}"),
    }
    c.mode = "read-only".to_owned();
    match start(&c, &[], None) {
        Start::Monitor(plan) => {
            assert!(plan.dry_run);
            assert_eq!(plan.writes, Writes::default());
        }
        Start::No(s) => panic!("{s:?}"),
    }
    let vendor = ["argonupsrtcd.service".to_owned()];
    assert!(matches!(start(&c, &vendor, None), Start::No(_)));
    assert!(matches!(start(&c, &[], Some("no margin")), Start::No(s) if s.len() == 2 && s[1] == "argond: ups: battery policy: no margin"));
}

#[test]
fn a_failing_link_is_reopened_and_not_asked_for_more() {
    let a = after_poll(1, true, true, true);
    assert!(!a.reopen && !a.check_clock && !a.check_wake);
    let a = after_poll(0, false, true, true);
    assert!(!a.reopen && a.check_clock && a.check_wake);
    assert!(after_poll(u32::MAX, true, true, true).reopen);
}

#[test]
fn trouble_is_logged_once() {
    let mut logged = false;
    let (up, log) = uptime_or_zero(Err("denied".to_owned()), &mut logged);
    assert_eq!(up, Duration::from_secs(0));
    assert!(log.is_some());
    assert!(uptime_or_zero(Err("denied".to_owned()), &mut logged).1.is_none());
    assert_eq!(
        uptime_or_zero(Ok(Duration::from_secs(9)), &mut logged),
        (Duration::from_secs(9), None)
    );
    assert!(!logged);

    assert_eq!(
        published("/run/x", Some("full"), &mut logged),
        Some("argond: ups: cannot write /run/x: full".to_owned())
    );
    assert_eq!(published("/run/x", Some("full"), &mut logged), None);
    assert_eq!(published("/run/x", None, &mut logged), None);

    assert_eq!(
        opened("/dev/ttyACM0", None, &mut logged),
        Some("argond: ups: reading /dev/ttyACM0".to_owned())
    );
    assert!(opened("/dev/ttyACM0", Some("denied"), &mut logged).is_some());
    assert!(opened("/dev/ttyACM0", Some("denied"), &mut logged).is_none());
}

#[test]
fn a_held_port_is_not_opened() {
    let mut logged = false;
    let held = Port::Held {
        pid: 412,
        comm: "cat".to_owned(),
    };
    match open_link("/dev/ttyACM0", held, &mut logged) {
        Opening::Wait(s) => assert!(s.contains("held by pid 412 (cat)"), "{s}"),
        _ => panic!("opened a held port"),
    }
    assert!(matches!(
        open_link("/dev/ttyACM0", Port::Free, &mut logged),
        Opening::Open
    ));
    assert!(matches!(
        open_link("", Port::Missing, &mut logged),
        Opening::Nothing(Some(_))
    ));
    assert!(matches!(
        open_link("", Port::Missing, &mut logged),
        Opening::Nothing(None)
    ));
}

#[test]
fn small_things_are_as_they_are_said() {
    assert_eq!(
        state_directory(Some("/var/lib/a:/var/lib/b")),
        Some("/var/lib/a")
    );
    assert_eq!(state_directory(Some("")), None);
    assert_eq!(state_directory(None), None);
    assert_eq!(sleep_slice(100), 100);
    assert_eq!(sleep_slice(1_000_000_000), 250_000_000);
    assert_eq!(stop_line(true, true), None);
    assert!(stop_line(false, true).is_some());
    assert_eq!(minute_text(park_at()), "2097-03-21 17:42 UTC");
    assert!(matches!(unreachable_answer(), Response::Error { .. }));
    assert_eq!(action_line(&Action::Nothing, SystemTime::from_unix(NOW)), None);
    let line = action_line(
        &Action::Scheduled {
            at: SystemTime::from_unix(NOW + 120),
        },
        SystemTime::from_unix(NOW),
    )
    .unwrap();
    assert!(line.starts_with("argond: ups: poweroff SCHEDULED in 2m00s"), "{line}");
}
