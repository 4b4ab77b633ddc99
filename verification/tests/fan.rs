use argon_utils::daemon::exporter::State;
use argon_utils::daemon::fan_loop::{
    after_iteration, configured_bus, drives, missing_sections_line, report, stalled_line,
    start_workers, stopping_line, Monitor, Turn, Workers,
};
use argon_utils::daemon::startup::{decide, FanPlan};
use argon_utils::device::config::{Config, PolicyConfig};
use argon_utils::device::fan::{FanTask, Next, Step};
use argon_utils::device::fan_control::{
    describe_kernel, describe_mcu, detect, pwm_percent, refuse_kernel_write, Backend,
    CoolingDevice,
};
use argon_utils::device::mcu::{Dialect, Error, Mcu, PowerMode};
use argon_utils::device::mode::{FanDuty, Mode};
use argon_utils::device::safety::{duty_on_stop, FanSafeGuard};
use argon_utils::time::Duration;

fn config() -> Config {
    Config::with_policy(PolicyConfig {
        low_percent: 20,
        critical_percent: 10,
        recover_margin: 5,
        confirmations: 2,
        min_uptime: Duration::from_secs(120),
    })
}

#[test]
fn an_unchanged_duty_is_not_written_again() {
    let mut t = FanTask::new(FanDuty::of(55));
    assert_eq!(t.sense(Some(475)), Next::Update { decicelsius: 475 });
    let duty = FanDuty::of(30);
    assert!(t.wants_write(duty));
    assert_eq!(t.wrote(duty, Ok(())), Ok(true));
    assert!(!t.wants_write(duty));
    assert_eq!(
        t.applied(475, duty, true),
        Step::Applied {
            decicelsius: 475,
            duty,
            wrote: true
        }
    );
    assert_eq!(t.last_temperature(), Some(475));
}

#[test]
fn a_write_that_was_declined_for_now_is_tried_again() {
    let mut t = FanTask::new(FanDuty::of(55));
    let duty = FanDuty::of(30);
    assert_eq!(t.wrote(duty, Err(Error::RateLimited)), Ok(false));
    assert!(t.wants_write(duty));
    let broken = Error::Other("nak".to_owned());
    assert_eq!(t.wrote(duty, Err(broken.clone())), Err(broken));
    assert!(t.wants_write(duty));
}

#[test]
fn a_lost_sensor_forces_a_duty_that_turns_the_fan() {
    let mut t = FanTask::new(FanDuty::of(55));
    t.sense(Some(475));
    for n in 1..=3 {
        assert_eq!(
            t.sense(None),
            Next::ResetAndApply {
                fallback: FanDuty::of(55)
            }
        );
        assert_eq!(
            t.sensor_failed(),
            Step::SensorFailed {
                fallback: FanDuty::of(55),
                consecutive: n
            }
        );
    }
    t.sense(Some(480));
    assert_eq!(t.consecutive_failures(), 0);
}

#[test]
fn frames_are_those_of_the_dialect() {
    let mut m = Mcu::new(Dialect::Legacy);
    assert_eq!(m.fan_frame(FanDuty::of(50)), vec![50]);
    assert_eq!(
        Mcu::new(Dialect::Register).fan_frame(FanDuty::of(50)),
        vec![0x80, 50]
    );
    assert_eq!(m.power_mode_frame(PowerMode::AlwaysOn), vec![0xfe]);
    assert_eq!(m.power_mode_frame(PowerMode::RequiresButton), vec![0xfd]);
    assert_eq!(m.power_cut_frame(), vec![0xff]);
    assert!(m.enter_bootloader().is_err());
    assert_eq!(m.duty(), None);
    let broken = Error::Other("nak".to_owned());
    assert!(m.set_fan(FanDuty::of(50), Err(broken)).is_err());
    assert_eq!(m.duty(), None);
    assert!(m.set_fan(FanDuty::of(50), Ok(())).is_ok());
    assert_eq!(m.duty(), Some(FanDuty::of(50)));
    assert_eq!(Dialect::from_config("auto"), None);
    assert_eq!(Dialect::from_config("register"), Some(Dialect::Register));
}

#[test]
fn a_duty_is_a_percentage() {
    assert!(FanDuty::new(101).is_none());
    assert_eq!(FanDuty::new(100).unwrap().percent(), 100);
    assert_eq!(FanDuty::of(7).as_mcu_byte(), 7);
    assert_eq!(Mode::parse("managed"), Some(Mode::Managed));
    assert_eq!(Mode::parse("Managed"), None);
    assert!(!Mode::ReadOnly.allows_writes());
    assert!(Mode::Managed.allows_writes() && !Mode::Managed.allows_destructive());
    assert!(Mode::Full.allows_destructive());
}

#[test]
fn a_stopping_daemon_leaves_a_turning_fan() {
    assert_eq!(
        FanSafeGuard::for_temperature(Some(80), 75).on_stop(),
        Some(FanDuty::of(100))
    );
    assert_eq!(
        FanSafeGuard::for_temperature(Some(40), 75).on_stop(),
        Some(FanDuty::of(55))
    );
    let mut g = FanSafeGuard::for_temperature(None, 75);
    assert_eq!(g.safe_duty(), FanDuty::of(55));
    g.disarm();
    assert_eq!(g.on_stop(), None);
}

#[test]
fn a_daemon_that_stops_on_a_hot_machine_restores_full_duty() {
    let safe = FanDuty::of(40);
    assert_eq!(duty_on_stop(safe, Some(749), 75), safe);
    assert_eq!(duty_on_stop(safe, Some(750), 75), FanDuty::of(100));
    assert_eq!(duty_on_stop(safe, Some(-100), -20), FanDuty::of(100));
    assert_eq!(duty_on_stop(safe, None, 75), safe);
    assert_eq!(duty_on_stop(safe, Some(i32::MAX), i32::MAX), safe);
}

#[test]
fn the_fan_is_driven_by_whoever_has_it() {
    assert_eq!(detect(Some(true), true), Ok(Backend::Mcu));
    assert_eq!(detect(Some(false), true), Ok(Backend::Kernel));
    assert_eq!(detect(None, true), Ok(Backend::Kernel));
    assert!(detect(None, false).is_err());
    assert!(matches!(
        refuse_kernel_write("50%"),
        Error::WriteBlocked { what, .. } if what == "kernel pwm fan <- 50%"
    ));
    assert_eq!(describe_mcu(), "Argon MCU at i2c 0x1a");
    let devices = vec![
        CoolingDevice {
            kind: "cpufreq".to_owned(),
            state: 0,
            max_state: 9,
        },
        CoolingDevice {
            kind: "pwm-fan".to_owned(),
            state: 2,
            max_state: 4,
        },
    ];
    assert_eq!(
        describe_kernel("/sys/x", &devices),
        "kernel pwm fan at /sys/x (governor state 2/4, read-only)"
    );
    assert_eq!(
        describe_kernel("/sys/x", &Vec::new()),
        "kernel pwm fan at /sys/x (governor state unbound, read-only)"
    );
    assert_eq!(pwm_percent(0), 0);
    assert_eq!(pwm_percent(2), 1);
    assert_eq!(pwm_percent(128), 50);
    assert_eq!(pwm_percent(255), 100);
}

#[test]
fn an_iteration_is_logged_and_exported() {
    let mut s = State::default();
    let applied = Step::Applied {
        decicelsius: 475,
        duty: FanDuty::of(30),
        wrote: true,
    };
    assert_eq!(
        report(&mut s, Ok(applied), "30%", true, 1_000),
        Some("argond: 47C -> 30%".to_owned())
    );
    assert_eq!(s.cpu_decicelsius, Some(475));
    assert_eq!(s.fan_duty_percent, Some(30));
    assert_eq!(report(&mut s, Ok(applied), "30%", false, 1_001), None);
    let failed = Step::SensorFailed {
        fallback: FanDuty::of(55),
        consecutive: 2,
    };
    assert_eq!(
        report(&mut s, Ok(failed), "55%", true, 1_002),
        Some("argond: temperature read failed (2 in a row), forcing 55%".to_owned())
    );
    assert_eq!(s.cpu_decicelsius, Some(475));
    assert_eq!(s.sensor_failures, 2);
    assert_eq!(
        report(&mut s, Err("nak"), "", true, 1_003),
        Some("argond: write failed: nak".to_owned())
    );
}

#[test]
fn a_quiet_monitoring_thread_takes_the_daemon_down() {
    let c = config();
    let w = Workers::new(true, &c);
    assert_eq!(w.stale_after_s, 60);
    assert_eq!(w.stalled_for(1_060, 1_000), None);
    assert_eq!(w.stalled_for(1_061, 1_000), Some(61));
    assert_eq!(w.stalled_for(1_000, 2_000), None);
    assert_eq!(Workers::new(false, &c).stalled_for(9_000, 1_000), None);
    assert_eq!(
        after_iteration(&w, false, 1_061, 1_000),
        Turn::GiveUp { since_s: 61 }
    );
    assert_eq!(after_iteration(&w, true, 1_001, 1_000), Turn::Stop);
    assert_eq!(after_iteration(&w, false, 1_001, 1_000), Turn::Sleep);
    assert!(stalled_line(61).contains("for 61s."));
}

#[test]
fn the_threads_are_those_of_the_machine() {
    let mut c = config();
    assert_eq!(start_workers(true, &c).monitor, Monitor::Nothing);
    assert_eq!(start_workers(false, &c).monitor, Monitor::Serial);
    c.ups.source = "oneup".to_owned();
    let p = start_workers(false, &c);
    assert_eq!(p.monitor, Monitor::Gauge);
    assert!(p.services && !p.wake_supported);
}

#[test]
fn the_fan_is_driven_only_with_a_mode_a_bus_and_an_mcu() {
    let mut c = config();
    c.mode = "managed".to_owned();
    let s = decide(&c, &[], FanPlan::Mcu);
    assert!(drives(&s, FanPlan::Mcu, true));
    assert!(!drives(&s, FanPlan::Mcu, false));
    assert!(!drives(&s, FanPlan::KernelReportOnly, true));
    assert_eq!(configured_bus(&c), None);
    c.mcu.bus = "/dev/i2c-1".to_owned();
    assert_eq!(configured_bus(&c), Some("/dev/i2c-1".to_owned()));
    assert_eq!(stopping_line(false, "55%"), "argond: stopping");
    assert_eq!(stopping_line(true, "55%"), "argond: stopping, restoring 55%");
    assert_eq!(missing_sections_line("/etc/c", &Vec::new()), None);
    let missing = vec!["oled".to_owned(), "lid".to_owned()];
    assert!(missing_sections_line("/etc/c", &missing)
        .unwrap()
        .starts_with("argond: /etc/c has no [oled], [lid] section;"));
}
