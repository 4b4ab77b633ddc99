use argon_utils::daemon::cpu_cap::{lifted, stop_line, CpuCap, Next, Saved};
use argon_utils::daemon::gauge::{
    flow_line, flow_name, no_gauge_line, no_wake_answer, opened_line, start, Start,
};
use argon_utils::daemon::oled::{started_line, Panel, Start as OledStart, Turn};
use argon_utils::device::config::{Config, PolicyConfig};
use argon_utils::device::control::Response;
use argon_utils::device::gauge::{Flow, Health, Reading};
use argon_utils::device::ups::{
    charge_current_raw, clock_was_set, firmware, wake_was_set, Command, Gate, QueryOnly, Writes,
};
use argon_utils::device::ups_service::{contention, has_unit, oneup_contention, oneup_units, ups_units};
use argon_utils::time::Duration;

fn config() -> Config {
    let mut c = Config::with_policy(PolicyConfig {
        low_percent: 20,
        critical_percent: 10,
        recover_margin: 5,
        confirmations: 2,
        min_uptime: Duration::from_secs(120),
    });
    c.mode = "full".to_owned();
    c
}

#[test]
fn a_cap_is_put_back_exactly_as_it_was() {
    let mut c = CpuCap::new();
    assert_eq!(c.cap(2), Next::Cap { policy: 0 });
    assert_eq!(c.capped(0, "policy0", Ok(2_400_000), 2), Next::Cap { policy: 1 });
    assert_eq!(c.capped(1, "policy1", Ok(1_800_000), 2), Next::Done);
    assert!(c.is_capped());
    assert_eq!(c.cap(2), Next::Done, "capped twice");
    assert_eq!(
        c.lift(),
        vec![
            Saved {
                policy: 0,
                before_khz: 2_400_000
            },
            Saved {
                policy: 1,
                before_khz: 1_800_000
            }
        ]
    );
    assert!(c.lift().is_empty());
}

#[test]
fn a_cap_that_fails_half_way_is_undone() {
    let mut c = CpuCap::new();
    c.capped(0, "policy0", Ok(2_400_000), 2);
    assert_eq!(
        c.capped(1, "policy1", Err("denied".to_owned()), 2),
        Next::GiveUp {
            put_back: vec![Saved {
                policy: 0,
                before_khz: 2_400_000
            }],
            why: "capping policy1: denied".to_owned()
        }
    );
    assert!(!c.is_capped());
    assert!(matches!(c.cap(0), Next::GiveUp { .. }));
    assert_eq!(lifted(&Vec::new()), Ok(()));
    assert_eq!(
        lifted(&vec!["a".to_owned(), "b".to_owned()]),
        Err("a; b".to_owned())
    );
    assert!(stop_line(&Err("a".to_owned())).ends_with(": a"));
}

#[test]
fn the_gauge_is_watched_on_the_bus_there_is() {
    let c = config();
    match start(&c, &[], None, Some("/dev/i2c-1")) {
        Start::Monitor(p) => {
            assert!(!p.dry_run);
            assert_eq!(p.bus, "/dev/i2c-1");
            assert_eq!(p.delay_s, 120);
        }
        Start::No(log) => panic!("{log:?}"),
    }
    let vendor = oneup_units()[0].to_owned();
    match start(&c, &[vendor], None, Some("/dev/i2c-1")) {
        Start::Monitor(p) => assert!(p.dry_run, "acted beside the vendor's daemon"),
        Start::No(log) => panic!("{log:?}"),
    }
    assert!(matches!(start(&c, &[], None, None), Start::No(_)));
    assert!(matches!(
        start(&c, &[], Some("no margin"), Some("/dev/i2c-1")),
        Start::No(log) if log[1] == "argond: ups: battery policy: no margin"
    ));
    // A delay that no clock counts to is no matter where nothing is started.
    let mut c = config();
    c.ups.shutdown_delay_min = u64::MAX;
    assert!(matches!(start(&c, &[], None, None), Start::No(_)));
}

#[test]
fn only_a_change_of_flow_is_logged() {
    let mut last = None;
    let r = Reading {
        percent: 64,
        vcell_uv: 3_912_000,
        current: -2256,
        flow: Flow::Discharging,
    };
    assert_eq!(
        flow_line(&mut last, Some(r), "3.91"),
        Some(
            "argond: ups: ONE UP battery discharging at 64% (3.91 V, current -2256)".to_owned()
        )
    );
    assert_eq!(flow_line(&mut last, Some(r), "3.91"), None);
    assert_eq!(flow_line(&mut last, None, ""), None);
    assert_eq!(flow_name(Flow::Idle), "resting on the charger");
    let mut logged = false;
    assert!(no_gauge_line("bus", "nak", &mut logged).is_some());
    assert!(no_gauge_line("bus", "nak", &mut logged).is_none());
    assert!(opened_line("bus", Ok(Health { cycles: 24, soh: 98 }))
        .ends_with("24 charge cycles, health 98%"));
    assert!(matches!(no_wake_answer(), Response::Error { .. }));
}

#[test]
fn the_display_is_drawn_only_where_it_may_be() {
    let mut c = config();
    assert!(matches!(argon_utils::daemon::oled::start(&c, &[]), OledStart::No(_)));
    c.oled.enabled = true;
    assert_eq!(
        argon_utils::daemon::oled::start(&c, &[]),
        OledStart::Look(None)
    );
    let vendor = ["argononed.service".to_owned()];
    assert!(matches!(
        argon_utils::daemon::oled::start(&c, &vendor),
        OledStart::No(s) if s.contains("argononed is running")
    ));
    c.mode = "read-only".to_owned();
    assert!(matches!(
        argon_utils::daemon::oled::start(&c, &[]),
        OledStart::No(s) if s.contains("read-only")
    ));
    assert_eq!(
        started_line("bus", "0x3c", 64, 5),
        "argond: oled: status page on bus @ 0x3c, contrast 64, redraw every 5s"
    );
}

#[test]
fn a_panel_is_initialised_again_after_a_failure_and_after_the_dark() {
    let mut p = Panel::new();
    assert_eq!(p.turn(true), Turn::Draw { woken: false });
    assert!(p.wants_init() && p.wants_write(true));
    assert_eq!(p.wrote(None), None);
    assert!(!p.wants_init() && !p.wants_write(true) && p.wants_write(false));
    assert!(p.wrote(Some("nak")).is_some());
    assert_eq!(p.wrote(Some("nak")), None);
    assert!(p.wants_init());
    assert_eq!(p.wrote(None), Some("argond: oled: display back".to_owned()));
    assert_eq!(p.turn(false), Turn::SwitchOff);
    assert_eq!(p.turn(false), Turn::StayDark);
    assert_eq!(p.turn(true), Turn::Draw { woken: true });
    assert!(p.wants_init());
}

#[test]
fn a_gate_lets_through_what_it_was_built_for() {
    let all = [
        Command::BatteryStatus,
        Command::ChargeCurrent,
        Command::FirmwareVersion,
        Command::GetRtc,
        Command::GetWake,
        Command::SetRtc,
        Command::SetWake,
        Command::ResetMeter,
        Command::Acknowledge,
    ];
    let full = Gate::with_writes(
        (),
        Writes {
            clock: true,
            wake: true,
        },
    );
    let clock = Gate::with_clock_writes(());
    let queries = Gate::queries_only(());
    for cmd in all {
        let query = QueryOnly::<()>::is_query(cmd);
        assert_eq!(queries.allows(cmd), query, "{}", cmd.name());
        assert_eq!(QueryOnly(()).passes(cmd).is_ok(), query);
        assert_eq!(clock.allows(cmd), query || cmd == Command::SetRtc);
        assert_eq!(
            full.passes(cmd).is_ok(),
            query || cmd == Command::SetRtc || cmd == Command::SetWake
        );
    }
    assert!(!full.allows(Command::ResetMeter));
}

#[test]
fn replies_are_taken_only_in_the_shape_that_was_observed() {
    assert_eq!(firmware(&[7]), Ok(7));
    assert!(firmware(&[]).is_err());
    assert!(firmware(&[7, 8]).is_err());
    assert_eq!(charge_current_raw(&[0x01, 0x02]), Ok(258));
    assert!(charge_current_raw(&[0x01]).is_err());
    assert!(clock_was_set(&[]).is_ok());
    assert!(clock_was_set(&[0]).is_err());
    assert!(wake_was_set(&[0]).is_err() || wake_was_set(&[]).is_err());
}

#[test]
fn vendor_units_that_run_are_in_the_way() {
    let units: Vec<String> = ups_units().iter().map(|u| (*u).to_owned()).collect();
    assert_eq!(contention(&units), units);
    assert!(contention(&["ssh.service".to_owned()]).is_empty());
    assert!(oneup_contention(&[]).is_empty());
    assert!(has_unit(&units, ups_units()[0]));
    assert!(!has_unit(&units, "ssh.service"));
}
