use argon_utils::daemon::startup::{
    active_vendor_units, decide, fan_plan, fan_plan_line, unknown_unit_line, FanPlan, UnitState,
};
use argon_utils::device::config::{Config, PolicyConfig};
use argon_utils::device::mode::Mode;
use argon_utils::time::Duration;

fn config_with_mode(mode: &str) -> Config {
    let mut c = Config::with_policy(PolicyConfig {
        low_percent: 20,
        critical_percent: 10,
        recover_margin: 5,
        confirmations: 3,
        min_uptime: Duration::from_secs(300),
    });
    c.mode = mode.to_owned();
    c
}

fn units(names: &[&str]) -> Vec<String> {
    names.iter().map(|n| (*n).to_owned()).collect()
}

#[test]
fn the_fan_plan_follows_what_answers() {
    assert_eq!(fan_plan(true, true), FanPlan::Mcu, "an MCU wins even with a kernel fan");
    assert_eq!(fan_plan(false, true), FanPlan::KernelReportOnly);
    assert_eq!(fan_plan(false, false), FanPlan::NoFan);
}

#[test]
fn an_uncontended_machine_gets_the_configured_mode() {
    for mode in ["read-only", "managed", "full"] {
        let d = decide(&config_with_mode(mode), &[], FanPlan::Mcu);
        assert_eq!(d.mode.as_str(), mode);
        assert!(!d.degraded());
    }
}

#[test]
fn a_contended_mcu_degrades_to_read_only() {
    let d = decide(&config_with_mode("managed"), &units(&["argononed.service"]), FanPlan::Mcu);
    assert_eq!(d.mode, Mode::ReadOnly, "took control while the vendor daemon was running");
    assert_eq!(d.requested, Mode::Managed);
    assert!(d.degraded());
    assert_eq!(d.mode_line(), "argond: mode read-only (configured managed), degraded");
}

#[test]
fn without_an_mcu_the_vendor_fan_daemon_is_not_contention() {
    for plan in [FanPlan::KernelReportOnly, FanPlan::NoFan] {
        let d = decide(&config_with_mode("full"), &units(&["argononed.service"]), plan);
        assert_eq!(d.mode, Mode::Full);
        assert!(!d.degraded(), "degraded with plan {plan:?}");
        assert!(d.refusal.is_none(), "warned about an MCU that does not exist");
    }
}

#[test]
fn the_vendor_ups_daemons_are_not_mcu_contention() {
    // They contend for the UPS, which the UPS thread checks for itself.
    let active = units(&["argononeupsd.service", "argonupsrtcd.service"]);
    let d = decide(&config_with_mode("full"), &active, FanPlan::Mcu);
    assert_eq!(d.mode, Mode::Full);
    assert!(d.refusal.is_none());
}

#[test]
fn read_only_is_never_degraded_because_it_contends_with_nothing() {
    let d = decide(&config_with_mode("read-only"), &units(&["argononed.service"]), FanPlan::Mcu);
    assert_eq!(d.mode, Mode::ReadOnly);
    assert!(!d.degraded(), "read-only should not report itself as degraded");
}

#[test]
fn the_refusal_names_the_unit_and_how_to_fix_it() {
    let d = decide(&config_with_mode("managed"), &units(&["argononed.service"]), FanPlan::Mcu);
    let msg = d.refusal.unwrap().message();
    assert!(msg.contains("argononed.service"), "{msg}");
    assert!(msg.contains("systemctl disable --now"), "no remedy given: {msg}");
    assert!(!msg.contains("argonupsrtcd"), "blamed a UPS daemon for MCU contention: {msg}");
}

#[test]
fn an_unparseable_mode_falls_back_to_read_only() {
    assert_eq!(decide(&config_with_mode("nonsense"), &[], FanPlan::Mcu).mode, Mode::ReadOnly);
}

#[test]
fn the_plan_is_said() {
    assert_eq!(fan_plan_line(FanPlan::Mcu), "argond: fan: Argon MCU at 0x1a");
    assert_eq!(
        fan_plan_line(FanPlan::KernelReportOnly),
        "argond: fan: no Argon MCU; the kernel's pwm-fan drives it, reported only"
    );
    assert_eq!(
        fan_plan_line(FanPlan::NoFan),
        "argond: fan: no Argon MCU and no kernel fan; nothing to drive"
    );
}

#[test]
fn a_unit_that_cannot_be_asked_about_counts_as_active() {
    let asked = vec![
        ("a.service".to_owned(), UnitState::Active),
        ("b.service".to_owned(), UnitState::Inactive),
        ("c.service".to_owned(), UnitState::Unknown),
    ];
    assert_eq!(active_vendor_units(&asked), ["a.service", "c.service"]);
    assert!(unknown_unit_line("c.service").contains("c.service"));
}

#[test]
fn a_fresh_install_writes_to_nothing() {
    let c = config_with_mode("read-only");
    for fan in [FanPlan::Mcu, FanPlan::KernelReportOnly, FanPlan::NoFan] {
        assert!(!decide(&c, &[], fan).mode.allows_writes());
        assert!(!decide(&c, &units(&["argononed.service"]), fan).mode.allows_writes());
    }
    assert!(!c.oled.enabled);
    assert!(!c.button.armed());
}
