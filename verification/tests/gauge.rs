use argon_utils::device::gauge::{
    health, identify, pass_read, Flow, GaugeMonitor, Health, Reading, VERSION_VALUE,
};
use argon_utils::device::mcu::Error;
use argon_utils::device::power::Advice;
use argon_utils::device::status::Level;
use argon_utils::device::ups::{BatteryStatus, Decision, PowerSource};

#[test]
fn a_chip_that_is_not_a_cw2217_is_not_trusted() {
    assert!(identify(0x42).is_err());
    assert!(identify(VERSION_VALUE).is_ok());
    match identify(0x42) {
        Err(Error::Parse { what, got }) => {
            assert_eq!(what, "a CW2217 VERSION register (expected 0xa0)");
            assert_eq!(got, "0x42");
        }
        other => panic!("{other:?}"),
    }
}

#[test]
fn the_wear_figures_are_read_high_byte_first() {
    assert_eq!(
        health([0x00, 0x18], 0x64),
        Health {
            cycles: 24,
            soh: 100
        }
    );
    assert_eq!(health([0x01, 0x02], 97).cycles, 258);
}

#[test]
fn a_refused_read_names_the_register() {
    assert!(pass_read(0x04, 1, true).is_ok());
    match pass_read(0x08, 1, false) {
        Err(Error::WriteBlocked { what, .. }) => {
            assert_eq!(what, "cw2217 read of 1 byte(s) at 0x08")
        }
        other => panic!("{other:?}"),
    }
}

fn reading(percent: u8, current: i16, flow: Flow) -> Reading {
    Reading {
        percent,
        vcell_uv: 4_397_500,
        current,
        flow,
    }
}

#[test]
fn a_failed_read_keeps_no_stale_reading() {
    let decision = |level: Level| Decision {
        level,
        advice: Advice::Nothing,
    };
    let mut m = GaugeMonitor::new();
    let r = reading(8, -2200, Flow::Discharging);
    let p = m.poll(Ok((r, PowerSource::Battery)), decision(Level::Critical));
    assert_eq!(
        p.battery,
        Some(BatteryStatus {
            percent: 8,
            source: PowerSource::Battery
        })
    );
    assert_eq!(m.last(), Some(r));

    let nak = Error::Parse {
        what: "a reading".to_owned(),
        got: "nak".to_owned(),
    };
    let p = m.poll(Err(nak), decision(Level::Unknown));
    assert_eq!(p.decision.level, Level::Unknown);
    assert_eq!(p.consecutive_failures, 1);
    assert!(p.error.is_some());
    assert_eq!(m.last(), None, "a stale reading was kept as the last one");
}

#[test]
fn the_policy_sees_the_percentage_and_the_source() {
    let b = reading(5, 2800, Flow::Charging).battery(PowerSource::Mains);
    assert_eq!(b.percent, 5);
    assert_eq!(b.source, PowerSource::Mains);
}
