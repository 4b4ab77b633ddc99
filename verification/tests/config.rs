use argon_utils::device::config::{
    policy_expectation, requested, Config, ConfigError, CurveEntry, PolicyConfig, PolicyError,
};
use argon_utils::device::mcu::Dialect;
use argon_utils::device::mode::Mode;
use argon_utils::time::Duration;

fn fresh() -> Config {
    Config::with_policy(PolicyConfig {
        low_percent: 20,
        critical_percent: 10,
        recover_margin: 5,
        confirmations: 2,
        min_uptime: Duration::from_secs(120),
    })
}

/// The key that a configuration is rejected for.
fn key(c: &Config) -> &'static str {
    match c.validate(None, None, true) {
        Ok(()) => "",
        Err(ConfigError::BadValue { key, .. }) => key,
        Err(e) => panic!("{e:?}"),
    }
}

#[test]
fn a_fresh_install_is_accepted_and_writes_nothing() {
    let c = fresh();
    assert_eq!(c.validate(None, None, false), Ok(()));
    assert_eq!(c.mode(), Ok(Mode::ReadOnly));
    assert_eq!(requested(&c), Mode::ReadOnly);
    assert_eq!(c.mcu.dialect(), Dialect::Legacy);
    assert!(!c.button.armed());
    assert_eq!(c.fan_poll_interval(), Duration::from_secs(5));
    assert_eq!(c.min_write_interval(), Duration::from_millis(500));
    assert_eq!(c.ups.policy().low_percent, 20);
    let curve = c.fan_curve().unwrap();
    assert_eq!(curve.len(), 3);
    assert_eq!((curve[1].celsius, curve[1].duty.percent()), (60, 55));
}

#[test]
fn every_setting_that_makes_no_sense_is_named() {
    let change = |f: &dyn Fn(&mut Config)| {
        let mut c = fresh();
        f(&mut c);
        key(&c)
    };
    assert_eq!(change(&|c| c.mode = "auto".into()), "mode");
    assert_eq!(change(&|c| c.fan.curve[0].duty = 101), "fan.curve.duty");
    assert_eq!(change(&|c| c.lid.action = "sleep".into()), "lid.action");
    assert_eq!(
        change(&|c| c.lid.shutdown_delay_s = 61),
        "lid.shutdown_delay_s"
    );
    assert_eq!(change(&|c| c.button.action = "reboot".into()), "button.action");
    assert_eq!(change(&|c| c.oled.refresh_s = 0), "oled.refresh_s");
    assert_eq!(change(&|c| c.mcu.dialect = "auto".into()), "mcu.dialect");
    assert_eq!(
        change(&|c| c.ups.shutdown_delay_min = 0),
        "ups.shutdown_delay_min"
    );
    assert_eq!(
        change(&|c| c.ups.shutdown_delay_min = 31),
        "ups.shutdown_delay_min"
    );
    assert_eq!(change(&|c| c.ups.source = "usb".into()), "ups.source");
    assert_eq!(change(&|c| c.fan.safe_duty = 0), "fan.safe_duty");
    assert_eq!(change(&|c| c.fan.poll_interval_s = 0), "fan.poll_interval_s");
    assert_eq!(change(&|c| c.fan.poll_interval_s = 15), "fan.poll_interval_s");
    assert_eq!(change(&|c| c.fan.poll_interval_s = 14), "");
}

#[test]
fn what_others_found_wrong_is_reported() {
    let mut c = fresh();
    assert_eq!(
        c.validate(Some("not ascending".to_owned()), None, true),
        Err(ConfigError::Curve("not ascending".to_owned()))
    );
    let e = c
        .validate(None, Some(PolicyError::NoMargin), true)
        .unwrap_err();
    assert_eq!(
        e.message(),
        "ups: \"low_percent=20, critical_percent=10, recover_margin=5, confirmations=2\" is not valid; expected recover_margin of at least 1; 0 lets a reading flap"
    );
    c.telemetry.enabled = true;
    assert!(matches!(
        c.validate(None, None, false),
        Err(ConfigError::BadValue {
            key: "telemetry.listen",
            ..
        })
    ));
    assert_eq!(c.validate(None, None, true), Ok(()));
    for e in [
        PolicyError::CriticalNotBelowLow,
        PolicyError::OutOfRange,
        PolicyError::NoConfirmations,
    ] {
        assert!(!policy_expectation(e).is_empty());
    }
    assert_eq!(
        ConfigError::Curve("empty".to_owned()).message(),
        "fan curve: empty"
    );
    assert_eq!(ConfigError::Io("gone".to_owned()).message(), "gone");
    assert_eq!(ConfigError::Toml("line 3".to_owned()).message(), "line 3");
}

#[test]
fn an_unknown_mode_is_read_only() {
    let mut c = fresh();
    c.mode = "FULL".to_owned();
    assert_eq!(requested(&c), Mode::ReadOnly);
    assert!(c.mode().is_err());
}

#[test]
fn a_duty_out_of_range_is_the_first_one() {
    let mut c = fresh();
    c.fan.curve = vec![
        CurveEntry {
            temp_c: 50,
            duty: 100,
        },
        CurveEntry {
            temp_c: 60,
            duty: 120,
        },
        CurveEntry {
            temp_c: 70,
            duty: 130,
        },
    ];
    assert!(matches!(
        c.fan_curve(),
        Err(ConfigError::BadValue { got, .. }) if got == "120"
    ));
}

#[test]
fn sections_that_a_file_lacks_are_named_in_order() {
    assert_eq!(
        Config::missing_sections("mode = \"full\"\n[fan]\n  [ups]  \n# [oled]\n[lid]\n"),
        vec!["mcu", "oled", "telemetry", "button"]
    );
}
