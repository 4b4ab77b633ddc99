use argon_utils::cli::setup::{review, setup_json, setup_text, Check, Facts, Section, State};
use argon_utils::json::Json;

fn check<'a>(sections: &'a [Section], name: &str) -> &'a Check {
    sections
        .iter()
        .flat_map(|s| &s.checks)
        .find(|c| c.name == name)
        .unwrap_or_else(|| panic!("no check named {name}"))
}

fn pi4_with_mcu() -> Facts {
    Facts {
        model: "Raspberry Pi 4 Model B Rev 1.4".into(),
        config_txt: Some("dtparam=audio=on\n#dtparam=i2c_arm=on\n[all]\nenable_uart=1\n".into()),
        config_path: "/boot/firmware/config.txt".into(),
        header_bus: false,
        mcu_answers: None,
        groups: vec!["gpio".into()],
        ..Facts::default()
    }
}

#[test]
fn the_commented_out_i2c_line_is_not_mistaken_for_configuration() {
    // Exactly the Pi 4 case: the stock config.txt ships the line commented, so there is
    // no /dev/i2c-1 and nothing can reach the MCU. A grep would have called this done.
    let mut f = pi4_with_mcu();
    f.oled_answers = Some(true); // something on the header bus is wanted
    let r = review(&f);
    let c = check(&r, "header I2C bus");
    assert_eq!(c.state, State::Missing);
    assert!(
        c.fix.as_ref().is_some_and(|x| x.contains("i2c_arm=on")),
        "{c:?}"
    );
    assert!(c.fix.as_ref().is_some_and(|x| x.contains("reboot")));
}

#[test]
fn a_pending_reboot_is_named_as_such_rather_than_as_a_missing_setting() {
    let mut f = pi4_with_mcu();
    f.config_txt = Some("[all]\ndtparam=i2c_arm=on\n".into());
    let r = review(&f);
    let c = check(&r, "header I2C bus");
    assert_eq!(c.state, State::Missing);
    assert!(c.detail.contains("reboot is pending"), "{}", c.detail);
    assert_eq!(c.fix.as_deref(), Some("sudo reboot"));
}

#[test]
fn ir_bound_only_at_runtime_is_flagged_as_not_surviving_a_reboot() {
    // The state the Pi 4 was left in after T6: working now, gone after a reboot.
    let mut f = pi4_with_mcu();
    f.lirc = true;
    let r = review(&f);
    let c = check(&r, "IR receiver");
    assert_eq!(c.state, State::Missing);
    assert!(c.detail.contains("after a reboot"), "{}", c.detail);
    assert!(c.fix.as_ref().is_some_and(|x| x.contains("gpio-ir")));
}

#[test]
fn ir_on_a_pi5_cites_the_v5_without_claiming_every_case() {
    // T6 measured the ONE V5. A NEO 5 is a different enclosure, and inheriting the V5's
    // answer for it would be a guess wearing a measurement's clothes.
    let f = Facts {
        model: "Raspberry Pi 5 Model B Rev 1.1".into(),
        config_txt: Some("[all]\n".into()),
        header_bus: true,
        ..Facts::default()
    };
    let r = review(&f);
    let c = check(&r, "IR receiver");
    assert_eq!(c.state, State::Optional);
    assert!(c.detail.contains("ONE V5"), "{}", c.detail);
    assert!(c.detail.contains("unmeasured"), "{}", c.detail);
}

#[test]
fn a_one_up_without_the_lid_overlay_is_told_how_to_get_one() {
    let f = Facts {
        model: "Raspberry Pi Compute Module 5 Rev 1.0".into(),
        config_txt: Some("[all]\n".into()),
        header_bus: true,
        gauge_answers: Some(true),
        ..Facts::default()
    };
    let r = review(&f);
    let c = check(&r, "ONE UP lid switch");
    assert_eq!(c.state, State::Optional);
    assert!(c.fix.as_ref().is_some_and(|x| x.contains("oneup-takeover")));
}

#[test]
fn an_active_vendor_daemon_is_a_conflict_with_the_command_to_stop_it() {
    let f = Facts {
        model: "Raspberry Pi 5 Model B Rev 1.1".into(),
        config_txt: Some("[all]\n".into()),
        vendor_units: vec![
            ("argonupsrtcd.service".into(), true),
            ("argononed.service".into(), false),
        ],
        ..Facts::default()
    };
    let r = review(&f);
    let c = check(&r, "vendor daemons");
    assert_eq!(c.state, State::Missing);
    assert!(c.detail.contains("argonupsrtcd.service"));
    assert!(
        !c.detail.contains("argononed.service"),
        "named an inactive unit"
    );
    assert_eq!(
        c.fix.as_deref(),
        Some("sudo systemctl stop argonupsrtcd.service")
    );
}

#[test]
fn joining_the_argon_group_is_never_the_advice() {
    let f = Facts {
        model: "Raspberry Pi 5 Model B Rev 1.1".into(),
        config_txt: Some("[all]\n".into()),
        ups_present: true,
        ..Facts::default()
    };
    let r = review(&f);
    let c = check(&r, "group `argon`");
    assert_eq!(c.state, State::Fine);
    assert!(c.fix.is_none(), "offered a command to join the argon group");
    assert!(c.detail.contains("do not join"));
    // And no other check may suggest it either.
    for c in r.iter().flat_map(|s| &s.checks) {
        if let Some(fix) = &c.fix {
            assert!(!fix.contains("adduser $USER argon"), "{}: {fix}", c.name);
        }
    }
}

#[test]
fn an_unreadable_config_txt_is_one_clear_failure_not_four_guesses() {
    let f = Facts {
        model: "Raspberry Pi 4 Model B Rev 1.4".into(),
        config_txt: None,
        config_path: "/boot/firmware/config.txt".into(),
        ..Facts::default()
    };
    let boot = &review(&f)[0];
    assert_eq!(boot.checks.len(), 1);
    assert_eq!(boot.checks[0].state, State::Missing);
}

#[test]
fn the_report_prints_every_check_and_the_json_lists_them() {
    let f = pi4_with_mcu();
    let said = setup_text(&f);
    for c in review(&f).iter().flat_map(|s| &s.checks) {
        assert!(said.contains(&c.name), "{} is missing", c.name);
    }
    assert!(matches!(setup_json(&f), Json::Object(_)));
    assert_eq!(State::Fine.name(), "ok");
    assert_ne!(State::Fine.mark(), State::Missing.mark());
}
