use argon_utils::device::boot_config::{find, is_active, is_active_prefix, sections_for, Directive};

const SAMPLE: &str = "\
# a comment
#dtparam=i2c_arm=on
dtparam=audio=on

[cm5]
dtoverlay=dwc2,dr_mode=host

[pi5]
dtoverlay=nospi10

[all]
enable_uart=1
dtparam=i2c_arm=on
dtoverlay=gpio-ir,gpio_pin=23
";

#[test]
fn a_commented_line_is_not_configuration() {
    let found = find(SAMPLE, "dtparam");
    let commented: Vec<&Directive> = found.iter().filter(|d| d.commented).collect();
    assert_eq!(commented.len(), 1);
    assert!(!commented[0].applies_to(&["all", "pi4"]));
    // The real one, later in [all], does apply.
    assert!(is_active(SAMPLE, "dtparam", "i2c_arm=on", &["all", "pi4"]));
}

#[test]
fn a_filter_section_limits_where_a_directive_applies() {
    // dwc2 sits under [cm5]: in force on a CM5, absent on a Pi 4.
    assert!(is_active_prefix(SAMPLE, "dtoverlay", "dwc2", &["all", "cm5", "pi5"]));
    assert!(!is_active_prefix(SAMPLE, "dtoverlay", "dwc2", &["all", "pi4"]));
}

#[test]
fn a_directive_before_any_filter_applies_to_every_board() {
    assert!(is_active(SAMPLE, "dtparam", "audio=on", &["all", "pi4"]));
    assert!(is_active(SAMPLE, "dtparam", "audio=on", &["all", "pi5"]));
}

#[test]
fn an_overlay_is_recognised_whatever_its_parameters() {
    assert!(is_active_prefix(SAMPLE, "dtoverlay", "gpio-ir", &["all", "pi4"]));
    assert!(!is_active_prefix(SAMPLE, "dtoverlay", "gpio-ir-tx", &["all", "pi4"]));
}

#[test]
fn sections_are_derived_from_the_model_and_fall_back_to_all() {
    assert_eq!(sections_for("Raspberry Pi 4 Model B Rev 1.4"), ["all", "pi4"]);
    assert_eq!(sections_for("Raspberry Pi 5 Model B Rev 1.1"), ["all", "pi5"]);
    assert_eq!(sections_for("Raspberry Pi Compute Module 5 Rev 1.0"), ["all", "cm5", "pi5"]);
    // Unknown board: only [all], so nothing under a specific filter is claimed active.
    assert_eq!(sections_for("Some Other Board"), ["all"]);
}

#[test]
fn every_known_board_has_its_sections() {
    assert_eq!(sections_for("Raspberry Pi Compute Module 4 Rev 1.0"), ["all", "cm4", "pi4"]);
    assert_eq!(sections_for("Raspberry Pi 400 Rev 1.0"), ["all", "pi4"]);
    assert_eq!(sections_for("Raspberry Pi 3 Model B Plus"), ["all", "pi3"]);
    assert_eq!(sections_for("Raspberry Pi Zero 2 W Rev 1.0"), ["all", "pi02", "pi0"]);
}

#[test]
fn the_line_number_is_reported_so_a_person_can_go_and_look() {
    let d = find(SAMPLE, "enable_uart");
    assert_eq!(d.len(), 1);
    assert_eq!(d[0].line, 12);
    assert_eq!(d[0].section.as_deref(), Some("all"));
}

#[test]
fn values_are_compared_without_case_or_space() {
    assert!(is_active("dtparam = I2C_ARM=on \n", "dtparam", " i2c_arm=ON ", &["all"]));
    assert!(!is_active("dtparam=i2c_arm=off\n", "dtparam", "i2c_arm=on", &["all"]));
}
