use argon_utils::cli::button::{fmt_ms, report, sorted, Pulses};
use argon_utils::cli::doctor::{
    esc, is_tty, json, lines_of_interest, report_contention, report_fan, report_gpio, report_i2c,
    report_platform, report_summary, report_usb, report_vendor_config, vendor_configs,
    GpioChip, GpioLine, HeldPort, I2cBus, Platform, PwmFan, Unit, UsbDevice,
};
use argon_utils::cli::notify::{
    after_panel, after_send, interval, panel_args, send_args, test_notice, Delivery,
};
use argon_utils::cli::oled::{
    intent, preview, preview_head, preview_tail, sent_text, vendor_holds_display, Intent,
};
use argon_utils::device::button::Edge;
use argon_utils::device::fan_control::{CoolingDevice, FanReading};

fn platform() -> Platform {
    Platform {
        model: "Raspberry Pi 5 \"B\"".to_owned(),
        revision: None,
        generation: "Pi5".to_owned(),
        is_pi: true,
        kernel: "6.12".to_owned(),
        os: "Debian".to_owned(),
        arch: "aarch64".to_owned(),
    }
}

#[test]
fn the_machine_is_described() {
    let (said, warning) = report_platform(&platform());
    assert_eq!(
        said,
        "\nPlatform\n--------\n  model        Raspberry Pi 5 \"B\"\n  revision     unknown\n  generation   Pi5\n  kernel       6.12\n  os           Debian (aarch64)\n"
    );
    assert_eq!(warning, None);
    let other = Platform {
        is_pi: false,
        ..platform()
    };
    assert!(report_platform(&other).1.is_some());
}

#[test]
fn the_buses_are_listed_and_not_probed() {
    let (said, warning) = report_i2c(&vec![I2cBus {
        dev: "/dev/i2c-1".to_owned(),
        name: "bcm".to_owned(),
        bound: vec![(0x0a, "rtc".to_owned())],
    }]);
    assert!(said.contains("  /dev/i2c-1 — bcm\n      0x0a claimed by kernel driver `rtc` (will not be probed)\n"));
    assert!(said.contains("\n  Not probed."));
    assert_eq!(warning, None);
    let (said, warning) = report_i2c(&Vec::new());
    assert!(said.contains("none — is `dtparam=i2c_arm=on` set"));
    assert!(warning.is_some());
}

#[test]
fn an_unheld_button_line_is_a_warning_only_without_the_pis_own_button() {
    assert_eq!(lines_of_interest(), vec![4, 17, 22, 23, 27]);
    let chips = vec![GpioChip {
        path: "/dev/gpiochip0".to_owned(),
        label: "rp1".to_owned(),
        lines: 54,
    }];
    let lines = vec![GpioLine {
        offset: 4,
        name: "GPIO4".to_owned(),
        is_output: false,
        consumer: None,
    }];
    let (said, warning) = report_gpio(&chips, Some(("rp1", &lines)), None);
    assert!(said.contains("  /dev/gpiochip0 — label `rp1`, 54 lines\n"));
    assert!(said.contains(
        "    line  4 GPIO4    in     unheld                 power button pulses from the MCU\n"
    ));
    assert!(warning.is_some());
    let (said, warning) = report_gpio(&chips, Some(("rp1", &lines)), Some("/dev/input/event0"));
    assert!(said.contains("(/dev/input/event0), handled by the OS."));
    assert_eq!(warning, None);
    assert_eq!(
        report_gpio(&chips, None, None).1,
        Some("could not identify the header GPIO chip")
    );
}

#[test]
fn a_fan_of_the_kernel_is_the_kernels() {
    let fan = PwmFan {
        path: "/sys/fan".to_owned(),
        reading: Some((
            FanReading {
                pwm: 75,
                rpm: Some(2_100),
            },
            true,
        )),
    };
    let cooling = vec![
        CoolingDevice {
            kind: "cpufreq".to_owned(),
            state: 0,
            max_state: 9,
        },
        CoolingDevice {
            kind: "pwm-fan".to_owned(),
            state: 1,
            max_state: 4,
        },
    ];
    let (said, warning) = report_fan(Some(&fan), &cooling);
    assert_eq!(
        said,
        "\nFan\n---\n  kernel PWM fan at /sys/fan\n  pwm 75 / 255, 2100 rpm\n  the fan is currently turning\n  thermal governor: pwm-fan at state 1/4\n"
    );
    assert!(warning.is_some());
    assert_eq!(report_fan(None, &cooling).1, None);
}

#[test]
fn usb_devices_are_placed_and_recognised() {
    let device = |kernel: &str, controller: Option<&str>| UsbDevice {
        kernel: kernel.to_owned(),
        vid: "1a86".to_owned(),
        pid: "7523".to_owned(),
        product: None,
        serial: None,
        controller: controller.map(str::to_owned),
        nodes: vec!["/dev/ttyUSB0".to_owned()],
    };
    let usb = vec![
        device("1-1", Some("xhci-0")),
        device("2-1", Some("xhci-1")),
        device("3-1", None),
    ];
    let said = report_usb(&usb, Some("1-1"), None, "xhci-0");
    assert!(said.contains("  1-1      1a86:7523  internal -  <- Argon PWR UPS\n      /dev/ttyUSB0\n"));
    assert!(said.contains("  2-1      1a86:7523  external -\n"));
    assert!(said.contains("  3-1      1a86:7523  ?        -\n"));
    assert!(said.ends_with("  No Argon Zigbee module found on the internal header.\n"));
    assert!(report_usb(&Vec::new(), None, None, "x").ends_with("\n  No Argon UPS found.\n"));
    assert!(is_tty("ttyACM0") && is_tty("ttyUSB1") && !is_tty("hidraw0"));
}

#[test]
fn whoever_holds_the_hardware_is_named() {
    let units = vec![Unit {
        unit: "argononed.service".to_owned(),
        state: "active".to_owned(),
        owns: "the fan".to_owned(),
        active: true,
    }];
    let (said, contended) = report_contention(&units, &Vec::new(), true);
    assert!(said.contains("  ACTIVE  argononed.service          active         the fan\n"));
    assert!(contended);
    let free = vec![HeldPort {
        node: "/dev/ttyACM0".to_owned(),
        owners: Vec::new(),
    }];
    let (said, contended) = report_contention(&Vec::new(), &free, false);
    assert!(said.ends_with("/dev/ttyACM0 — no owner visible (not privileged — inconclusive)\n"));
    assert!(!contended);
    let held = vec![HeldPort {
        node: "/dev/ttyACM0".to_owned(),
        owners: vec![(412, "cat".to_owned())],
    }];
    let (said, contended) = report_contention(&Vec::new(), &held, true);
    assert!(said.ends_with("\n  /dev/ttyACM0 — held by pid 412 (cat)\n"));
    assert!(contended);
    assert!(report_summary(false, &Vec::new()).ends_with("  Nothing contending for the hardware.\n"));
    assert!(report_summary(true, &vec!["w".to_owned()]).ends_with("  warning: w\n"));
}

#[test]
fn vendor_configuration_is_listed_where_it_is() {
    assert_eq!(vendor_configs().len(), 6);
    assert_eq!(
        report_vendor_config(&vec![true, false]),
        "\nVendor configuration present\n----------------------------\n  /etc/argononed.conf              CPU fan curve\n"
    );
    assert!(report_vendor_config(&vec![false; 6]).ends_with("  none\n"));
}

#[test]
fn the_json_report_is_json() {
    let buses = vec![
        I2cBus {
            dev: "/dev/i2c-1".to_owned(),
            name: "a\\b".to_owned(),
            bound: Vec::new(),
        },
        I2cBus {
            dev: "/dev/i2c-2".to_owned(),
            name: "c".to_owned(),
            bound: Vec::new(),
        },
    ];
    let units = vec![Unit {
        unit: "u".to_owned(),
        state: "inactive".to_owned(),
        owns: String::new(),
        active: false,
    }];
    let usb = vec![UsbDevice {
        kernel: "1-1".to_owned(),
        vid: "1a86".to_owned(),
        pid: "7523".to_owned(),
        product: Some("UPS".to_owned()),
        serial: None,
        controller: None,
        nodes: vec!["/dev/a".to_owned(), "/dev/b".to_owned()],
    }];
    let text = json(&platform(), &buses, &Vec::new(), &usb, &units);
    let v: serde_json::Value = serde_json::from_str(&text).expect("valid JSON");
    assert_eq!(v["platform"]["model"], "Raspberry Pi 5 \"B\"");
    assert_eq!(v["i2c"][0]["name"], "a\\b");
    assert_eq!(v["i2c"][1]["dev"], "/dev/i2c-2");
    assert_eq!(v["usb"][0]["nodes"][1], "/dev/b");
    assert_eq!(v["vendor_units"][0]["active"], false);
    assert_eq!(esc("a\"b\\"), "a\\\"b\\\\");
}

#[test]
fn pulses_are_measured_and_grouped() {
    let mut p = Pulses::new();
    let ms = 1_000_000;
    assert_eq!(p.on_edge(Edge::Falling, 1), None);
    assert_eq!(p.on_edge(Edge::Rising, 100 * ms), None);
    assert_eq!(
        p.on_edge(Edge::Falling, 120 * ms),
        Some("  pulse   1:   20000 us  (20.0 ms)".to_owned())
    );
    p.on_edge(Edge::Rising, 1_350 * ms);
    assert_eq!(
        p.on_edge(Edge::Falling, 1_390 * ms),
        Some("  pulse   2:   40000 us  (40.0 ms)   +1.25s since the last".to_owned())
    );
    assert_eq!(p.widths(), &vec![20_000, 40_000]);
    assert_eq!(sorted(&vec![3, 1, 2]), vec![1, 2, 3]);
    assert_eq!(fmt_ms(12_345), "12.3");
    let said = report(p.widths());
    assert!(said.starts_with("\nDistribution (2 "), "{said}");
    assert!(said.contains("boundary at   30000 us (30.0 ms), margin +/-10.0 ms"), "{said}");
}

#[test]
fn a_notice_is_delivered_by_whoever_takes_it() {
    let n = test_notice();
    assert_eq!(panel_args(&n)[8], "notify");
    assert_eq!(panel_args(&n)[9], n.text);
    assert_eq!(send_args("Argon", &n)[1], "normal");
    assert_eq!(send_args("Argon", &n)[4], "Argon");
    assert_eq!(after_panel(true), Delivery::Done("the Pi panel"));
    assert_eq!(after_panel(false), Delivery::TrySend);
    assert_eq!(after_send(true, ""), Delivery::Done("notify-send"));
    assert_eq!(
        after_send(false, "no such name\n"),
        Delivery::Failed("no notification service accepted it (panel: no such name)".to_owned())
    );
    assert_eq!(interval(0), 1);
    assert_eq!(interval(5), 5);
}

#[test]
fn the_display_is_previewed_unless_asked_otherwise() {
    assert_eq!(intent(false, false, false, false), Intent::Preview);
    assert_eq!(intent(false, false, true, false), Intent::Send);
    assert_eq!(intent(false, false, true, true), Intent::SwitchOff);
    assert_eq!(intent(true, false, true, true), Intent::Skip);
    assert_ne!(preview_head(true), preview_head(false));
    assert_ne!(preview_tail(true), preview_tail(false));
    assert_eq!(vendor_holds_display(false), None);
    assert!(sent_text(true, "0x3c", "bus", true).contains("(rotated 180)"));

    let mut frame = vec![false; 128 * 64];
    frame[0] = true; // upper
    frame[128 + 1] = true; // lower
    frame[2] = true;
    frame[128 + 2] = true;
    let said = preview(&frame);
    let rows: Vec<&str> = said.lines().collect();
    assert_eq!(rows.len(), 34);
    assert!(rows[1].starts_with("  |\u{2580}\u{2584}\u{2588} "), "{}", rows[1]);
}
