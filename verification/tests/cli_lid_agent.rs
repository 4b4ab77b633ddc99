use argon_utils::cli::lid_agent::{
    alert_notice, cancelled_notice, describe, effect_text, has_lid_switch, is_lid_switch, outputs,
    parse_hex, restored, to_block, wait, Blocked, Radio,
};
use argon_utils::device::config::LidConfig;
use argon_utils::device::lid::Effect;
use argon_utils::device::status::Urgency;
use argon_utils::time::Duration;

#[test]
fn finds_a_lid_switch_by_its_capability_bit() {
    let read = |caps: [&str; 3]| -> Vec<String> { caps.iter().map(|c| format!("{c}\n")).collect() };
    assert!(has_lid_switch(&read(["0", "1", ""])));
    assert!(
        !has_lid_switch(&read(["0", "20", ""])),
        "a switch without SW_LID counted as a lid"
    );
    assert!(!has_lid_switch(&Vec::new()));
}

#[test]
fn capabilities_are_hexadecimal_numbers() {
    assert_eq!(parse_hex("1f"), Some(31));
    assert_eq!(parse_hex("FFFFFFFFFFFFFFFF"), Some(u64::MAX));
    assert_eq!(parse_hex("10000000000000000"), None);
    assert_eq!(parse_hex(""), None);
    assert_eq!(parse_hex("g"), None);
    assert!(is_lid_switch("3\n"));
    assert!(!is_lid_switch("2\n"));
}

fn radio(index: u32, ours: bool, soft_blocked: bool, hard_blocked: bool) -> Radio {
    Radio {
        index,
        ours,
        soft_blocked,
        hard_blocked,
    }
}

#[test]
fn only_radios_that_were_on_are_blocked_and_given_back() {
    let radios = vec![
        radio(0, true, false, false),
        radio(1, true, true, false),
        radio(2, false, false, false),
        radio(3, true, false, false),
    ];
    let to = to_block(&radios);
    assert_eq!(to, vec![0, 3]);
    let mut b = Blocked::new();
    for i in to {
        b.blocked(i);
    }
    assert_eq!(b.restore(), vec![0, 3]);
    assert!(b.restore().is_empty(), "a radio was given back twice");
}

#[test]
fn a_radio_that_stays_blocked_is_named() {
    assert_eq!(restored(&Vec::new()), Ok(()));
    let e = restored(&vec![(0, "denied".to_owned()), (3, "gone".to_owned())]).unwrap_err();
    assert!(e.contains("denied") && e.contains("; ") && e.contains("gone"), "{e}");
}

#[test]
fn the_outputs_are_the_first_words() {
    assert_eq!(
        outputs("DSI-1 on\nHDMI-A-1 off\n"),
        Ok(vec!["DSI-1".to_owned(), "HDMI-A-1".to_owned()])
    );
    assert_eq!(outputs("\n"), Err("wlopm lists no outputs"));
}

#[test]
fn it_waits_until_the_deadline_but_no_longer_than_a_second() {
    let s = Duration::from_secs;
    assert_eq!(wait(None, s(5)), s(1));
    assert_eq!(wait(Some(s(9)), s(5)), s(1));
    assert_eq!(
        wait(Some(Duration::from_millis(5_300)), s(5)),
        Duration::from_millis(300)
    );
    assert_eq!(wait(Some(s(4)), s(5)), s(0));
}

#[test]
fn a_poweroff_is_announced_and_so_is_its_end() {
    let n = alert_notice(Duration::from_secs(30));
    assert_eq!(n.urgency, Urgency::Critical);
    assert!(n.text.contains("30"), "{}", n.text);
    assert_eq!(cancelled_notice().text, "Lid opened: the poweroff is cancelled.");
    assert!(!describe(&LidConfig::default()).is_empty());
    assert!(!effect_text(Effect::ScreenOff).is_empty());
    for ns in [
        0u64,
        1,
        999,
        1_000,
        1_050,
        999_999,
        1_000_000,
        1_500_000,
        10_000_001,
        999_999_999,
        1_000_000_000,
        1_000_000_001,
        1_050_000_000,
        60_000_000_000,
        u64::MAX,
    ] {
        assert_eq!(
            effect_text(Effect::ShutdownAlert(Duration::from_nanos(ns))),
            format!("ShutdownAlert({:?})", std::time::Duration::from_nanos(ns))
        );
    }
}
