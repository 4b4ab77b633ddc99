use argon_utils::device::ups_seen::{Recorder, SeenUps, REFRESH_EVERY};
use argon_utils::time::SystemTime;

fn at(s: u64) -> SystemTime {
    SystemTime::from_unix(s)
}

fn ups(name: &str, serial: Option<&str>, seen: u64) -> SeenUps {
    SeenUps {
        name: name.to_owned(),
        serial: serial.map(str::to_owned),
        last_seen: at(seen),
    }
}

#[test]
fn a_record_round_trips() {
    for u in [ups("Argon USB", Some("ABC123"), 1_700_000_000), ups("x", None, 5)] {
        assert_eq!(SeenUps::parse(&u.to_text()), Some(u));
    }
}

#[test]
fn a_record_without_a_name_is_no_record() {
    assert_eq!(SeenUps::parse(""), None);
    assert_eq!(SeenUps::parse("name=\nserial=1\n"), None);
}

#[test]
fn a_newline_in_a_name_cannot_forge_a_key() {
    let u = ups("Argon\nserial=forged", Some("real"), 1);
    let back = SeenUps::parse(&u.to_text()).unwrap();
    assert_eq!(back.serial.as_deref(), Some("real"));
}

#[test]
fn the_same_unit_needs_the_same_name_and_serial() {
    let a = ups("Argon USB", Some("1"), 1);
    assert!(a.same_unit(&ups("Argon USB", Some("1"), 99)));
    assert!(!a.same_unit(&ups("Argon USB", Some("2"), 1)));
    assert!(!a.same_unit(&ups("Other", Some("1"), 1)));
}

#[test]
fn the_recorder_writes_first_on_a_new_unit_and_hourly_otherwise() {
    let mut r = Recorder::new();
    let a = ups("Argon USB", Some("1"), 0);
    assert!(r.due(&a, at(1_000)), "the first sight must be written");
    r.wrote(a.clone(), at(1_000));
    assert!(!r.due(&a, at(1_010)), "not on every poll");
    assert!(
        r.due(&ups("Argon USB", Some("2"), 0), at(1_010)),
        "a swapped unit must be written at once"
    );
    assert!(r.due(&a, at(1_000 + REFRESH_EVERY)));
    // A clock stepping backwards must not trigger a write; it just waits.
    assert!(!r.due(&a, at(10)));
}
