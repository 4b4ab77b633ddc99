use argon_utils::device::shutdown_notice::{Seen, ShutdownWatcher, SAME};
use argon_utils::device::status::Urgency;
use argon_utils::time::SystemTime;

const BUTTON: &str = "button message";

const HHMM: &str = "20:53";

fn at(n: u64) -> SystemTime {
    SystemTime::from_unix(n)
}

fn poweroff(n: u64, message: Option<&str>) -> Seen {
    Seen::Poweroff {
        at: at(n),
        message: message.map(str::to_owned),
    }
}

#[test]
fn the_buttons_countdown_is_announced_with_how_to_cancel_it() {
    let mut w = ShutdownWatcher::new();
    let n = w
        .observe(&poweroff(1_060, Some(BUTTON)), None, HHMM, BUTTON)
        .expect("a pending poweroff went unannounced");
    assert_eq!(n.urgency, Urgency::Critical);
    assert!(n.text.contains("case button"), "{}", n.text);
    assert!(n.text.contains("again to cancel"), "{}", n.text);
    assert!(n.text.contains("20:53"), "{}", n.text);
}

#[test]
fn it_is_said_once_and_its_cancellation_is_said_too() {
    let mut w = ShutdownWatcher::new();
    assert!(w
        .observe(&poweroff(1_060, Some(BUTTON)), None, HHMM, BUTTON)
        .is_some());
    assert!(
        w.observe(&poweroff(1_060, Some(BUTTON)), None, HHMM, BUTTON)
            .is_none(),
        "announced the same poweroff on every tick"
    );
    let n = w
        .observe(&Seen::Nothing, None, HHMM, BUTTON)
        .expect("cancel unannounced");
    assert!(n.text.contains("cancelled"), "{}", n.text);
    assert!(w.observe(&Seen::Nothing, None, HHMM, BUTTON).is_none());
}

#[test]
fn a_low_battery_poweroff_is_left_to_the_ups_notices() {
    // The same poweroff, seen in logind and in the status file: say it once, not twice.
    let mut w = ShutdownWatcher::new();
    let from_battery = poweroff(1_120, Some("battery critical"));
    assert!(
        w.observe(&from_battery, Some(at(1_120)), HHMM, BUTTON)
            .is_none(),
        "a low-battery poweroff announced twice"
    );
    // Nor its cancellation, which the UPS notices also cover.
    assert!(w
        .observe(&from_battery, Some(at(1_120)), HHMM, BUTTON)
        .is_none());
}

#[test]
fn anyone_elses_poweroff_is_announced_with_the_general_way_to_cancel() {
    let mut w = ShutdownWatcher::new();
    let n = w
        .observe(&poweroff(3_000, None), None, HHMM, BUTTON)
        .expect("a `shutdown +30` went unannounced");
    assert!(n.text.contains("shutdown -c"), "{}", n.text);
    assert!(
        !n.text.contains("case button"),
        "blamed the button: {}",
        n.text
    );
}

#[test]
fn a_moved_poweroff_is_announced_again() {
    let mut w = ShutdownWatcher::new();
    w.observe(&poweroff(1_060, None), None, HHMM, BUTTON);
    assert!(w
        .observe(&poweroff(2_000, None), None, HHMM, BUTTON)
        .is_some());
}

#[test]
fn a_failed_read_is_neither_a_poweroff_nor_a_cancellation() {
    let mut w = ShutdownWatcher::new();
    w.observe(&poweroff(1_060, Some(BUTTON)), None, HHMM, BUTTON);
    assert!(w.observe(&Seen::CannotTell, None, HHMM, BUTTON).is_none());
    // And the pending one is still known: a real cancel afterwards is still announced.
    assert!(w.observe(&Seen::Nothing, None, HHMM, BUTTON).is_some());
}

#[test]
fn two_times_within_the_rounding_are_one_poweroff() {
    let mut w = ShutdownWatcher::new();
    w.observe(&poweroff(1_000, None), None, HHMM, BUTTON);
    assert!(w
        .observe(&poweroff(1_000 + SAME, None), None, HHMM, BUTTON)
        .is_none());
    assert!(w
        .observe(&poweroff(1_000 + SAME + 1, None), None, HHMM, BUTTON)
        .is_some());
}

#[test]
fn a_low_battery_poweroffs_cancellation_is_left_to_the_ups_notices() {
    let mut w = ShutdownWatcher::new();
    let from_battery = poweroff(1_120, Some("battery critical"));
    assert!(w
        .observe(&from_battery, Some(at(1_120)), HHMM, BUTTON)
        .is_none());
    // The status file may have dropped it first, and a look may fail in between.
    assert!(w.observe(&from_battery, None, HHMM, BUTTON).is_none());
    assert!(w.observe(&Seen::CannotTell, None, HHMM, BUTTON).is_none());
    assert!(
        w.observe(&Seen::Nothing, None, HHMM, BUTTON).is_none(),
        "a low-battery poweroff's cancellation said twice"
    );
    // One that follows is announced, and so is its cancellation.
    assert!(w
        .observe(&poweroff(3_000, None), None, HHMM, BUTTON)
        .is_some());
    let n = w
        .observe(&Seen::Nothing, None, HHMM, BUTTON)
        .expect("cancel unannounced");
    assert_eq!(n.urgency, Urgency::Normal);
    assert_eq!(n.text, "The scheduled poweroff was cancelled.");
}

#[test]
fn a_poweroff_that_replaces_the_low_battery_one_is_announced() {
    let mut w = ShutdownWatcher::new();
    w.observe(&poweroff(1_120, None), Some(at(1_120)), HHMM, BUTTON);
    let n = w
        .observe(&poweroff(9_000, None), Some(at(1_120)), HHMM, BUTTON)
        .expect("a replacement went unannounced");
    assert_eq!(
        n.text,
        "A poweroff is scheduled for 20:53. Cancel it with `shutdown -c`."
    );
}
