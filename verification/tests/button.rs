use argon_utils::device::button::{is_press, Action, Button, Pending, Why};
use argon_utils::time::{Duration, SystemTime};

fn s(n: u64) -> Duration {
    Duration::from_secs(n)
}

fn at(n: u64) -> SystemTime {
    SystemTime::from_unix(n)
}

#[test]
fn the_measured_pulses_are_presses_and_glitches_are_not() {
    assert!(is_press(Duration::from_micros(20_002)), "the V3's 20.00 ms");
    assert!(is_press(Duration::from_micros(20_094)), "the V1's 20.09 ms");
    assert!(!is_press(Duration::from_micros(500)), "a glitch");
    assert!(!is_press(s(2)), "a line held high");
}

#[test]
fn unconfigured_it_only_ever_ignores() {
    let mut b = Button::new(false);
    assert_eq!(b.press(s(10), Pending::Nothing), Action::Ignore(Why::NotConfigured));
}

#[test]
fn a_press_schedules_and_a_second_press_cancels_it() {
    let mut b = Button::new(true);
    assert_eq!(b.press(s(10), Pending::Nothing), Action::Schedule);
    b.placed(at(1_060));
    assert_eq!(b.press(s(20), Pending::At(at(1_060))), Action::Cancel);
    b.cancelled();
    // And after that, a press schedules again.
    assert_eq!(b.press(s(30), Pending::Nothing), Action::Schedule);
}

#[test]
fn a_press_never_cancels_a_low_battery_poweroff() {
    // The shutdown that must not be dismissed by a stray tap: pending, and not ours.
    let mut b = Button::new(true);
    assert_eq!(b.press(s(10), Pending::At(at(1_120))), Action::Ignore(Why::SomeoneElses));
}

#[test]
fn once_ours_is_replaced_by_someone_elses_we_no_longer_own_it() {
    // We placed one; an operator cancelled it and placed their own. A press must not cancel
    // theirs on the strength of having once placed ours.
    let mut b = Button::new(true);
    b.press(s(10), Pending::Nothing);
    b.placed(at(1_060));
    assert_eq!(b.press(s(20), Pending::At(at(1_900))), Action::Ignore(Why::SomeoneElses));
    assert_eq!(
        b.press(s(30), Pending::At(at(1_900))),
        Action::Ignore(Why::SomeoneElses),
        "claimed the operator's shutdown later"
    );
}

#[test]
fn if_ours_was_cancelled_elsewhere_the_next_press_schedules_again() {
    // `shutdown -c`, or the tray: logind reports nothing, so ours is gone.
    let mut b = Button::new(true);
    b.press(s(10), Pending::Nothing);
    b.placed(at(1_060));
    assert_eq!(b.press(s(20), Pending::Nothing), Action::Schedule);
}

#[test]
fn when_logind_cannot_be_read_a_press_does_nothing() {
    // Scheduling blind could place a second poweroff; cancelling blind could remove one we do not
    // own. So neither.
    let mut b = Button::new(true);
    assert_eq!(b.press(s(10), Pending::CannotTell), Action::Ignore(Why::CannotTell));
    b.placed(at(1_060));
    assert_eq!(b.press(s(20), Pending::CannotTell), Action::Ignore(Why::CannotTell));
}

#[test]
fn a_bouncing_contact_is_one_press() {
    let mut b = Button::new(true);
    assert_eq!(b.press(s(10), Pending::Nothing), Action::Schedule);
    b.placed(at(1_060));
    assert_eq!(
        b.press(Duration::from_millis(10_300), Pending::At(at(1_060))),
        Action::Ignore(Why::Bounce),
        "a bounce cancelled the shutdown it had just placed"
    );
    // A real second press, well after, still cancels.
    assert_eq!(b.press(s(15), Pending::At(at(1_060))), Action::Cancel);
}
