use argon_utils::daemon::button::{
    act, not_a_press_line, on_cancelled, on_edge, on_scheduled, recognise, watching_line, Deed,
    Seen, MESSAGE,
};
use argon_utils::device::button::{Button, Edge, Pending, DELAY};
use argon_utils::device::power::SHUTDOWN_MESSAGE;
use argon_utils::time::{Duration, SystemTime};

/// Records what it is asked to do instead of doing it.
#[derive(Default)]
struct Fake {
    scheduled: Vec<(u64, String)>,
    cancels: u32,
    refuse: bool,
}

fn press(b: &mut Button, p: &mut Fake, now: Duration, pending: Pending, full: bool) {
    match act(b, now, pending, full) {
        Deed::Log(_) => {}
        Deed::Schedule { delay_s, message } => {
            let at = if p.refuse {
                Err("timed out".to_owned())
            } else {
                p.scheduled.push((delay_s, message.to_owned()));
                Ok(at(1_060))
            };
            on_scheduled(b, at);
        }
        Deed::Cancel => {
            p.cancels += 1;
            on_cancelled(b, Ok(()));
        }
    }
}

fn s(n: u64) -> Duration {
    Duration::from_secs(n)
}

fn at(n: u64) -> SystemTime {
    SystemTime::from_unix(n)
}

#[test]
fn in_full_mode_a_press_places_the_announced_poweroff() {
    let (mut b, mut p) = (Button::new(true), Fake::default());
    press(&mut b, &mut p, s(10), Pending::Nothing, true);
    assert_eq!(p.scheduled.len(), 1);
    assert_eq!(
        p.scheduled[0].0, DELAY,
        "not the announced one-minute delay"
    );
    assert!(
        p.scheduled[0].1.contains("again to cancel"),
        "the notice must say how"
    );
    assert_eq!(p.scheduled[0].1, MESSAGE);
}

#[test]
fn outside_full_mode_a_press_powers_nothing_off() {
    let (mut b, mut p) = (Button::new(true), Fake::default());
    press(&mut b, &mut p, s(10), Pending::Nothing, false);
    assert!(
        p.scheduled.is_empty(),
        "scheduled a poweroff in read-only mode"
    );
}

#[test]
fn outside_full_mode_a_press_cancels_nothing() {
    // The button's own countdown, placed in full mode before the daemon was restarted.
    let mut b = Button::new(true);
    recognise(&mut b, Pending::At(at(1_060)), Some(MESSAGE));
    assert_eq!(
        act(&mut b, s(10), Pending::At(at(1_060)), false),
        Deed::Log(
            "argond: button: pressed again; would cancel the poweroff, but mode is not full"
                .to_owned()
        )
    );
    // It is still ours: in full mode the same press cancels it.
    assert_eq!(
        act(&mut b, s(20), Pending::At(at(1_060)), true),
        Deed::Cancel
    );
}

#[test]
fn the_second_press_cancels_the_one_it_placed() {
    let (mut b, mut p) = (Button::new(true), Fake::default());
    press(&mut b, &mut p, s(10), Pending::Nothing, true);
    let placed = at(1_060);
    press(&mut b, &mut p, s(20), Pending::At(placed), true);
    assert_eq!(p.cancels, 1);
    assert_eq!(
        p.scheduled.len(),
        1,
        "scheduled a second one instead of cancelling"
    );
}

#[test]
fn a_press_never_cancels_a_shutdown_it_did_not_place() {
    // A low-battery poweroff pending: the press must leave it alone.
    let (mut b, mut p) = (Button::new(true), Fake::default());
    press(&mut b, &mut p, s(10), Pending::At(at(1_120)), true);
    assert_eq!(
        p.cancels, 0,
        "cancelled a shutdown the button did not place"
    );
    assert!(p.scheduled.is_empty());
}

#[test]
fn after_a_restart_the_button_still_cancels_its_own_countdown() {
    // A fresh policy, as after dpkg restarted argond, with the button's poweroff pending.
    let (mut b, mut p) = (Button::new(true), Fake::default());
    recognise(&mut b, Pending::At(at(1_060)), Some(MESSAGE));
    press(&mut b, &mut p, s(10), Pending::At(at(1_060)), true);
    assert_eq!(
        p.cancels, 1,
        "a restarted daemon could not cancel its own countdown"
    );
}

#[test]
fn a_low_battery_poweroff_is_never_adopted() {
    // Pending, with someone else's message: still not ours, still left alone.
    for message in ["Battery critical: powering off", SHUTDOWN_MESSAGE] {
        let (mut b, mut p) = (Button::new(true), Fake::default());
        recognise(&mut b, Pending::At(at(1_120)), Some(message));
        press(&mut b, &mut p, s(10), Pending::At(at(1_120)), true);
        assert_eq!(p.cancels, 0, "a press cancelled a low-battery poweroff");
    }
}

#[test]
fn a_refused_poweroff_is_not_recorded_as_ours() {
    // If logind refused, nothing is pending, and a later press must schedule rather than try
    // to cancel a poweroff that does not exist.
    let (mut b, mut p) = (
        Button::new(true),
        Fake {
            refuse: true,
            ..Fake::default()
        },
    );
    press(&mut b, &mut p, s(10), Pending::Nothing, true);
    p.refuse = false;
    press(&mut b, &mut p, s(20), Pending::Nothing, true);
    assert_eq!(p.scheduled.len(), 1);
    assert_eq!(p.cancels, 0);
}

#[test]
fn a_pulse_of_the_right_width_is_a_press() {
    let mut rising = None;
    let ms = 1_000_000;
    assert_eq!(on_edge(&mut rising, Edge::Falling, 5 * ms), Seen::Nothing);
    assert_eq!(on_edge(&mut rising, Edge::Rising, 10 * ms), Seen::Nothing);
    assert_eq!(
        on_edge(&mut rising, Edge::Falling, 30 * ms),
        Seen::Press { at_ns: 30 * ms }
    );
    assert_eq!(on_edge(&mut rising, Edge::Falling, 50 * ms), Seen::Nothing);
    on_edge(&mut rising, Edge::Rising, 100 * ms);
    assert_eq!(
        on_edge(&mut rising, Edge::Falling, 101 * ms),
        Seen::NotAPress { width_ns: ms }
    );
    assert_eq!(
        not_a_press_line(1_234_567),
        "argond: button: ignored a 1234 us pulse on GPIO4: not a press"
    );
}

#[test]
fn every_press_is_explained_in_the_log() {
    let mut b = Button::new(true);
    assert_eq!(
        act(&mut b, s(10), Pending::At(at(1_120)), true),
        Deed::Log(
            "argond: button: pressed; nothing done: a shutdown is already pending that the button did not place, so it is left alone"
                .to_owned()
        )
    );
    assert_eq!(
        on_scheduled(&mut b, Err("denied".to_owned())),
        "argond: button: pressed, but the poweroff was refused: denied"
    );
    assert_eq!(
        on_cancelled(&mut b, Err("denied".to_owned())),
        "argond: button: pressed again, but the cancel failed: denied"
    );
    assert!(watching_line(false).contains("only logs"));
}
