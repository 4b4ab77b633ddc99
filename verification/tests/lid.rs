use argon_utils::device::config::LidConfig;
use argon_utils::device::lid::{Effect, Lid};
use argon_utils::time::Duration;

fn lid(action: &str, radios: bool, cpu: bool, delay: u64) -> Lid {
    Lid::new(&LidConfig {
        action: action.into(),
        radios_off: radios,
        cpu_throttle: cpu,
        shutdown_delay_s: delay,
    })
}

fn s(n: u64) -> Duration {
    Duration::from_secs(n)
}

#[test]
fn power_save_by_default_turns_only_the_screen_off_and_back_on() {
    let mut l = Lid::new(&LidConfig::default());
    assert!(l.report(false, s(0)).is_empty());
    assert_eq!(l.report(true, s(1)), vec![Effect::ScreenOff]);
    assert!(l.tick(s(100)).is_empty(), "power-save powered off");
    assert_eq!(l.report(false, s(101)), vec![Effect::ScreenOn]);
}

#[test]
fn opening_undoes_exactly_what_closing_did() {
    let mut l = lid("power-save", true, true, 1);
    l.report(false, s(0));
    assert_eq!(
        l.report(true, s(1)),
        vec![Effect::ScreenOff, Effect::RadiosOff, Effect::CpuCap(true)]
    );
    assert_eq!(
        l.report(false, s(2)),
        vec![Effect::ScreenOn, Effect::RadiosRestore, Effect::CpuCap(false)]
    );
}

#[test]
fn stopping_with_the_lid_closed_puts_everything_back() {
    let mut l = lid("power-save", true, true, 1);
    l.report(false, s(0));
    l.report(true, s(1));
    assert_eq!(
        l.restore_all(),
        vec![Effect::ScreenOn, Effect::RadiosRestore, Effect::CpuCap(false)]
    );
    assert!(l.restore_all().is_empty(), "restored twice");
}

#[test]
fn shutdown_alerts_then_powers_off_after_the_delay_once() {
    let mut l = lid("shutdown", false, false, 1);
    l.report(false, s(0));
    assert_eq!(l.report(true, s(10)), vec![Effect::ShutdownAlert(s(1))]);
    assert_eq!(l.next_deadline(), Some(s(11)));
    assert!(l.tick(Duration::from_millis(10_999)).is_empty(), "early");
    assert_eq!(l.tick(s(11)), vec![Effect::PowerOff]);
    assert!(l.tick(s(12)).is_empty(), "asked twice");
    // A bounce of the lid after the poweroff was asked for does not start another.
    l.report(false, s(12));
    assert!(l.report(true, s(13)).is_empty());
}

#[test]
fn opening_the_lid_in_time_cancels_the_shutdown() {
    let mut l = lid("shutdown", false, false, 5);
    l.report(false, s(0));
    l.report(true, s(1));
    assert_eq!(l.report(false, s(3)), vec![Effect::ScreenOn, Effect::ShutdownCancelled]);
    assert!(l.tick(s(10)).is_empty(), "powered off after the lid was opened");
    assert_eq!(l.next_deadline(), None);
}

#[test]
fn opening_the_lid_always_wakes_the_screen() {
    // shutdown, opened in time: the screen must not stay dark behind the cancellation.
    let mut l = lid("shutdown", false, false, 60);
    l.report(false, s(0));
    l.report(true, s(1));
    assert!(l.report(false, s(2)).contains(&Effect::ScreenOn));
    // A lid closed at start and then opened wakes it too.
    let mut l = Lid::new(&LidConfig::default());
    l.report(true, s(0));
    assert_eq!(l.report(false, s(1)), vec![Effect::ScreenOn]);
}

#[test]
fn a_lid_already_closed_when_the_agent_starts_does_nothing() {
    let mut l = lid("shutdown", false, false, 1);
    assert!(l.report(true, s(0)).is_empty());
    assert!(l.tick(s(60)).is_empty());
    // It takes a real close, after an open, to act.
    l.report(false, s(61));
    assert_eq!(l.report(true, s(62)), vec![Effect::ShutdownAlert(s(1))]);
}

#[test]
fn repeated_reports_of_the_same_state_are_not_changes() {
    let mut l = lid("power-save", true, false, 1);
    l.report(false, s(0));
    l.report(true, s(1));
    assert!(l.report(true, s(2)).is_empty());
    l.report(false, s(3));
    assert!(l.report(false, s(4)).is_empty());
}

#[test]
fn a_zero_delay_powers_off_at_the_next_tick() {
    let mut l = lid("shutdown", false, false, 0);
    l.report(false, s(0));
    assert_eq!(l.report(true, s(5)), vec![Effect::ShutdownAlert(s(0))]);
    assert_eq!(l.tick(s(5)), vec![Effect::PowerOff]);
}

#[test]
fn a_row_of_events_powers_off_once_and_only_when_due() {
    let mut l = lid("shutdown", false, false, 5);
    assert!(l.report(true, s(0)).is_empty(), "closed at the start");
    assert!(l.tick(s(100)).is_empty(), "powered off for a lid closed at the start");
    l.report(false, s(101));
    l.report(true, s(110));
    // A repeated report does not start the delay over.
    assert!(l.report(true, s(113)).is_empty());
    assert_eq!(l.next_deadline(), Some(s(115)));
    assert!(l.tick(s(114)).is_empty(), "early");
    // Opened and closed again: the delay starts over.
    l.report(false, s(114));
    assert!(l.tick(s(116)).is_empty(), "powered off with the lid open");
    l.report(true, s(120));
    assert!(l.tick(s(124)).is_empty(), "early");
    assert_eq!(l.tick(s(125)), vec![Effect::PowerOff]);
    // Nothing asks again: not time, not the lid, not the end of the agent.
    assert!(l.tick(s(126)).is_empty());
    assert!(l.restore_all().is_empty());
    l.report(false, s(127));
    assert!(l.report(true, s(128)).is_empty(), "alerted while powering off");
    assert!(l.tick(s(1_000)).is_empty(), "powered off twice");
}

#[test]
fn a_stop_calls_the_poweroff_off() {
    let mut l = lid("shutdown", false, false, 5);
    l.report(false, s(0));
    l.report(true, s(1));
    assert!(l.restore_all().is_empty());
    assert_eq!(l.next_deadline(), None);
    assert!(l.tick(s(100)).is_empty());
}

#[test]
fn a_late_clock_is_no_matter_where_no_delay_is_added() {
    let late = s(u64::MAX);
    let mut l = lid("power-save", false, false, 60);
    l.report(false, late);
    assert_eq!(l.report(true, late), vec![Effect::ScreenOff]);
    let mut l = lid("shutdown", false, false, 60);
    assert!(l.report(true, late).is_empty());
    assert_eq!(l.report(false, late), vec![Effect::ScreenOn]);
}
