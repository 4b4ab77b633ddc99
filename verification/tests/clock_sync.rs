use argon_utils::device::clock_sync::{
    judge, next_check_after, system_clock_synced, until_next_second, Verdict, CHECK_INTERVAL,
    RETRY_UNSYNCED,
};
use argon_utils::device::ups_time::UpsTime;
use argon_utils::time::Duration;

#[test]
fn an_unsynchronised_system_clock_is_looked_at_again_soon() {
    // The first check runs seconds into a boot, before NTP: waiting six hours to look again
    // leaves the UPS uncorrected all that time (seen after T18's wake boot).
    assert_eq!(next_check_after(false), Duration::from_secs(RETRY_UNSYNCED));
    assert!(RETRY_UNSYNCED < CHECK_INTERVAL);
    assert_eq!(next_check_after(true), Duration::from_secs(CHECK_INTERVAL));
}

const NOW: u64 = 1_789_728_000;

fn ups_at(unix: u64) -> UpsTime {
    UpsTime::from_unix_seconds(unix).unwrap()
}

#[test]
fn within_the_threshold_is_left_alone() {
    assert_eq!(
        judge(ups_at(NOW - 2), NOW, true),
        Verdict::InSync { offset_s: -2 }
    );
    assert_eq!(
        judge(ups_at(NOW + 1), NOW, true),
        Verdict::InSync { offset_s: 1 }
    );
}

#[test]
fn beyond_it_is_corrected_in_either_direction() {
    // The T15 finding: 21 s slow.
    assert_eq!(
        judge(ups_at(NOW - 21), NOW, true),
        Verdict::Correct { offset_s: -21 }
    );
    assert_eq!(
        judge(ups_at(NOW + 3), NOW, true),
        Verdict::Correct { offset_s: 3 }
    );
}

#[test]
fn an_unsynchronised_system_clock_is_never_copied() {
    assert_eq!(
        judge(ups_at(NOW - 21), NOW, false),
        Verdict::Untrusted { offset_s: -21 }
    );
}

#[test]
fn a_reset_clock_is_corrected_not_mistaken_for_garbage() {
    // What a full depletion may leave behind: a plausible date, years in the past.
    let reset = UpsTime {
        year: 2000,
        month: 1,
        day: 1,
        hour: 0,
        minute: 0,
        second: Some(0),
    };
    assert!(matches!(judge(reset, NOW, true), Verdict::Correct { offset_s } if offset_s < 0));
}

#[test]
fn an_impossible_date_is_not_acted_on() {
    let nonsense = UpsTime {
        year: 2026,
        month: 13,
        day: 40,
        hour: 25,
        minute: 0,
        second: Some(0),
    };
    assert_eq!(judge(nonsense, NOW, true), Verdict::Implausible);
}

#[test]
fn only_a_clear_yes_is_synchronised() {
    assert!(system_clock_synced(Some((true, "yes\n"))));
    assert!(!system_clock_synced(Some((true, "no\n"))));
    assert!(!system_clock_synced(Some((true, "Yes\n"))));
    assert!(!system_clock_synced(Some((false, "yes\n"))));
    assert!(!system_clock_synced(None));
}

#[test]
fn the_wait_ends_just_after_a_whole_second() {
    assert_eq!(until_next_second(0), 1_005_000_000);
    assert_eq!(until_next_second(999_999_999), 5_000_001);
    assert_eq!(until_next_second(1_500_000_000), 5_000_000);
}
