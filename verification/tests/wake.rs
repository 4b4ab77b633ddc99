use argon_utils::device::power::SHUTDOWN_MESSAGE;
use argon_utils::device::ups_time::UpsTime;
use argon_utils::device::wake::{
    assess, park_at, poweroff_message, same_minute, schedule_for, Assessment, ParkReason,
    RequestError, MIN_LEAD, PARK_WINDOW,
};

const NOW: u64 = 1_789_728_000; // a whole minute

fn at(unix: u64) -> UpsTime {
    let mut t = UpsTime::from_unix_seconds(unix).unwrap();
    t.second = None;
    t
}

#[test]
fn the_parked_time_is_left_alone() {
    assert_eq!(
        assess(Some(park_at()), NOW),
        Assessment::Leave { at: park_at() }
    );
}

#[test]
fn a_schedule_close_to_due_is_parked() {
    let soon = at(NOW + 9 * 60);
    assert_eq!(
        assess(Some(soon), NOW),
        Assessment::Park {
            found: soon,
            why: ParkReason::DueSoon
        }
    );
    // Exactly at the window's edge counts as close.
    let edge = at(NOW + PARK_WINDOW);
    assert!(matches!(assess(Some(edge), NOW), Assessment::Park { .. }));
}

#[test]
fn a_schedule_further_out_is_left() {
    let later = at(NOW + 11 * 60);
    assert_eq!(assess(Some(later), NOW), Assessment::Leave { at: later });
}

#[test]
fn a_past_schedule_is_parked() {
    // What a wake that just happened, and did not clear itself, would look like at boot.
    let past = at(NOW - 3 * 60);
    assert_eq!(
        assess(Some(past), NOW),
        Assessment::Park {
            found: past,
            why: ParkReason::Past
        }
    );
}

#[test]
fn an_impossible_schedule_is_parked_not_trusted() {
    let unreadable = UpsTime {
        year: 2026,
        month: 13,
        day: 1,
        hour: 7,
        minute: 0,
        second: None,
    };
    assert_eq!(
        assess(Some(unreadable), NOW),
        Assessment::Park {
            found: unreadable,
            why: ParkReason::Unreadable
        }
    );
}

#[test]
fn nothing_scheduled_is_nothing_to_do() {
    assert_eq!(assess(None, NOW), Assessment::Nothing);
}

#[test]
fn a_request_is_rounded_down_and_needs_its_lead() {
    // 07:00:59 is held as 07:00.
    let t = schedule_for(NOW + 3_600 + 59, NOW).unwrap();
    assert_eq!(t, at(NOW + 3_600));
    assert_eq!(t.second, None);

    // Exactly the minimum lead is accepted...
    assert!(schedule_for(NOW + MIN_LEAD, NOW).is_ok());
    // ...but not when rounding down takes it under.
    assert!(matches!(
        schedule_for(NOW + MIN_LEAD + 30, NOW + 31),
        Err(RequestError::TooSoon { .. })
    ));
    assert!(matches!(
        schedule_for(NOW - 60, NOW),
        Err(RequestError::TooSoon { .. })
    ));
}

#[test]
fn the_wake_poweroff_is_not_mistaken_for_a_battery_poweroff() {
    // If it carried the battery message, the coordinator would adopt it after a restart and
    // cancel it as soon as it saw mains -- which is always, for a wake requested on mains.
    let msg = poweroff_message(park_at());
    assert!(!msg.contains(SHUTDOWN_MESSAGE));
    assert!(msg.contains("2097-03-21 17:42 UTC"), "{msg}");
}

#[test]
fn years_the_device_cannot_hold_are_refused() {
    assert_eq!(
        schedule_for(4_102_444_800, NOW),
        Err(RequestError::OutOfRange)
    );
}

#[test]
fn the_last_minute_of_the_century_can_be_held() {
    let t = schedule_for(4_102_444_799, NOW).unwrap();
    assert_eq!(
        t,
        UpsTime {
            year: 2099,
            month: 12,
            day: 31,
            hour: 23,
            minute: 59,
            second: None
        }
    );
}

#[test]
fn a_refusal_says_how_far_away_the_wake_would_be() {
    assert_eq!(
        schedule_for(NOW + 120, NOW),
        Err(RequestError::TooSoon { lead_s: 120 })
    );
    assert_eq!(
        RequestError::TooSoon { lead_s: 120 }.message(),
        "the wake would be only 120 s away; it must be at least 15 min out, so the machine is certainly off first"
    );
    assert_eq!(
        RequestError::OutOfRange.message(),
        "the UPS can only hold years 2000 to 2099"
    );
}

#[test]
fn the_same_minute_is_told_without_the_seconds() {
    let a = UpsTime::from_unix_seconds(NOW).unwrap();
    let b = UpsTime::from_unix_seconds(NOW + 59).unwrap();
    let c = UpsTime::from_unix_seconds(NOW + 60).unwrap();
    assert!(same_minute(a, b));
    assert!(!same_minute(a, c));
}

#[test]
fn every_second_of_a_leap_day_converts_there_and_back() {
    // 2028-02-29 00:00:00 UTC.
    let day = 1_835_395_200;
    for s in (0..86_400).step_by(61) {
        let t = UpsTime::from_unix_seconds(day + s).unwrap();
        assert_eq!((t.year, t.month, t.day), (2028, 2, 29));
        assert_eq!(t.to_unix_seconds(), Some(day + s));
    }
    assert_eq!(UpsTime::from_unix_seconds(946_684_799), None);
    assert_eq!(UpsTime::from_unix_seconds(4_102_444_800), None);
    let not_leap = UpsTime {
        year: 2027,
        month: 2,
        day: 29,
        hour: 0,
        minute: 0,
        second: None,
    };
    assert_eq!(not_leap.to_unix_seconds(), None);
}
