//! Scheduled wake: the rules, as pure functions.
//!
//! How the UPS wakes the machine is not known, but a Pi 5 set to power off on halt restarts when
//! its power returns, so the UPS very likely cuts and restores its output. The consequence of
//! being wrong the other way is an abrupt power cut on a running machine, so every rule here
//! follows from one principle:
//!
//! **A wake schedule must never come due while the machine is running.**
//!
//! Hence: a wake is only ever set together with a poweroff that comes well before it, and a
//! schedule found close to due -- or already past -- on a running machine is parked.

use crate::device::power::{lemma_message_start, SHUTDOWN_MESSAGE};
use crate::device::ups_time::{
    law_one_time_per_second, law_valid_times_are_in_range, UpsTime, END_SECOND, FIRST_SECOND,
};
use crate::text::{
    begins, decimal, decimal_of, digits_value, holds, join, lemma_padded_value, padded, padded_of,
    stands_at,
};
use vstd::prelude::*;

verus! {

/// How close to due a schedule may get on a running machine before it is parked, in seconds.
pub const PARK_WINDOW: u64 = 600;

/// How often a running daemon looks at the schedule, in seconds. Well inside `PARK_WINDOW`, so a
/// schedule cannot slip from "not yet close" to "due" between two looks.
pub const CHECK_EVERY: u64 = 300;

/// The shortest lead a requested wake may have over the moment it is requested, in seconds.
///
/// Longer than `PARK_WINDOW` plus `POWEROFF_DELAY`, and that is the point: a freshly set wake must
/// stay outside the park window until the machine is off, or the safety net would park the wake it
/// was asked to set, and the machine would never come back.
pub const MIN_LEAD: u64 = 900;

/// How long after the request the poweroff that accompanies a wake happens, in seconds. Not
/// immediate: a minute is announced to logged-in users and can be cancelled.
pub const POWEROFF_DELAY: u64 = 60;

/// Where a schedule is parked: decades away, where it is inert. No command to clear a schedule is
/// known.
pub open spec fn parking() -> UpsTime {
    UpsTime { year: 2097, month: 3, day: 21, hour: 17, minute: 42, second: None }
}

/// Where a schedule is parked.
pub fn park_at() -> (t: UpsTime)
    ensures
        t == parking(),
{
    UpsTime { year: 2097, month: 3, day: 21, hour: 17, minute: 42, second: None }
}

/// Whether two times name the same minute.
pub open spec fn is_same_minute(a: UpsTime, b: UpsTime) -> bool {
    (UpsTime { second: None, ..a }) == (UpsTime { second: None, ..b })
}

/// Whether two schedule times name the same minute. A schedule has no seconds field.
pub fn same_minute(a: UpsTime, b: UpsTime) -> (r: bool)
    ensures
        r == is_same_minute(a, b),
{
    a.year == b.year && a.month == b.month && a.day == b.day && a.hour == b.hour && a.minute
        == b.minute
}

/// The wall message for a poweroff that comes with a wake.
pub open spec fn wake_message(wake: UpsTime) -> Seq<char> {
    "Powering off. The UPS will power this machine on again at "@ + padded(wake.year as nat, 4)
        + "-"@ + padded(wake.month as nat, 2) + "-"@ + padded(wake.day as nat, 2) + " "@ + padded(
        wake.hour as nat,
        2,
    ) + ":"@ + padded(wake.minute as nat, 2) + " UTC."@
}

/// The wall message for a poweroff that comes with a wake.
///
/// Deliberately does **not** contain `SHUTDOWN_MESSAGE`: the battery coordinator cancels, when
/// mains recovers, a pending poweroff carrying that message. This one is the operator's, not the
/// battery's.
pub fn poweroff_message(wake: UpsTime) -> (s: String)
    ensures
        s@ == wake_message(wake),
{
    let mut s: String = join(
        "Powering off. The UPS will power this machine on again at ",
        padded_of(wake.year as u64, 4).as_str(),
    );
    s.append("-");
    s.append(padded_of(wake.month as u64, 2).as_str());
    s.append("-");
    s.append(padded_of(wake.day as u64, 2).as_str());
    s.append(" ");
    s.append(padded_of(wake.hour as u64, 2).as_str());
    s.append(":");
    s.append(padded_of(wake.minute as u64, 2).as_str());
    s.append(" UTC.");
    s
}

/// Why a schedule is parked.
#[derive(Clone, Copy, Debug, PartialEq, Eq, Structural)]
pub enum ParkReason {
    /// It would come due within `PARK_WINDOW`.
    DueSoon,
    /// It is already past. Whether a past schedule can still fire is not known, so it is not left
    /// in place.
    Past,
    /// It does not decode to a real date, so when it would fire cannot be known.
    Unreadable,
}

/// What to do about a schedule found on a running machine.
#[derive(Clone, Copy, Debug, PartialEq, Eq, Structural)]
pub enum Assessment {
    /// No schedule.
    Nothing,
    /// A schedule far enough away to leave alone, including a parked one.
    Leave {
        /// When it is set for.
        at: UpsTime,
    },
    /// A schedule that must be parked now.
    Park {
        /// What was found.
        found: UpsTime,
        /// Why.
        why: ParkReason,
    },
}

/// What to do about a schedule found on a machine that is running at `now`.
pub open spec fn assessed(schedule: Option<UpsTime>, now: int) -> Assessment {
    match schedule {
        None => Assessment::Nothing,
        Some(found) => if !found.valid() {
            Assessment::Park { found, why: ParkReason::Unreadable }
        } else if found.unix() <= now {
            Assessment::Park { found, why: ParkReason::Past }
        } else if found.unix() - now <= PARK_WINDOW {
            Assessment::Park { found, why: ParkReason::DueSoon }
        } else {
            Assessment::Leave { at: found }
        },
    }
}

/// Looks at a schedule found on a **running** machine.
pub fn assess(schedule: Option<UpsTime>, now_unix_s: u64) -> (a: Assessment)
    ensures
        a == assessed(schedule, now_unix_s as int),
{
    let found: UpsTime = match schedule {
        Some(t) => t,
        None => {
            return Assessment::Nothing;
        },
    };
    match found.to_unix_seconds() {
        None => Assessment::Park { found, why: ParkReason::Unreadable },
        Some(at) => {
            if at <= now_unix_s {
                Assessment::Park { found, why: ParkReason::Past }
            } else if at - now_unix_s <= PARK_WINDOW {
                Assessment::Park { found, why: ParkReason::DueSoon }
            } else {
                Assessment::Leave { at: found }
            }
        },
    }
}

/// Why a requested wake time was refused.
#[derive(Clone, Copy, Debug, PartialEq, Eq, Structural)]
pub enum RequestError {
    /// Closer than `MIN_LEAD`, once rounded down to the minute.
    TooSoon {
        /// Seconds of lead it would have had.
        lead_s: u64,
    },
    /// Outside the years the device can hold (2000-2099).
    OutOfRange,
}

impl RequestError {
    /// The refusal in words.
    pub open spec fn words(self) -> Seq<char> {
        match self {
            RequestError::TooSoon { lead_s } => "the wake would be only "@ + decimal(lead_s as nat)
                + " s away; it must be at least 15 min out, so the machine is certainly off first"@,
            RequestError::OutOfRange => "the UPS can only hold years 2000 to 2099"@,
        }
    }

    /// The refusal in words.
    pub fn message(self) -> (s: String)
        ensures
            s@ == self.words(),
    {
        match self {
            RequestError::TooSoon { lead_s } => {
                let mut s: String = join("the wake would be only ", decimal_of(lead_s).as_str());
                s.append(
                    " s away; it must be at least 15 min out, so the machine is certainly off first",
                );
                s
            },
            RequestError::OutOfRange => "the UPS can only hold years 2000 to 2099".to_owned(),
        }
    }
}

/// The start of the minute of a point in time.
pub open spec fn minute_start(unix_s: int) -> int {
    unix_s - unix_s % 60
}

/// How far ahead of `now` the minute of `at` starts, or 0.
pub open spec fn lead(at: int, now: int) -> int {
    if minute_start(at) >= now {
        minute_start(at) - now
    } else {
        0
    }
}

/// Turns a requested wake instant into the schedule the UPS will hold.
///
/// Rounded **down** to the minute, because the schedule has minute resolution -- and the lead is
/// looked at after rounding, since rounding down is what could bring it under the minimum.
pub fn schedule_for(at_unix_s: u64, now_unix_s: u64) -> (r: Result<UpsTime, RequestError>)
    ensures
        match r {
            Ok(t) => {
                &&& lead(at_unix_s as int, now_unix_s as int) >= MIN_LEAD
                &&& t.valid()
                &&& t.second is None
                &&& t.unix() == minute_start(at_unix_s as int)
            },
            Err(RequestError::TooSoon { lead_s }) => {
                &&& lead_s == lead(at_unix_s as int, now_unix_s as int)
                &&& lead_s < MIN_LEAD
            },
            Err(RequestError::OutOfRange) => {
                &&& lead(at_unix_s as int, now_unix_s as int) >= MIN_LEAD
                &&& !(FIRST_SECOND <= minute_start(at_unix_s as int) < END_SECOND)
            },
        },
{
    let floored: u64 = at_unix_s - at_unix_s % 60;
    let lead_s: u64 = if floored >= now_unix_s {
        floored - now_unix_s
    } else {
        0
    };
    if lead_s < MIN_LEAD {
        return Err(RequestError::TooSoon { lead_s });
    }
    match UpsTime::from_unix_seconds(floored) {
        None => Err(RequestError::OutOfRange),
        Some(t) => {
            assert(t.second->0 == 0) by {
                assert(t.unix() % 60 == t.second->0 as int) by {
                    assert(t.unix() == (t.days() * 1440 + t.hour * 60 + t.minute) * 60
                        + t.second->0);
                }
            }
            Ok(t.without_seconds())
        },
    }
}

/// A schedule that is left alone cannot come due before the next look at it: the looks are closer
/// together than the window in which it is parked.
pub proof fn law_no_schedule_comes_due_between_looks(t: UpsTime, now: int, next: int)
    requires
        assessed(Some(t), now) is Leave,
        now <= next <= now + CHECK_EVERY,
    ensures
        t.unix() > next,
{
}

/// A wake that was asked for is left alone until the machine is off, and for a minute beyond: the
/// safety net does not park the wake it was asked to set.
pub proof fn law_a_requested_wake_survives_until_the_poweroff(t: UpsTime, at: int, now: int, later: int)
    requires
        t.valid(),
        t.unix() == minute_start(at),
        lead(at, now) >= MIN_LEAD,
        now <= later <= now + POWEROFF_DELAY + 60,
    ensures
        assessed(Some(t), later) == (Assessment::Leave { at: t }),
{
}

/// A wake whose poweroff never came is parked before it is due: of two looks no further apart than
/// `CHECK_EVERY`, one on each side of the start of the window, the second parks it while it is
/// still ahead.
pub proof fn law_a_wake_on_a_running_machine_is_parked(t: UpsTime, before: int, after: int)
    requires
        t.valid(),
        assessed(Some(t), before) is Leave,
        before <= after <= before + CHECK_EVERY,
        t.unix() - after <= PARK_WINDOW,
    ensures
        assessed(Some(t), after) == (Assessment::Park { found: t, why: ParkReason::DueSoon }),
        t.unix() > after,
{
}

/// A parked schedule is left alone, on any day before 2097.
pub proof fn law_a_parked_schedule_is_left_alone(now: int)
    requires
        now < 4_007_836_800,
    ensures
        assessed(Some(parking()), now) == (Assessment::Leave { at: parking() }),
{
    reveal_with_fuel(crate::device::ups_time::days_before_month, 4);
    assert(parking().valid());
    assert(parking().unix() == 4_014_726_120);
}

/// What is left alone was read as a real date, and lies more than `PARK_WINDOW` ahead.
pub proof fn law_only_a_far_schedule_is_left(t: UpsTime, now: int)
    ensures
        assessed(Some(t), now) is Leave <==> t.valid() && t.unix() > now + PARK_WINDOW,
{
}

/// The poweroff of a wake is never mistaken for a poweroff of the battery: its message does not
/// hold the battery's, whatever the time.
pub proof fn law_wake_message_is_not_the_batterys(wake: UpsTime)
    ensures
        !holds(wake_message(wake), SHUTDOWN_MESSAGE@),
{
    let head = "Powering off. The UPS will power this machine on again at "@;
    let m = wake_message(wake);
    reveal_strlit("Powering off. The UPS will power this machine on again at ");
    reveal_strlit("-");
    reveal_strlit(" ");
    reveal_strlit(":");
    reveal_strlit(" UTC.");
    lemma_message_start();
    crate::text::lemma_padded(wake.year as nat, 4);
    crate::text::lemma_padded(wake.month as nat, 2);
    crate::text::lemma_padded(wake.day as nat, 2);
    crate::text::lemma_padded(wake.hour as nat, 2);
    crate::text::lemma_padded(wake.minute as nat, 2);
    assert forall|i: int| !(#[trigger] stands_at(m, SHUTDOWN_MESSAGE@, i)) by {
        if stands_at(m, SHUTDOWN_MESSAGE@, i) {
            let s = m.subrange(i, i + SHUTDOWN_MESSAGE@.len());
            assert(s[0] == m[i]);
            assert(s.len() >= 90);
            assert(m.len() < 90);
        }
    }
}

/// A schedule on a running machine is parked exactly where it is not known to lie more than ten
/// minutes ahead, and the reason says which: that it is no date, that it is past, or that it is due
/// too soon.
pub proof fn law_a_schedule_is_parked_for_its_reason(t: UpsTime, now: u64, a: Assessment, none: Assessment)
    requires
        call_ensures(assess, (Some(t), now), a),
        call_ensures(assess, (None::<UpsTime>, now), none),
    ensures
        none is Nothing,
        a == (Assessment::Leave { at: t }) <==> t.valid() && t.unix() > now + 600,
        a == (Assessment::Park { found: t, why: ParkReason::DueSoon }) <==> t.valid() && now
            < t.unix() <= now + 600,
        a == (Assessment::Park { found: t, why: ParkReason::Past }) <==> t.valid() && t.unix()
            <= now,
        a == (Assessment::Park { found: t, why: ParkReason::Unreadable }) <==> !t.valid(),
{
}

/// A wake is set for the start of the minute that was asked for, and exactly where that is at least
/// fifteen minutes ahead and the device can hold it. Otherwise the refusal says how far ahead it
/// would have been.
pub proof fn law_a_wake_is_set_for_its_minute(
    at: u64,
    now: u64,
    r: Result<UpsTime, RequestError>,
    minute: int,
)
    requires
        call_ensures(schedule_for, (at, now), r),
        minute * 60 <= at < minute * 60 + 60,
    ensures
        r is Ok <==> minute * 60 >= now + 900 && 946_684_800 <= minute * 60 < 4_102_444_800,
        r matches Ok(t) ==> t.valid() && t.second is None && t.unix() == minute * 60,
        (r matches Err(RequestError::TooSoon { .. })) <==> minute * 60 < now + 900,
        r matches Err(RequestError::TooSoon { lead_s }) ==> (minute * 60 >= now ==> lead_s == minute
            * 60 - now) && (minute * 60 < now ==> lead_s == 0),
{
    if r is Ok {
        law_valid_times_are_in_range(r->Ok_0);
    }
}

/// Two real times name the same minute exactly where they fall in the same one.
pub proof fn law_the_same_minute_is_one_minute(a: UpsTime, b: UpsTime, r: bool)
    requires
        call_ensures(same_minute, (a, b), r),
        a.valid(),
        b.valid(),
    ensures
        r <==> a.unix() / 60 == b.unix() / 60,
{
    lemma_minute(a);
    lemma_minute(b);
    let c = UpsTime { second: None, ..a };
    let d = UpsTime { second: None, ..b };
    if a.unix() / 60 == b.unix() / 60 {
        law_one_time_per_second(c, d);
    }
}

proof fn lemma_minute(t: UpsTime)
    requires
        t.valid(),
    ensures
        (UpsTime { second: None, ..t }).valid(),
        (UpsTime { second: None, ..t }).unix() == t.unix() / 60 * 60,
{
    let c = UpsTime { second: None, ..t };
    let days = t.days();
    let second: int = match t.second {
        Some(s) => s as int,
        None => 0,
    };
    assert(c.days() == days);
    assert(t.second_of_day() == c.second_of_day() + second);
    lemma_whole_minutes(days, t.hour as int, t.minute as int, second);
}

proof fn lemma_whole_minutes(days: int, hour: int, minute: int, second: int)
    requires
        0 <= second < 60,
    ensures
        (days * 86_400 + (hour * 3_600 + minute * 60 + second)) / 60 * 60 == days * 86_400 + (hour
            * 3_600 + minute * 60),
{
}

/// A schedule is parked at a time that the device holds, to the minute, and decades away.
pub proof fn law_parking_is_decades_away(t: UpsTime)
    requires
        call_ensures(park_at, (), t),
    ensures
        t.valid(),
        t.second is None,
        t.unix() > 4_000_000_000,
{
    reveal_with_fuel(crate::device::ups_time::days_before_month, 4);
}

/// What is broadcast with a wake says when it is, with the year in four places and the rest in two.
pub proof fn law_a_wake_message_says_when(wake: UpsTime, s: String)
    requires
        call_ensures(poweroff_message, (wake,), s),
        wake.valid(),
    ensures
        begins(s@, "Powering off. The UPS will power this machine on again at "@),
        s@.len() == 79,
        digits_value(s@.subrange(58, 62)) == wake.year,
        digits_value(s@.subrange(63, 65)) == wake.month,
        digits_value(s@.subrange(66, 68)) == wake.day,
        digits_value(s@.subrange(69, 71)) == wake.hour,
        digits_value(s@.subrange(72, 74)) == wake.minute,
{
    let head = "Powering off. The UPS will power this machine on again at "@;
    reveal_strlit("Powering off. The UPS will power this machine on again at ");
    reveal_strlit("-");
    reveal_strlit(" ");
    reveal_strlit(":");
    reveal_strlit(" UTC.");
    lemma_padded_value(wake.year as nat, 4);
    lemma_padded_value(wake.month as nat, 2);
    lemma_padded_value(wake.day as nat, 2);
    lemma_padded_value(wake.hour as nat, 2);
    lemma_padded_value(wake.minute as nat, 2);
    let y = padded(wake.year as nat, 4);
    let mo = padded(wake.month as nat, 2);
    let d = padded(wake.day as nat, 2);
    let h = padded(wake.hour as nat, 2);
    let mi = padded(wake.minute as nat, 2);
    assert(s@.take(58) =~= head);
    assert(s@.subrange(58, 62) =~= y);
    assert(s@.subrange(63, 65) =~= mo);
    assert(s@.subrange(66, 68) =~= d);
    assert(s@.subrange(69, 71) =~= h);
    assert(s@.subrange(72, 74) =~= mi);
}

} // verus!
