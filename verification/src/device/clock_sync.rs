//! Keeping the UPS clock right.
//!
//! The UPS clock runs off the UPS battery, so a deep discharge can reset it, and it drifts in
//! between. It is compared with the system clock periodically and set when it has wandered.

use crate::device::ups_time::{law_valid_times_are_in_range, UpsTime};
use crate::text::{same, trim, trimmed};
use crate::time::{Duration, NANOS_PER_SEC};
use vstd::prelude::*;

verus! {

/// How often the clock is compared, in seconds. Drift is seconds per day at worst.
pub const CHECK_INTERVAL: u64 = 21_600;

/// How soon to look again when the system clock is not synchronised yet, in seconds. The first
/// look comes seconds into the boot, before NTP has had its say.
pub const RETRY_UNSYNCED: u64 = 600;

/// How far off the UPS clock may be before it is set, in seconds. Above the resolution of the
/// method: the device counts whole seconds.
pub const THRESHOLD_S: i64 = 2;

/// How long until the next clock check, given whether the system clock is synchronised.
pub fn next_check_after(system_synced: bool) -> (d: Duration)
    ensures
        d.secs() == if system_synced {
            CHECK_INTERVAL
        } else {
            RETRY_UNSYNCED
        },
        d.ns() == d.secs() * NANOS_PER_SEC,
{
    if system_synced {
        Duration::from_secs(CHECK_INTERVAL)
    } else {
        Duration::from_secs(RETRY_UNSYNCED)
    }
}

/// What a comparison concluded.
#[derive(Clone, Copy, Debug, PartialEq, Eq, Structural)]
pub enum Verdict {
    /// Within the threshold. Nothing to do.
    InSync {
        /// UPS minus system, seconds.
        offset_s: i64,
    },
    /// Off by more than the threshold, and the system clock can be trusted to correct it.
    Correct {
        /// UPS minus system, seconds.
        offset_s: i64,
    },
    /// Off by more than the threshold, but the system clock is not NTP-synchronised, so copying it
    /// could make the UPS clock worse rather than better.
    Untrusted {
        /// UPS minus system, seconds.
        offset_s: i64,
    },
    /// The UPS returned a date that is not a date. Never "corrected" blindly: an impossible
    /// reading may be a link problem rather than a clock problem.
    Implausible,
}

/// A number of seconds, cut off at the largest that a signed number of 64 bits holds.
pub open spec fn capped(n: int) -> int {
    if n <= i64::MAX {
        n
    } else {
        i64::MAX as int
    }
}

/// What the comparison of the two clocks concludes.
pub open spec fn judged(ups: UpsTime, system: int, synced: bool) -> Verdict {
    let offset_s = (ups.unix() - capped(system)) as i64;
    if !ups.valid() {
        Verdict::Implausible
    } else if -THRESHOLD_S <= offset_s <= THRESHOLD_S {
        Verdict::InSync { offset_s }
    } else if synced {
        Verdict::Correct { offset_s }
    } else {
        Verdict::Untrusted { offset_s }
    }
}

/// Compares the UPS clock with the system clock.
pub fn judge(ups: UpsTime, system_unix_s: u64, system_synced: bool) -> (v: Verdict)
    ensures
        v == judged(ups, system_unix_s as int, system_synced),
{
    let ups_s: u64 = match ups.to_unix_seconds() {
        Some(s) => s,
        None => {
            return Verdict::Implausible;
        },
    };
    proof {
        law_valid_times_are_in_range(ups);
    }
    let offset_s: i64 = ups_s as i64 - to_i64(system_unix_s);
    if -THRESHOLD_S <= offset_s && offset_s <= THRESHOLD_S {
        Verdict::InSync { offset_s }
    } else if system_synced {
        Verdict::Correct { offset_s }
    } else {
        Verdict::Untrusted { offset_s }
    }
}

fn to_i64(x: u64) -> (n: i64)
    ensures
        n == capped(x as int),
        n >= 0,
{
    if x <= 0x7fff_ffff_ffff_ffff {
        x as i64
    } else {
        0x7fff_ffff_ffff_ffff
    }
}

/// A system clock that is not synchronised is never copied into the UPS.
pub proof fn law_unsynchronised_clock_is_never_copied(ups: UpsTime, system: int)
    ensures
        !(judged(ups, system, false) is Correct),
{
}

/// An impossible reading is never acted on.
pub proof fn law_impossible_date_is_never_corrected(ups: UpsTime, system: int, synced: bool)
    requires
        !ups.valid(),
    ensures
        judged(ups, system, synced) == Verdict::Implausible,
{
}

/// A clock that was just set right is in sync, and stays so for the seconds that a read back may
/// be off.
pub proof fn law_a_clock_that_was_set_is_in_sync(ups: UpsTime, system: int, synced: bool)
    requires
        ups.valid(),
        system - THRESHOLD_S <= ups.unix() <= system + THRESHOLD_S,
    ensures
        judged(ups, system, synced) is InSync,
{
    law_valid_times_are_in_range(ups);
}

/// Whether the system clock is NTP-synchronised, by what `timedatectl` answered: whether it
/// succeeded, and what it printed.
///
/// Anything but a clear "yes" counts as not synchronised. The consequence of a wrong "no" is a
/// clock left slightly off; the consequence of a wrong "yes" is the UPS clock set to a wrong time.
pub fn system_clock_synced(answer: Option<(bool, &str)>) -> (r: bool)
    ensures
        r == match answer {
            Some((success, printed)) => success && trimmed(printed@) == "yes"@,
            None => false,
        },
{
    match answer {
        Some((success, printed)) => success && same(trim(printed), "yes"),
        None => false,
    }
}

/// How long to sleep, `into_ns` nanoseconds into a second, to wake just after the next whole one.
///
/// So a time copied from the system clock is right to a fraction of a second rather than to within
/// one: the device counts whole seconds.
pub fn until_next_second(into_ns: u32) -> (nanos: u64)
    ensures
        nanos == 5_000_000 + if into_ns <= 1_000_000_000 {
            1_000_000_000 - into_ns
        } else {
            0
        },
{
    if into_ns <= 1_000_000_000 {
        1_005_000_000 - into_ns as u64
    } else {
        5_000_000
    }
}

/// The offset that is concluded is the time of the UPS less that of the system.
pub open spec fn concluded_offset(v: Verdict) -> Option<int> {
    match v {
        Verdict::InSync { offset_s } => Some(offset_s as int),
        Verdict::Correct { offset_s } => Some(offset_s as int),
        Verdict::Untrusted { offset_s } => Some(offset_s as int),
        Verdict::Implausible => None,
    }
}

/// A UPS clock that is more than two seconds off, in either direction and however far, is to be
/// corrected where the system clock is synchronised, and is left alone as untrusted only where it
/// is not. One that is no more than two seconds off is in sync either way. What is reported is how
/// far off it is.
pub proof fn law_a_clock_that_is_off_is_corrected(
    ups: UpsTime,
    system: u64,
    synced: bool,
    v: Verdict,
)
    requires
        call_ensures(judge, (ups, system, synced), v),
        ups.valid(),
        system <= i64::MAX,
    ensures
        v is InSync <==> -2 <= ups.unix() - system <= 2,
        v is Correct <==> synced && (ups.unix() - system > 2 || system - ups.unix() > 2),
        v is Untrusted <==> !synced && (ups.unix() - system > 2 || system - ups.unix() > 2),
        concluded_offset(v) == Some(ups.unix() - system),
{
    law_valid_times_are_in_range(ups);
}

/// The two clocks are alike: what is said of one ahead of the other is said of it behind.
pub proof fn law_ahead_and_behind_are_judged_alike(a: UpsTime, b: UpsTime, system: int, synced: bool)
    requires
        a.valid(),
        b.valid(),
        0 <= system <= i64::MAX,
        a.unix() - system == system - b.unix(),
    ensures
        judged(a, system, synced) is Correct <==> judged(b, system, synced) is Correct,
        judged(a, system, synced) is InSync <==> judged(b, system, synced) is InSync,
{
    law_valid_times_are_in_range(a);
    law_valid_times_are_in_range(b);
}

/// Only a `timedatectl` that succeeded and said yes counts as synchronised, and one that did does.
pub proof fn law_only_a_clear_yes_is_synchronised(success: bool, printed: &str, r: bool, unasked: bool)
    requires
        call_ensures(system_clock_synced, (Some((success, printed)),), r),
        call_ensures(system_clock_synced, (None::<(bool, &str)>,), unasked),
    ensures
        !unasked,
        r <==> success && trimmed(printed@) == "yes"@,
{
}

/// A clock that is not synchronised is looked at again in ten minutes, any other in six hours.
pub proof fn law_an_unsynchronised_clock_is_looked_at_again_soon(soon: Duration, later: Duration)
    requires
        call_ensures(next_check_after, (false,), soon),
        call_ensures(next_check_after, (true,), later),
    ensures
        soon.ns() == 600 * 1_000_000_000int,
        later.ns() == 36 * soon.ns(),
{
}

/// The sleep ends five milliseconds after the next whole second.
pub proof fn law_the_sleep_ends_just_after_the_second(into_ns: u32, nanos: u64)
    requires
        call_ensures(until_next_second, (into_ns,), nanos),
        into_ns < 1_000_000_000,
    ensures
        into_ns + nanos == 1_005_000_000,
{
}

} // verus!
