//! Keeping the fan running when things go wrong.
//!
//! The failure this module exists to prevent: the daemon stops while the fan is at a low duty or
//! stopped, and the MCU holds that value indefinitely while the machine heats up.

use crate::device::mode::FanDuty;
use vstd::prelude::*;

verus! {

/// The duty to fall back to when the daemon stops. Not the maximum: a machine that is merely idle
/// should not be left howling indefinitely. Not the minimum either, for the obvious reason.
pub const DEFAULT_SAFE_DUTY: u8 = 55;

/// The duty to fall back to when the machine was already hot.
pub const HOT_SAFE_DUTY: u8 = 100;

/// The duty to fall back to, by how hot the machine was.
pub open spec fn fallback(last_temp_c: Option<i32>, hot_threshold_c: i32) -> u8 {
    if last_temp_c is Some && last_temp_c->0 >= hot_threshold_c {
        HOT_SAFE_DUTY
    } else {
        DEFAULT_SAFE_DUTY
    }
}

/// The duty a stopping daemon restores: full duty where the last temperature that was read, in
/// tenths of a degree, is at or above the threshold, and the configured safe duty otherwise.
pub open spec fn restored(safe: u8, last_decicelsius: Option<i32>, hot_threshold_c: i32) -> u8 {
    if last_decicelsius is Some && last_decicelsius->0 >= hot_threshold_c * 10 {
        HOT_SAFE_DUTY
    } else {
        safe
    }
}

/// The duty to restore when the daemon stops, by how hot the machine last was.
pub fn duty_on_stop(safe_duty: FanDuty, last_decicelsius: Option<i32>, hot_threshold_c: i32) -> (d:
    FanDuty)
    ensures
        d.value() == restored(safe_duty.value(), last_decicelsius, hot_threshold_c),
{
    let hot: bool = match last_decicelsius {
        Some(t) => t as i64 >= hot_threshold_c as i64 * 10,
        None => false,
    };
    if hot {
        FanDuty::of(HOT_SAFE_DUTY)
    } else {
        safe_duty
    }
}

/// Restores a safe fan duty when the daemon stops.
pub struct FanSafeGuard {
    safe_duty: FanDuty,
    disarmed: bool,
}

impl FanSafeGuard {
    /// The duty it restores.
    pub closed spec fn duty(self) -> FanDuty {
        self.safe_duty
    }

    /// Whether it was told to leave the fan as it is.
    pub closed spec fn is_disarmed(self) -> bool {
        self.disarmed
    }

    /// Arms a guard that will restore `safe_duty`.
    pub fn new(safe_duty: FanDuty) -> (g: Self)
        ensures
            g.duty() == safe_duty,
            !g.is_disarmed(),
    {
        FanSafeGuard { safe_duty, disarmed: false }
    }

    /// Arms a guard whose fallback depends on how hot the machine was. A machine already at or
    /// above `hot_threshold_c` gets full duty; anything else gets the ordinary safe duty.
    pub fn for_temperature(last_temp_c: Option<i32>, hot_threshold_c: i32) -> (g: Self)
        ensures
            g.duty().value() == fallback(last_temp_c, hot_threshold_c),
            !g.is_disarmed(),
    {
        let hot: bool = match last_temp_c {
            Some(t) => t >= hot_threshold_c,
            None => false,
        };
        let percent: u8 = if hot {
            HOT_SAFE_DUTY
        } else {
            DEFAULT_SAFE_DUTY
        };
        FanSafeGuard::new(FanDuty::of(percent))
    }

    /// The duty this guard would restore.
    pub fn safe_duty(&self) -> (d: FanDuty)
        ensures
            d == self.duty(),
    {
        self.safe_duty
    }

    /// Prevents the guard from acting: for handing the fan to another process, which restoring a
    /// duty would fight.
    pub fn disarm(&mut self)
        ensures
            final(self).is_disarmed(),
            final(self).duty() == old(self).duty(),
    {
        self.disarmed = true;
    }

    /// The duty to write now that the daemon stops, or `None` where the guard was disarmed.
    pub fn on_stop(&self) -> (d: Option<FanDuty>)
        ensures
            d == if self.is_disarmed() {
                None
            } else {
                Some(self.duty())
            },
    {
        if self.disarmed {
            None
        } else {
            Some(self.safe_duty)
        }
    }
}

/// A stopping daemon never leaves the fan slower than the safe duty, and leaves a hot machine's at
/// full.
pub proof fn law_a_stopping_daemon_is_no_slower_than_safe(
    safe: FanDuty,
    last_decicelsius: Option<i32>,
    hot_threshold_c: i32,
)
    requires
        safe.value() <= 100,
    ensures
        restored(safe.value(), last_decicelsius, hot_threshold_c) >= safe.value(),
        last_decicelsius is Some && last_decicelsius->0 >= hot_threshold_c * 10 ==> restored(
            safe.value(),
            last_decicelsius,
            hot_threshold_c,
        ) == 100,
{
}

/// The fallback always turns the fan, and a hot machine gets all of it.
pub proof fn law_the_fallback_turns_the_fan(last_temp_c: Option<i32>, hot_threshold_c: i32)
    ensures
        fallback(last_temp_c, hot_threshold_c) > 0,
        fallback(last_temp_c, hot_threshold_c) <= 100,
        last_temp_c is Some && last_temp_c->0 >= hot_threshold_c ==> fallback(
            last_temp_c,
            hot_threshold_c,
        ) == 100,
{
}

/// A stopping daemon restores full duty where the machine last was at or above the threshold, and the
/// duty that was configured where it was cooler or was never measured.
pub proof fn law_a_hot_machine_gets_full_duty(
    safe: FanDuty,
    last: Option<i32>,
    hot_c: i32,
    d: FanDuty,
)
    requires
        call_ensures(duty_on_stop, (safe, last, hot_c), d),
    ensures
        last is Some && last->0 >= hot_c * 10 ==> d.value() == 100,
        last is Some && last->0 < hot_c * 10 ==> d.value() == safe.value(),
        last is None ==> d.value() == safe.value(),
{
}

/// A guard by temperature restores 100 percent at or above the threshold and 55 below it, and a guard
/// writes its duty unless it was disarmed.
pub proof fn law_a_guard_restores_its_duty(
    last: Option<i32>,
    hot_c: i32,
    g: FanSafeGuard,
    d: Option<FanDuty>,
    s: FanDuty,
)
    requires
        call_ensures(FanSafeGuard::for_temperature, (last, hot_c), g),
        call_ensures(FanSafeGuard::on_stop, (&g,), d),
        call_ensures(FanSafeGuard::safe_duty, (&g,), s),
    ensures
        d == Some(s),
        s.value() == 100 <==> last is Some && last->0 >= hot_c,
        s.value() == 55 <==> last is None || last->0 < hot_c,
        forall|m: &mut FanSafeGuard, u: ()| #[trigger]
            call_ensures(FanSafeGuard::disarm, (m,), u) ==> final(m).is_disarmed() && final(m).duty() == m.duty(),
{
}

/// A guard that was disarmed leaves the fan as it is; one that was not writes the duty it was given.
pub proof fn law_only_an_armed_guard_writes(g: FanSafeGuard, d: Option<FanDuty>)
    requires
        call_ensures(FanSafeGuard::on_stop, (&g,), d),
    ensures
        g.is_disarmed() ==> d is None,
        !g.is_disarmed() ==> d == Some(g.duty()),
{
}

} // verus!
