//! Turning a scheduled poweroff into desktop notifications.
//!
//! The broadcast of a poweroff reaches terminals only, and the tray shows a pending one only to
//! someone looking at it. This watches the schedule itself and says so when it appears, changes or
//! goes.
//!
//! - **A low-battery poweroff is not announced twice.** The UPS notices already cover it, from the
//!   status file, so one whose time matches that file's is left to them, and so is its
//!   cancellation.
//! - **The button's countdown is named as such**, by its wall message, so the notice can say how to
//!   cancel it.
//! - **"Cannot tell" changes nothing.** A failed read is neither a new poweroff nor a cancelled
//!   one.

use crate::device::status::{said, Notice, Urgency};
use crate::text::{join, same};
use crate::time::{SystemTime, NANOS_PER_SEC};
use vstd::prelude::*;

verus! {

/// Two poweroff times this close, in seconds, are the same poweroff: one is reported in
/// microseconds, the other in whole seconds, and `shutdown` itself rounds.
pub const SAME: u64 = 90;

/// One look at the schedule.
#[derive(Clone, Debug, PartialEq, Eq)]
pub enum Seen {
    /// Nothing scheduled.
    Nothing,
    /// A poweroff at this time, placed with this message.
    Poweroff {
        /// When.
        at: SystemTime,
        /// Its wall message, if any.
        message: Option<String>,
    },
    /// The schedule could not be read.
    CannotTell,
}

/// Whether two times are of the same poweroff.
pub open spec fn is_close(a: SystemTime, b: SystemTime) -> bool {
    -(SAME * NANOS_PER_SEC) <= a.ns() - b.ns() <= SAME * NANOS_PER_SEC
}

/// Whether a poweroff carries this message.
pub open spec fn carries(message: Option<String>, wanted: Seq<char>) -> bool {
    message is Some && (message->0)@ == wanted
}

/// A poweroff that was seen.
#[derive(Clone, Copy, Debug, PartialEq, Eq, Structural)]
pub struct Known {
    /// When.
    pub at: SystemTime,
    /// Whether it was left to the UPS notices, and not announced here.
    pub left: bool,
}

/// What is known of the poweroff last seen after one look, and what is said of it. `clock` is the
/// time of day of the poweroff that was seen.
pub open spec fn observed(
    known: Option<Known>,
    seen: Seen,
    ups_shutdown_at: Option<SystemTime>,
    clock: Seq<char>,
    button_message: Seq<char>,
) -> (Option<Known>, Option<(Urgency, Seq<char>)>) {
    match seen {
        Seen::CannotTell => (known, None),
        Seen::Nothing => (
            None,
            if known is Some && !(known->0).left {
                Some((Urgency::Normal, "The scheduled poweroff was cancelled."@))
            } else {
                None
            },
        ),
        Seen::Poweroff { at, message } => if known is Some && is_close((known->0).at, at) {
            (known, None)
        } else if ups_shutdown_at is Some && is_close(ups_shutdown_at->0, at) {
            // Already announced by the UPS notices: the low-battery poweroff.
            (Some(Known { at, left: true }), None)
        } else {
            (
                Some(Known { at, left: false }),
                Some(
                    (
                        Urgency::Critical,
                        if carries(message, button_message) {
                            "Powering off at "@ + clock
                                + ": the case button was pressed. Press it again to cancel."@
                        } else {
                            "A poweroff is scheduled for "@ + clock
                                + ". Cancel it with `shutdown -c`."@
                        },
                    ),
                ),
            )
        },
    }
}

/// Watches the schedule for changes worth telling a person about.
pub struct ShutdownWatcher {
    known: Option<Known>,
}

impl ShutdownWatcher {
    /// The poweroff last announced, or deliberately left to the UPS notices.
    pub closed spec fn known(self) -> Option<Known> {
        self.known
    }

    /// A watcher that has announced nothing yet.
    pub fn new() -> (w: Self)
        ensures
            w.known() is None,
    {
        ShutdownWatcher { known: None }
    }

    /// Looks at the schedule, with the UPS status file's pending poweroff alongside, and returns a
    /// notice if something changed. `clock` is the time of day of the poweroff that was seen.
    pub fn observe(
        &mut self,
        seen: &Seen,
        ups_shutdown_at: Option<SystemTime>,
        clock: &str,
        button_message: &str,
    ) -> (r: Option<Notice>)
        ensures
            (final(self).known(), said(r)) == observed(
                old(self).known(),
                *seen,
                ups_shutdown_at,
                clock@,
                button_message@,
            ),
    {
        match seen {
            Seen::CannotTell => None,
            Seen::Nothing => {
                let was: bool = match self.known {
                    Some(k) => !k.left,
                    None => false,
                };
                self.known = None;
                if was {
                    Some(
                        Notice {
                            urgency: Urgency::Normal,
                            text: "The scheduled poweroff was cancelled.".to_owned(),
                        },
                    )
                } else {
                    None
                }
            },
            Seen::Poweroff { at, message } => {
                if let Some(k) = self.known {
                    if close(k.at, *at) {
                        return None;
                    }
                }
                let left: bool = match ups_shutdown_at {
                    Some(u) => close(u, *at),
                    None => false,
                };
                self.known = Some(Known { at: *at, left });
                if left {
                    return None;
                }
                let by_button: bool = match message {
                    Some(m) => same(m.as_str(), button_message),
                    None => false,
                };
                let text: String = if by_button {
                    let mut s: String = join("Powering off at ", clock);
                    s.append(": the case button was pressed. Press it again to cancel.");
                    s
                } else {
                    let mut s: String = join("A poweroff is scheduled for ", clock);
                    s.append(". Cancel it with `shutdown -c`.");
                    s
                };
                Some(Notice { urgency: Urgency::Critical, text })
            },
        }
    }
}

/// Whether two times are of the same poweroff.
pub fn close(a: SystemTime, b: SystemTime) -> (r: bool)
    ensures
        r == is_close(a, b),
{
    let limit: u128 = SAME as u128 * NANOS_PER_SEC;
    a.nanos_since(b) <= limit && b.nanos_since(a) <= limit
}

/// A failed look changes nothing and says nothing.
pub proof fn law_cannot_tell_changes_nothing(
    known: Option<Known>,
    ups: Option<SystemTime>,
    clock: Seq<char>,
    button: Seq<char>,
)
    ensures
        observed(known, Seen::CannotTell, ups, clock, button) == (
            known,
            None::<(Urgency, Seq<char>)>,
        ),
{
}

/// A poweroff is announced once: seen again at the same time, it is silent.
pub proof fn law_announced_once(
    known: Option<Known>,
    at: SystemTime,
    message: Option<String>,
    ups: Option<SystemTime>,
    clock: Seq<char>,
    button: Seq<char>,
)
    ensures
        ({
            let seen = Seen::Poweroff { at, message };
            let after = observed(known, seen, ups, clock, button).0;
            observed(after, seen, ups, clock, button) == (after, None::<(Urgency, Seq<char>)>)
        }),
{
}

/// A poweroff whose time is the one in the UPS status file is left to the UPS notices: it is not
/// announced.
pub proof fn law_low_battery_poweroff_is_left_to_the_ups_notices(
    known: Option<Known>,
    at: SystemTime,
    message: Option<String>,
    ups: SystemTime,
    clock: Seq<char>,
    button: Seq<char>,
)
    requires
        is_close(ups, at),
    ensures
        observed(known, (Seen::Poweroff { at, message }), Some(ups), clock, button).1 is None,
{
}

/// One look at the schedule, with what stood beside it.
pub struct Look {
    /// What was seen.
    pub seen: Seen,
    /// The poweroff in the UPS status file.
    pub ups: Option<SystemTime>,
    /// The time of day of the poweroff that was seen.
    pub clock: Seq<char>,
}

/// What is known after a row of looks, and what the last of them said.
pub open spec fn after_looks(known: Option<Known>, looks: Seq<Look>, button: Seq<char>) -> (
    Option<Known>,
    Option<(Urgency, Seq<char>)>,
)
    decreases looks.len(),
{
    if looks.len() == 0 {
        (known, None)
    } else {
        let l = looks.last();
        observed(after_looks(known, looks.drop_last(), button).0, l.seen, l.ups, l.clock, button)
    }
}

/// A low-battery poweroff that was left to the UPS notices is never spoken of, for as long as it
/// is the one that is seen or the schedule cannot be read, whatever the status file says by then;
/// nor is its cancellation, when it is gone.
pub proof fn law_low_battery_cancellation_is_left_to_the_ups_notices(
    known: Option<Known>,
    at: SystemTime,
    message: Option<String>,
    ups: SystemTime,
    clock: Seq<char>,
    button: Seq<char>,
    looks: Seq<Look>,
    gone: Look,
)
    requires
        known is None || !is_close((known->0).at, at),
        is_close(ups, at),
        forall|k: int|
            0 <= k < looks.len() ==> match (#[trigger] looks[k]).seen {
                Seen::Nothing => false,
                Seen::Poweroff { at: again, .. } => is_close(at, again),
                Seen::CannotTell => true,
            },
        gone.seen is Nothing,
    ensures
        ({
            let left = observed(
                known,
                (Seen::Poweroff { at, message }),
                Some(ups),
                clock,
                button,
            ).0;
            &&& left == Some(Known { at, left: true })
            &&& after_looks(left, looks, button) == (left, None::<(Urgency, Seq<char>)>)
            &&& after_looks(left, looks.push(gone), button) == (
                None::<Known>,
                None::<(Urgency, Seq<char>)>,
            )
        }),
    decreases looks.len(),
{
    let left = Some(Known { at, left: true });
    assert(looks.push(gone).drop_last() =~= looks);
    if looks.len() > 0 {
        let before = looks.drop_last();
        assert forall|k: int| 0 <= k < before.len() implies match (#[trigger] before[k]).seen {
            Seen::Nothing => false,
            Seen::Poweroff { at: again, .. } => is_close(at, again),
            Seen::CannotTell => true,
        } by {
            assert(before[k] == looks[k]);
        }
        law_low_battery_cancellation_is_left_to_the_ups_notices(
            known,
            at,
            message,
            ups,
            clock,
            button,
            before,
            gone,
        );
        assert(looks[looks.len() - 1] == looks.last());
        assert(after_looks(left, before, button).0 == left);
    }
    assert(after_looks(left, looks, button) == (left, None::<(Urgency, Seq<char>)>));
    assert(looks.push(gone).last() == gone);
    assert(after_looks(left, looks.push(gone), button) == observed(
        left,
        gone.seen,
        gone.ups,
        gone.clock,
        button,
    ));
}

/// The cancellation of a poweroff that was announced is said, and once.
pub proof fn law_announced_cancellation_is_said(
    at: SystemTime,
    ups: Option<SystemTime>,
    clock: Seq<char>,
    button: Seq<char>,
)
    ensures
        ({
            let gone = observed(
                Some(Known { at, left: false }),
                Seen::Nothing,
                ups,
                clock,
                button,
            );
            &&& gone == (
                None::<Known>,
                Some((Urgency::Normal, "The scheduled poweroff was cancelled."@)),
            )
            &&& observed(gone.0, Seen::Nothing, ups, clock, button).1 is None
        }),
{
}

/// A poweroff that is more than a minute and a half from the one last seen, and from the one in the
/// UPS status file, is announced as critical, with its time of day and how to cancel it: by the
/// button where it carries the button's message, and by `shutdown -c` otherwise.
pub proof fn law_a_new_poweroff_is_announced(
    known: Option<Known>,
    at: SystemTime,
    message: Option<String>,
    ups: Option<SystemTime>,
    clock: Seq<char>,
    button: Seq<char>,
)
    requires
        known is Some ==> (known->0).at.ns() - at.ns() > 90_000_000_000 || at.ns() - (
        known->0).at.ns() > 90_000_000_000,
        ups is Some ==> (ups->0).ns() - at.ns() > 90_000_000_000 || at.ns() - (ups->0).ns()
            > 90_000_000_000,
    ensures
        ({
            let (after, said) = observed(
                known,
                (Seen::Poweroff { at, message }),
                ups,
                clock,
                button,
            );
            &&& after is Some && (after->0).at == at && !(after->0).left
            &&& said is Some && (said->0).0 == Urgency::Critical
            &&& message is Some && (message->0)@ == button ==> (said->0).1 == "Powering off at "@
                + clock + ": the case button was pressed. Press it again to cancel."@
            &&& message is None || (message->0)@ != button ==> (said->0).1
                == "A poweroff is scheduled for "@ + clock + ". Cancel it with `shutdown -c`."@
        }),
{
}

/// Two times are of one poweroff exactly where they are no more than a minute and a half apart,
/// whichever comes first.
pub proof fn law_the_same_poweroff_is_within_the_rounding(a: SystemTime, b: SystemTime, r: bool, q: bool)
    requires
        call_ensures(close, (a, b), r),
        call_ensures(close, (b, a), q),
    ensures
        r == q,
        r <==> a.ns() - b.ns() <= 90_000_000_000 && b.ns() - a.ns() <= 90_000_000_000,
{
}

/// The schedule is spoken of only when it changes: where there was nothing and is nothing, nothing is
/// said, and what is seen at the time that is known is not said again.
pub proof fn law_an_unchanged_schedule_is_silent(
    known: Option<Known>,
    at: SystemTime,
    message: Option<String>,
    ups: Option<SystemTime>,
    clock: Seq<char>,
    button: Seq<char>,
)
    requires
        known is Some,
        (known->0).at.ns() - at.ns() <= 90_000_000_000,
        at.ns() - (known->0).at.ns() <= 90_000_000_000,
    ensures
        observed(None, Seen::Nothing, ups, clock, button) == (
            None::<Known>,
            None::<(Urgency, Seq<char>)>,
        ),
        observed(known, (Seen::Poweroff { at, message }), ups, clock, button) == (
            known,
            None::<(Urgency, Seq<char>)>,
        ),
{
}

} // verus!
