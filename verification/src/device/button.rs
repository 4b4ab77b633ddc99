//! What a press of the case button does: the policy, without any I/O.
//!
//! The case MCU turns a press into one pulse of about 20 ms. It is one event with no gesture in
//! it, so there is one action, not a menu of them: an **announced** poweroff, a minute out, and
//! cancelled by pressing again.
//!
//! - **Only our own shutdown is cancelled.** "Ours" means the pending time is the one we placed. A
//!   press must never cancel a low-battery poweroff, or an operator's.
//! - **Nothing is scheduled over someone else's.** If another shutdown is already pending, a press
//!   leaves it alone rather than placing a second one or claiming it.
//! - **"Cannot tell" is not "nothing pending".** If what is pending cannot be read, a press does
//!   nothing.
//! - **A bouncing contact is one press.** Events closer together than `MIN_GAP` are one.

use crate::time::{lemma_time_by_ns, Duration, SystemTime};
use vstd::prelude::*;

verus! {

/// The narrowest pulse taken as a button press, in milliseconds.
pub const PULSE_MIN: u64 = 10;

/// The widest pulse taken as a button press, in milliseconds.
pub const PULSE_MAX: u64 = 40;

/// Presses closer together than this, in seconds, are one: a contact bouncing, not a person
/// pressing twice.
pub const MIN_GAP: u64 = 1;

/// How far out the announced poweroff is placed, in seconds.
pub const DELAY: u64 = 60;

/// Whether a pulse this wide, in nanoseconds, is a button press.
pub open spec fn is_pulse(ns: nat) -> bool {
    PULSE_MIN * 1_000_000 <= ns <= PULSE_MAX * 1_000_000
}

/// Whether a pulse this wide is a button press.
pub fn is_press(width: Duration) -> (r: bool)
    ensures
        r == is_pulse(width.ns()),
{
    let n: u128 = width.as_nanos();
    PULSE_MIN as u128 * 1_000_000 <= n && n <= PULSE_MAX as u128 * 1_000_000
}

/// Which way the line went.
#[derive(Clone, Copy, Debug, PartialEq, Eq, Structural)]
pub enum Edge {
    /// Up.
    Rising,
    /// Down.
    Falling,
}

/// What is pending.
#[derive(Clone, Copy, Debug, PartialEq, Eq, Structural)]
pub enum Pending {
    /// Nothing is scheduled.
    Nothing,
    /// A poweroff is scheduled for this time.
    At(SystemTime),
    /// What is pending could not be read.
    CannotTell,
}

/// What to do about a press.
#[derive(Clone, Copy, Debug, PartialEq, Eq, Structural)]
pub enum Action {
    /// Place the announced poweroff.
    Schedule,
    /// Cancel the poweroff this button placed.
    Cancel,
    /// Do nothing, for this reason.
    Ignore(Why),
}

/// Why a press was ignored. Each is logged, so a press that "did nothing" can be explained.
#[derive(Clone, Copy, Debug, PartialEq, Eq, Structural)]
pub enum Why {
    /// The button's action is `none`.
    NotConfigured,
    /// Too soon after the last press: one press, bouncing.
    Bounce,
    /// A shutdown is pending that this button did not place.
    SomeoneElses,
    /// What is pending could not be read.
    CannotTell,
}

/// The button policy.
#[derive(Clone, Debug)]
pub struct Button {
    armed: bool,
    /// The poweroff this button placed, as it was reported.
    ours: Option<SystemTime>,
    /// When the last press was accepted, on the caller's monotonic clock.
    last: Option<Duration>,
}

/// What the button policy knows.
pub struct ButtonView {
    /// Whether presses are acted on.
    pub armed: bool,
    /// The poweroff this button placed.
    pub ours: Option<SystemTime>,
    /// When the last press was accepted, in nanoseconds on the caller's clock.
    pub last: Option<nat>,
}

impl View for Button {
    type V = ButtonView;

    closed spec fn view(&self) -> ButtonView {
        ButtonView {
            armed: self.armed,
            ours: self.ours,
            last: match self.last {
                Some(d) => Some(d.ns()),
                None => None,
            },
        }
    }
}

impl ButtonView {
    /// Whether a press at `now` is the last one, bouncing. A clock that steps back is a bounce.
    pub open spec fn bounces(self, now: nat) -> bool {
        self.last is Some && (now as int) - (self.last->0 as int) < MIN_GAP * 1_000_000_000
    }

    /// What is known after a press at `now`, and what is done about it.
    pub open spec fn pressed(self, now: nat, pending: Pending) -> (ButtonView, Action) {
        let accepted = ButtonView { last: Some(now), ..self };
        if !self.armed {
            (self, Action::Ignore(Why::NotConfigured))
        } else if self.bounces(now) {
            (self, Action::Ignore(Why::Bounce))
        } else {
            match pending {
                Pending::CannotTell => (accepted, Action::Ignore(Why::CannotTell)),
                Pending::At(at) => if self.ours == Some(at) {
                    (accepted, Action::Cancel)
                } else {
                    (
                        ButtonView { ours: None, ..accepted },
                        Action::Ignore(Why::SomeoneElses),
                    )
                },
                Pending::Nothing => (ButtonView { ours: None, ..accepted }, Action::Schedule),
            }
        }
    }
}

impl Button {
    /// A policy that acts on presses (`armed`), or only logs them.
    pub fn new(armed: bool) -> (b: Self)
        ensures
            b@ == (ButtonView { armed, ours: None, last: None }),
    {
        Button { armed, ours: None, last: None }
    }

    /// A press arrived at `now` (monotonic), with `pending` read just now.
    pub fn press(&mut self, now: Duration, pending: Pending) -> (a: Action)
        ensures
            (final(self)@, a) == old(self)@.pressed(now.ns(), pending),
    {
        if !self.armed {
            return Action::Ignore(Why::NotConfigured);
        }
        if let Some(l) = self.last {
            if now.saturating_sub(l).as_nanos() < MIN_GAP as u128 * 1_000_000_000 {
                return Action::Ignore(Why::Bounce);
            }
        }
        self.last = Some(now);
        match pending {
            Pending::CannotTell => Action::Ignore(Why::CannotTell),
            Pending::At(at) => {
                let ours: bool = match self.ours {
                    Some(o) => o == at,
                    None => false,
                };
                if ours {
                    Action::Cancel
                } else {
                    // Not the one we placed. If we had placed one, it has been cancelled or
                    // replaced since, so we no longer own it.
                    self.ours = None;
                    Action::Ignore(Why::SomeoneElses)
                }
            },
            Pending::Nothing => {
                // Ours, if any, is gone: cancelled elsewhere.
                self.ours = None;
                Action::Schedule
            },
        }
    }

    /// The poweroff was placed, and is reported for `at`.
    pub fn placed(&mut self, at: SystemTime)
        ensures
            final(self)@ == (ButtonView { ours: Some(at), ..old(self)@ }),
    {
        self.ours = Some(at);
    }

    /// Our poweroff was cancelled.
    pub fn cancelled(&mut self)
        ensures
            final(self)@ == (ButtonView { ours: None, ..old(self)@ }),
    {
        self.ours = None;
    }
}

/// A press cancels only the poweroff that this button placed.
pub proof fn law_only_our_own_is_cancelled(b: ButtonView, now: nat, pending: Pending)
    requires
        b.pressed(now, pending).1 == Action::Cancel,
    ensures
        b.ours is Some,
        pending == Pending::At(b.ours->0),
{
}

/// A press schedules only where nothing is pending: never over someone else's, and never blind.
pub proof fn law_nothing_is_scheduled_over_another(b: ButtonView, now: nat, pending: Pending)
    requires
        b.pressed(now, pending).1 == Action::Schedule,
    ensures
        pending == Pending::Nothing,
        b.armed,
{
}

/// Where what is pending cannot be read, a press places nothing, cancels nothing, and forgets
/// nothing of what this button placed.
pub proof fn law_cannot_tell_does_nothing(b: ButtonView, now: nat)
    ensures
        b.pressed(now, Pending::CannotTell).1 is Ignore,
        b.pressed(now, Pending::CannotTell).0.ours == b.ours,
{
}

/// A bouncing contact is one press: within `MIN_GAP` of one that was accepted, another changes
/// nothing, whatever is pending.
pub proof fn law_a_bounce_is_one_press(
    b: ButtonView,
    first: nat,
    second: nat,
    pending: Pending,
    then_pending: Pending,
)
    requires
        b.armed,
        !b.bounces(first),
        first <= second < first + MIN_GAP * 1_000_000_000,
    ensures
        ({
            let after = b.pressed(first, pending).0;
            after.pressed(second, then_pending) == (after, Action::Ignore(Why::Bounce))
        }),
{
}

/// Once ours was replaced by someone else's, theirs is never cancelled on the strength of having
/// once placed ours: a later press leaves it alone too.
pub proof fn law_a_replaced_poweroff_is_not_ours(
    b: ButtonView,
    first: nat,
    second: nat,
    theirs: SystemTime,
)
    requires
        b.ours != Some(theirs),
    ensures
        b.pressed(first, Pending::At(theirs)).1 is Ignore,
        b.pressed(first, Pending::At(theirs)).0.pressed(second, Pending::At(theirs)).1 is Ignore,
{
}

/// Unarmed, the button does nothing at all.
pub proof fn law_unarmed_only_ignores(b: ButtonView, now: nat, pending: Pending)
    requires
        !b.armed,
    ensures
        b.pressed(now, pending) == (b, Action::Ignore(Why::NotConfigured)),
{
}

/// A press and, later, a second press undo each other: what the first placed, the second cancels.
pub proof fn law_a_second_press_cancels(b: ButtonView, first: nat, second: nat, at: SystemTime)
    requires
        b.pressed(first, Pending::Nothing).1 == Action::Schedule,
        second >= first + MIN_GAP * 1_000_000_000,
    ensures
        ({
            let placed = ButtonView {
                ours: Some(at),
                ..b.pressed(first, Pending::Nothing).0
            };
            placed.pressed(second, Pending::At(at)).1 == Action::Cancel
        }),
{
}

/// A pulse is a press from ten to forty milliseconds, both included.
pub proof fn law_a_press_is_ten_to_forty_milliseconds(width: Duration, r: bool)
    requires
        call_ensures(is_press, (width,), r),
    ensures
        r <==> 10_000_000 <= width.ns() <= 40_000_000,
{
}

/// An armed button that is pressed a second or more after the last press acts on what is pending:
/// with nothing there it places a poweroff, its own it cancels, anyone else's it leaves alone and
/// takes for ours no longer, and where it cannot tell it does nothing. The press counts as the
/// last.
pub proof fn law_a_press_acts_on_what_is_pending(now: Duration, pending: Pending)
    ensures
        forall|b: &mut Button, a: Action| #[trigger]
            call_ensures(Button::press, (b, now, pending), a) && b@.armed && (b@.last is None
                || now.ns() - b@.last->0 >= 1_000_000_000) ==> {
                &&& a == Action::Schedule <==> pending == Pending::Nothing
                &&& a == Action::Cancel <==> b@.ours is Some && pending == Pending::At(b@.ours->0)
                &&& a == Action::Ignore(Why::CannotTell) <==> pending == Pending::CannotTell
                &&& a == Action::Ignore(Why::SomeoneElses) <==> pending is At && b@.ours != Some(
                    pending->At_0,
                )
                &&& final(b)@.last == Some(now.ns())
                &&& final(b)@.armed
                &&& final(b)@.ours is Some <==> b@.ours is Some && (a == Action::Cancel
                    || pending == Pending::CannotTell)
                &&& final(b)@.ours is Some ==> final(b)@.ours == b@.ours
            },
{
}

/// A press that comes sooner than a second after the last, or on a button that is not armed, is
/// ignored for that reason, and changes nothing.
pub proof fn law_a_press_that_does_not_count_changes_nothing(now: Duration, pending: Pending)
    ensures
        forall|b: &mut Button, a: Action| #[trigger]
            call_ensures(Button::press, (b, now, pending), a) ==> {
                &&& a == Action::Ignore(Why::NotConfigured) <==> !b@.armed
                &&& a == Action::Ignore(Why::Bounce) <==> b@.armed && b@.last is Some && now.ns()
                    - b@.last->0 < 1_000_000_000
                &&& a == Action::Ignore(Why::NotConfigured) || a == Action::Ignore(Why::Bounce)
                    ==> final(b)@ == b@
            },
{
}

/// What was placed is ours until it is cancelled.
pub proof fn law_what_was_placed_is_ours(at: SystemTime)
    ensures
        forall|b: &mut Button, u: ()| #[trigger]
            call_ensures(Button::placed, (b, at), u) ==> final(b)@.ours == Some(at) && final(
                b)@.armed == b@.armed && final(b)@.last == b@.last,
        forall|b: &mut Button, u: ()| #[trigger]
            call_ensures(Button::cancelled, (b,), u) ==> final(b)@.ours is None && final(b)@.armed
                == b@.armed && final(b)@.last == b@.last,
{
}

} // verus!
