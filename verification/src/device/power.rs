//! Acting on shutdown advice: a delayed, cancellable poweroff.
//!
//! The battery policy decides *whether* shutdown is advised. This module decides what to do about
//! it, and the rules are about not surprising anyone:
//!
//! - **Delayed, never immediate.** A scheduled poweroff leaves a window in which mains coming back
//!   cancels it, and in which an operator can see it coming.
//! - **Scheduled once.** The policy's advice is level-triggered and repeats on every poll; the
//!   action is not. Rescheduling on every poll would keep pushing the shutdown back.
//! - **Only our own shutdowns are cancelled.** If someone else already has a shutdown pending, it
//!   is left alone and not claimed. When the advice clears, what is pending is read first: a
//!   poweroff that is seen to be for another time than ours has replaced it, and is left alone.
//!   Where it cannot be read, ours is cancelled: with mains back, the worse mistake is to let a
//!   poweroff of ours go through.
//! - **An operator's cancellation is respected.** If the shutdown we scheduled disappears while
//!   the advice still stands, someone cancelled it. Scheduling it again on the next poll would
//!   fight them, so we stand down until the advice clears.
//! - **Ours is still ours after a restart.** A pending poweroff that carries our own message is
//!   taken back over, so that mains coming back cancels it.

use crate::device::shutdown_notice::{close, is_close};
use crate::text::{
    begins, cut_last, decimal, decimal_of, is_digit, is_space, join, last_at, law_decimal_is_digits,
    law_number_of_decimal, number, parse_number, rsplit_once, same,
    strip_prefix, trim, trim_end, trim_matches, trim_start, trimmed, unled, untrailed,
};
use crate::time::{Duration, SystemTime, MAX_NANOS, NANOS_PER_SEC};
use vstd::prelude::*;

verus! {

/// The message that is broadcast, and that the desktop agent shows.
pub const SHUTDOWN_MESSAGE: &'static str = "UPS battery critical: powering off to protect the filesystem. Restore mains power to cancel.";

/// How the message of a battery poweroff starts, and how long it is.
pub(crate) proof fn lemma_message_start()
    ensures
        SHUTDOWN_MESSAGE@.len() == 92,
        SHUTDOWN_MESSAGE@[0] == 'U',
{
    reveal_strlit("UPS battery critical: powering off to protect the filesystem. Restore mains power to cancel.");
}

/// What the battery policy advises.
#[derive(Clone, Copy, Debug, PartialEq, Eq, Structural)]
pub enum Advice {
    /// Nothing.
    Nothing,
    /// Power off.
    Shutdown,
    /// It would advise to power off, but the machine has not been up for long enough.
    HeldForUptime {
        /// How long it still waits.
        remaining: Duration,
    },
}

/// The whole minutes of a delay, rounded up, and never below one: a delay of none is immediate.
pub open spec fn whole_minutes(delay: Duration) -> nat {
    let m = (delay.secs() + 59) / 60;
    if m < 1 {
        1
    } else {
        m
    }
}

/// The whole minutes after which a poweroff is to be scheduled for a delay. Rounded up, and never
/// below one.
pub fn poweroff_minutes(delay: Duration) -> (m: u64)
    ensures
        m == whole_minutes(delay),
        m >= 1,
        m * 60 >= delay.secs(),
{
    let secs: u64 = delay.as_secs();
    let m: u64 = if secs % 60 == 0 {
        secs / 60
    } else {
        secs / 60 + 1
    };
    if m < 1 {
        1
    } else {
        m
    }
}

/// The time argument of the `shutdown` command for a delay.
pub fn shutdown_argument(delay: Duration) -> (s: String)
    ensures
        s@ == "+"@ + decimal(whole_minutes(delay)),
{
    join("+", decimal_of(poweroff_minutes(delay)).as_str())
}

/// The kind and the time, in microseconds since 1970, of the shutdown in what `busctl
/// get-property ... ScheduledShutdown` printed, where there is one.
pub open spec fn scheduled_in(output: Seq<char>) -> Option<(Seq<char>, nat)> {
    let o = trimmed(output);
    if !begins(o, "(st)"@) {
        None
    } else {
        match cut_last(trimmed(o.skip(4)), ' ') {
            None => None,
            Some((k, u)) => {
                let kind = untrailed(unled(trimmed(k), '"'), '"');
                match number(trimmed(u), u64::MAX as nat) {
                    None => None,
                    Some(usec) => if kind.len() == 0 || usec == 0 || usec == u64::MAX {
                        None
                    } else {
                        Some((kind, usec))
                    },
                }
            },
        }
    }
}

/// Parses `busctl get-property ... ScheduledShutdown` output.
///
/// With nothing scheduled, an empty kind and `u64::MAX` are reported. Returns the shutdown kind and
/// time otherwise.
pub fn parse_scheduled_shutdown(output: &str) -> (r: Option<(String, SystemTime)>)
    ensures
        match r {
            Some((kind, at)) => scheduled_in(output@) is Some && (scheduled_in(output@)->0).0
                == kind@ && at.ns() == (scheduled_in(output@)->0).1 * 1_000,
            None => scheduled_in(output@) is None,
        },
{
    proof {
        reveal_strlit("(st)");
    }
    let rest: &str = match strip_prefix(trim(output), "(st)") {
        Some(r) => trim(r),
        None => {
            return None;
        },
    };
    match rsplit_once(rest, ' ') {
        None => None,
        Some((k, u)) => {
            let kind: &str = trim_matches(trim(k), '"');
            match parse_number(trim(u), 0xffff_ffff_ffff_ffff) {
                None => None,
                Some(usec) => {
                    if kind.is_empty() || usec == 0 || usec == 0xffff_ffff_ffff_ffff {
                        None
                    } else {
                        Some((kind.to_owned(), SystemTime::from_unix_micros(usec)))
                    }
                },
            }
        },
    }
}

/// What the coordinator did with one piece of advice.
#[derive(Clone, Debug, PartialEq, Eq)]
pub enum Action {
    /// Nothing needed doing.
    Nothing,
    /// A poweroff was scheduled.
    Scheduled {
        /// When it will happen.
        at: SystemTime,
    },
    /// A pending poweroff was one that we scheduled before a restart. Taken back over.
    Adopted {
        /// When it will happen.
        at: SystemTime,
    },
    /// Shutdown is advised, but someone else already has one pending. Left alone.
    AlreadyPending {
        /// When theirs will happen.
        at: SystemTime,
    },
    /// Our pending poweroff was cancelled because the advice cleared.
    Cancelled,
    /// Our poweroff was cancelled by someone else while advice still stood. Standing down.
    OverriddenByOperator,
    /// Dry run: a poweroff would have been scheduled.
    WouldSchedule,
    /// Dry run: a poweroff would have been cancelled.
    WouldCancel,
    /// Scheduling or cancelling failed. Retried on the next poll.
    Failed(String),
}

/// What is to be done next about a piece of advice.
#[derive(Clone, Debug, PartialEq, Eq)]
pub enum Next {
    /// Nothing more: this was done.
    Done(Action),
    /// Ask whether a shutdown is pending, and hand the answer to `on_pending`.
    AskPending,
    /// Schedule a poweroff with this message after the delay, and hand what became of it to
    /// `on_scheduled`.
    Schedule {
        /// How far ahead.
        delay: Duration,
        /// What is broadcast, and what the poweroff is known by after a restart.
        message: &'static str,
    },
    /// Cancel the pending poweroff, and hand what became of it to `on_cancelled`.
    Cancel,
}

/// Turns battery advice into at most one scheduled poweroff at a time.
pub struct ShutdownCoordinator {
    delay: Duration,
    dry_run: bool,
    /// The poweroff we scheduled, if any.
    ours: Option<SystemTime>,
    /// Whether its time was worked out, because none was reported.
    estimated: bool,
    /// Set when an operator cancelled ours; cleared when the advice clears.
    stood_down: bool,
    /// Set while what is pending is asked for because the advice cleared.
    clearing: bool,
}

/// What a coordinator knows.
pub struct CoordinatorView {
    /// How far ahead a poweroff is scheduled.
    pub delay: Duration,
    /// Whether it only reports what it would do.
    pub dry_run: bool,
    /// The poweroff it scheduled and that is still pending.
    pub ours: Option<SystemTime>,
    /// Whether the time of that poweroff was worked out, because none was reported.
    pub estimated: bool,
    /// Whether an operator cancelled its poweroff, under advice that still stands.
    pub stood_down: bool,
    /// Whether the advice last heard was not to shut down, with a poweroff of its own to be
    /// cancelled: what is found pending is then held against that poweroff.
    pub clearing: bool,
}

impl View for ShutdownCoordinator {
    type V = CoordinatorView;

    closed spec fn view(&self) -> CoordinatorView {
        CoordinatorView {
            delay: self.delay,
            dry_run: self.dry_run,
            ours: self.ours,
            estimated: self.estimated,
            stood_down: self.stood_down,
            clearing: self.clearing,
        }
    }
}

impl CoordinatorView {
    /// Whether a poweroff that is pending for `at` is its own: for the very time that was reported,
    /// or, where none was, for one that is as good as the one that was worked out.
    pub open spec fn is_ours(self, at: SystemTime) -> bool {
        match self.ours {
            Some(ours) => at == ours || (self.estimated && is_close(at, ours)),
            None => false,
        }
    }

    /// What it knows, and what it does next, where no shutdown is advised.
    pub open spec fn cleared(self, next: Next, after: CoordinatorView) -> bool {
        if self.ours is None {
            &&& next == Next::Done(Action::Nothing)
            &&& after == (CoordinatorView { stood_down: false, clearing: false, ..self })
        } else if self.dry_run {
            &&& next == Next::Done(Action::WouldCancel)
            &&& after == (CoordinatorView {
                stood_down: false,
                clearing: false,
                ours: None,
                ..self
            })
        } else {
            &&& next == Next::AskPending
            &&& after == (CoordinatorView { stood_down: false, clearing: true, ..self })
        }
    }

    /// Whether a dry run notes a poweroff where a shutdown is advised.
    pub open spec fn notes(self) -> bool {
        self.dry_run && self.ours is None && !self.stood_down
    }

    /// What it knows, and what it does next, where a shutdown is advised at `now`.
    pub open spec fn urged(self, next: Next, after: CoordinatorView, now: SystemTime) -> bool {
        let standing = CoordinatorView { clearing: false, ..self };
        if self.notes() {
            &&& next == Next::Done(Action::WouldSchedule)
            &&& after == (CoordinatorView { ours: after.ours, ..standing })
            &&& after.ours is Some
            &&& (after.ours->0).ns() == now.ns() + self.delay.ns()
        } else if self.stood_down || self.dry_run {
            &&& next == Next::Done(Action::Nothing)
            &&& after == standing
        } else {
            &&& next == Next::AskPending
            &&& after == standing
        }
    }

    /// What it knows, and what it does next, on a piece of advice at `now`.
    pub open spec fn advised(
        self,
        advice: Advice,
        next: Next,
        after: CoordinatorView,
        now: SystemTime,
    ) -> bool {
        if advice == Advice::Shutdown {
            self.urged(next, after, now)
        } else {
            self.cleared(next, after)
        }
    }

    /// What it knows, and what it does next, once it learnt whether a shutdown is pending. `None`
    /// stands for an answer that could not be had.
    pub open spec fn on_pending(
        self,
        pending: Option<Option<SystemTime>>,
    ) -> (Next, CoordinatorView) {
        if self.clearing {
            let cancels = match pending {
                Some(Some(at)) => self.is_ours(at),
                Some(None) => false,
                // A read failure is no evidence that ours is gone; assume it still stands.
                None => self.ours is Some,
            };
            if cancels {
                (Next::Cancel, self)
            } else {
                // Ours is gone: cancelled elsewhere, or replaced by someone else's.
                (Next::Done(Action::Nothing), CoordinatorView { ours: None, ..self })
            }
        } else if self.ours is Some {
            // A read failure is not evidence of cancellation; assume it still stands.
            if pending == Some(None::<SystemTime>) {
                (
                    Next::Done(Action::OverriddenByOperator),
                    CoordinatorView { ours: None, stood_down: true, ..self },
                )
            } else {
                (Next::Done(Action::Nothing), self)
            }
        } else {
            match pending {
                Some(Some(at)) => (Next::Done(Action::AlreadyPending { at }), self),
                _ => (Next::Schedule { delay: self.delay, message: SHUTDOWN_MESSAGE }, self),
            }
        }
    }

    /// What it knows once it was told what is pending, and with which message.
    pub open spec fn recognised(
        self,
        pending: Option<SystemTime>,
        message: Option<Seq<char>>,
    ) -> CoordinatorView {
        if pending is Some && message == Some(SHUTDOWN_MESSAGE@) && self.ours is None
            && !self.dry_run && !self.stood_down {
            CoordinatorView { ours: pending, estimated: false, ..self }
        } else {
            self
        }
    }

    /// What it knows once it tried to schedule a poweroff.
    pub open spec fn on_scheduled(
        self,
        at: Result<SystemTime, String>,
        estimated: bool,
    ) -> CoordinatorView {
        match at {
            Ok(at) => CoordinatorView { ours: Some(at), estimated, ..self },
            Err(_) => self,
        }
    }

    /// What it knows once it tried to cancel its poweroff.
    pub open spec fn on_cancelled(self, done: Result<(), String>) -> CoordinatorView {
        match done {
            Ok(()) => CoordinatorView { ours: None, ..self },
            Err(_) => self,
        }
    }
}

impl ShutdownCoordinator {
    /// Creates a coordinator. With `dry_run`, it reports what it would do and asks for nothing.
    pub fn new(delay: Duration, dry_run: bool) -> (c: Self)
        ensures
            c@ == (CoordinatorView {
                delay,
                dry_run,
                ours: None,
                estimated: false,
                stood_down: false,
                clearing: false,
            }),
    {
        ShutdownCoordinator {
            delay,
            dry_run,
            ours: None,
            estimated: false,
            stood_down: false,
            clearing: false,
        }
    }

    /// When the poweroff we scheduled will happen, if we have one pending.
    pub fn scheduled_at(&self) -> (at: Option<SystemTime>)
        ensures
            at == self@.ours,
    {
        self.ours
    }

    /// Takes a pending poweroff back over as ours if it carries our own message, and we know of
    /// none.
    ///
    /// A restarted daemon has forgotten which poweroff it scheduled. Without this, mains coming back
    /// would find that one "not ours" and leave it running.
    pub fn recognise(&mut self, pending: Option<SystemTime>, message: Option<&str>) -> (a: Action)
        ensures
            final(self)@ == old(self)@.recognised(
                pending,
                match message {
                    Some(m) => Some(m@),
                    None => None,
                },
            ),
            a == if final(self)@.ours != old(self)@.ours {
                Action::Adopted { at: final(self)@.ours->0 }
            } else {
                Action::Nothing
            },
    {
        if let Some(at) = pending {
            if let Some(m) = message {
                if same(m, SHUTDOWN_MESSAGE) && self.ours.is_none() && !self.dry_run
                    && !self.stood_down {
                    self.ours = Some(at);
                    self.estimated = false;
                    return Action::Adopted { at };
                }
            }
        }
        Action::Nothing
    }

    /// Acts on one piece of advice, at `now`.
    pub fn on_advice(&mut self, advice: Advice, now: SystemTime) -> (next: Next)
        requires
            advice == Advice::Shutdown && old(self)@.notes() ==> now.ns() + old(self)@.delay.ns()
                <= MAX_NANOS,
        ensures
            old(self)@.advised(advice, next, final(self)@, now),
    {
        if advice == Advice::Shutdown {
            self.advised(now)
        } else {
            self.cleared()
        }
    }

    fn advised(&mut self, now: SystemTime) -> (next: Next)
        requires
            old(self)@.notes() ==> now.ns() + old(self)@.delay.ns() <= MAX_NANOS,
        ensures
            old(self)@.urged(next, final(self)@, now),
    {
        self.clearing = false;
        if self.stood_down {
            return Next::Done(Action::Nothing);
        }
        if self.ours.is_some() {
            if self.dry_run {
                return Next::Done(Action::Nothing);
            }
            return Next::AskPending;
        }
        if self.dry_run {
            self.ours = Some(now.plus(self.delay));
            return Next::Done(Action::WouldSchedule);
        }
        Next::AskPending
    }

    fn cleared(&mut self) -> (next: Next)
        ensures
            old(self)@.cleared(next, final(self)@),
    {
        self.stood_down = false;
        self.clearing = false;
        if self.ours.is_none() {
            return Next::Done(Action::Nothing);
        }
        if self.dry_run {
            self.ours = None;
            return Next::Done(Action::WouldCancel);
        }
        self.clearing = true;
        Next::AskPending
    }

    /// Takes the answer to whether a shutdown is pending, and when it will happen. `None` stands
    /// for an answer that could not be had.
    pub fn on_pending(&mut self, pending: Option<Option<SystemTime>>) -> (next: Next)
        ensures
            (next, final(self)@) == old(self)@.on_pending(pending),
    {
        if self.clearing {
            let cancels: bool = match (pending, self.ours) {
                (Some(Some(at)), Some(ours)) => at == ours || (self.estimated && close(at, ours)),
                (None, Some(_)) => true,
                _ => false,
            };
            if cancels {
                Next::Cancel
            } else {
                self.ours = None;
                Next::Done(Action::Nothing)
            }
        } else if self.ours.is_some() {
            match pending {
                Some(None) => {
                    self.ours = None;
                    self.stood_down = true;
                    Next::Done(Action::OverriddenByOperator)
                },
                _ => Next::Done(Action::Nothing),
            }
        } else {
            match pending {
                Some(Some(at)) => Next::Done(Action::AlreadyPending { at }),
                _ => Next::Schedule { delay: self.delay, message: SHUTDOWN_MESSAGE },
            }
        }
    }

    /// Takes what became of scheduling the poweroff: when it will happen, or why there is none.
    /// `estimated` is whether that time was worked out, because none was reported.
    pub fn on_scheduled(&mut self, at: Result<SystemTime, String>, estimated: bool) -> (action:
        Action)
        ensures
            final(self)@ == old(self)@.on_scheduled(at, estimated),
            action == match at {
                Ok(at) => Action::Scheduled { at },
                Err(e) => Action::Failed(e),
            },
    {
        match at {
            Ok(at) => {
                self.ours = Some(at);
                self.estimated = estimated;
                Action::Scheduled { at }
            },
            Err(e) => Action::Failed(e),
        }
    }

    /// Takes what became of cancelling the poweroff.
    pub fn on_cancelled(&mut self, done: Result<(), String>) -> (action: Action)
        ensures
            final(self)@ == old(self)@.on_cancelled(done),
            action == match done {
                Ok(()) => Action::Cancelled,
                Err(e) => Action::Failed(e),
            },
    {
        match done {
            Ok(()) => {
                self.ours = None;
                Action::Cancelled
            },
            Err(e) => Action::Failed(e),
        }
    }
}

/// One piece of advice, with when it came, and what was found pending if that was asked for.
pub struct Heard {
    /// The advice.
    pub advice: Advice,
    /// When it came.
    pub now: SystemTime,
    /// What was found pending, as `on_pending` takes it.
    pub pending: Option<Option<SystemTime>>,
}

/// What a piece of advice led to.
pub struct Led {
    /// Whether what is pending was asked for.
    pub asked: bool,
    /// What was to be done after that.
    pub next: Next,
}

impl CoordinatorView {
    /// What one piece of advice leads to, and what is known after it, up to the request that it
    /// ends in.
    pub open spec fn hears(self, heard: Heard, led: Led, after: CoordinatorView) -> bool {
        exists|next: Next, asking: CoordinatorView| #[trigger]
            self.advised(heard.advice, next, asking, heard.now) && led.asked == (next
                is AskPending) && if led.asked {
                (led.next, after) == asking.on_pending(heard.pending)
            } else {
                led.next == next && after == asking
            }
    }
}

/// A run of a coordinator through pieces of advice: what each led to, and what was known before
/// each and after the last. What one asks to be scheduled or cancelled does not come about in it.
pub open spec fn is_run(
    states: Seq<CoordinatorView>,
    heard: Seq<Heard>,
    led: Seq<Led>,
) -> bool {
    &&& states.len() == heard.len() + 1
    &&& led.len() == heard.len()
    &&& forall|i: int|
        0 <= i < heard.len() ==> #[trigger] states[i].hears(heard[i], led[i], states[i + 1])
}

/// A poweroff is scheduled once: while one of ours is pending, no piece of advice leads to another
/// one, whatever is found pending.
pub proof fn law_scheduled_once(
    c: CoordinatorView,
    advice: Advice,
    next: Next,
    after: CoordinatorView,
    now: SystemTime,
    pending: Option<Option<SystemTime>>,
)
    requires
        c.ours is Some,
        c.advised(advice, next, after, now),
    ensures
        !(next is Schedule),
        next != Next::Done(Action::WouldSchedule),
        next is AskPending ==> !(after.on_pending(pending).0 is Schedule),
{
}

/// A poweroff is only scheduled when a shutdown is advised, outside a dry run, and with nothing
/// else found pending. It is then ours, for the time that was reported, and it carries the message
/// by which it is taken back over after a restart.
pub proof fn law_a_scheduled_poweroff_is_ours(
    c: CoordinatorView,
    advice: Advice,
    next: Next,
    asking: CoordinatorView,
    now: SystemTime,
    pending: Option<Option<SystemTime>>,
    at: SystemTime,
    estimated: bool,
)
    requires
        c.advised(advice, next, asking, now),
        next is Schedule || asking.on_pending(pending).0 is Schedule && next is AskPending,
    ensures
        next is AskPending,
        advice == Advice::Shutdown,
        !c.dry_run,
        !c.stood_down,
        c.ours is None,
        !(pending matches Some(Some(_))),
        asking.on_pending(pending).0 matches Next::Schedule { delay, message } && delay == c.delay
            && c.recognised(Some(at), Some(message@)).ours == Some(at),
        asking.on_pending(pending).1.on_scheduled(Ok(at), estimated) == (CoordinatorView {
            ours: Some(at),
            estimated,
            clearing: false,
            ..c
        }),
{
}

/// Once a poweroff of ours is scheduled, advice that still stands does nothing more, however often
/// it is repeated, for as long as a shutdown is found pending or what is pending cannot be read:
/// ours stays the one that was scheduled, for the same time.
pub proof fn law_repeated_advice_does_nothing(
    states: Seq<CoordinatorView>,
    heard: Seq<Heard>,
    led: Seq<Led>,
    i: int,
)
    requires
        is_run(states, heard, led),
        states[0].ours is Some,
        !states[0].dry_run,
        !states[0].stood_down,
        forall|k: int|
            0 <= k < heard.len() ==> (#[trigger] heard[k]).advice == Advice::Shutdown
                && heard[k].pending != Some(None::<SystemTime>),
        0 <= i <= heard.len(),
    ensures
        states[i].ours == states[0].ours,
        !states[i].dry_run,
        !states[i].stood_down,
        i < heard.len() ==> led[i] == (Led { asked: true, next: Next::Done(Action::Nothing) }),
    decreases i,
{
    if i > 0 {
        law_repeated_advice_does_nothing(states, heard, led, i - 1);
        assert(states[i - 1].hears(heard[i - 1], led[i - 1], states[i - 1 + 1]));
    }
    if i < heard.len() {
        assert(states[i].hears(heard[i], led[i], states[i + 1]));
    }
}

/// Only our own poweroff is ever cancelled: a cancellation is asked for only where we have one
/// pending, once what is pending was asked for, and never where something else was seen there.
/// Nothing pending, or something that is not ours, is left alone.
pub proof fn law_only_our_own_is_cancelled(
    c: CoordinatorView,
    advice: Advice,
    next: Next,
    after: CoordinatorView,
    now: SystemTime,
    pending: Option<Option<SystemTime>>,
)
    requires
        c.advised(advice, next, after, now),
        next is Cancel || after.on_pending(pending).0 is Cancel,
    ensures
        next is AskPending,
        pending is None || ((pending->0) is Some && c.is_ours((pending->0)->0)),
        !c.estimated ==> pending is None || pending == Some(c.ours),
        c.ours is Some,
        !c.dry_run,
        advice != Advice::Shutdown,
{
}

/// A poweroff of ours that is still pending when the advice clears is cancelled, and so it is where
/// what is pending cannot be read. One that is gone by then, or that something else has replaced,
/// is forgotten, and nothing is cancelled.
pub proof fn law_clearing_advice_cancels_ours(
    c: CoordinatorView,
    advice: Advice,
    next: Next,
    after: CoordinatorView,
    now: SystemTime,
    at: SystemTime,
)
    requires
        c.ours is Some,
        !c.dry_run,
        advice != Advice::Shutdown,
        c.advised(advice, next, after, now),
    ensures
        next is AskPending,
        after.ours == c.ours,
        after.on_pending(Some(c.ours)) == (Next::Cancel, after),
        after.on_pending(None) == (Next::Cancel, after),
        after.on_cancelled(Ok(())).ours is None,
        c.is_ours(at) ==> after.on_pending(Some(Some(at))) == (Next::Cancel, after),
        !c.is_ours(at) ==> after.on_pending(Some(Some(at))) == (
            Next::Done(Action::Nothing),
            CoordinatorView { ours: None, ..after },
        ),
        after.on_pending(Some(None)) == (
            Next::Done(Action::Nothing),
            CoordinatorView { ours: None, ..after },
        ),
{
}

/// After a restart, a poweroff that carries our message is ours again: advice that still stands
/// leaves it as it is, and advice that clears cancels it.
pub proof fn law_a_restarted_coordinator_takes_its_own_back(
    c: CoordinatorView,
    at: SystemTime,
    heard: Heard,
    led: Led,
    after: CoordinatorView,
)
    requires
        c.ours is None,
        !c.dry_run,
        !c.stood_down,
        heard.pending == Some(Some(at)),
        c.recognised(Some(at), Some(SHUTDOWN_MESSAGE@)).hears(heard, led, after),
    ensures
        c.recognised(Some(at), Some(SHUTDOWN_MESSAGE@)).ours == Some(at),
        led == (Led {
            asked: true,
            next: if heard.advice == Advice::Shutdown {
                Next::Done(Action::Nothing)
            } else {
                Next::Cancel
            },
        }),
        after.ours == Some(at),
{
}

/// A poweroff that carries no message, or anyone else's, is never taken for ours.
pub proof fn law_another_message_is_not_ours(
    c: CoordinatorView,
    pending: Option<SystemTime>,
    message: Option<Seq<char>>,
)
    requires
        message != Some(SHUTDOWN_MESSAGE@),
    ensures
        c.recognised(pending, message) == c,
{
}

/// A poweroff that someone else has pending is neither claimed nor replaced.
pub proof fn law_someone_elses_is_left_alone(
    c: CoordinatorView,
    next: Next,
    after: CoordinatorView,
    now: SystemTime,
    at: SystemTime,
)
    requires
        c.ours is None,
        c.advised(Advice::Shutdown, next, after, now),
        next is AskPending,
    ensures
        after.on_pending(Some(Some(at))) == (Next::Done(Action::AlreadyPending { at }), after),
        after.ours is None,
{
}

/// An operator's cancellation is respected: once ours is found gone under standing advice, the
/// same advice does nothing and asks for nothing, however often it is repeated.
pub proof fn law_operators_cancellation_is_respected(
    states: Seq<CoordinatorView>,
    heard: Seq<Heard>,
    led: Seq<Led>,
    i: int,
)
    requires
        is_run(states, heard, led),
        states[0].ours is Some,
        !states[0].dry_run,
        !states[0].stood_down,
        forall|k: int|
            0 <= k < heard.len() ==> (#[trigger] heard[k]).advice == Advice::Shutdown,
        heard.len() > 0,
        heard[0].pending == Some(None::<SystemTime>),
        0 < i <= heard.len(),
    ensures
        led[0] == (Led { asked: true, next: Next::Done(Action::OverriddenByOperator) }),
        states[i].ours is None,
        states[i].stood_down,
        i < heard.len() ==> led[i] == (Led { asked: false, next: Next::Done(Action::Nothing) }),
    decreases i,
{
    assert(states[0].hears(heard[0], led[0], states[0int + 1]));
    if i > 1 {
        law_operators_cancellation_is_respected(states, heard, led, i - 1);
        assert(states[i - 1].hears(heard[i - 1], led[i - 1], states[i - 1 + 1]));
    }
    if i < heard.len() {
        assert(states[i].hears(heard[i], led[i], states[i + 1]));
    }
}

/// Standing down ends when the advice clears, which cancels nothing: a shutdown that is advised
/// after that is scheduled again where nothing is pending.
pub proof fn law_standing_down_ends_when_the_advice_clears(
    c: CoordinatorView,
    other: Heard,
    led: Led,
    clear: CoordinatorView,
    again: Heard,
    led_again: Led,
    after: CoordinatorView,
)
    requires
        c.stood_down,
        c.ours is None,
        !c.dry_run,
        other.advice != Advice::Shutdown,
        c.hears(other, led, clear),
        again.advice == Advice::Shutdown,
        again.pending == Some(None::<SystemTime>),
        clear.hears(again, led_again, after),
    ensures
        led == (Led { asked: false, next: Next::Done(Action::Nothing) }),
        !clear.stood_down,
        clear.ours is None,
        led_again == (Led {
            asked: true,
            next: Next::Schedule { delay: c.delay, message: SHUTDOWN_MESSAGE },
        }),
{
}

/// A dry run asks for nothing: neither to schedule, nor to cancel, nor what is pending.
pub proof fn law_dry_run_asks_for_nothing(
    c: CoordinatorView,
    advice: Advice,
    next: Next,
    after: CoordinatorView,
    now: SystemTime,
)
    requires
        c.dry_run,
        c.advised(advice, next, after, now),
    ensures
        next is Done,
{
}

/// The last thing that was reported, if anything was.
pub open spec fn last_reported(led: Seq<Led>) -> Option<Next>
    decreases led.len(),
{
    if led.len() == 0 {
        None
    } else if led.last().next == Next::Done(Action::Nothing) {
        last_reported(led.drop_last())
    } else {
        Some(led.last().next)
    }
}

/// What a new dry run reports alternates: the poweroff that it would schedule, when a shutdown is
/// advised, then that it would cancel it, when anything else is, and so on, with silence in
/// between.
pub proof fn law_dry_run_reports_alternate(
    states: Seq<CoordinatorView>,
    heard: Seq<Heard>,
    led: Seq<Led>,
    i: int,
)
    requires
        is_run(states, heard, led),
        states[0].dry_run,
        states[0].ours is None,
        !states[0].stood_down,
        0 <= i <= heard.len(),
    ensures
        states[i].dry_run,
        !states[i].stood_down,
        states[i].ours is Some <==> last_reported(led.take(i)) == Some(
            Next::Done(Action::WouldSchedule),
        ),
        states[i].ours is None ==> last_reported(led.take(i)) is None || last_reported(
            led.take(i),
        ) == Some(Next::Done(Action::WouldCancel)),
        i < heard.len() ==> !led[i].asked && led[i].next == (if heard[i].advice
            == Advice::Shutdown && last_reported(led.take(i)) != Some(
            Next::Done(Action::WouldSchedule),
        ) {
            Next::Done(Action::WouldSchedule)
        } else if heard[i].advice != Advice::Shutdown && last_reported(led.take(i)) == Some(
            Next::Done(Action::WouldSchedule),
        ) {
            Next::Done(Action::WouldCancel)
        } else {
            Next::Done(Action::Nothing)
        }),
    decreases i,
{
    if i > 0 {
        law_dry_run_reports_alternate(states, heard, led, i - 1);
        assert(states[i - 1].hears(heard[i - 1], led[i - 1], states[i - 1 + 1]));
        assert(led.take(i).drop_last() =~= led.take(i - 1));
        assert(led.take(i).last() == led[i - 1]);
    }
    if i < heard.len() {
        assert(states[i].hears(heard[i], led[i], states[i + 1]));
    }
}

/// A poweroff is never immediate: the delay handed to `shutdown` is at least a minute, and no
/// shorter than what was configured.
pub proof fn law_never_immediate(delay: Duration)
    ensures
        whole_minutes(delay) >= 1,
        whole_minutes(delay) * 60 >= delay.secs(),
{
}

/// The minutes handed to `shutdown` are the least whole number, and not below one, that covers the
/// delay.
pub proof fn law_the_delay_is_covered_and_no_more(delay: Duration, m: u64)
    requires
        call_ensures(poweroff_minutes, (delay,), m),
    ensures
        m >= 1,
        m * 60 >= delay.secs(),
        m > 1 ==> (m - 1) * 60 < delay.secs(),
{
}

/// The argument of `shutdown` is a plus sign and that number of minutes.
pub proof fn law_the_argument_says_the_minutes(delay: Duration, s: String, m: nat)
    requires
        call_ensures(shutdown_argument, (delay,), s),
        1 <= m <= u64::MAX,
        m * 60 >= delay.secs(),
        m > 1 ==> (m - 1) * 60 < delay.secs(),
    ensures
        s@.len() >= 2,
        s@[0] == '+',
        number(s@.skip(1), u64::MAX as nat) == Some(m),
{
    reveal_strlit("+");
    law_number_of_decimal(m, u64::MAX as nat);
    assert(s@.skip(1) =~= decimal(m));
    law_decimal_is_digits(m);
}

/// A shutdown that is advised is scheduled, where nothing is known to be pending: after the delay
/// that was configured, with the battery's message. One that cannot be scheduled is tried again
/// at the next advice.
pub proof fn law_advice_schedules(
    c: CoordinatorView,
    next: Next,
    asking: CoordinatorView,
    now: SystemTime,
    pending: Option<Option<SystemTime>>,
    e: String,
    again: Next,
    after: CoordinatorView,
)
    requires
        c.ours is None,
        !c.dry_run,
        !c.stood_down,
        c.advised(Advice::Shutdown, next, asking, now),
        pending is None || pending->0 is None,
        asking.on_pending(pending).1.on_scheduled(Err(e), false).advised(
            Advice::Shutdown,
            again,
            after,
            now,
        ),
    ensures
        next is AskPending,
        asking.on_pending(pending).0 matches Next::Schedule { delay, message } && delay == c.delay
            && message@
            == "UPS battery critical: powering off to protect the filesystem. Restore mains power to cancel."@,
        again is AskPending,
        after.on_pending(pending).0 == asking.on_pending(pending).0,
{
}

/// A cancellation that failed is tried again: ours is still ours, and the next advice that is not to
/// shut down asks for what is pending again.
pub proof fn law_a_failed_cancellation_is_tried_again(
    c: CoordinatorView,
    advice: Advice,
    e: String,
    next: Next,
    after: CoordinatorView,
    now: SystemTime,
)
    requires
        c.ours is Some,
        !c.dry_run,
        advice != Advice::Shutdown,
        c.on_cancelled(Err(e)).advised(advice, next, after, now),
    ensures
        c.on_cancelled(Err(e)).ours == c.ours,
        next is AskPending,
        after.on_pending(Some(c.ours)).0 is Cancel,
{
}

/// A poweroff that is noted by a dry run is the delay ahead of the advice.
pub proof fn law_a_dry_run_notes_the_delay(
    c: CoordinatorView,
    next: Next,
    after: CoordinatorView,
    now: SystemTime,
)
    requires
        c.dry_run,
        c.ours is None,
        !c.stood_down,
        c.advised(Advice::Shutdown, next, after, now),
    ensures
        next == Next::Done(Action::WouldSchedule),
        after.ours is Some,
        (after.ours->0).ns() - now.ns() == c.delay.ns(),
{
}

proof fn lemma_quoted_kind(kind: Seq<char>)
    requires
        kind.len() > 0,
        kind[0] != '"',
        kind.last() != '"',
    ensures
        untrailed(unled(seq!['"'] + kind + seq!['"'], '"'), '"') == kind,
{
    let q = seq!['"'] + kind + seq!['"'];
    let a = kind + seq!['"'];
    assert(q.skip(1) =~= a);
    assert(a[0] == kind[0]);
    assert(unled(a, '"') == a);
    assert(unled(q, '"') == a);
    assert(a.drop_last() =~= kind);
    assert(untrailed(kind, '"') == kind);
}

proof fn lemma_last_at(head: Seq<char>, tail: Seq<char>)
    requires
        forall|i: int| 0 <= i < tail.len() ==> tail[i] != ' ',
    ensures
        cut_last(head + seq![' '] + tail, ' ') == Some((head, tail)),
    decreases tail.len(),
{
    lemma_last_space(head, tail);
    let s = head + seq![' '] + tail;
    assert(s.take(head.len() as int) =~= head);
    assert(s.skip(head.len() as int + 1) =~= tail);
}

proof fn lemma_last_space(head: Seq<char>, tail: Seq<char>)
    requires
        forall|i: int| 0 <= i < tail.len() ==> tail[i] != ' ',
    ensures
        last_at(head + seq![' '] + tail, ' ') == head.len(),
    decreases tail.len(),
{
    let s = head + seq![' '] + tail;
    if tail.len() > 0 {
        let t = tail.drop_last();
        assert(s.drop_last() =~= head + seq![' '] + t);
        assert(s.last() == tail.last());
        assert forall|i: int| 0 <= i < t.len() implies t[i] != ' ' by {
            assert(t[i] == tail[i]);
        }
        lemma_last_space(head, t);
    } else {
        assert(s.last() == ' ');
    }
}

/// What is printed of a scheduled shutdown is read back: its kind, and its time in microseconds.
/// Nothing is scheduled where the kind is empty, or the time is none.
pub proof fn law_a_scheduled_shutdown_is_read_back(
    output: &str,
    kind: Seq<char>,
    usec: nat,
    r: Option<(String, SystemTime)>,
)
    requires
        call_ensures(parse_scheduled_shutdown, (output,), r),
        output@ == "(st) \""@ + kind + "\" "@ + decimal(usec) + "\n"@,
        kind.len() > 0 ==> kind[0] != '"' && kind.last() != '"',
        usec <= u64::MAX,
    ensures
        r is Some <==> kind.len() > 0 && 0 < usec < u64::MAX,
        r is Some ==> (r->0).0@ == kind && (r->0).1.ns() == usec * 1_000,
{
    reveal_strlit("(st) \"");
    reveal_strlit("\" ");
    reveal_strlit("\n");
    reveal_strlit("(st)");
    law_decimal_is_digits(usec);
    law_number_of_decimal(usec, u64::MAX as nat);
    let d = decimal(usec);
    let q = seq!['"'] + kind + seq!['"'];
    let inner = q + seq![' '] + d;
    let o = "(st)"@ + seq![' '] + inner;
    assert(output@ =~= o + seq!['\n']);
    assert(output@.drop_last() =~= o);
    assert(o.last() == d.last());
    assert(is_digit(d.last()) && is_digit(d[0]));
    assert(trim_end(o) == o);
    assert(trim_end(output@) == o);
    assert(trim_start(o) == o);
    assert(trim_end(output@) == o);
    lemma_trim(o, output@);
    assert(begins(o, "(st)"@)) by {
        assert(o.take(4) =~= "(st)"@);
    }
    let rest = o.skip(4);
    assert(rest =~= seq![' '] + inner);
    assert(rest.skip(1) =~= inner);
    assert(inner[0] == '"');
    assert(inner.last() == d.last());
    assert(trim_start(inner) == inner);
    assert(trim_start(rest) == inner);
    assert(trim_end(inner) == inner);
    assert(rest.last() == d.last());
    assert(trim_end(rest) == rest);
    assert(trimmed(rest) == inner);
    assert forall|i: int| 0 <= i < d.len() implies d[i] != ' ' by {
        assert(is_digit(d[i]));
    }
    lemma_last_at(q, d);
    assert(q[0] == '"' && q.last() == '"');
    assert(trim_start(q) == q && trim_end(q) == q && trimmed(q) == q);
    assert(trim_start(d) == d && trim_end(d) == d && trimmed(d) == d);
    if kind.len() > 0 {
        lemma_quoted_kind(kind);
    } else {
        assert(q =~= seq!['"', '"']);
        assert(q.skip(1) =~= seq!['"']);
        assert(seq!['"'].skip(1) =~= Seq::<char>::empty());
        reveal_with_fuel(unled, 3);
        assert(unled(q, '"') =~= Seq::<char>::empty());
        assert(untrailed(Seq::<char>::empty(), '"') =~= Seq::<char>::empty());
    }
}

proof fn lemma_trim(o: Seq<char>, text: Seq<char>)
    requires
        trim_end(text) == o,
        o.len() > 0 ==> !is_space(o[0]),
        text == o + seq!['\n'],
        o.len() > 0,
    ensures
        trimmed(text) == o,
{
    assert(text[0] == o[0]);
    assert(trim_start(text) == text);
}

} // verus!
