//! The daemon's case-button thread: edges become presses, and presses become poweroffs.
//!
//! What a press means, and which shutdowns it may touch, is decided in `device::button`. Here it is
//! decided what is asked for, and said what was done every time, so a press that "did nothing" is
//! explained in the log.

use crate::device::button::{
    is_press, is_pulse, Action, Button, ButtonView, Edge, Pending, Why, DELAY,
};
use crate::device::power::{lemma_message_start, SHUTDOWN_MESSAGE};
use crate::text::{decimal, decimal_of, join, same};
use crate::time::{Duration, SystemTime};
use vstd::prelude::*;

verus! {

/// The line the case MCU pulses.
pub const LINE: u32 = 4;

/// What is broadcast to the terminals, and what the tray shows.
pub const MESSAGE: &'static str = "The Argon case button was pressed: powering off in one minute. Press it again to cancel.";

/// What an edge amounts to.
#[derive(Clone, Copy, Debug, PartialEq, Eq, Structural)]
pub enum Seen {
    /// Nothing yet.
    Nothing,
    /// A pulse of this many nanoseconds that is not a press.
    NotAPress {
        /// How wide it was.
        width_ns: u64,
    },
    /// A press, at this many nanoseconds of the line's clock.
    Press {
        /// When it ended.
        at_ns: u64,
    },
}

/// The width of a pulse.
pub open spec fn width(start: u64, end: u64) -> nat {
    if end >= start {
        (end - start) as nat
    } else {
        0
    }
}

/// What an edge amounts to, after the rising edge that is pending, and the one that is pending then.
pub open spec fn edge_seen(rising: Option<u64>, edge: Edge, at_ns: u64) -> (Option<u64>, Seen) {
    match edge {
        Edge::Rising => (Some(at_ns), Seen::Nothing),
        Edge::Falling => match rising {
            None => (None, Seen::Nothing),
            Some(start) => if is_pulse(width(start, at_ns)) {
                (None, Seen::Press { at_ns })
            } else {
                (None, Seen::NotAPress { width_ns: width(start, at_ns) as u64 })
            },
        },
    }
}

/// Takes an edge of the line, at `at_ns` on the line's own clock, so that telling a bounce is not
/// at the mercy of how late this thread happened to wake.
pub fn on_edge(rising: &mut Option<u64>, way: Edge, at_ns: u64) -> (s: Seen)
    ensures
        (*final(rising), s) == edge_seen(*old(rising), way, at_ns),
{
    match way {
        Edge::Rising => {
            *rising = Some(at_ns);
            Seen::Nothing
        },
        Edge::Falling => {
            let start: u64 = match *rising {
                Some(s) => s,
                None => {
                    return Seen::Nothing;
                },
            };
            *rising = None;
            let width_ns: u64 = if at_ns >= start {
                at_ns - start
            } else {
                0
            };
            if is_press(Duration::from_nanos(width_ns)) {
                Seen::Press { at_ns }
            } else {
                Seen::NotAPress { width_ns }
            }
        },
    }
}

/// What is logged of a pulse that is not a press.
pub fn not_a_press_line(width_ns: u64) -> (s: String)
    ensures
        s@ == "argond: button: ignored a "@ + decimal((width_ns / 1_000) as nat)
            + " us pulse on GPIO4: not a press"@,
{
    let mut s: String = join("argond: button: ignored a ", decimal_of(width_ns / 1_000).as_str());
    s.append(" us pulse on GPIO4: not a press");
    s
}

/// The button once a pending poweroff with this message was looked at: it is ours where it carries
/// the button's own message.
pub open spec fn recognised(
    button: ButtonView,
    pending: Pending,
    message: Option<Seq<char>>,
) -> ButtonView {
    match pending {
        Pending::At(at) => if message == Some(MESSAGE@) {
            ButtonView { ours: Some(at), ..button }
        } else {
            button
        },
        _ => button,
    }
}

/// Adopts a pending poweroff as ours if it carries the button's own message.
///
/// A restarted daemon has forgotten which poweroff it placed. Without this, a press during the
/// countdown after a restart would find the countdown "not ours" and leave it running. The message
/// is distinct from the low-battery path's, so a low-battery poweroff is never adopted.
pub fn recognise(button: &mut Button, pending: Pending, wall_message: Option<&str>)
    ensures
        final(button)@ == recognised(
            old(button)@,
            pending,
            match wall_message {
                Some(m) => Some(m@),
                None => None,
            },
        ),
{
    if let Pending::At(at) = pending {
        if let Some(m) = wall_message {
            if same(m, MESSAGE) {
                button.placed(at);
            }
        }
    }
}

/// A low-battery poweroff is never adopted: with the message that it carries, the button stays as it
/// is, whatever is pending.
pub proof fn law_a_low_battery_poweroff_is_never_adopted(button: ButtonView, pending: Pending)
    ensures
        recognised(button, pending, Some(SHUTDOWN_MESSAGE@)) == button,
{
    reveal_strlit("The Argon case button was pressed: powering off in one minute. Press it again to cancel.");
    lemma_message_start();
}

/// After a restart, a press during the button's own countdown still cancels it: once the pending
/// poweroff was recognised by its message, an armed button that is pressed late enough cancels.
pub proof fn law_a_restarted_button_cancels_its_own_countdown(
    button: ButtonView,
    at: SystemTime,
    now_ns: nat,
)
    requires
        button.pressed(now_ns, Pending::Nothing).1 is Schedule,
    ensures
        recognised(button, Pending::At(at), Some(MESSAGE@)).pressed(now_ns, Pending::At(at)).1
            is Cancel,
{
}

/// What a press leads to.
#[derive(Clone, Debug, PartialEq, Eq)]
pub enum Deed {
    /// Nothing but this line in the log.
    Log(String),
    /// Schedule a poweroff with this message after this delay, and hand what became of it to
    /// `on_scheduled`.
    Schedule {
        /// How far ahead, in seconds.
        delay_s: u64,
        /// What is broadcast, and what the poweroff is known by after a restart.
        message: &'static str,
    },
    /// Cancel the pending poweroff, and hand what became of it to `on_cancelled`.
    Cancel,
}

/// Why a press was ignored, in words.
pub open spec fn why_words(why: Why) -> Seq<char> {
    match why {
        Why::NotConfigured => "[button] action is none"@,
        Why::Bounce => "too soon after the last press (one press, bouncing)"@,
        Why::SomeoneElses => "a shutdown is already pending that the button did not place, so it is left alone"@,
        Why::CannotTell => "logind could not be read, so nothing was scheduled or cancelled"@,
    }
}

fn why_text(why: Why) -> (s: &'static str)
    ensures
        s@ == why_words(why),
{
    match why {
        Why::NotConfigured => "[button] action is none",
        Why::Bounce => "too soon after the last press (one press, bouncing)",
        Why::SomeoneElses => "a shutdown is already pending that the button did not place, so it is left alone",
        Why::CannotTell => "logind could not be read, so nothing was scheduled or cancelled",
    }
}

/// Decides what a press at `now` leads to. `full` is whether a press acts, or only logs what it
/// would do: power actions, scheduling and cancelling alike, are a full-mode operation, and outside
/// full mode no press asks for one.
pub fn act(button: &mut Button, now: Duration, pending: Pending, full: bool) -> (d: Deed)
    ensures
        final(button)@ == old(button)@.pressed(now.ns(), pending).0,
        match old(button)@.pressed(now.ns(), pending).1 {
            Action::Schedule => if full {
                d == (Deed::Schedule { delay_s: DELAY, message: MESSAGE })
            } else {
                d matches Deed::Log(s) && s@
                    == "argond: button: pressed; would power off in 60 s, but mode is not full"@
            },
            Action::Cancel => if full {
                d is Cancel
            } else {
                d matches Deed::Log(s) && s@
                    == "argond: button: pressed again; would cancel the poweroff, but mode is not full"@
            },
            Action::Ignore(why) => d matches Deed::Log(s) && s@
                == "argond: button: pressed; nothing done: "@ + why_words(why),
        },
        !full ==> d is Log,
{
    match button.press(now, pending) {
        Action::Schedule => {
            if full {
                Deed::Schedule { delay_s: DELAY, message: MESSAGE }
            } else {
                Deed::Log(
                    "argond: button: pressed; would power off in 60 s, but mode is not full".to_owned(),
                )
            }
        },
        Action::Cancel => {
            if full {
                Deed::Cancel
            } else {
                Deed::Log(
                    "argond: button: pressed again; would cancel the poweroff, but mode is not full".to_owned(),
                )
            }
        },
        Action::Ignore(why) => Deed::Log(
            join("argond: button: pressed; nothing done: ", why_text(why)),
        ),
    }
}

/// Takes what became of scheduling the poweroff, and returns what to log. A refused one is not
/// remembered as ours.
pub fn on_scheduled(button: &mut Button, at: Result<SystemTime, String>) -> (log: String)
    ensures
        final(button)@ == (match at {
            Ok(at) => ButtonView { ours: Some(at), ..old(button)@ },
            Err(_) => old(button)@,
        }),
        log@ == match at {
            Ok(_) => "argond: button: pressed; poweroff in 60 s -- press again to cancel"@,
            Err(e) => "argond: button: pressed, but the poweroff was refused: "@ + e@,
        },
{
    match at {
        Ok(at) => {
            button.placed(at);
            "argond: button: pressed; poweroff in 60 s -- press again to cancel".to_owned()
        },
        Err(e) => join("argond: button: pressed, but the poweroff was refused: ", e.as_str()),
    }
}

/// Takes what became of cancelling the poweroff, and returns what to log.
pub fn on_cancelled(button: &mut Button, done: Result<(), String>) -> (log: String)
    ensures
        final(button)@ == (match done {
            Ok(()) => ButtonView { ours: None, ..old(button)@ },
            Err(_) => old(button)@,
        }),
        log@ == match done {
            Ok(()) => "argond: button: pressed again; poweroff cancelled"@,
            Err(e) => "argond: button: pressed again, but the cancel failed: "@ + e@,
        },
{
    match done {
        Ok(()) => {
            button.cancelled();
            "argond: button: pressed again; poweroff cancelled".to_owned()
        },
        Err(e) => join("argond: button: pressed again, but the cancel failed: ", e.as_str()),
    }
}

/// What is logged when the button is watched.
pub fn watching_line(full: bool) -> (s: String)
    ensures
        s@ == "argond: button: watching GPIO4; a press "@ + (if full {
            "schedules"@
        } else {
            "would schedule (mode is not full, so it only logs)"@
        }) + " a poweroff 60 s out, and a second press cancels it"@,
{
    let mut s: String = join(
        "argond: button: watching GPIO4; a press ",
        if full {
            "schedules"
        } else {
            "would schedule (mode is not full, so it only logs)"
        },
    );
    s.append(" a poweroff 60 s out, and a second press cancels it");
    s
}

/// A pulse is measured from its rising to its falling edge, and is a press from ten to forty
/// milliseconds; each rising edge starts a new one, and a falling edge without one is nothing.
pub proof fn law_a_pulse_is_measured_edge_to_edge(start: u64, end: u64)
    requires
        start <= end,
    ensures
        forall|m: &mut Option<u64>, s: Seen| #[trigger]
            call_ensures(on_edge, (m, Edge::Rising, start), s) ==> *final(m) == Some(start) && s
                == Seen::Nothing,
        forall|m: &mut Option<u64>, s: Seen| #[trigger]
            call_ensures(on_edge, (m, Edge::Falling, end), s) && *m == Some(start) ==> {
                &&& *final(m) is None
                &&& s == (Seen::Press { at_ns: end }) <==> 10_000_000 <= end - start <= 40_000_000
                &&& s is Press || s == (Seen::NotAPress { width_ns: (end - start) as u64 })
            },
        forall|m: &mut Option<u64>, s: Seen| #[trigger]
            call_ensures(on_edge, (m, Edge::Falling, end), s) && *m is None ==> *final(m) is None
                && s == Seen::Nothing,
{
}

/// A pending poweroff is taken for the button's exactly where it carries the button's message.
pub proof fn law_only_the_buttons_message_is_recognised(at: SystemTime, message: &str)
    ensures
        forall|b: &mut Button, u: ()| #[trigger]
            call_ensures(recognise, (b, Pending::At(at), Some(message)), u) ==> {
                &&& message@
                    == "The Argon case button was pressed: powering off in one minute. Press it again to cancel."@
                    ==> final(b)@.ours == Some(at)
                &&& message@
                    != "The Argon case button was pressed: powering off in one minute. Press it again to cancel."@
                    ==> final(b)@ == b@
                &&& final(b)@.armed == b@.armed
                &&& final(b)@.last == b@.last
            },
        forall|b: &mut Button, u: ()| #[trigger]
            call_ensures(recognise, (b, Pending::At(at), None::<&str>), u) ==> final(b)@ == b@,
        forall|b: &mut Button, u: ()| #[trigger]
            call_ensures(recognise, (b, Pending::Nothing, Some(message)), u) ==> final(b)@ == b@,
{
}

/// In full mode a press does what was decided: it schedules a poweroff a minute ahead with the
/// button's message, or cancels the button's own. Outside it, and where a press is ignored, it only
/// logs.
pub proof fn law_a_press_acts_in_full_mode_only(now: Duration, pending: Pending, full: bool)
    ensures
        forall|b: &mut Button, d: Deed| #[trigger]
            call_ensures(act, (b, now, pending, full), d) ==> {
                &&& d is Schedule <==> full && b@.pressed(now.ns(), pending).1 == Action::Schedule
                &&& d is Cancel <==> full && b@.pressed(now.ns(), pending).1 == Action::Cancel
                &&& d matches Deed::Schedule { delay_s, message } ==> delay_s == 60 && message@
                    == "The Argon case button was pressed: powering off in one minute. Press it again to cancel."@
                &&& final(b)@ == b@.pressed(now.ns(), pending).0
            },
{
}

/// A poweroff that was placed is the button's, one that was refused is not; one that was cancelled is
/// no longer, one that could not be still is.
pub proof fn law_what_became_of_it_is_remembered(at: SystemTime, e: String)
    ensures
        forall|b: &mut Button, log: String| #[trigger]
            call_ensures(on_scheduled, (b, Ok::<SystemTime, String>(at)), log) ==> final(b)@.ours
                == Some(at),
        forall|b: &mut Button, log: String| #[trigger]
            call_ensures(on_scheduled, (b, Err::<SystemTime, String>(e)), log) ==> final(b)@ == b@,
        forall|b: &mut Button, log: String| #[trigger]
            call_ensures(on_cancelled, (b, Ok::<(), String>(())), log) ==> final(b)@.ours is None,
        forall|b: &mut Button, log: String| #[trigger]
            call_ensures(on_cancelled, (b, Err::<(), String>(e)), log) ==> final(b)@ == b@,
{
}

} // verus!
