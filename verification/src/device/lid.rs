//! What closing and opening a laptop lid does: the policy, without any I/O.
//!
//! Lid changes and the passing of time go in; effects come out, to be carried out in the desktop
//! session. Two behaviours:
//!
//! - **power-save**: while the lid is closed the screen is off, and optionally the radios and the
//!   CPU are turned down. Opening the lid undoes exactly what closing it did.
//! - **shutdown**: closing the lid raises an alert with a sound, and after the delay the machine
//!   powers off -- unless the lid was opened in the meantime.

use crate::device::config::LidConfig;
use crate::text::same;
use crate::time::{lemma_duration_by_ns, Duration, MAX_NANOS, NANOS_PER_SEC};
use vstd::prelude::*;

verus! {

/// Something to do about the lid.
#[derive(Clone, Copy, Debug, PartialEq, Eq, Structural)]
pub enum Effect {
    /// Turn the screen off.
    ScreenOff,
    /// Turn the screen back on -- and wake it: the panel goes dark with the lid whatever software
    /// does, and the desktop does not bring it back by itself.
    ScreenOn,
    /// Turn off the Wi-Fi and Bluetooth that are on, remembering which.
    RadiosOff,
    /// Turn back on what `RadiosOff` turned off.
    RadiosRestore,
    /// Cap the CPU at its lowest frequency (`true`), or lift the cap (`false`).
    CpuCap(bool),
    /// Tell the user, with a sound, that the machine powers off in this long.
    ShutdownAlert(Duration),
    /// Tell the user the shutdown was called off.
    ShutdownCancelled,
    /// Power off now.
    PowerOff,
}

#[derive(Clone, Copy, Debug, PartialEq, Eq, Structural)]
enum Behaviour {
    PowerSave,
    Shutdown,
}

/// What a power-save close turned down besides the screen.
#[derive(Clone, Copy, Debug, PartialEq, Eq, Structural)]
pub struct Saving {
    /// The radios.
    pub radios: bool,
    /// The CPU.
    pub cpu: bool,
}

/// The lid policy.
#[derive(Clone, Debug)]
pub struct Lid {
    behaviour: Behaviour,
    radios_off: bool,
    cpu_throttle: bool,
    delay: Duration,
    /// The lid state last seen; `None` before the first report.
    closed: Option<bool>,
    /// What closing the lid turned down, so opening it restores exactly that.
    saving: Option<Saving>,
    /// When the poweroff is due, on the caller's clock.
    shutdown_at: Option<Duration>,
    /// Set once the poweroff has been asked for, so it is asked for once.
    powering_off: bool,
}

/// What the lid policy knows.
pub struct LidView {
    /// Whether closing the lid powers the machine off, rather than saving power.
    pub shuts_down: bool,
    /// What saving power turns down besides the screen.
    pub wanted: Saving,
    /// How long after the alert the machine powers off.
    pub delay: Duration,
    /// The lid state last seen.
    pub closed: Option<bool>,
    /// What closing the lid turned down.
    pub saving: Option<Saving>,
    /// When the poweroff is due, in nanoseconds on the caller's clock.
    pub shutdown_at: Option<nat>,
    /// Whether the poweroff has been asked for.
    pub powering_off: bool,
}

impl View for Lid {
    type V = LidView;

    closed spec fn view(&self) -> LidView {
        LidView {
            shuts_down: self.behaviour == Behaviour::Shutdown,
            wanted: Saving { radios: self.radios_off, cpu: self.cpu_throttle },
            delay: self.delay,
            closed: self.closed,
            saving: self.saving,
            shutdown_at: match self.shutdown_at {
                Some(d) => Some(d.ns()),
                None => None,
            },
            powering_off: self.powering_off,
        }
    }
}

/// What saving power does.
pub open spec fn turned_down(s: Saving) -> Seq<Effect> {
    seq![Effect::ScreenOff] + (if s.radios {
        seq![Effect::RadiosOff]
    } else {
        seq![]
    }) + (if s.cpu {
        seq![Effect::CpuCap(true)]
    } else {
        seq![]
    })
}

/// What undoes it.
pub open spec fn undone(s: Saving) -> Seq<Effect> {
    seq![Effect::ScreenOn] + (if s.radios {
        seq![Effect::RadiosRestore]
    } else {
        seq![]
    }) + (if s.cpu {
        seq![Effect::CpuCap(false)]
    } else {
        seq![]
    })
}

/// The effect that undoes an effect of saving power.
pub open spec fn opposite(e: Effect) -> Effect {
    match e {
        Effect::ScreenOff => Effect::ScreenOn,
        Effect::RadiosOff => Effect::RadiosRestore,
        Effect::CpuCap(on) => Effect::CpuCap(!on),
        other => other,
    }
}

impl LidView {
    /// What is known, and done, when the lid is closed at `now`.
    pub open spec fn on_close(self, now: nat) -> (LidView, Seq<Effect>) {
        if !self.shuts_down {
            (LidView { saving: Some(self.wanted), ..self }, turned_down(self.wanted))
        } else if self.powering_off {
            (self, Seq::empty())
        } else {
            (
                LidView { shutdown_at: Some(now + self.delay.ns()), ..self },
                seq![Effect::ShutdownAlert(self.delay)],
            )
        }
    }

    /// What is known, and done, when the lid is opened.
    pub open spec fn on_open(self) -> (LidView, Seq<Effect>) {
        (
            LidView { saving: None, shutdown_at: None, ..self },
            (match self.saving {
                Some(s) => undone(s),
                None => seq![Effect::ScreenOn],
            }) + (if self.shutdown_at is Some {
                seq![Effect::ShutdownCancelled]
            } else {
                seq![]
            }),
        )
    }

    /// What is known, and done, on a report of the lid at `now`. The first report only sets the
    /// starting point.
    pub open spec fn reported(self, closed: bool, now: nat) -> (LidView, Seq<Effect>) {
        let seen = LidView { closed: Some(closed), ..self };
        if self.closed == Some(false) && closed {
            seen.on_close(now)
        } else if self.closed == Some(true) && !closed {
            seen.on_open()
        } else {
            (seen, Seq::empty())
        }
    }

    /// What is known, and done, when time has passed.
    pub open spec fn ticked(self, now: nat) -> (LidView, Seq<Effect>) {
        if self.shutdown_at is Some && now >= self.shutdown_at->0 && self.closed == Some(true)
            && !self.powering_off {
            (
                LidView { shutdown_at: None, powering_off: true, ..self },
                seq![Effect::PowerOff],
            )
        } else {
            (self, Seq::empty())
        }
    }

    /// What is known, and done, when the agent stops.
    pub open spec fn restored(self) -> (LidView, Seq<Effect>) {
        (
            LidView { saving: None, shutdown_at: None, ..self },
            match self.saving {
                Some(s) => undone(s),
                None => Seq::empty(),
            },
        )
    }

    /// What holds of every lid: power is saved, and a poweroff is due, only while it is closed,
    /// and what is saved is what was configured.
    pub open spec fn well_formed(self) -> bool {
        &&& self.saving is Some ==> self.closed == Some(true) && !self.shuts_down && self.saving
            == Some(self.wanted)
        &&& self.shutdown_at is Some ==> self.closed == Some(true) && self.shuts_down
            && !self.powering_off
    }
}

impl Lid {
    /// A policy from the configuration.
    pub fn new(config: &LidConfig) -> (l: Self)
        ensures
            l@.shuts_down == (config.action@ == "shutdown"@),
            l@.wanted == (Saving { radios: config.radios_off, cpu: config.cpu_throttle }),
            l@.delay.ns() == config.shutdown_delay_s * NANOS_PER_SEC,
            l@.closed is None,
            l@.saving is None,
            l@.shutdown_at is None,
            !l@.powering_off,
            l@.well_formed(),
    {
        Lid {
            behaviour: if same(config.action.as_str(), "shutdown") {
                Behaviour::Shutdown
            } else {
                Behaviour::PowerSave
            },
            radios_off: config.radios_off,
            cpu_throttle: config.cpu_throttle,
            delay: Duration::from_secs(config.shutdown_delay_s),
            closed: None,
            saving: None,
            shutdown_at: None,
            powering_off: false,
        }
    }

    /// The lid is reported closed (`true`) or open, at `now` on the caller's monotonic clock.
    ///
    /// The first report only sets the starting point: a lid already closed when the agent starts
    /// -- at login, with an external screen -- must not power the machine off.
    pub fn report(&mut self, closed: bool, now: Duration) -> (r: Vec<Effect>)
        requires
            old(self)@.closed == Some(false) && closed && old(self)@.shuts_down
                && !old(self)@.powering_off ==> now.ns() + old(self)@.delay.ns() <= MAX_NANOS,
        ensures
            (final(self)@, r@) == old(self)@.reported(closed, now.ns()),
    {
        let before: Option<bool> = self.closed;
        self.closed = Some(closed);
        match (before, closed) {
            (Some(false), true) => self.on_close(now),
            (Some(true), false) => self.on_open(),
            _ => Vec::new(),
        }
    }

    /// Time has passed. Returns the poweroff once it is due.
    pub fn tick(&mut self, now: Duration) -> (r: Vec<Effect>)
        ensures
            (final(self)@, r@) == old(self)@.ticked(now.ns()),
    {
        let due: bool = match self.shutdown_at {
            Some(at) => now.as_nanos() >= at.as_nanos(),
            None => false,
        };
        if due && matches!(self.closed, Some(true)) && !self.powering_off {
            self.shutdown_at = None;
            self.powering_off = true;
            vec![Effect::PowerOff]
        } else {
            Vec::new()
        }
    }

    /// When `tick` next has something to do.
    pub fn next_deadline(&self) -> (d: Option<Duration>)
        ensures
            match d {
                Some(d) => self@.shutdown_at == Some(d.ns()),
                None => self@.shutdown_at is None,
            },
    {
        self.shutdown_at
    }

    /// What to undo if the agent stops while the lid is closed: the screen, radios and CPU cap
    /// must not stay down because the agent went away.
    pub fn restore_all(&mut self) -> (r: Vec<Effect>)
        ensures
            (final(self)@, r@) == old(self)@.restored(),
    {
        self.shutdown_at = None;
        match self.saving {
            Some(s) => {
                self.saving = None;
                undo(s)
            },
            None => Vec::new(),
        }
    }

    fn on_close(&mut self, now: Duration) -> (r: Vec<Effect>)
        requires
            old(self)@.shuts_down && !old(self)@.powering_off ==> now.ns()
                + old(self)@.delay.ns() <= MAX_NANOS,
        ensures
            (final(self)@, r@) == old(self)@.on_close(now.ns()),
    {
        match self.behaviour {
            Behaviour::PowerSave => {
                let saving: Saving = Saving { radios: self.radios_off, cpu: self.cpu_throttle };
                self.saving = Some(saving);
                let mut out: Vec<Effect> = vec![Effect::ScreenOff];
                if saving.radios {
                    out.push(Effect::RadiosOff);
                }
                if saving.cpu {
                    out.push(Effect::CpuCap(true));
                }
                assert(out@ =~= turned_down(saving));
                out
            },
            Behaviour::Shutdown => {
                if self.powering_off {
                    return Vec::new();
                }
                self.shutdown_at = Some(now.plus(self.delay));
                let out: Vec<Effect> = vec![Effect::ShutdownAlert(self.delay)];
                assert(out@ =~= seq![Effect::ShutdownAlert(self.delay)]);
                out
            },
        }
    }

    fn on_open(&mut self) -> (r: Vec<Effect>)
        ensures
            (final(self)@, r@) == old(self)@.on_open(),
    {
        // The screen is woken on every open, not only after a power-save close: the panel goes
        // dark with the lid on its own.
        let mut out: Vec<Effect> = match self.saving {
            Some(s) => undo(s),
            None => vec![Effect::ScreenOn],
        };
        self.saving = None;
        if self.shutdown_at.is_some() {
            out.push(Effect::ShutdownCancelled);
        }
        self.shutdown_at = None;
        assert(out@ =~= old(self)@.on_open().1);
        out
    }
}

fn undo(saving: Saving) -> (out: Vec<Effect>)
    ensures
        out@ == undone(saving),
{
    let mut out: Vec<Effect> = vec![Effect::ScreenOn];
    if saving.radios {
        out.push(Effect::RadiosRestore);
    }
    if saving.cpu {
        out.push(Effect::CpuCap(false));
    }
    assert(out@ =~= undone(saving));
    out
}

/// What holds of every lid keeps holding, whatever is reported, however much time passes, and when
/// the agent stops.
pub proof fn law_lid_stays_well_formed(l: LidView, closed: bool, now: nat)
    requires
        l.well_formed(),
    ensures
        l.reported(closed, now).0.well_formed(),
        l.ticked(now).0.well_formed(),
        l.restored().0.well_formed(),
{
}

/// Opening the lid undoes exactly what closing it did: the screen, then the radios and the CPU where
/// they were turned down, each with the opposite effect and in the same order. Everything is then
/// as it was before.
pub proof fn law_opening_undoes_closing(l: LidView, shut: nat, open: nat)
    requires
        l.well_formed(),
        l.closed == Some(false),
        !l.shuts_down,
    ensures
        l.reported(true, shut).0.reported(false, open).1 == l.reported(true, shut).1.map_values(
            |e: Effect| opposite(e),
        ),
        l.reported(true, shut).1 == turned_down(l.wanted),
        l.reported(true, shut).0.reported(false, open).1 == undone(l.wanted),
        l.reported(true, shut).0.reported(false, open).0 == l,
{
    let s = l.wanted;
    assert(undone(s) + Seq::<Effect>::empty() =~= undone(s));
    assert(undone(s) + Seq::<Effect>::empty() =~= turned_down(s).map_values(
        |e: Effect| opposite(e),
    ));
}

/// Stopping with the lid closed puts everything back too, and only once.
pub proof fn law_stopping_puts_everything_back(l: LidView, shut: nat)
    requires
        l.well_formed(),
        l.closed == Some(false),
        !l.shuts_down,
    ensures
        l.reported(true, shut).0.restored().1 == undone(l.wanted),
        l.reported(true, shut).0.restored().0.restored().1.len() == 0,
{
}

/// A lid that is closed when the agent starts does nothing: the first report has no effect, leaves
/// nothing due, and no time that passes after it has an effect.
pub proof fn law_first_report_does_nothing(l: LidView, closed: bool, now: nat, later: nat)
    requires
        l.well_formed(),
        l.closed is None,
    ensures
        l.reported(closed, now) == (
            LidView { closed: Some(closed), ..l },
            Seq::<Effect>::empty(),
        ),
        l.shutdown_at is None,
        l.reported(closed, now).0.ticked(later).1.len() == 0,
{
}

/// A repeated report of the same state is no change: nothing is done, and what is due stays due at
/// the same time.
pub proof fn law_repeated_reports_are_no_change(l: LidView, closed: bool, now: nat)
    requires
        l.closed == Some(closed),
    ensures
        l.reported(closed, now) == (l, Seq::<Effect>::empty()),
{
}

/// A lid opened in time calls the shutdown off: after it, no time that passes powers off.
pub proof fn law_opening_calls_the_shutdown_off(l: LidView, open: nat, later: nat)
    requires
        l.well_formed(),
        l.closed == Some(true),
        l.shutdown_at is Some,
    ensures
        l.reported(false, open).1.last() == Effect::ShutdownCancelled,
        l.reported(false, open).1[0] == Effect::ScreenOn,
        l.reported(false, open).0.ticked(later).1.len() == 0,
{
}

/// The machine powers off not before the delay is over, and not with the lid open.
pub proof fn law_poweroff_only_when_due(l: LidView, now: nat)
    requires
        l.ticked(now).1.contains(Effect::PowerOff),
    ensures
        l.closed == Some(true),
        l.shutdown_at is Some && now >= l.shutdown_at->0,
{
}

/// The poweroff is asked for once: after that, neither a bounce of the lid nor the passing of time
/// nor the end of the agent asks again, nor alerts.
pub proof fn law_poweroff_is_asked_once(l: LidView, closed: bool, now: nat, later: nat)
    requires
        l.well_formed(),
        l.powering_off,
    ensures
        l.reported(closed, now).0.powering_off,
        l.ticked(now).0.powering_off,
        l.restored().0.powering_off,
        !l.restored().1.contains(Effect::PowerOff),
        l.ticked(later).1.len() == 0,
        forall|i: int|
            0 <= i < l.reported(closed, now).1.len() ==> !(#[trigger] l.reported(
                closed,
                now,
            ).1[i] is ShutdownAlert) && l.reported(closed, now).1[i] != Effect::PowerOff,
{
}

/// Saving power never powers the machine off.
pub proof fn law_power_save_never_powers_off(l: LidView, now: nat)
    requires
        l.well_formed(),
        !l.shuts_down,
    ensures
        l.ticked(now).1.len() == 0,
{
}

/// Something that happens to a lid policy.
pub enum Event {
    /// The lid is reported.
    Report {
        /// Whether it is closed.
        closed: bool,
        /// When, on the caller's clock.
        now: nat,
    },
    /// Time has passed.
    Tick {
        /// What the caller's clock says.
        now: nat,
    },
    /// The agent stops, and puts everything back.
    Stop,
}

impl LidView {
    /// What is known, and done, on an event.
    pub open spec fn on(self, event: Event) -> (LidView, Seq<Effect>) {
        match event {
            Event::Report { closed, now } => self.reported(closed, now),
            Event::Tick { now } => self.ticked(now),
            Event::Stop => self.restored(),
        }
    }

    /// What is known after a row of events.
    pub open spec fn after(self, events: Seq<Event>) -> LidView
        decreases events.len(),
    {
        if events.len() == 0 {
            self
        } else {
            self.after(events.drop_last()).on(events.last()).0
        }
    }

    /// How many of a row of events power the machine off.
    pub open spec fn poweroffs(self, events: Seq<Event>) -> nat
        decreases events.len(),
    {
        if events.len() == 0 {
            0
        } else {
            let before = events.drop_last();
            self.poweroffs(before) + if self.after(before).on(events.last()).1.contains(
                Effect::PowerOff,
            ) {
                1nat
            } else {
                0nat
            }
        }
    }

    /// What a policy is before anything happened.
    pub open spec fn is_new(self) -> bool {
        self.closed is None && self.saving is None && self.shutdown_at is None
            && !self.powering_off
    }
}

/// What the last report of the lid said.
pub open spec fn last_report(events: Seq<Event>) -> Option<bool>
    decreases events.len(),
{
    if events.len() == 0 {
        None
    } else {
        match events.last() {
            Event::Report { closed, .. } => Some(closed),
            _ => last_report(events.drop_last()),
        }
    }
}

/// When the lid went from open to closed, if it has, with no opening and no stop since.
pub open spec fn shut_since(events: Seq<Event>) -> Option<nat>
    decreases events.len(),
{
    if events.len() == 0 {
        None
    } else {
        let before = events.drop_last();
        match events.last() {
            Event::Report { closed: false, .. } => None,
            Event::Report { closed: true, now } => if last_report(before) == Some(false) {
                Some(now)
            } else {
                shut_since(before)
            },
            Event::Tick { .. } => shut_since(before),
            Event::Stop => None,
        }
    }
}

/// What a policy knows after a row of events, said of the events.
proof fn lemma_after(l: LidView, events: Seq<Event>)
    requires
        l.is_new(),
    ensures
        ({
            let s = l.after(events);
            &&& s.well_formed()
            &&& s.shuts_down == l.shuts_down
            &&& s.delay == l.delay
            &&& s.closed == last_report(events)
            &&& shut_since(events) is Some ==> last_report(events) == Some(true)
            &&& l.poweroffs(events) == if s.powering_off {
                1nat
            } else {
                0nat
            }
            &&& s.shutdown_at == (if l.shuts_down && !s.powering_off && shut_since(events) is Some {
                Some(((shut_since(events)->0) + l.delay.ns()) as nat)
            } else {
                None
            })
        }),
    decreases events.len(),
{
    if events.len() > 0 {
        let before = events.drop_last();
        lemma_after(l, before);
        lemma_only_a_tick_powers_off(l.after(before), events.last());
    }
}

/// Only time that passes powers the machine off.
proof fn lemma_only_a_tick_powers_off(l: LidView, event: Event)
    ensures
        l.on(event).1.contains(Effect::PowerOff) <==> event is Tick && l.on(event).1.len() > 0,
        event is Tick ==> l.on(event).1 == (if l.on(event).0.powering_off && !l.powering_off {
            seq![Effect::PowerOff]
        } else {
            Seq::empty()
        }),
{
    if event is Tick && l.on(event).1.len() > 0 {
        assert(l.on(event).1[0] == Effect::PowerOff);
    }
    assert(!(event is Tick) ==> !l.on(event).1.contains(Effect::PowerOff));
}

/// Whatever happens to a new policy, the machine is powered off at most once, and then by time that
/// passes in shutdown mode, with the lid last reported closed: exactly at the first tick that comes
/// no sooner than the delay after the lid went from open to closed, if it was not opened, and the
/// agent did not stop, in between. No other tick does anything.
pub proof fn law_one_poweroff_and_only_when_due(l: LidView, events: Seq<Event>, event: Event)
    requires
        l.is_new(),
    ensures
        l.poweroffs(events) <= 1,
        event is Tick ==> l.after(events).on(event).1 == (if l.shuts_down && l.poweroffs(events)
            == 0 && shut_since(events) is Some && event->Tick_now >= (shut_since(events)->0)
            + l.delay.ns() {
            seq![Effect::PowerOff]
        } else {
            Seq::empty()
        }),
        !(event is Tick) ==> !l.after(events).on(event).1.contains(Effect::PowerOff),
        shut_since(events) is Some ==> last_report(events) == Some(true),
{
    lemma_after(l, events);
    lemma_only_a_tick_powers_off(l.after(events), event);
}

/// The lid's going from open to closed, which the delay counts from, is a report that said closed
/// after one that said open, and nothing since it has been an opening or a stop.
pub proof fn law_shut_since_a_change(events: Seq<Event>)
    requires
        shut_since(events) is Some,
    ensures
        exists|c: int|
            0 <= c < events.len() && #[trigger] events[c] == (Event::Report {
                closed: true,
                now: shut_since(events)->0,
            }) && last_report(events.take(c)) == Some(false) && (forall|k: int|
                c < k < events.len() ==> !(#[trigger] events[k] is Stop) && !(
                events[k] matches Event::Report { closed: false, .. })),
    decreases events.len(),
{
    let before = events.drop_last();
    let last = events.len() - 1;
    assert(before =~= events.take(last));
    let changes = last_report(before) == Some(false) && (events.last() matches Event::Report {
        closed: true,
        ..
    });
    if changes {
        assert(events[last] == events.last());
    } else {
        law_shut_since_a_change(before);
        let c = choose|c: int|
            0 <= c < before.len() && #[trigger] before[c] == (Event::Report {
                closed: true,
                now: shut_since(before)->0,
            }) && last_report(before.take(c)) == Some(false) && (forall|k: int|
                c < k < before.len() ==> !(#[trigger] before[k] is Stop) && !(
                before[k] matches Event::Report { closed: false, .. }));
        assert(before.take(c) =~= events.take(c));
        assert(events[c] == before[c]);
        assert forall|k: int| c < k < events.len() implies !(#[trigger] events[k] is Stop) && !(
        events[k] matches Event::Report { closed: false, .. }) by {
            if k < last {
                assert(events[k] == before[k]);
            }
        }
    }
}

/// In shutdown mode, a lid that closes raises the alert, with the delay, and the poweroff is due that
/// long after; nothing is turned down.
pub proof fn law_closing_in_shutdown_mode_alerts(l: LidView, shut: nat)
    requires
        l.shuts_down,
        l.closed == Some(false),
        !l.powering_off,
    ensures
        l.reported(true, shut).1 == seq![Effect::ShutdownAlert(l.delay)],
        l.reported(true, shut).0.shutdown_at is Some,
        l.reported(true, shut).0.shutdown_at->0 - shut == l.delay.ns(),
        l.reported(true, shut).0.saving == l.saving,
{
}

/// Every opening wakes the screen first, whatever closing did, and says so where it calls a shutdown
/// off.
pub proof fn law_every_opening_wakes_the_screen(l: LidView, now: nat)
    requires
        l.well_formed(),
        l.closed == Some(true),
    ensures
        l.reported(false, now).1.len() > 0,
        l.reported(false, now).1[0] == Effect::ScreenOn,
        l.reported(false, now).1.contains(Effect::ShutdownCancelled) <==> l.shutdown_at is Some,
        l.reported(false, now).0.closed == Some(false),
        l.reported(false, now).0.shutdown_at is None,
{
    let out = l.reported(false, now).1;
    if l.shutdown_at is Some {
        assert(out.last() == Effect::ShutdownCancelled);
    }
}

/// Saving power turns the screen off, and the radios and the CPU down exactly where that was
/// configured; putting things back touches the same things.
pub proof fn law_only_what_was_configured_is_turned_down(s: Saving)
    ensures
        turned_down(s)[0] == Effect::ScreenOff,
        turned_down(s).contains(Effect::RadiosOff) <==> s.radios,
        turned_down(s).contains(Effect::CpuCap(true)) <==> s.cpu,
        turned_down(s).len() == 1 + (if s.radios {
            1int
        } else {
            0
        }) + (if s.cpu {
            1int
        } else {
            0
        }),
        undone(s)[0] == Effect::ScreenOn,
        undone(s).contains(Effect::RadiosRestore) <==> s.radios,
        undone(s).contains(Effect::CpuCap(false)) <==> s.cpu,
        undone(s).len() == turned_down(s).len(),
{
    let t = turned_down(s);
    let u = undone(s);
    if s.radios {
        assert(t[1] == Effect::RadiosOff);
        assert(u[1] == Effect::RadiosRestore);
    }
    if s.cpu {
        assert(t.last() == Effect::CpuCap(true));
        assert(u.last() == Effect::CpuCap(false));
    }
}

/// A policy does what was configured: it powers off exactly where that is the action, after so many
/// seconds, and turns down what was asked for.
pub proof fn law_a_lid_does_what_was_configured(config: &LidConfig, l: Lid, d: Option<Duration>)
    requires
        call_ensures(Lid::new, (config,), l),
        call_ensures(Lid::next_deadline, (&l,), d),
    ensures
        l@.shuts_down <==> config.action@ == "shutdown"@,
        l@.wanted.radios == config.radios_off,
        l@.wanted.cpu == config.cpu_throttle,
        l@.delay.ns() == config.shutdown_delay_s * 1_000_000_000,
        l@.is_new(),
        d is None,
{
}

/// The poweroff is asked for at the very moment it is due, and at no moment before, where the lid is
/// still closed.
pub proof fn law_a_tick_at_the_deadline_powers_off(l: LidView, now: nat)
    requires
        l.well_formed(),
        l.shutdown_at is Some,
    ensures
        now >= l.shutdown_at->0 ==> l.ticked(now).1 == seq![Effect::PowerOff],
        now < l.shutdown_at->0 ==> l.ticked(now) == (l, Seq::<Effect>::empty()),
{
}

} // verus!
