//! The daemon's UPS thread: what it starts with, what it does with each reading, and how it keeps
//! the UPS clock and the wake schedule.


use crate::device::clock_sync::{judge, judged, Verdict, THRESHOLD_S};
use crate::device::config::{requested, requested_mode, Config};
use crate::device::control::{Answer, Request, Response};
use crate::device::drift::{Action as DriftAction, Entry};
use crate::device::mode::Mode;
use crate::device::power::{Action, Advice};
use crate::device::ups::Writes;
use crate::device::ups_service::{among, contention, has_unit, ups_vendor_units, Cycle};
use crate::device::ups_time::{
    law_valid_times_are_in_range, UpsTime, END_SECOND, FIRST_SECOND,
};
use crate::device::wake::{
    assess, assessed, is_same_minute, lead, minute_start, park_at, parking, poweroff_message,
    same_minute, schedule_for, wake_message, Assessment, ParkReason, RequestError, MIN_LEAD,
    POWEROFF_DELAY,
};
use crate::text::{
    begins, cut, debug_of, debug_text, decimal, decimal_of, digits_value, first_at, join, join_all, joined, lemma_padded_value, padded,
    padded_of, plus_decimal, plus_decimal_of, same, signed_decimal, signed_decimal_of, split_once,
    texts,
};
use crate::time::{Duration, SystemTime};
use vstd::prelude::*;

verus! {

/// How many poll intervals may pass with no heartbeat before the thread counts as stalled.
pub const STALL_INTERVALS: u32 = 4;

/// Consecutive failed reads before the port is closed and reopened. The device has been seen to
/// re-enumerate under a new node name; a link held open across that never recovers on its own.
pub const REOPEN_AFTER: u32 = 3;

// ---------------------------------------------------------------------------------------------
// Starting
// ---------------------------------------------------------------------------------------------

/// What UPS monitoring is started with.
#[derive(Clone, Debug, PartialEq, Eq)]
pub struct Plan {
    /// Whether a shutdown is only reported, never scheduled.
    pub dry_run: bool,
    /// Which writes may reach the UPS.
    pub writes: Writes,
    /// The port, or `None` for the one to be discovered.
    pub port: Option<String>,
    /// Seconds between two polls.
    pub interval_s: u64,
    /// Seconds from a confirmed critical battery to the poweroff.
    pub delay_s: u64,
    /// Where the status is published.
    pub state_file: String,
    /// What is logged of it, in order.
    pub log: Vec<String>,
}

/// Whether monitoring is started.
#[derive(Clone, Debug, PartialEq, Eq)]
pub enum Start {
    /// It is not; what is logged of it, in order.
    No(Vec<String>),
    /// It is.
    Monitor(Plan),
}

/// Whether shutdowns are carried out: only in mode `full`, and only where nothing of the vendor's
/// has its own shutdown logic running.
pub open spec fn enforces(mode: Mode, contended: Seq<Seq<char>>) -> bool {
    mode == Mode::Full && contended.len() == 0
}

/// What is logged of the shutdown.
pub open spec fn shutdown_words(mode: Mode, contended: Seq<Seq<char>>, delay_min: nat) -> Seq<char> {
    if enforces(mode, contended) {
        "argond: ups: shutdown ENABLED: poweroff "@ + decimal(delay_min)
            + " min after the battery is confirmed critical, cancelled if mains returns"@
    } else if mode == Mode::Full {
        "argond: ups: shutdown in dry run: "@ + joined(contended, ", "@)
            + " still running and has its own shutdown logic"@
    } else {
        "argond: ups: shutdown in dry run: mode is "@ + mode.name()
            + ", and only mode \"full\" may power the machine off"@
    }
}

/// What is logged of the clock.
pub open spec fn clock_words(clock_writes: bool) -> Seq<char> {
    if clock_writes {
        "argond: ups: clock sync ON: compared every 6 h, set when more than 2 s off"@
    } else {
        "argond: ups: clock sync off (it needs mode \"full\" and sync_clock = true); the offset is still checked and logged"@
    }
}

/// Decides whether UPS monitoring is started, and with what. `policy_error` is why the battery
/// policy was rejected, if it was.
///
/// Not when the source is not serial, when the vendor's daemon holds the port, or when the policy
/// is invalid. Setting the clock and the wake schedule are the only writes that may reach the UPS,
/// and only in mode `full`.
pub fn start(config: &Config, active_units: &[String], policy_error: Option<&str>) -> (s: Start)
    requires
        config.ups.source@ == "serial"@ && !among(
            ups_vendor_units(),
            texts(active_units@),
        ).contains("argonupsrtcd.service"@) && policy_error is None
            ==> config.ups.shutdown_delay_min * 60 <= u64::MAX,
    ensures
        ({
            let mode = requested_mode(*config);
            let contended = among(ups_vendor_units(), texts(active_units@));
            match s {
                Start::No(log) => if config.ups.source@ != "serial"@ {
                    texts(log@) == seq![
                        "argond: ups: source is "@ + debug_text(config.ups.source@)
                            + ", not monitoring"@,
                    ]
                } else if contended.contains("argonupsrtcd.service"@) {
                    texts(log@) == seq![
                        "argond: ups: argonupsrtcd holds the serial port, not monitoring. Two readers on a CDC-ACM port corrupt each other's frames."@,
                    ]
                } else {
                    policy_error is Some && texts(log@) == seq![
                        shutdown_words(mode, contended, config.ups.shutdown_delay_min as nat),
                        "argond: ups: battery policy: "@ + (policy_error->0)@,
                    ]
                },
                Start::Monitor(p) => {
                    &&& config.ups.source@ == "serial"@
                    &&& !contended.contains("argonupsrtcd.service"@)
                    &&& policy_error is None
                    &&& p.dry_run == !enforces(mode, contended)
                    &&& p.writes == (Writes {
                        clock: mode == Mode::Full && config.ups.sync_clock,
                        wake: mode == Mode::Full,
                    })
                    &&& match p.port {
                        Some(port) => config.ups.port@ != "auto"@ && port@ == config.ups.port@,
                        None => config.ups.port@ == "auto"@,
                    }
                    &&& p.interval_s == if config.ups.poll_interval_s < 1 {
                        1
                    } else {
                        config.ups.poll_interval_s
                    }
                    &&& p.delay_s == config.ups.shutdown_delay_min * 60
                    &&& p.state_file@ == config.ups.state_file@
                    &&& texts(p.log@) == seq![
                        shutdown_words(mode, contended, config.ups.shutdown_delay_min as nat),
                        clock_words(mode == Mode::Full && config.ups.sync_clock),
                    ]
                },
            }
        }),
{
    if !same(config.ups.source.as_str(), "serial") {
        let mut why: String = join(
            "argond: ups: source is ",
            debug_of(config.ups.source.as_str()).as_str(),
        );
        why.append(", not monitoring");
        let log: Vec<String> = vec![why];
        assert(texts(log@) =~= seq![why@]);
        return Start::No(log);
    }
    let contended: Vec<String> = contention(active_units);
    if has_unit(contended.as_slice(), "argonupsrtcd.service") {
        let why: String =
            "argond: ups: argonupsrtcd holds the serial port, not monitoring. Two readers on a CDC-ACM port corrupt each other's frames.".to_owned();
        let log: Vec<String> = vec![why];
        assert(texts(log@) =~= seq![why@]);
        return Start::No(log);
    }
    assert(texts(contended@).len() == contended@.len());
    let mode: Mode = requested(config);
    let full: bool = matches!(mode, Mode::Full);
    let enforce: bool = full && contended.len() == 0;
    let shutdown: String = if enforce {
        let mut s: String = join(
            "argond: ups: shutdown ENABLED: poweroff ",
            decimal_of(config.ups.shutdown_delay_min).as_str(),
        );
        s.append(" min after the battery is confirmed critical, cancelled if mains returns");
        s
    } else if full {
        let mut s: String = join(
            "argond: ups: shutdown in dry run: ",
            join_all(&contended, ", ").as_str(),
        );
        s.append(" still running and has its own shutdown logic");
        s
    } else {
        let mut s: String = join("argond: ups: shutdown in dry run: mode is ", mode.as_str());
        s.append(", and only mode \"full\" may power the machine off");
        s
    };
    if let Some(e) = policy_error {
        let why: String = join("argond: ups: battery policy: ", e);
        let log: Vec<String> = vec![shutdown, why];
        assert(texts(log@) =~= seq![shutdown@, why@]);
        return Start::No(log);
    }
    let clock_writes: bool = full && config.ups.sync_clock;
    let clock: String = if clock_writes {
        "argond: ups: clock sync ON: compared every 6 h, set when more than 2 s off".to_owned()
    } else {
        "argond: ups: clock sync off (it needs mode \"full\" and sync_clock = true); the offset is still checked and logged".to_owned()
    };
    let log: Vec<String> = vec![shutdown, clock];
    assert(texts(log@) =~= seq![shutdown@, clock@]);
    Start::Monitor(
        Plan {
            dry_run: !enforce,
            writes: Writes { clock: clock_writes, wake: full },
            port: if same(config.ups.port.as_str(), "auto") {
                None
            } else {
                Some(config.ups.port.clone())
            },
            interval_s: if config.ups.poll_interval_s < 1 {
                1
            } else {
                config.ups.poll_interval_s
            },
            delay_s: config.ups.shutdown_delay_min * 60,
            state_file: config.ups.state_file.clone(),
            log,
        },
    )
}

// ---------------------------------------------------------------------------------------------
// The loop
// ---------------------------------------------------------------------------------------------

/// What to do after a poll, besides publishing the status.
#[derive(Clone, Copy, Debug, PartialEq, Eq, Structural)]
pub struct AfterPoll {
    /// Close the link, to be opened again.
    pub reopen: bool,
    /// Look at the UPS clock.
    pub check_clock: bool,
    /// Look at the wake schedule.
    pub check_wake: bool,
}

/// Decides what to do after a poll. Housekeeping is for a healthy link only, and after the poll: it
/// must never delay or displace a battery reading.
pub fn after_poll(
    consecutive_failures: u32,
    failed: bool,
    clock_due: bool,
    wake_due: bool,
) -> (a: AfterPoll)
    ensures
        a.reopen == (consecutive_failures >= REOPEN_AFTER),
        a.check_clock == (!a.reopen && !failed && clock_due),
        a.check_wake == (!a.reopen && !failed && wake_due),
{
    let reopen: bool = consecutive_failures >= REOPEN_AFTER;
    AfterPoll {
        reopen,
        check_clock: !reopen && !failed && clock_due,
        check_wake: !reopen && !failed && wake_due,
    }
}

/// Whether something that is said once per episode is to be said, given whether it was and whether
/// it holds now.
pub open spec fn to_say(logged: bool, holds: bool) -> bool {
    holds && !logged
}

/// Whether something that is said once per episode is to be said now, given whether it was, and
/// whether it holds.
fn once(logged: &mut bool, holds: bool) -> (say: bool)
    ensures
        say == to_say(*old(logged), holds),
        *final(logged) == holds,
{
    let say: bool = holds && !*logged;
    *logged = holds;
    say
}

/// The uptime to go by, and what to log. Where it cannot be read, zero -- "just booted" -- which
/// holds any shutdown back. That is the safe direction, but it is indistinguishable from a healthy
/// daemon unless it is said out loud, so the failure is logged once per episode.
pub fn uptime_or_zero(read: Result<Duration, String>, error_logged: &mut bool) -> (r: (
    Duration,
    Option<String>,
))
    ensures
        *final(error_logged) == read is Err,
        match read {
            Ok(u) => r.0 == u && r.1 is None,
            Err(e) => r.0.ns() == 0 && match r.1 {
                Some(s) => !*old(error_logged) && s@ == "argond: ups: cannot read uptime ("@ + e@
                    + "); treating the machine as just booted, which holds any shutdown back"@,
                None => *old(error_logged),
            },
        },
{
    match read {
        Ok(u) => {
            *error_logged = false;
            (u, None)
        },
        Err(e) => {
            if once(error_logged, true) {
                let mut s: String = join("argond: ups: cannot read uptime (", e.as_str());
                s.append(
                    "); treating the machine as just booted, which holds any shutdown back",
                );
                (Duration::zero(), Some(s))
            } else {
                (Duration::zero(), None)
            }
        },
    }
}

/// What to log of writing the status file: a failure, once per episode.
pub fn published(path: &str, failure: Option<&str>, error_logged: &mut bool) -> (log: Option<String>)
    ensures
        *final(error_logged) == failure is Some,
        match log {
            Some(s) => failure is Some && !*old(error_logged) && s@ == "argond: ups: cannot write "@
                + path@ + ": "@ + (failure->0)@,
            None => failure is None || *old(error_logged),
        },
{
    match failure {
        None => {
            *error_logged = false;
            None
        },
        Some(e) => {
            if once(error_logged, true) {
                let mut s: String = join("argond: ups: cannot write ", path);
                s.append(": ");
                s.append(e);
                Some(s)
            } else {
                None
            }
        },
    }
}

/// What is known of the port before it is opened.
#[derive(Clone, Debug, PartialEq, Eq)]
pub enum Port {
    /// There is none.
    Missing,
    /// Another process holds it.
    Held {
        /// The process.
        pid: u32,
        /// What it is called.
        comm: String,
    },
    /// It is free.
    Free,
}

/// Whether to open the port.
#[derive(Clone, Debug, PartialEq, Eq)]
pub enum Opening {
    /// There is nothing to open; this is logged, if anything.
    Nothing(Option<String>),
    /// Another process holds it: wait rather than fight over it, and log this.
    Wait(String),
    /// Open it, and hand what became of it to `opened`.
    Open,
}

/// Decides whether to open the port at `path`. Two readers split the byte stream, and both
/// desynchronise. That there is none is logged once rather than on every poll.
pub fn open_link(path: &str, port: Port, error_logged: &mut bool) -> (o: Opening)
    ensures
        match port {
            Port::Missing => *final(error_logged) && match o {
                Opening::Nothing(Some(s)) => !*old(error_logged) && s@
                    == "argond: ups: no UPS serial port found; will keep looking once per poll without repeating this"@,
                Opening::Nothing(None) => *old(error_logged),
                _ => false,
            },
            Port::Held { pid, comm } => *final(error_logged) == *old(error_logged) && (o matches
                Opening::Wait(s) && s@ == "argond: ups: "@ + path@ + " is held by pid "@ + decimal(
                pid as nat,
            ) + " ("@ + comm@ + "); not opening it. Two readers corrupt each other's frames."@),
            Port::Free => *final(error_logged) == *old(error_logged) && o is Open,
        },
{
    match port {
        Port::Missing => {
            if once(error_logged, true) {
                Opening::Nothing(
                    Some(
                        "argond: ups: no UPS serial port found; will keep looking once per poll without repeating this".to_owned(),
                    ),
                )
            } else {
                Opening::Nothing(None)
            }
        },
        Port::Held { pid, comm } => {
            let mut s: String = join("argond: ups: ", path);
            s.append(" is held by pid ");
            s.append(decimal_of(pid as u64).as_str());
            s.append(" (");
            s.append(comm.as_str());
            s.append("); not opening it. Two readers corrupt each other's frames.");
            Opening::Wait(s)
        },
        Port::Free => Opening::Open,
    }
}

/// What to log of opening the port at `path`: success always, a failure once per episode.
pub fn opened(path: &str, failure: Option<&str>, error_logged: &mut bool) -> (log: Option<String>)
    ensures
        *final(error_logged) == failure is Some,
        match failure {
            None => log matches Some(s) && s@ == "argond: ups: reading "@ + path@,
            Some(e) => match log {
                Some(s) => !*old(error_logged) && s@ == "argond: ups: cannot open "@ + path@ + ": "@
                    + e@,
                None => *old(error_logged),
            },
        },
{
    match failure {
        None => {
            *error_logged = false;
            Some(join("argond: ups: reading ", path))
        },
        Some(e) => {
            if once(error_logged, true) {
                let mut s: String = join("argond: ups: cannot open ", path);
                s.append(": ");
                s.append(e);
                Some(s)
            } else {
                None
            }
        },
    }
}

/// The first of the directories in `$STATE_DIRECTORY`, which separates several with colons. `None`
/// outside systemd: a hand-started daemon keeps no record, rather than writing one into whatever
/// directory it was started from.
pub fn state_directory<'a>(dirs: Option<&'a str>) -> (r: Option<&'a str>)
    ensures
        match dirs {
            None => r is None,
            Some(d) => {
                let first = d@.take(first_at(d@, ':'));
                match r {
                    Some(s) => s@ == first && first.len() > 0,
                    None => first.len() == 0,
                }
            },
        },
{
    match dirs {
        None => None,
        Some(d) => {
            proof {
                crate::text::lemma_first_at(d@, ':');
                assert(d@.take(d@.len() as int) =~= d@);
            }
            let first: &str = match split_once(d, ':') {
                Some((a, _)) => a,
                None => d,
            };
            if first.is_empty() {
                None
            } else {
                Some(first)
            }
        },
    }
}

/// The longest slice to sleep of what is left, in nanoseconds: short, so a stop request is honoured
/// promptly.
pub fn sleep_slice(left_ns: u64) -> (n: u64)
    ensures
        n <= left_ns,
        n == if left_ns <= 250_000_000 {
            left_ns
        } else {
            250_000_000
        },
{
    if left_ns <= 250_000_000 {
        left_ns
    } else {
        250_000_000
    }
}

// ---------------------------------------------------------------------------------------------
// What is logged of a cycle
// ---------------------------------------------------------------------------------------------

/// What is logged of an action, at `now`.
pub open spec fn action_words(action: Action, now: SystemTime) -> Option<Seq<char>> {
    match action {
        Action::Nothing => None,
        Action::Scheduled { at } => {
            let left = seconds_until(at, now);
            Some(
                "argond: ups: poweroff SCHEDULED in "@ + decimal(left / 60) + "m"@ + padded(
                    left % 60,
                    2,
                ) + "s (unix time "@ + decimal(at.unix_or_zero()) + ")"@,
            )
        },
        Action::Adopted { at } => Some(
            "argond: ups: took back over a poweroff we scheduled before restarting (unix time "@
                + decimal(at.unix_or_zero()) + ")"@,
        ),
        Action::AlreadyPending { .. } => Some(
            "argond: ups: a shutdown is already pending; leaving it alone"@,
        ),
        Action::Cancelled => Some("argond: ups: poweroff cancelled"@),
        Action::OverriddenByOperator => Some(
            "argond: ups: our poweroff was cancelled by someone else; standing down"@,
        ),
        Action::WouldSchedule => Some("argond: ups: would schedule a poweroff (dry run)"@),
        Action::WouldCancel => Some("argond: ups: would cancel the poweroff (dry run)"@),
        Action::Failed(e) => Some("argond: ups: shutdown action failed, will retry: "@ + e@),
    }
}

/// The whole seconds from `now` until `at`, or 0 once it has passed.
pub open spec fn seconds_until(at: SystemTime, now: SystemTime) -> nat {
    crate::daemon::dbus::whole_secs(at.since(now))
}

/// What is logged of an action, at `now`. The delay is what an operator needs: how long they have
/// to plug the mains back in.
pub fn action_line(action: &Action, now: SystemTime) -> (log: Option<String>)
    ensures
        match log {
            Some(s) => action_words(*action, now) == Some(s@),
            None => action_words(*action, now) is None,
        },
{
    match action {
        Action::Nothing => None,
        Action::Scheduled { at } => {
            let left: u64 = at.elapsed_since(now).as_secs();
            let mut s: String = join(
                "argond: ups: poweroff SCHEDULED in ",
                decimal_of(left / 60).as_str(),
            );
            s.append("m");
            s.append(padded_of(left % 60, 2).as_str());
            s.append("s (unix time ");
            s.append(decimal_of(at.secs_or_zero()).as_str());
            s.append(")");
            Some(s)
        },
        Action::Adopted { at } => {
            let mut s: String = join(
                "argond: ups: took back over a poweroff we scheduled before restarting (unix time ",
                decimal_of(at.secs_or_zero()).as_str(),
            );
            s.append(")");
            Some(s)
        },
        Action::AlreadyPending { at: _ } => Some(
            "argond: ups: a shutdown is already pending; leaving it alone".to_owned(),
        ),
        Action::Cancelled => Some("argond: ups: poweroff cancelled".to_owned()),
        Action::OverriddenByOperator => Some(
            "argond: ups: our poweroff was cancelled by someone else; standing down".to_owned(),
        ),
        Action::WouldSchedule => Some(
            "argond: ups: would schedule a poweroff (dry run)".to_owned(),
        ),
        Action::WouldCancel => Some("argond: ups: would cancel the poweroff (dry run)".to_owned()),
        Action::Failed(e) => Some(
            join("argond: ups: shutdown action failed, will retry: ", e.as_str()),
        ),
    }
}

/// What is logged of a shutdown that is held back after boot, if it is.
pub open spec fn held_words(advice: Advice, logged: bool) -> Seq<Seq<char>> {
    match advice {
        Advice::HeldForUptime { remaining } => if logged {
            seq![]
        } else {
            seq![
                "argond: ups: battery critical, but holding the shutdown for another "@ + decimal(
                    remaining.secs(),
                ) + "s after boot"@,
            ]
        },
        _ => seq![],
    }
}

/// What is logged of a change of level, if there was one.
pub open spec fn change_words(change: Option<(Seq<char>, Seq<char>)>, percent: Option<u8>) -> Seq<
    Seq<char>,
> {
    match change {
        Some((from, to)) => seq![
            "argond: ups: "@ + from + " -> "@ + to + (match percent {
                Some(p) => " at "@ + decimal(p as nat) + "%"@,
                None => Seq::empty(),
            }),
        ],
        None => seq![],
    }
}

/// What is logged of a failed reading, if it failed. `error` is why, in words.
pub open spec fn failure_words(error: Option<Seq<char>>, failures: nat) -> Seq<Seq<char>> {
    match error {
        Some(e) => seq![
            "argond: ups: read failed ("@ + decimal(failures) + " in a row): "@ + e,
        ],
        None => seq![],
    }
}

/// What is logged of an action, if anything.
pub open spec fn action_list(action: Action, now: SystemTime) -> Seq<Seq<char>> {
    match action_words(action, now) {
        Some(s) => seq![s],
        None => seq![],
    }
}

/// An optional pair of texts.
pub open spec fn pair_text(p: Option<(&str, &str)>) -> Option<(Seq<char>, Seq<char>)> {
    match p {
        Some((a, b)) => Some((a@, b@)),
        None => None,
    }
}

/// An optional text.
pub open spec fn opt_text(p: Option<&str>) -> Option<Seq<char>> {
    match p {
        Some(a) => Some(a@),
        None => None,
    }
}

/// What is logged of one monitoring cycle: a shutdown held back after boot, once per episode -- a
/// daemon permanently holding a shutdown must not look like a daemon with nothing to do -- a change
/// of level, what was done, and a failed reading. `change` is the level it changed from and to, and
/// `error` why the reading failed, both in words.
pub fn report_cycle(
    cycle: &Cycle,
    change: Option<(&str, &str)>,
    error: Option<&str>,
    now: SystemTime,
    held_logged: &mut bool,
) -> (log: Vec<String>)
    ensures
        *final(held_logged) == cycle.poll.decision.advice is HeldForUptime,
        texts(log@) == held_words(cycle.poll.decision.advice, *old(held_logged)) + change_words(
            pair_text(change),
            cycle.status.percent,
        ) + action_list(cycle.action, now) + failure_words(
            opt_text(error),
            cycle.poll.consecutive_failures as nat,
        ),
{
    let mut log: Vec<String> = Vec::new();
    if let Advice::HeldForUptime { remaining } = cycle.poll.decision.advice {
        if once(held_logged, true) {
            let mut s: String = join(
                "argond: ups: battery critical, but holding the shutdown for another ",
                decimal_of(remaining.as_secs()).as_str(),
            );
            s.append("s after boot");
            log.push(s);
        }
    } else {
        *held_logged = false;
    }
    let ghost a = held_words(cycle.poll.decision.advice, *old(held_logged));
    assert(texts(log@) =~= a);
    let ghost l1 = log@;
    if let Some((from, to)) = change {
        let mut s: String = join("argond: ups: ", from);
        s.append(" -> ");
        s.append(to);
        let pct: String = match cycle.status.percent {
            Some(p) => {
                let mut s: String = join(" at ", decimal_of(p as u64).as_str());
                s.append("%");
                s
            },
            None => String::new(),
        };
        s.append(pct.as_str());
        log.push(s);
    }
    let ghost b = change_words(pair_text(change), cycle.status.percent);
    assert(texts(log@) =~= a + b);
    if let Some(s) = action_line(&cycle.action, now) {
        log.push(s);
    }
    let ghost c = action_list(cycle.action, now);
    assert(texts(log@) =~= a + b + c);
    if let Some(e) = error {
        let mut s: String = join(
            "argond: ups: read failed (",
            decimal_of(cycle.poll.consecutive_failures as u64).as_str(),
        );
        s.append(" in a row): ");
        s.append(e);
        log.push(s);
    }
    assert(texts(log@) =~= a + b + c + failure_words(
        opt_text(error),
        cycle.poll.consecutive_failures as nat,
    ));
    log
}

// ---------------------------------------------------------------------------------------------
// A request for a wake
// ---------------------------------------------------------------------------------------------

/// What to do next about a request.
#[derive(Clone, Debug, PartialEq, Eq)]
pub enum Next {
    /// This is the answer.
    Answer(Response),
    /// Set the wake schedule to this, and hand what became of it to `on_set`.
    SetWake {
        /// The schedule.
        at: UpsTime,
    },
    /// Read the wake schedule, and hand it to `on_read`.
    ReadWake,
    /// Schedule a poweroff, and hand what became of it to `on_scheduled`.
    SchedulePoweroff {
        /// How far ahead, in seconds.
        delay_s: u64,
        /// What is broadcast.
        message: String,
    },
    /// Park the wake schedule, and hand what became of it to `on_parked`.
    Park,
}

/// What to do next about a request, with texts in place of strings.
pub enum Demand {
    /// This is the answer.
    Answer(Answer),
    /// Set the wake schedule.
    SetWake(UpsTime),
    /// Read the wake schedule.
    ReadWake,
    /// Schedule a poweroff this many seconds ahead, with this message.
    SchedulePoweroff(nat, Seq<char>),
    /// Park the wake schedule.
    Park,
}

impl View for Next {
    type V = Demand;

    open spec fn view(&self) -> Demand {
        match *self {
            Next::Answer(r) => Demand::Answer(r@),
            Next::SetWake { at } => Demand::SetWake(at),
            Next::ReadWake => Demand::ReadWake,
            Next::SchedulePoweroff { delay_s, message } => Demand::SchedulePoweroff(
                delay_s as nat,
                message@,
            ),
            Next::Park => Demand::Park,
        }
    }
}

/// How far a request has got.
#[derive(Clone, Debug, PartialEq, Eq)]
enum Phase {
    Setting(UpsTime),
    Reading(UpsTime),
    Scheduling(UpsTime),
    Parking(String, &'static str),
    Over,
}

/// A request for a wake while it is being handled.
///
/// The wake is set, read back, and only then is the poweroff scheduled. If anything fails after the
/// wake was written, it is parked again before answering -- the one outcome this must never produce
/// is a live schedule on a machine that is not going to power off.
pub struct WakeRequest {
    phase: Phase,
}

/// How far a request has got.
pub enum Progress {
    /// The schedule is being set.
    Setting(UpsTime),
    /// It was set, and is being read back.
    Reading(UpsTime),
    /// It was read back, and the poweroff is being scheduled.
    Scheduling(UpsTime),
    /// Something failed after it was set, and it is being parked. The answer says the first text,
    /// what became of that, and the second.
    Parking(Seq<char>, Seq<char>),
    /// It was answered.
    Over,
}

impl View for WakeRequest {
    type V = Progress;

    closed spec fn view(&self) -> Progress {
        match self.phase {
            Phase::Setting(t) => Progress::Setting(t),
            Phase::Reading(t) => Progress::Reading(t),
            Phase::Scheduling(t) => Progress::Scheduling(t),
            Phase::Parking(a, b) => Progress::Parking(a@, b@),
            Phase::Over => Progress::Over,
        }
    }
}

/// An answer that nothing was scheduled.
pub open spec fn sorry(message: Seq<char>) -> Demand {
    Demand::Answer(Answer::Error { message })
}

/// What parking came to, in words.
pub open spec fn parked_words(failure: Option<Seq<char>>) -> Seq<char> {
    match failure {
        None => "the wake has been parked (moved to 2097)"@,
        Some(e) => "PARKING THE WAKE ALSO FAILED ("@ + e + ") -- check it with `argonctl rtc`"@,
    }
}

/// What parking came to, in words. `failure` is why it failed, if it did.
pub fn parked_line(failure: Option<&str>) -> (s: String)
    ensures
        s@ == parked_words(opt_text(failure)),
{
    match failure {
        None => "the wake has been parked (moved to 2097)".to_owned(),
        Some(e) => {
            let mut s: String = join("PARKING THE WAKE ALSO FAILED (", e);
            s.append(") -- check it with `argonctl rtc`");
            s
        },
    }
}

impl Progress {
    /// How it goes on once the schedule was set, or could not be.
    pub open spec fn set(self, failure: Option<Seq<char>>) -> (Progress, Demand) {
        match failure {
            None => (Progress::Reading(self->Setting_0), Demand::ReadWake),
            Some(e) => (
                Progress::Over,
                sorry(
                    "setting the wake failed ("@ + e
                        + "); nothing was scheduled and the machine stays on"@,
                ),
            ),
        }
    }

    /// How it goes on once the schedule was read back, or could not be. `shown` is what was read.
    pub open spec fn read(self, read: Option<Option<UpsTime>>, shown: Seq<char>) -> (
        Progress,
        Demand,
    ) {
        let t = self->Reading_0;
        if read is Some && read->0 is Some && is_same_minute((read->0)->0, t) {
            (
                Progress::Scheduling(t),
                Demand::SchedulePoweroff(POWEROFF_DELAY as nat, wake_message(t)),
            )
        } else {
            (
                Progress::Parking(
                    "the wake did not read back as set ("@ + shown + "); "@,
                    "; the machine stays on"@,
                ),
                Demand::Park,
            )
        }
    }

    /// How it goes on once the poweroff was scheduled, or could not be.
    pub open spec fn scheduled(self, at: Result<SystemTime, Seq<char>>) -> (Progress, Demand) {
        let t = self->Scheduling_0;
        match at {
            Ok(at) => (
                Progress::Over,
                Demand::Answer(
                    Answer::PoweroffScheduled {
                        wake_unix: if t.valid() {
                            t.unix() as nat
                        } else {
                            0
                        },
                        poweroff_unix: at.unix_or_zero(),
                    },
                ),
            ),
            Err(e) => (
                Progress::Parking(
                    "the poweroff could not be scheduled ("@ + e + "); "@,
                    ", so it cannot come due on a running machine"@,
                ),
                Demand::Park,
            ),
        }
    }

    /// How it ends once the schedule was parked, or could not be.
    pub open spec fn parked(self, failure: Option<Seq<char>>) -> (Progress, Demand) {
        (
            Progress::Over,
            sorry(self->Parking_0 + parked_words(failure) + self->Parking_1),
        )
    }
}

impl WakeRequest {
    /// Starts handling a request, at `now_unix`. `wake_writes` is whether a wake may be set at all.
    pub fn start(request: &Request, wake_writes: bool, now_unix: u64) -> (r: (WakeRequest, Next))
        ensures
            ({
                let at_unix = match *request {
                    Request::PoweroffWithWake { at_unix } => at_unix as int,
                };
                let minute = minute_start(at_unix);
                if !wake_writes {
                    r.0@ == Progress::Over && r.1@ == sorry(
                        "a scheduled wake is a full-mode operation, and argond is not in mode \"full\""@,
                    )
                } else if lead(at_unix, now_unix as int) < MIN_LEAD {
                    r.0@ == Progress::Over && r.1@ == sorry(
                        (RequestError::TooSoon {
                            lead_s: lead(at_unix, now_unix as int) as u64,
                        }).words(),
                    )
                } else if !(FIRST_SECOND <= minute < END_SECOND) {
                    r.0@ == Progress::Over && r.1@ == sorry(RequestError::OutOfRange.words())
                } else {
                    r.1 matches Next::SetWake { at } && r.0@ == Progress::Setting(at) && at.valid()
                        && at.second is None && at.unix() == minute
                }
            }),
    {
        let at_unix: u64 = match request {
            Request::PoweroffWithWake { at_unix } => *at_unix,
        };
        if !wake_writes {
            return (
                WakeRequest { phase: Phase::Over },
                Next::Answer(
                    Response::error(
                        "a scheduled wake is a full-mode operation, and argond is not in mode \"full\"",
                    ),
                ),
            );
        }
        match schedule_for(at_unix, now_unix) {
            Ok(at) => {
                proof {
                    law_valid_times_are_in_range(at);
                }
                (WakeRequest { phase: Phase::Setting(at) }, Next::SetWake { at })
            },
            Err(e) => (
                WakeRequest { phase: Phase::Over },
                Next::Answer(Response::error(e.message().as_str())),
            ),
        }
    }

    /// Takes what became of setting the schedule: why it failed, if it did.
    pub fn on_set(&mut self, failure: Option<&str>) -> (n: Next)
        requires
            old(self)@ is Setting,
        ensures
            (final(self)@, n@) == old(self)@.set(opt_text(failure)),
    {
        match failure {
            None => {
                match self.phase {
                    Phase::Setting(t) => {
                        self.phase = Phase::Reading(t);
                    },
                    _ => {},
                }
                Next::ReadWake
            },
            Some(e) => {
                self.phase = Phase::Over;
                let mut s: String = join("setting the wake failed (", e);
                s.append("); nothing was scheduled and the machine stays on");
                Next::Answer(Response::error(s.as_str()))
            },
        }
    }

    /// Takes the schedule as it was read back; `None` stands for a reading that failed. `shown` is
    /// what was read, in words.
    pub fn on_read(&mut self, read: Option<Option<UpsTime>>, shown: &str) -> (n: Next)
        requires
            old(self)@ is Reading,
        ensures
            (final(self)@, n@) == old(self)@.read(read, shown@),
    {
        let t: UpsTime = match self.phase {
            Phase::Reading(t) => t,
            _ => park_at(),
        };
        let as_set: bool = match read {
            Some(Some(got)) => same_minute(got, t),
            _ => false,
        };
        if as_set {
            self.phase = Phase::Scheduling(t);
            Next::SchedulePoweroff { delay_s: POWEROFF_DELAY, message: poweroff_message(t) }
        } else {
            let mut s: String = join("the wake did not read back as set (", shown);
            s.append("); ");
            self.phase = Phase::Parking(s, "; the machine stays on");
            Next::Park
        }
    }

    /// Takes what became of scheduling the poweroff: when it will happen, or why there is none.
    pub fn on_scheduled(&mut self, at: Result<SystemTime, &str>) -> (n: Next)
        requires
            old(self)@ is Scheduling,
        ensures
            (final(self)@, n@) == old(self)@.scheduled(
                match at {
                    Ok(at) => Ok(at),
                    Err(e) => Err(e@),
                },
            ),
    {
        match at {
            Ok(at) => {
                let wake_unix: u64 = match self.phase {
                    Phase::Scheduling(t) => match t.to_unix_seconds() {
                        Some(s) => s,
                        None => 0,
                    },
                    _ => 0,
                };
                self.phase = Phase::Over;
                Next::Answer(
                    Response::PoweroffScheduled { wake_unix, poweroff_unix: at.secs_or_zero() },
                )
            },
            Err(e) => {
                let mut s: String = join("the poweroff could not be scheduled (", e);
                s.append("); ");
                self.phase = Phase::Parking(s, ", so it cannot come due on a running machine");
                Next::Park
            },
        }
    }

    /// Takes what became of parking the schedule: why it failed, if it did.
    pub fn on_parked(&mut self, failure: Option<&str>) -> (n: Next)
        requires
            old(self)@ is Parking,
        ensures
            (final(self)@, n@) == old(self)@.parked(opt_text(failure)),
    {
        let mut s: String = String::new();
        if let Phase::Parking(before, behind) = &self.phase {
            s = join(before.as_str(), parked_line(failure).as_str());
            s.append(behind);
        }
        self.phase = Phase::Over;
        Next::Answer(Response::error(s.as_str()))
    }
}

/// A live schedule is never left on a machine that is not going to power off: once the wake was
/// written, a request ends in a scheduled poweroff, or the wake is parked before the answer.
pub proof fn law_a_failure_after_the_wake_was_written_parks_it(
    p: Progress,
    read: Option<Option<UpsTime>>,
    shown: Seq<char>,
    at: Result<SystemTime, Seq<char>>,
)
    ensures
        p is Reading ==> p.read(read, shown).1 is SchedulePoweroff || (p.read(read, shown).1 is Park
            && p.read(read, shown).0 is Parking),
        p is Scheduling ==> (at is Ok && (p.scheduled(at).1 matches Demand::Answer(a) && a
            is PoweroffScheduled)) || (at is Err && p.scheduled(at).1 is Park && p.scheduled(at).0
            is Parking),
{
}

/// A poweroff is scheduled only once the wake was read back as it was set.
pub proof fn law_no_poweroff_before_the_wake_is_read_back(
    p: Progress,
    failure: Option<Seq<char>>,
    read: Option<Option<UpsTime>>,
    shown: Seq<char>,
    at: Result<SystemTime, Seq<char>>,
)
    ensures
        !(p.set(failure).1 is SchedulePoweroff),
        !(p.scheduled(at).1 is SchedulePoweroff),
        !(p.parked(failure).1 is SchedulePoweroff),
        p.read(read, shown).1 is SchedulePoweroff ==> read is Some && read->0 is Some
            && is_same_minute((read->0)->0, p->Reading_0),
{
}

/// A request whose wake could not be set asks for nothing more.
pub proof fn law_a_wake_that_was_not_set_schedules_nothing(p: Progress, e: Seq<char>)
    ensures
        p.set(Some(e)).0 == Progress::Over,
        p.set(Some(e)).1 is Answer,
{
}

/// What is logged when a wake was set on request.
pub fn wake_set_line(wake_unix: u64, poweroff_unix: u64) -> (s: String)
    ensures
        s@ == "argond: ups: wake set for unix "@ + decimal(wake_unix as nat)
            + ", poweroff scheduled for unix "@ + decimal(poweroff_unix as nat) + ", on request"@,
{
    let mut s: String = join("argond: ups: wake set for unix ", decimal_of(wake_unix).as_str());
    s.append(", poweroff scheduled for unix ");
    s.append(decimal_of(poweroff_unix).as_str());
    s.append(", on request");
    s
}

/// The answer where the UPS cannot be reached.
pub fn unreachable_answer() -> (r: Response)
    ensures
        r@ == (Answer::Error {
            message: "the UPS is not reachable right now; nothing was done"@,
        }),
{
    Response::error("the UPS is not reachable right now; nothing was done")
}

// ---------------------------------------------------------------------------------------------
// The wake safety net
// ---------------------------------------------------------------------------------------------

/// What the wake safety net last reported, so it logs changes rather than every look.
#[derive(Clone, Copy, Debug, PartialEq, Eq, Structural)]
pub enum Seen {
    /// Nothing reported yet.
    Unknown,
    /// No schedule.
    Nothing,
    /// A schedule at this time.
    At(UpsTime),
}

/// What the wake safety net asks for.
#[derive(Clone, Debug, PartialEq, Eq)]
pub enum WakeCheck {
    /// Nothing; this is logged, if anything.
    Done(Option<String>),
    /// Park the schedule, and log what `parked_schedule_line` says of it.
    Park {
        /// What was found.
        found: UpsTime,
        /// Why it is parked.
        why: ParkReason,
    },
}

/// A time to the minute.
pub open spec fn minute_words(t: UpsTime) -> Seq<char> {
    padded(t.year as nat, 4) + "-"@ + padded(t.month as nat, 2) + "-"@ + padded(t.day as nat, 2)
        + " "@ + padded(t.hour as nat, 2) + ":"@ + padded(t.minute as nat, 2) + " UTC"@
}

/// A time to the minute.
pub fn minute_text(t: UpsTime) -> (s: String)
    ensures
        s@ == minute_words(t),
{
    let mut s: String = padded_of(t.year as u64, 4);
    s.append("-");
    s.append(padded_of(t.month as u64, 2).as_str());
    s.append("-");
    s.append(padded_of(t.day as u64, 2).as_str());
    s.append(" ");
    s.append(padded_of(t.hour as u64, 2).as_str());
    s.append(":");
    s.append(padded_of(t.minute as u64, 2).as_str());
    s.append(" UTC");
    s
}

/// The name of a reason.
pub open spec fn reason_word(why: ParkReason) -> Seq<char> {
    match why {
        ParkReason::DueSoon => "DueSoon"@,
        ParkReason::Past => "Past"@,
        ParkReason::Unreadable => "Unreadable"@,
    }
}

fn reason_name(why: ParkReason) -> (s: &'static str)
    ensures
        s@ == reason_word(why),
{
    match why {
        ParkReason::DueSoon => "DueSoon",
        ParkReason::Past => "Past",
        ParkReason::Unreadable => "Unreadable",
    }
}

/// What was found, as it is remembered.
pub open spec fn seen(found: Option<UpsTime>) -> Seen {
    match found {
        None => Seen::Nothing,
        Some(t) => Seen::At(t),
    }
}

/// What is logged of a schedule that is left alone.
pub open spec fn left_words(found: Option<UpsTime>) -> Seq<char> {
    match found {
        None => "argond: ups: no wake schedule set"@,
        Some(t) => "argond: ups: wake schedule "@ + minute_words(t) + ", far enough away to leave"@,
    }
}

/// The safety net, at `now_unix`: a schedule that would come due, or has passed, on this running
/// machine is parked where that is allowed, and warned of where it is not. Any other is logged,
/// when it changed.
pub fn check_wake(
    found: Option<UpsTime>,
    park_allowed: bool,
    now_unix: u64,
    logged: &mut Seen,
) -> (c: WakeCheck)
    ensures
        match assessed(found, now_unix as int) {
            Assessment::Park { found, why } => if park_allowed {
                c == (WakeCheck::Park { found, why }) && *final(logged) == Seen::Unknown
            } else {
                *final(logged) == *old(logged) && (c matches WakeCheck::Done(Some(s)) && s@
                    == "argond: ups: WARNING: a wake schedule for "@ + minute_words(found) + " is "@
                    + reason_word(why)
                    + " on a running machine, and parking it needs mode \"full\""@)
            },
            _ => *final(logged) == seen(found) && match c {
                WakeCheck::Done(Some(s)) => *old(logged) != seen(found) && s@ == left_words(found),
                WakeCheck::Done(None) => *old(logged) == seen(found),
                _ => false,
            },
        },
{
    match assess(found, now_unix) {
        Assessment::Park { found, why } => {
            if park_allowed {
                *logged = Seen::Unknown;
                WakeCheck::Park { found, why }
            } else {
                let mut s: String = join(
                    "argond: ups: WARNING: a wake schedule for ",
                    minute_text(found).as_str(),
                );
                s.append(" is ");
                s.append(reason_name(why));
                s.append(" on a running machine, and parking it needs mode \"full\"");
                WakeCheck::Done(Some(s))
            }
        },
        _ => {
            let now_seen: Seen = match found {
                None => Seen::Nothing,
                Some(t) => Seen::At(t),
            };
            if *logged == now_seen {
                return WakeCheck::Done(None);
            }
            *logged = now_seen;
            let s: String = match found {
                None => "argond: ups: no wake schedule set".to_owned(),
                Some(t) => {
                    let mut s: String = join(
                        "argond: ups: wake schedule ",
                        minute_text(t).as_str(),
                    );
                    s.append(", far enough away to leave");
                    s
                },
            };
            WakeCheck::Done(Some(s))
        },
    }
}

/// What is logged of a schedule that was parked, or could not be.
pub fn parked_schedule_line(found: UpsTime, why: ParkReason, failure: Option<&str>) -> (s: String)
    ensures
        s@ == "argond: ups: a wake schedule for "@ + minute_words(found) + " was "@ + reason_word(
            why,
        ) + " on a running machine; "@ + parked_words(opt_text(failure)),
{
    let mut s: String = join("argond: ups: a wake schedule for ", minute_text(found).as_str());
    s.append(" was ");
    s.append(reason_name(why));
    s.append(" on a running machine; ");
    s.append(parked_line(failure).as_str());
    s
}

// ---------------------------------------------------------------------------------------------
// The clock
// ---------------------------------------------------------------------------------------------

/// What a clock check asks for.
#[derive(Clone, Debug, PartialEq, Eq)]
pub enum ClockCheck {
    /// Nothing more: this goes into the drift record, if anything, and this is logged.
    Done(Option<Entry>, String),
    /// Set the clock, at the start of a second, and hand what became of it to `clock_set_failed`,
    /// or the clock as it reads then to `clock_was_read_back`.
    SetClock {
        /// How far it is off.
        offset_s: i64,
    },
}

/// What is logged of a clock that is not set.
pub open spec fn clock_line(verdict: Verdict) -> Seq<char> {
    match verdict {
        Verdict::InSync { offset_s } => "argond: ups: clock offset "@ + plus_decimal(
            offset_s as int,
        ) + " s, within tolerance"@,
        Verdict::Untrusted { offset_s } => "argond: ups: clock offset "@ + plus_decimal(
            offset_s as int,
        ) + " s; not correcting it, because the system clock is not NTP-synchronised"@,
        Verdict::Implausible =>
            "argond: ups: the clock read back as an impossible date; not acting on it"@,
        Verdict::Correct { offset_s } => "argond: ups: clock offset "@ + plus_decimal(
            offset_s as int,
        ) + " s; not correcting it (clock sync is off)"@,
    }
}

/// What goes into the drift record of a clock that is not set.
pub open spec fn clock_entry(verdict: Verdict, unix: u64) -> Option<Entry> {
    match verdict {
        Verdict::InSync { offset_s } => Some(
            Entry { unix, offset_s, action: DriftAction::InSync },
        ),
        Verdict::Untrusted { offset_s } => Some(
            Entry { unix, offset_s, action: DriftAction::LeftAlone },
        ),
        Verdict::Correct { offset_s } => Some(
            Entry { unix, offset_s, action: DriftAction::LeftAlone },
        ),
        Verdict::Implausible => None,
    }
}

/// Compares the UPS clock with the system clock, which says `checked_at`. The clock is set where it
/// is too far off, the system clock is to be trusted, and `clock_writes` allows it. Every outcome
/// is logged with the offset found, which is the only drift measurement there is.
pub fn check_clock(
    ups_clock: UpsTime,
    checked_at: u64,
    system_synced: bool,
    clock_writes: bool,
) -> (c: ClockCheck)
    ensures
        ({
            let verdict = judged(ups_clock, checked_at as int, system_synced);
            match c {
                ClockCheck::SetClock { offset_s } => clock_writes && verdict == (
                Verdict::Correct { offset_s }),
                ClockCheck::Done(entry, log) => {
                    &&& !(clock_writes && verdict is Correct)
                    &&& entry == clock_entry(verdict, checked_at)
                    &&& log@ == clock_line(verdict)
                },
            }
        }),
{
    let verdict: Verdict = judge(ups_clock, checked_at, system_synced);
    match verdict {
        Verdict::InSync { offset_s } => {
            let mut s: String = join(
                "argond: ups: clock offset ",
                plus_decimal_of(offset_s).as_str(),
            );
            s.append(" s, within tolerance");
            ClockCheck::Done(
                Some(Entry { unix: checked_at, offset_s, action: DriftAction::InSync }),
                s,
            )
        },
        Verdict::Untrusted { offset_s } => {
            let mut s: String = join(
                "argond: ups: clock offset ",
                plus_decimal_of(offset_s).as_str(),
            );
            s.append(" s; not correcting it, because the system clock is not NTP-synchronised");
            ClockCheck::Done(
                Some(Entry { unix: checked_at, offset_s, action: DriftAction::LeftAlone }),
                s,
            )
        },
        Verdict::Implausible => ClockCheck::Done(
            None,
            "argond: ups: the clock read back as an impossible date; not acting on it".to_owned(),
        ),
        Verdict::Correct { offset_s } => {
            if clock_writes {
                return ClockCheck::SetClock { offset_s };
            }
            let mut s: String = join(
                "argond: ups: clock offset ",
                plus_decimal_of(offset_s).as_str(),
            );
            s.append(" s; not correcting it (clock sync is off)");
            ClockCheck::Done(
                Some(Entry { unix: checked_at, offset_s, action: DriftAction::LeftAlone }),
                s,
            )
        },
    }
}

/// What goes into the drift record, and what is logged, where setting the clock failed.
pub fn clock_set_failed(offset_s: i64, checked_at: u64, failure: &str) -> (r: (Entry, String))
    ensures
        r.0 == (Entry { unix: checked_at, offset_s, action: DriftAction::LeftAlone }),
        r.1@ == "argond: ups: clock was "@ + plus_decimal(offset_s as int)
            + " s off; setting it failed: "@ + failure@,
{
    let mut s: String = join("argond: ups: clock was ", plus_decimal_of(offset_s).as_str());
    s.append(" s off; setting it failed: ");
    s.append(failure);
    (Entry { unix: checked_at, offset_s, action: DriftAction::LeftAlone }, s)
}

/// The verdict on a clock that was read back at `now`, if it could be.
pub open spec fn verdict_after(after: Option<(UpsTime, u64)>) -> Option<Verdict> {
    match after {
        Some((t, now)) => Some(judged(t, now as int, true)),
        None => None,
    }
}

/// A verdict, as it is logged.
pub open spec fn verdict_words(v: Option<Verdict>) -> Seq<char> {
    match v {
        None => "None"@,
        Some(Verdict::InSync { offset_s }) => "Some(InSync { offset_s: "@ + signed_decimal(
            offset_s as int,
        ) + " })"@,
        Some(Verdict::Correct { offset_s }) => "Some(Correct { offset_s: "@ + signed_decimal(
            offset_s as int,
        ) + " })"@,
        Some(Verdict::Untrusted { offset_s }) => "Some(Untrusted { offset_s: "@ + signed_decimal(
            offset_s as int,
        ) + " })"@,
        Some(Verdict::Implausible) => "Some(Implausible)"@,
    }
}

fn verdict_text(v: Option<Verdict>) -> (s: String)
    ensures
        s@ == verdict_words(v),
{
    match v {
        None => "None".to_owned(),
        Some(Verdict::Implausible) => "Some(Implausible)".to_owned(),
        Some(Verdict::InSync { offset_s }) => {
            let mut s: String = join(
                "Some(InSync { offset_s: ",
                signed_decimal_of(offset_s).as_str(),
            );
            s.append(" })");
            s
        },
        Some(Verdict::Correct { offset_s }) => {
            let mut s: String = join(
                "Some(Correct { offset_s: ",
                signed_decimal_of(offset_s).as_str(),
            );
            s.append(" })");
            s
        },
        Some(Verdict::Untrusted { offset_s }) => {
            let mut s: String = join(
                "Some(Untrusted { offset_s: ",
                signed_decimal_of(offset_s).as_str(),
            );
            s.append(" })");
            s
        },
    }
}

/// What goes into the drift record, and what is logged, once the clock was set and read back.
/// `after` is what it read, and what the system clock said then. A set clock that did not read
/// back in sync is not recorded as a correction: without a trusted read-back there is no known
/// starting offset for the next free-running stretch.
pub fn clock_was_read_back(
    offset_s: i64,
    checked_at: u64,
    after: Option<(UpsTime, u64)>,
) -> (r: (Entry, String))
    ensures
        r.0.unix == checked_at,
        r.0.offset_s == offset_s,
        match verdict_after(after) {
            Some(Verdict::InSync { offset_s: after_s }) => r.0.action == (DriftAction::Corrected {
                after_s,
            }) && r.1@ == "argond: ups: clock was "@ + plus_decimal(offset_s as int)
                + " s off; set from the system clock, now "@ + plus_decimal(after_s as int)
                + " s"@,
            v => r.0.action == DriftAction::LeftAlone && r.1@ == "argond: ups: clock was "@
                + plus_decimal(offset_s as int) + " s off; set it, but the read-back is "@
                + verdict_words(v),
        },
{
    let verdict: Option<Verdict> = match after {
        Some((t, now)) => Some(judge(t, now, true)),
        None => None,
    };
    let mut s: String = join("argond: ups: clock was ", plus_decimal_of(offset_s).as_str());
    if let Some(Verdict::InSync { offset_s: after_s }) = verdict {
        s.append(" s off; set from the system clock, now ");
        s.append(plus_decimal_of(after_s).as_str());
        s.append(" s");
        (Entry { unix: checked_at, offset_s, action: DriftAction::Corrected { after_s } }, s)
    } else {
        s.append(" s off; set it, but the read-back is ");
        s.append(verdict_text(verdict).as_str());
        (Entry { unix: checked_at, offset_s, action: DriftAction::LeftAlone }, s)
    }
}

/// A correction is recorded only where the clock was read back within the threshold.
pub proof fn law_a_recorded_correction_was_read_back(after: Option<(UpsTime, u64)>, after_s: i64)
    requires
        verdict_after(after) == Some(Verdict::InSync { offset_s: after_s }),
    ensures
        -THRESHOLD_S <= after_s <= THRESHOLD_S,
        after is Some,
{
}

/// What is logged when the thread stops: a poweroff that is scheduled stays scheduled, for the
/// battery is still critical and stopping the daemon does not change that.
pub fn stop_line(dry_run: bool, scheduled: bool) -> (s: Option<&'static str>)
    ensures
        match s {
            Some(s) => !dry_run && scheduled && s@
                == "argond: ups: stopping with a poweroff scheduled; leaving it in place"@,
            None => dry_run || !scheduled,
        },
{
    if !dry_run && scheduled {
        Some("argond: ups: stopping with a poweroff scheduled; leaving it in place")
    } else {
        None
    }
}

// ---------------------------------------------------------------------------------------------
// What holds of all this
// ---------------------------------------------------------------------------------------------

/// The UPS is watched exactly where it is the configured source, the vendor's daemon does not hold
/// its port, and the policy makes sense. Shutdowns are carried out only in mode full and without
/// either of the vendor's daemons; the clock is set only in mode full and where that was asked for,
/// and the wake only in mode full.
pub proof fn law_the_ups_is_watched_where_it_can_be(
    config: &Config,
    active_units: &[String],
    policy_error: Option<&str>,
    s: Start,
)
    requires
        call_ensures(start, (config, active_units, policy_error), s),
    ensures
        s is Monitor <==> config.ups.source@ == "serial"@ && !texts(active_units@).contains(
            "argonupsrtcd.service"@,
        ) && policy_error is None,
        s matches Start::Monitor(p) ==> {
            &&& p.dry_run <==> config.mode@ != "full"@ || texts(active_units@).contains(
                "argononeupsd.service"@,
            )
            &&& p.writes.clock <==> config.mode@ == "full"@ && config.ups.sync_clock
            &&& p.writes.wake <==> config.mode@ == "full"@
            &&& p.delay_s == config.ups.shutdown_delay_min * 60
            &&& config.ups.poll_interval_s >= 1 ==> p.interval_s == config.ups.poll_interval_s
            &&& p.interval_s >= 1
            &&& p.state_file@ == config.ups.state_file@
            &&& p.port is None <==> config.ups.port@ == "auto"@
            &&& p.port is Some ==> (p.port->0)@ == config.ups.port@
        },
{
    let active = texts(active_units@);
    let us = ups_vendor_units();
    let a = "argonupsrtcd.service"@;
    let b = "argononeupsd.service"@;
    assert(us[0] == a && us[1] == b);
    crate::device::ups_service::law_only_active_vendor_units_contend(us, active, a);
    crate::device::ups_service::law_only_active_vendor_units_contend(us, active, b);
    let c = among(us, active);
    if c.len() > 0 {
        crate::device::ups_service::law_only_active_vendor_units_contend(us, active, c[0]);
        assert(c.contains(c[0]));
        assert(us.contains(c[0]));
        assert(c[0] == a || c[0] == b);
    }
    reveal_strlit("read-only");
    reveal_strlit("managed");
    reveal_strlit("full");
    assert("read-only"@.len() == 9 && "managed"@.len() == 7 && "full"@.len() == 4);
}

/// The port is opened again after three failures in a row, and not before; the clock and the wake
/// schedule are looked at when they are due, after a poll that succeeded, and at no other time.
pub proof fn law_a_failing_port_is_opened_again(
    failures: u32,
    failed: bool,
    clock_due: bool,
    wake_due: bool,
    a: AfterPoll,
)
    requires
        call_ensures(after_poll, (failures, failed, clock_due, wake_due), a),
    ensures
        a.reopen <==> failures >= 3,
        a.check_clock <==> clock_due && !failed && failures < 3,
        a.check_wake <==> wake_due && !failed && failures < 3,
{
}

/// An uptime that cannot be read counts as none, which holds a shutdown back; one that can is taken
/// as it is. That it cannot be is said once.
pub proof fn law_an_unreadable_uptime_is_none(u: Duration, e: String)
    ensures
        forall|m: &mut bool, r: (Duration, Option<String>)| #[trigger]
            call_ensures(uptime_or_zero, (Ok::<Duration, String>(u), m), r) ==> r.0 == u && r.1
                is None && !*final(m),
        forall|m: &mut bool, r: (Duration, Option<String>)| #[trigger]
            call_ensures(uptime_or_zero, (Err::<Duration, String>(e), m), r) ==> r.0.ns() == 0 && (
            r.1 is Some <==> !*m) && *final(m),
{
}

/// A port is opened exactly where it is there and nobody holds it. That there is none is said once,
/// that somebody holds it always.
pub proof fn law_only_a_free_port_is_opened(path: &str, pid: u32, comm: String)
    ensures
        forall|m: &mut bool, o: Opening| #[trigger]
            call_ensures(open_link, (path, Port::Free, m), o) ==> o is Open && *final(m) == *m,
        forall|m: &mut bool, o: Opening| #[trigger]
            call_ensures(open_link, (path, Port::Held { pid, comm }, m), o) ==> o is Wait && *final(
                m) == *m,
        forall|m: &mut bool, o: Opening| #[trigger]
            call_ensures(open_link, (path, Port::Missing, m), o) ==> (o matches Opening::Nothing(
                log,
            ) && (log is Some <==> !*m)) && *final(m),
{
}

/// What fails on every poll is said once, and again only after it has worked.
pub proof fn law_a_failure_is_said_once_per_episode(path: &str, e: &str)
    ensures
        forall|m: &mut bool, log: Option<String>| #[trigger]
            call_ensures(published, (path, Some(e), m), log) ==> (log is Some <==> !*m) && *final(m),
        forall|m: &mut bool, log: Option<String>| #[trigger]
            call_ensures(published, (path, None::<&str>, m), log) ==> log is None && !*final(m),
        forall|m: &mut bool, log: Option<String>| #[trigger]
            call_ensures(opened, (path, Some(e), m), log) ==> (log is Some <==> !*m) && *final(m),
        forall|m: &mut bool, log: Option<String>| #[trigger]
            call_ensures(opened, (path, None::<&str>, m), log) ==> log is Some && !*final(m),
{
}

/// The state directory is what stands before the first colon, where anything does.
pub proof fn law_the_first_state_directory_counts<'a>(
    first: Seq<char>,
    rest: Seq<char>,
    alone: &'a str,
    several: &'a str,
    a: Option<&'a str>,
    b: Option<&'a str>,
    c: Option<&'a str>,
)
    requires
        forall|i: int| 0 <= i < first.len() ==> first[i] != ':',
        alone@ == first,
        several@ == first + ":"@ + rest,
        call_ensures(state_directory, (Some(alone),), a),
        call_ensures(state_directory, (Some(several),), b),
        call_ensures(state_directory, (None::<&'a str>,), c),
    ensures
        c is None,
        a is Some <==> first.len() > 0,
        b is Some <==> first.len() > 0,
        a is Some ==> (a->0)@ == first && (b->0)@ == first,
{
    reveal_strlit(":");
    let s = several@;
    crate::text::lemma_first_at_unique(s, ':', first.len() as int);
    assert(s.take(first.len() as int) =~= first);
    crate::text::lemma_first_at(first, ':');
    assert(first.take(first.len() as int) =~= first);
}

/// A sleep is cut into slices of at most a quarter of a second, and always goes on.
pub proof fn law_a_sleep_is_cut_short(left: u64, n: u64)
    requires
        call_ensures(sleep_slice, (left,), n),
    ensures
        n <= left && n <= 250_000_000,
        n == 0 <==> left == 0,
        left <= 250_000_000 ==> n == left,
{
}

/// Whatever was done is logged, and nothing else; a poweroff that was scheduled with how long there is
/// to stop it, in minutes and seconds, and when it is.
pub proof fn law_what_was_done_is_logged(action: &Action, now: SystemTime, log: Option<String>)
    requires
        call_ensures(action_line, (action, now), log),
    ensures
        log is None <==> *action is Nothing,
        action matches Action::Scheduled { at } ==> now.ns() <= at.ns() && 0 <= at.ns() && at.ns()
            - now.ns() <= crate::time::MAX_NANOS ==> (log->0)@
            == "argond: ups: poweroff SCHEDULED in "@ + decimal(
            ((at.ns() - now.ns()) / 1_000_000_000 / 60) as nat,
        ) + "m"@ + padded(((at.ns() - now.ns()) / 1_000_000_000 % 60) as nat, 2)
            + "s (unix time "@ + decimal((at.ns() / 1_000_000_000) as nat) + ")"@,
        *action is AlreadyPending ==> (log->0)@
            == "argond: ups: a shutdown is already pending; leaving it alone"@,
        *action is Cancelled ==> (log->0)@ == "argond: ups: poweroff cancelled"@,
        *action is OverriddenByOperator ==> (log->0)@
            == "argond: ups: our poweroff was cancelled by someone else; standing down"@,
        *action is WouldSchedule ==> (log->0)@
            == "argond: ups: would schedule a poweroff (dry run)"@,
        *action is WouldCancel ==> (log->0)@ == "argond: ups: would cancel the poweroff (dry run)"@,
{
}

/// A wake is set exactly where that is allowed, it is far enough ahead and the device can hold it, and
/// for the start of the minute that was asked for. Otherwise it is answered at once.
pub proof fn law_a_request_sets_the_wake_it_asked_for(
    at_unix: u64,
    wake_writes: bool,
    now: u64,
    request: &Request,
    r: (WakeRequest, Next),
    minute: int,
)
    requires
        *request == (Request::PoweroffWithWake { at_unix }),
        call_ensures(WakeRequest::start, (request, wake_writes, now), r),
        minute * 60 <= at_unix < minute * 60 + 60,
    ensures
        r.1 is SetWake <==> wake_writes && minute * 60 >= now + 900 && 946_684_800 <= minute * 60
            < 4_102_444_800,
        r.1 matches Next::SetWake { at } ==> at.valid() && at.second is None && at.unix() == minute
            * 60 && r.0@ == Progress::Setting(at),
        !(r.1 is SetWake) ==> (r.1 matches Next::Answer(a) && a is Error) && r.0@ == Progress::Over,
{
}

/// A request goes on step by step: what was set is read back, what reads back to the minute is
/// followed by a poweroff a minute ahead, and that by an answer with both times. A wake that reads
/// back otherwise, or not at all, and a poweroff that cannot be scheduled, are followed by parking,
/// and that by an answer that says so.
pub proof fn law_a_request_goes_step_by_step(
    t: UpsTime,
    back: UpsTime,
    shown: Seq<char>,
    at: SystemTime,
    e: Seq<char>,
    failure: Option<Seq<char>>,
    a: Seq<char>,
    b: Seq<char>,
)
    requires
        t.valid(),
    ensures
        Progress::Setting(t).set(None) == (Progress::Reading(t), Demand::ReadWake),
        back.year == t.year && back.month == t.month && back.day == t.day && back.hour == t.hour
            && back.minute == t.minute ==> Progress::Reading(t).read(Some(Some(back)), shown) == (
            Progress::Scheduling(t),
            Demand::SchedulePoweroff(60, wake_message(t)),
        ),
        back.year != t.year || back.month != t.month || back.day != t.day || back.hour != t.hour
            || back.minute != t.minute ==> Progress::Reading(t).read(Some(Some(back)), shown).1
            == Demand::Park,
        Progress::Reading(t).read(Some(None), shown).1 == Demand::Park,
        Progress::Reading(t).read(None, shown).1 == Demand::Park,
        Progress::Scheduling(t).scheduled(Ok(at)) == (
            Progress::Over,
            Demand::Answer(
                Answer::PoweroffScheduled {
                    wake_unix: t.unix() as nat,
                    poweroff_unix: at.unix_or_zero(),
                },
            ),
        ),
        Progress::Scheduling(t).scheduled(Err(e)).1 == Demand::Park,
        Progress::Parking(a, b).parked(failure).0 == Progress::Over,
        Progress::Parking(a, b).parked(failure).1 matches Demand::Answer(Answer::Error { message })
            && begins(message, a),
{
    let message = a + parked_words(failure) + b;
    assert(message.take(a.len() as int) =~= a);
}

/// A schedule that lies more than ten minutes ahead is left alone, and is logged when it has changed;
/// any other is parked where that is allowed, and warned of every time where it is not.
pub proof fn law_a_near_schedule_is_parked(t: UpsTime, allowed: bool, now: u64)
    ensures
        forall|m: &mut Seen, c: WakeCheck| #[trigger]
            call_ensures(check_wake, (Some(t), allowed, now, m), c) ==> {
                &&& c is Park <==> allowed && !(t.valid() && t.unix() > now + 600)
                &&& c matches WakeCheck::Park { found, why } ==> found == t && *final(m)
                    == Seen::Unknown
                &&& t.valid() && t.unix() > now + 600 ==> *final(m) == Seen::At(t) && (c matches
                    WakeCheck::Done(log) && (log is Some <==> *m != Seen::At(t)))
                &&& !allowed && !(t.valid() && t.unix() > now + 600) ==> *final(m) == *m && (
                c matches WakeCheck::Done(log) && log is Some)
            },
        forall|m: &mut Seen, c: WakeCheck| #[trigger]
            call_ensures(check_wake, (None::<UpsTime>, allowed, now, m), c) ==> *final(m)
                == Seen::Nothing && (c matches WakeCheck::Done(log) && (log is Some <==> *m
                != Seen::Nothing)),
{
}

/// The clock is set exactly where it is more than two seconds off, the system clock is synchronised
/// and setting it is allowed. Otherwise the check is recorded: as in sync where it is no more than
/// two seconds off, as left alone where it is, and not at all where the clock reads as no date.
pub proof fn law_the_clock_is_set_where_it_is_off(
    ups: UpsTime,
    now: u64,
    synced: bool,
    writes: bool,
    c: ClockCheck,
)
    requires
        call_ensures(check_clock, (ups, now, synced, writes), c),
        now <= i64::MAX,
    ensures
        c is SetClock <==> ups.valid() && synced && writes && (ups.unix() - now > 2 || now
            - ups.unix() > 2),
        c matches ClockCheck::SetClock { offset_s } ==> offset_s == ups.unix() - now,
        c matches ClockCheck::Done(entry, _) ==> {
            &&& entry is Some <==> ups.valid()
            &&& entry is Some ==> (entry->0).unix == now && (entry->0).offset_s == ups.unix() - now
            &&& entry is Some ==> ((entry->0).action == DriftAction::InSync <==> -2 <= ups.unix()
                - now <= 2)
            &&& entry is Some ==> ((entry->0).action == DriftAction::LeftAlone <==> ups.unix() - now
                > 2 || now - ups.unix() > 2)
        },
{
    if ups.valid() {
        law_valid_times_are_in_range(ups);
    }
}

/// A clock that was set is recorded as corrected exactly where it reads back within two seconds, with
/// the offset it then has; one that was not, or that failed to be set, as left alone. Either way
/// with the offset that was found.
pub proof fn law_a_correction_is_recorded_where_it_took(
    offset_s: i64,
    checked_at: u64,
    t: UpsTime,
    now: u64,
    r: (Entry, String),
    none: (Entry, String),
    failure: &str,
    failed: (Entry, String),
)
    requires
        call_ensures(clock_was_read_back, (offset_s, checked_at, Some((t, now))), r),
        call_ensures(
            clock_was_read_back,
            (offset_s, checked_at, None::<(UpsTime, u64)>),
            none,
        ),
        call_ensures(clock_set_failed, (offset_s, checked_at, failure), failed),
        now <= i64::MAX,
    ensures
        r.0.action is Corrected <==> t.valid() && -2 <= t.unix() - now <= 2,
        r.0.action matches DriftAction::Corrected { after_s } ==> after_s == t.unix() - now,
        !(r.0.action is Corrected) ==> r.0.action == DriftAction::LeftAlone,
        none.0.action == DriftAction::LeftAlone,
        failed.0.action == DriftAction::LeftAlone,
        r.0.unix == checked_at && none.0.unix == checked_at && failed.0.unix == checked_at,
        r.0.offset_s == offset_s && none.0.offset_s == offset_s && failed.0.offset_s == offset_s,
{
    if t.valid() {
        law_valid_times_are_in_range(t);
    }
}

/// That a poweroff stays scheduled is said exactly where one is.
pub proof fn law_a_poweroff_left_in_place_is_said(dry_run: bool, scheduled: bool, s: Option<&'static str>)
    requires
        call_ensures(stop_line, (dry_run, scheduled), s),
    ensures
        s is Some <==> scheduled && !dry_run,
{
}

/// A shutdown that is held back is logged once per episode, a change of level and a failed reading
/// always, and a cycle in which nothing happened not at all.
pub proof fn law_a_cycle_is_logged_as_it_was(
    cycle: &Cycle,
    from: &str,
    to: &str,
    e: &str,
    now: SystemTime,
)
    requires
        cycle.action is Nothing,
    ensures
        forall|m: &mut bool, log: Vec<String>| #[trigger]
            call_ensures(
                report_cycle,
                (cycle, None::<(&str, &str)>, None::<&str>, now, m),
                log,
            ) ==> {
                &&& log@.len() == (if cycle.poll.decision.advice is HeldForUptime && !*m {
                    1int
                } else {
                    0int
                })
                &&& *final(m) <==> cycle.poll.decision.advice is HeldForUptime
            },
        forall|m: &mut bool, log: Vec<String>| #[trigger]
            call_ensures(
                report_cycle,
                (cycle, Some((from, to)), Some(e), now, m),
                log,
            ) && !(cycle.poll.decision.advice is HeldForUptime) ==> {
                &&& log@.len() == 2
                &&& begins(log@[0]@, "argond: ups: "@ + from@ + " -> "@ + to@)
                &&& log@[1]@ == "argond: ups: read failed ("@ + decimal(
                    cycle.poll.consecutive_failures as nat,
                ) + " in a row): "@ + e@
            },
{
    assert forall|m: &mut bool, log: Vec<String>| #[trigger]
        call_ensures(
            report_cycle,
            (cycle, None::<(&str, &str)>, None::<&str>, now, m),
            log,
        ) implies log@.len() == (if cycle.poll.decision.advice is HeldForUptime && !*m {
        1int
    } else {
        0int
    }) by {
        assert(texts(log@).len() == log@.len());
    }
    assert forall|m: &mut bool, log: Vec<String>| #[trigger]
        call_ensures(report_cycle, (cycle, Some((from, to)), Some(e), now, m), log) && !(
    cycle.poll.decision.advice is HeldForUptime) implies log@.len() == 2 && begins(
        log@[0]@,
        "argond: ups: "@ + from@ + " -> "@ + to@,
    ) && log@[1]@ == "argond: ups: read failed ("@ + decimal(
        cycle.poll.consecutive_failures as nat,
    ) + " in a row): "@ + e@ by {
        let v = texts(log@);
        assert(v.len() == log@.len());
        assert(v.len() == 2);
        assert(v[0] == log@[0]@ && v[1] == log@[1]@);
        let head = "argond: ups: "@ + from@ + " -> "@ + to@;
        assert(v[0].take(head.len() as int) =~= head);
    }
}

/// A minute is told with the year in four places and the rest in two each.
pub proof fn law_a_minute_is_told_in_full(t: UpsTime, s: String)
    requires
        call_ensures(minute_text, (t,), s),
        t.valid(),
    ensures
        s@.len() == 20,
        digits_value(s@.subrange(0, 4)) == t.year,
        digits_value(s@.subrange(5, 7)) == t.month,
        digits_value(s@.subrange(8, 10)) == t.day,
        digits_value(s@.subrange(11, 13)) == t.hour,
        digits_value(s@.subrange(14, 16)) == t.minute,
{
    reveal_strlit("-");
    reveal_strlit(" ");
    reveal_strlit(":");
    reveal_strlit(" UTC");
    lemma_padded_value(t.year as nat, 4);
    lemma_padded_value(t.month as nat, 2);
    lemma_padded_value(t.day as nat, 2);
    lemma_padded_value(t.hour as nat, 2);
    lemma_padded_value(t.minute as nat, 2);
    assert(s@.subrange(0, 4) =~= padded(t.year as nat, 4));
    assert(s@.subrange(5, 7) =~= padded(t.month as nat, 2));
    assert(s@.subrange(8, 10) =~= padded(t.day as nat, 2));
    assert(s@.subrange(11, 13) =~= padded(t.hour as nat, 2));
    assert(s@.subrange(14, 16) =~= padded(t.minute as nat, 2));
}

/// A shutdown is announced as enabled exactly in mode full with nothing of the vendor's running, and
/// otherwise as a dry run, with why.
pub proof fn law_a_dry_run_says_why(contended: Seq<Seq<char>>, min: nat)
    ensures
        contended.len() == 0 ==> shutdown_words(Mode::Full, contended, min)
            == "argond: ups: shutdown ENABLED: poweroff "@ + decimal(min)
            + " min after the battery is confirmed critical, cancelled if mains returns"@,
        contended.len() > 0 ==> shutdown_words(Mode::Full, contended, min)
            == "argond: ups: shutdown in dry run: "@ + joined(contended, ", "@)
            + " still running and has its own shutdown logic"@,
        shutdown_words(Mode::Managed, contended, min)
            == "argond: ups: shutdown in dry run: mode is "@ + "managed"@
            + ", and only mode \"full\" may power the machine off"@,
        shutdown_words(Mode::ReadOnly, contended, min)
            == "argond: ups: shutdown in dry run: mode is "@ + "read-only"@
            + ", and only mode \"full\" may power the machine off"@,
{
}

/// A clock that was set is judged by how it reads back against a system clock that is synchronised.
pub proof fn law_a_set_clock_is_judged_as_synchronised(t: UpsTime, now: u64, v: Verdict)
    requires
        call_ensures(crate::device::clock_sync::judge, (t, now, true), v),
    ensures
        verdict_after(Some((t, now))) == Some(v),
        verdict_after(None) is None,
{
}

} // verus!
