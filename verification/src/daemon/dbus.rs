//! What the bus service decides: who may do what, and what is reported.
//!
//! This is how programs running as an ordinary user ask the daemon to act. An authority decides per
//! call; every refusal and every failure to ask it ends before anything is done.

use crate::daemon::exporter::State;
use crate::daemon::oled::{to_remember, OledControl, Remember};
use crate::device::control::{
    field_views, Fields, Request, Response, ACTION_CPU_CAP, ACTION_OLED, ACTION_POWEROFF_WITH_WAKE,
};
use crate::device::celsius::{tenths, tenths_of};
use crate::device::status::{owned, source, source_of, UpsStatus};
use crate::text::{decimal, decimal_of, join, signed_decimal, signed_decimal_of};
use crate::time::{SystemTime, MAX_NANOS, NANOS_PER_SEC};
use vstd::prelude::*;

verus! {

/// What the authority said about a caller.
#[derive(Clone, Copy, Debug, PartialEq, Eq, Structural)]
pub enum Verdict {
    /// Allowed.
    Yes,
    /// Allowed after authentication.
    Challenge,
    /// Not allowed.
    No,
}

impl Verdict {
    /// The verdict in polkit's answer: whether the caller is authorised, and whether it would be
    /// after authentication.
    pub fn of(authorized: bool, challenge: bool) -> (v: Verdict)
        ensures
            v == if authorized {
                Verdict::Yes
            } else if challenge {
                Verdict::Challenge
            } else {
                Verdict::No
            },
    {
        if authorized {
            Verdict::Yes
        } else if challenge {
            Verdict::Challenge
        } else {
            Verdict::No
        }
    }
}

/// Decides whether a caller may do something.
pub trait Authorize {
    /// Asks about `sender` (a unique bus name) and `action`. With `interactive`, the caller's
    /// authentication agent may prompt. An error says that the question could not be asked.
    fn check(&self, sender: &str, action: &str, interactive: bool) -> Result<Verdict, String>;
}

/// Something that can cap and uncap the CPU.
pub trait CapControl {
    /// Caps every policy at its lowest frequency. Capping twice changes nothing.
    fn cap(&mut self) -> Result<(), String>;

    /// Puts back the limits in force before `cap`. Nothing to do if not capped.
    fn lift(&mut self) -> Result<(), String>;
}

/// Why a call on the bus failed.
#[derive(Clone, Debug, PartialEq, Eq)]
pub enum BusError {
    /// The caller may not.
    AccessDenied(String),
    /// The caller may, but it did not work.
    Failed(String),
}

/// Whether an error refuses a caller, on a verdict, and says why.
pub open spec fn denies(e: BusError, verdict: Result<Verdict, String>, refusal: Seq<char>) -> bool {
    match verdict {
        Ok(Verdict::Yes) => false,
        Ok(_) => e matches BusError::AccessDenied(m) && m@ == refusal,
        Err(why) => e matches BusError::AccessDenied(m) && m@
            == "could not check authorisation, so refusing: "@ + why@,
    }
}

/// Lets a caller through on a verdict, or refuses it: only a clear yes passes.
pub fn allowed(verdict: Result<Verdict, String>, refusal: &str) -> (r: Result<(), BusError>)
    ensures
        match r {
            Ok(()) => verdict == Ok::<Verdict, String>(Verdict::Yes),
            Err(e) => denies(e, verdict, refusal@),
        },
{
    match verdict {
        Ok(Verdict::Yes) => Ok(()),
        Ok(_) => Err(BusError::AccessDenied(refusal.to_owned())),
        Err(e) => Err(
            BusError::AccessDenied(join("could not check authorisation, so refusing: ", e.as_str())),
        ),
    }
}

/// What a caller is told it can do.
pub open spec fn can_word(verdict: Result<Verdict, String>) -> Seq<char> {
    match verdict {
        Ok(Verdict::Yes) => "yes"@,
        Ok(Verdict::Challenge) => "challenge"@,
        _ => "no"@,
    }
}

/// What a caller is told it can do, on a verdict. A failed check is a "no": the one wrong answer
/// that must not happen here is "yes".
pub fn can_answer(verdict: Result<Verdict, String>) -> (s: &'static str)
    ensures
        s@ == can_word(verdict),
{
    match verdict {
        Ok(Verdict::Yes) => "yes",
        Ok(Verdict::Challenge) => "challenge",
        _ => "no",
    }
}

/// Whether the caller may power off with a wake: "yes", "challenge", "no", or "na" when this
/// hardware has no wake, for which nobody is asked. Only asks, never prompts, and changes nothing.
pub fn can<A: Authorize>(auth: &A, sender: &str, wake_supported: bool) -> (s: &'static str)
    requires
        wake_supported ==> call_requires(
            A::check,
            (auth, sender, ACTION_POWEROFF_WITH_WAKE, false),
        ),
    ensures
        if !wake_supported {
            s@ == "na"@
        } else {
            exists|v: Result<Verdict, String>|
                #[trigger] call_ensures(
                    A::check,
                    (auth, sender, ACTION_POWEROFF_WITH_WAKE, false),
                    v,
                ) && s@ == can_word(v)
        },
{
    if !wake_supported {
        return "na";
    }
    can_answer(auth.check(sender, ACTION_POWEROFF_WITH_WAKE, false))
}

/// What an answer of the UPS thread means for the caller on the bus.
pub fn relayed(answer: Response) -> (r: Result<(u64, u64), BusError>)
    ensures
        match answer {
            Response::PoweroffScheduled { wake_unix, poweroff_unix } => r == Ok::<
                (u64, u64),
                BusError,
            >((wake_unix, poweroff_unix)),
            Response::Error { message } => r == Err::<(u64, u64), BusError>(
                BusError::Failed(message),
            ),
        },
{
    match answer {
        Response::PoweroffScheduled { wake_unix, poweroff_unix } => Ok((wake_unix, poweroff_unix)),
        Response::Error { message } => Err(BusError::Failed(message)),
    }
}

/// Sets a UPS wake and powers off, for a caller that may. The check may prompt. `relay` hands the
/// request to the UPS thread; a caller that may not never reaches it: that it can be called at all
/// is only known once the check has given a clear yes.
pub fn poweroff<A: Authorize, F: FnOnce(Request) -> Response>(
    auth: &A,
    sender: &str,
    at_unix: u64,
    relay: F,
) -> (r: Result<(u64, u64), BusError>)
    requires
        call_requires(A::check, (auth, sender, ACTION_POWEROFF_WITH_WAKE, true)),
        call_ensures(
            A::check,
            (auth, sender, ACTION_POWEROFF_WITH_WAKE, true),
            Ok::<Verdict, String>(Verdict::Yes),
        ) ==> call_requires(relay, (Request::PoweroffWithWake { at_unix },)),
    ensures
        exists|v: Result<Verdict, String>|
            #[trigger] call_ensures(A::check, (auth, sender, ACTION_POWEROFF_WITH_WAKE, true), v)
                && (match r {
                Err(BusError::AccessDenied(_)) => denies(
                    r->Err_0,
                    v,
                    "not authorised by polkit to power off with a wake"@,
                ),
                _ => v == Ok::<Verdict, String>(Verdict::Yes) && exists|answer: Response|
                    #[trigger] call_ensures(
                        relay,
                        (Request::PoweroffWithWake { at_unix },),
                        answer,
                    ) && match answer {
                        Response::PoweroffScheduled { wake_unix, poweroff_unix } => r == Ok::<
                            (u64, u64),
                            BusError,
                        >((wake_unix, poweroff_unix)),
                        Response::Error { message } => r == Err::<(u64, u64), BusError>(
                            BusError::Failed(message),
                        ),
                    },
            }),
{
    let verdict: Result<Verdict, String> = auth.check(sender, ACTION_POWEROFF_WITH_WAKE, true);
    match allowed(verdict, "not authorised by polkit to power off with a wake") {
        Ok(()) => {},
        Err(e) => {
            return Err(e);
        },
    }
    let answer: Response = relay(Request::PoweroffWithWake { at_unix });
    relayed(answer)
}

/// Switches the case display for a caller that may. Never prompts. Returns what to do to remember
/// the choice.
pub fn set_oled<A: Authorize>(
    auth: &A,
    sender: &str,
    on: bool,
    oled: &mut OledControl,
) -> (r: Result<Remember, BusError>)
    requires
        call_requires(A::check, (auth, sender, ACTION_OLED, false)),
    ensures
        final(oled).available() == old(oled).available(),
        final(oled).remembers() == old(oled).remembers(),
        exists|v: Result<Verdict, String>|
            #[trigger] call_ensures(A::check, (auth, sender, ACTION_OLED, false), v) && (match r {
                Ok(what) => v == Ok::<Verdict, String>(Verdict::Yes) && old(oled).available()
                    && final(oled).wanted() == on && what == to_remember(old(oled).remembers(), on),
                Err(BusError::AccessDenied(_)) => denies(
                    r->Err_0,
                    v,
                    "not authorised by polkit to switch the case display"@,
                ) && *final(oled) == *old(oled),
                Err(BusError::Failed(m)) => v == Ok::<Verdict, String>(Verdict::Yes) && !old(
                    oled,
                ).available() && final(oled).wanted() == old(oled).wanted() && m@
                    == "no case display is being driven (see [oled] in the config)"@,
            }),
{
    let verdict: Result<Verdict, String> = auth.check(sender, ACTION_OLED, false);
    match allowed(verdict, "not authorised by polkit to switch the case display") {
        Ok(()) => {},
        Err(e) => {
            return Err(e);
        },
    }
    match oled.set(on) {
        Ok(what) => Ok(what),
        Err(e) => Err(BusError::Failed(e)),
    }
}

/// A change of the CPU's limit.
#[derive(Clone, Copy, Debug, PartialEq, Eq, Structural)]
pub enum CapChange {
    /// Cap it at its lowest frequency.
    Cap,
    /// Put back the limit in force before.
    Lift,
}

/// What a verdict lets a caller do to the CPU's limit. Nothing, unless it is a clear yes.
pub fn cpu_cap_change(verdict: Result<Verdict, String>, capped: bool) -> (r: Result<
    CapChange,
    BusError,
>)
    ensures
        match r {
            Ok(change) => verdict == Ok::<Verdict, String>(Verdict::Yes) && change == if capped {
                CapChange::Cap
            } else {
                CapChange::Lift
            },
            Err(e) => denies(
                e,
                verdict,
                "not authorised by polkit to change the CPU frequency limit"@,
            ),
        },
{
    match allowed(verdict, "not authorised by polkit to change the CPU frequency limit") {
        Ok(()) => Ok(
            if capped {
                CapChange::Cap
            } else {
                CapChange::Lift
            },
        ),
        Err(e) => Err(e),
    }
}

/// What a caller is answered once the limit was changed, or could not be.
pub open spec fn cap_answer(done: Result<(), String>, r: Result<(), BusError>) -> bool {
    match done {
        Ok(()) => r is Ok,
        Err(e) => r == Err::<(), BusError>(BusError::Failed(e)),
    }
}

/// What the CPU's own control answered, for the caller on the bus.
pub fn cpu_cap_answer(done: Result<(), String>) -> (r: Result<(), BusError>)
    ensures
        cap_answer(done, r),
{
    match done {
        Ok(()) => Ok(()),
        Err(e) => Err(BusError::Failed(e)),
    }
}

/// Caps the CPU at its lowest frequency (`true`), or puts back the limit in force before, for a
/// caller that may. Never prompts. What the CPU's own control answers is handed on.
pub fn set_cpu_cap<A: Authorize, C: CapControl>(
    auth: &A,
    sender: &str,
    capped: bool,
    cpu: &mut C,
) -> (r: Result<(), BusError>)
    requires
        call_requires(A::check, (auth, sender, ACTION_CPU_CAP, false)),
    ensures
        exists|v: Result<Verdict, String>|
            #[trigger] call_ensures(A::check, (auth, sender, ACTION_CPU_CAP, false), v) && (match r {
                Err(BusError::AccessDenied(_)) => denies(
                    r->Err_0,
                    v,
                    "not authorised by polkit to change the CPU frequency limit"@,
                ) && *final(cpu) == *old(cpu),
                _ => v == Ok::<Verdict, String>(Verdict::Yes) && if capped {
                    exists|m: &mut C, done: Result<(), String>|
                        #[trigger] call_ensures(C::cap, (m,), done) && *m == *old(cpu) && *final(m)
                            == *final(cpu) && cap_answer(done, r)
                } else {
                    exists|m: &mut C, done: Result<(), String>|
                        #[trigger] call_ensures(C::lift, (m,), done) && *m == *old(cpu) && *final(m)
                            == *final(cpu) && cap_answer(done, r)
                },
            }),
{
    let verdict: Result<Verdict, String> = auth.check(sender, ACTION_CPU_CAP, false);
    match cpu_cap_change(verdict, capped) {
        Ok(CapChange::Cap) => cpu_cap_answer(cpu.cap()),
        Ok(CapChange::Lift) => cpu_cap_answer(cpu.lift()),
        Err(e) => Err(e),
    }
}

/// What is logged when the CPU cap was changed for a caller.
pub fn cpu_cap_line(sender: &str, capped: bool) -> (s: String)
    ensures
        s@ == "argond: cpu: "@ + (if capped {
            "capped at its lowest frequency"@
        } else {
            "cap lifted"@
        }) + " at "@ + sender@ + "'s request"@,
{
    let mut s: String = join(
        "argond: cpu: ",
        if capped {
            "capped at its lowest frequency"
        } else {
            "cap lifted"
        },
    );
    s.append(" at ");
    s.append(sender);
    s.append("'s request");
    s
}

// ---------------------------------------------------------------------------------------------
// Reports
// ---------------------------------------------------------------------------------------------

/// A number in decimal, or nothing.
pub open spec fn number_or_nothing(n: Option<nat>) -> Seq<char> {
    match n {
        Some(n) => decimal(n),
        None => Seq::empty(),
    }
}

/// A yes or a no.
pub open spec fn yes_no(b: bool) -> Seq<char> {
    if b {
        "yes"@
    } else {
        "no"@
    }
}

/// What the control loop last did with the fan, by name.
pub open spec fn fan_report(state: State, now: SystemTime) -> Seq<(Seq<char>, Seq<char>)> {
    match state.updated_unix {
        None => seq![("available"@, "no"@)],
        Some(updated) => seq![
            ("available"@, "yes"@),
            ("driving"@, yes_no(state.fan_driving)),
            (
                "duty_percent"@,
                number_or_nothing(
                    match state.fan_duty_percent {
                        Some(d) => Some(d as nat),
                        None => None,
                    },
                ),
            ),
            (
                "temperature_c"@,
                match state.cpu_decicelsius {
                    Some(d) => tenths(d),
                    None => Seq::empty(),
                },
            ),
            ("sensor_failures"@, decimal(state.sensor_failures as nat)),
            (
                "age_s"@,
                decimal(
                    if now.unix_or_zero() >= updated {
                        (now.unix_or_zero() - updated) as nat
                    } else {
                        0
                    },
                ),
            ),
        ],
    }
}

/// Adds one pair.
fn add_field(f: &mut Fields, key: &str, value: &str)
    ensures
        field_views(final(f)@) == field_views(old(f)@).push((key@, value@)),
{
    let ghost before = f@;
    f.push((key.to_owned(), value.to_owned()));
    assert(field_views(f@) =~= field_views(before).push((key@, value@)));
}

/// What the control loop last did with the fan, as flat pairs.
///
/// `driving: no` is not a failure: in read-only mode, or with no MCU, the daemon deliberately
/// reports the fan without touching it.
pub fn fan_fields(state: &State, now: SystemTime) -> (f: Fields)
    ensures
        field_views(f@) == fan_report(*state, now),
{
    let mut f: Fields = Vec::new();
    assert(field_views(f@) =~= Seq::<(Seq<char>, Seq<char>)>::empty());
    match state.updated_unix {
        None => {
            add_field(&mut f, "available", "no");
        },
        Some(updated) => {
            add_field(&mut f, "available", "yes");
            add_field(
                &mut f,
                "driving",
                if state.fan_driving {
                    "yes"
                } else {
                    "no"
                },
            );
            let duty: String = match state.fan_duty_percent {
                Some(d) => decimal_of(d as u64),
                None => String::new(),
            };
            add_field(&mut f, "duty_percent", duty.as_str());
            let temperature: String = match state.cpu_decicelsius {
                Some(d) => tenths_of(d),
                None => String::new(),
            };
            add_field(&mut f, "temperature_c", temperature.as_str());
            add_field(
                &mut f,
                "sensor_failures",
                decimal_of(state.sensor_failures as u64).as_str(),
            );
            let unix: u64 = now.secs_or_zero();
            let age: u64 = if unix >= updated {
                unix - updated
            } else {
                0
            };
            add_field(&mut f, "age_s", decimal_of(age).as_str());
        },
    }
    assert(field_views(f@) =~= fan_report(*state, now));
    f
}

/// The last reading of the battery, by name.
pub open spec fn status_report(latest: Option<UpsStatus>, now: SystemTime) -> Seq<
    (Seq<char>, Seq<char>),
> {
    match latest {
        None => seq![("available"@, "no"@)],
        Some(s) => seq![
            ("available"@, "yes"@),
            ("level"@, s.level@),
            ("source"@, source(s.level@)),
            ("percent"@, number_or_nothing(s@.percent)),
            ("updated_unix"@, decimal(s.updated.unix_or_zero())),
            ("age_s"@, decimal(age_of(s, now))),
            (
                "shutdown_at_unix"@,
                number_or_nothing(
                    match s.shutdown_at {
                        Some(t) => Some(t.unix_or_zero()),
                        None => None,
                    },
                ),
            ),
        ],
    }
}

/// The whole seconds since a status was written, or 0 where the clock went back since.
pub open spec fn age_of(s: UpsStatus, now: SystemTime) -> nat {
    whole_secs(now.since(s.updated))
}

/// The whole seconds of so many nanoseconds, as far as a length of time goes.
pub open spec fn whole_secs(ns: nat) -> nat {
    (if ns <= MAX_NANOS {
        ns
    } else {
        MAX_NANOS as nat
    }) / (NANOS_PER_SEC as nat)
}

/// The status as flat pairs for the bus.
///
/// Pairs rather than a structure: a reader that does not know a key ignores it. `age_s` is included
/// because a caller cannot otherwise tell a fresh reading from one left behind.
pub fn status_fields(latest: Option<&UpsStatus>, now: SystemTime) -> (f: Fields)
    ensures
        field_views(f@) == status_report(owned(latest), now),
{
    let mut f: Fields = Vec::new();
    assert(field_views(f@) =~= Seq::<(Seq<char>, Seq<char>)>::empty());
    match latest {
        None => {
            add_field(&mut f, "available", "no");
        },
        Some(s) => {
            add_field(&mut f, "available", "yes");
            add_field(&mut f, "level", s.level.as_str());
            add_field(&mut f, "source", source_of(s.level.as_str()));
            let percent: String = match s.percent {
                Some(p) => decimal_of(p as u64),
                None => String::new(),
            };
            add_field(&mut f, "percent", percent.as_str());
            add_field(&mut f, "updated_unix", decimal_of(s.updated.secs_or_zero()).as_str());
            add_field(
                &mut f,
                "age_s",
                decimal_of(now.elapsed_since(s.updated).as_secs()).as_str(),
            );
            let shutdown: String = match s.shutdown_at {
                Some(t) => decimal_of(t.secs_or_zero()),
                None => String::new(),
            };
            add_field(&mut f, "shutdown_at_unix", shutdown.as_str());
        },
    }
    assert(field_views(f@) =~= status_report(owned(latest), now));
    f
}

/// What a caller is told of the battery: the last reading, and which source is configured, so that a
/// caller with no reading can say why. "Monitoring is off" and "no reading yet" look identical
/// otherwise, and the first is a configuration choice, not a fault.
pub fn ups_status(latest: Option<&UpsStatus>, now: SystemTime, ups_source: &str) -> (f: Fields)
    ensures
        field_views(f@) == status_report(owned(latest), now).push(("source_config"@, ups_source@)),
{
    let mut f: Fields = status_fields(latest, now);
    add_field(&mut f, "source_config", ups_source);
    f
}

/// A caller is told "yes" only on a clear yes: neither a refusal, nor a challenge, nor a check that
/// failed turns into one.
pub proof fn law_can_never_turns_an_error_into_yes(verdict: Result<Verdict, String>)
    ensures
        can_word(verdict) == "yes"@ <==> verdict == Ok::<Verdict, String>(Verdict::Yes),
{
    reveal_strlit("yes");
    reveal_strlit("challenge");
    reveal_strlit("no");
    assert("yes"@.len() == 3 && "challenge"@.len() == 9 && "no"@.len() == 2);
}

/// Nothing is invented before the first reading: there is a single pair, and it says so.
pub proof fn law_nothing_is_reported_before_the_first_reading(now: SystemTime, state: State)
    requires
        state.updated_unix is None,
    ensures
        status_report(None, now) == seq![("available"@, "no"@)],
        fan_report(state, now) == seq![("available"@, "no"@)],
{
}

/// Polkit's answer is a yes exactly where the caller is authorised, and a challenge where it would be
/// after authentication.
pub proof fn law_polkits_answer_is_taken_as_it_is(authorized: bool, challenge: bool, v: Verdict)
    requires
        call_ensures(Verdict::of, (authorized, challenge), v),
    ensures
        v == Verdict::Yes <==> authorized,
        v == Verdict::Challenge <==> !authorized && challenge,
        v == Verdict::No <==> !authorized && !challenge,
{
}

/// A caller is let through on a clear yes and on nothing else; a check that failed is a refusal too.
pub proof fn law_only_a_clear_yes_passes(
    verdict: Result<Verdict, String>,
    refusal: &str,
    r: Result<(), BusError>,
    capped: bool,
    change: Result<CapChange, BusError>,
)
    requires
        call_ensures(allowed, (verdict, refusal), r),
        call_ensures(cpu_cap_change, (verdict, capped), change),
    ensures
        r is Ok <==> verdict == Ok::<Verdict, String>(Verdict::Yes),
        r matches Err(e) ==> e is AccessDenied,
        change is Ok <==> verdict == Ok::<Verdict, String>(Verdict::Yes),
        change matches Ok(c) ==> (c == CapChange::Cap <==> capped),
        change matches Err(e) ==> e is AccessDenied,
{
}

/// What a caller is told it can do is what the authority said, a failed check being a no.
pub proof fn law_a_caller_is_told_what_the_authority_said(verdict: Result<Verdict, String>, s: &'static str)
    requires
        call_ensures(can_answer, (verdict,), s),
    ensures
        s@ == "yes"@ <==> verdict == Ok::<Verdict, String>(Verdict::Yes),
        s@ == "challenge"@ <==> verdict == Ok::<Verdict, String>(Verdict::Challenge),
        s@ == "no"@ <==> verdict is Err || verdict == Ok::<Verdict, String>(Verdict::No),
{
    reveal_strlit("yes");
    reveal_strlit("challenge");
    reveal_strlit("no");
    assert("yes"@.len() == 3 && "challenge"@.len() == 9 && "no"@.len() == 2);
}

/// The times of a poweroff are handed to the caller in their order, the wake first, and a failure in
/// its own words.
pub proof fn law_an_answer_is_handed_on(
    wake: u64,
    off: u64,
    message: String,
    r: Result<(u64, u64), BusError>,
    e: Result<(u64, u64), BusError>,
)
    requires
        call_ensures(
            relayed,
            (Response::PoweroffScheduled { wake_unix: wake, poweroff_unix: off },),
            r,
        ),
        call_ensures(relayed, (Response::Error { message },), e),
    ensures
        r matches Ok(t) && t.0 == wake && t.1 == off,
        e matches Err(BusError::Failed(m)) && m@ == message@,
{
}

/// A cap that could not be changed is told as a failure, in the words of the failure, and one that was
/// is told as done.
pub proof fn law_a_cap_that_failed_is_a_failure(
    e: String,
    ok: Result<(), BusError>,
    failed: Result<(), BusError>,
)
    requires
        call_ensures(cpu_cap_answer, (Ok::<(), String>(()),), ok),
        call_ensures(cpu_cap_answer, (Err::<(), String>(e),), failed),
    ensures
        ok is Ok,
        failed == Err::<(), BusError>(BusError::Failed(e)),
{
}

/// The battery is reported as it was read: its level and where the power comes from by that, its
/// charge, when it was read and how long ago, and the poweroff that is pending; and which source is
/// configured, last.
pub proof fn law_the_battery_is_reported_as_it_was_read(
    s: &UpsStatus,
    now: SystemTime,
    source_config: &str,
    f: Fields,
)
    requires
        call_ensures(ups_status, (Some(s), now, source_config), f),
        s.percent is Some,
        s.shutdown_at is None,
        0 <= s.updated.ns() <= now.ns(),
        now.ns() - s.updated.ns() <= MAX_NANOS,
    ensures
        field_views(f@) == seq![
            ("available"@, "yes"@),
            ("level"@, s.level@),
            (
                "source"@,
                if s.level@ == "on-mains"@ {
                    "mains"@
                } else if s.level@ == "on-battery"@ || s.level@ == "low"@ || s.level@
                    == "critical"@ {
                    "battery"@
                } else {
                    "unknown"@
                },
            ),
            ("percent"@, decimal((s.percent->0) as nat)),
            ("updated_unix"@, decimal((s.updated.ns() / 1_000_000_000) as nat)),
            ("age_s"@, decimal(((now.ns() - s.updated.ns()) / 1_000_000_000) as nat)),
            ("shutdown_at_unix"@, Seq::<char>::empty()),
            ("source_config"@, source_config@),
        ],
{
    assert(field_views(f@) =~= seq![
        ("available"@, "yes"@),
        ("level"@, s.level@),
        ("source"@, source(s.level@)),
        ("percent"@, decimal((s.percent->0) as nat)),
        ("updated_unix"@, decimal((s.updated.ns() / 1_000_000_000) as nat)),
        ("age_s"@, decimal(((now.ns() - s.updated.ns()) / 1_000_000_000) as nat)),
        ("shutdown_at_unix"@, Seq::<char>::empty()),
        ("source_config"@, source_config@),
    ]);
}

/// The fan is reported as the loop left it: whether it is driven, its duty, the temperature, and how
/// long ago that was.
pub proof fn law_the_fan_is_reported_as_the_loop_left_it(state: &State, now: SystemTime, f: Fields)
    requires
        call_ensures(fan_fields, (state, now), f),
        state.updated_unix is Some,
        state.fan_duty_percent is Some,
        now.ns() >= (state.updated_unix->0) * 1_000_000_000,
    ensures
        f@.len() == 6,
        f@[0].0@ == "available"@ && f@[0].1@ == "yes"@,
        f@[1].0@ == "driving"@ && (f@[1].1@ == "yes"@ <==> state.fan_driving),
        f@[2].0@ == "duty_percent"@ && f@[2].1@ == decimal((state.fan_duty_percent->0) as nat),
        f@[3].0@ == "temperature_c"@,
        state.cpu_decicelsius is None ==> f@[3].1@.len() == 0,
        state.cpu_decicelsius matches Some(t) ==> t >= 0 ==> f@[3].1@ == decimal(
            (t as int / 10) as nat,
        ) + "."@ + decimal((t as int % 10) as nat),
        f@[4].0@ == "sensor_failures"@ && f@[4].1@ == decimal(state.sensor_failures as nat),
        f@[5].0@ == "age_s"@ && f@[5].1@ == decimal(
            (now.ns() / 1_000_000_000 - state.updated_unix->0) as nat,
        ),
{
    reveal_strlit("yes");
    reveal_strlit("no");
    assert("yes"@.len() == 3 && "no"@.len() == 2);
    let v = field_views(f@);
    assert(v.len() == f@.len());
    assert forall|i: int| 0 <= i < f@.len() implies #[trigger] v[i] == (f@[i].0@, f@[i].1@) by {}
    assert(v[0] == (f@[0].0@, f@[0].1@) && v[1] == (f@[1].0@, f@[1].1@) && v[2] == (
        f@[2].0@,
        f@[2].1@,
    ) && v[3] == (f@[3].0@, f@[3].1@) && v[4] == (f@[4].0@, f@[4].1@) && v[5] == (
        f@[5].0@,
        f@[5].1@,
    ));
}

/// Whether a poweroff with a wake can be asked for is the authority's answer to that action, asked
/// without a prompt, and is not asked for where no wake can be set.
pub proof fn law_asking_whether_one_can_prompts_nobody<A: Authorize>(
    auth: &A,
    sender: &str,
    wake: bool,
    s: &'static str,
)
    requires
        call_ensures(can::<A>, (auth, sender, wake), s),
    ensures
        s@ == "na"@ <==> !wake,
        s@ == "yes"@ ==> call_ensures(
            A::check,
            (auth, sender, ACTION_POWEROFF_WITH_WAKE, false),
            Ok::<Verdict, String>(Verdict::Yes),
        ),
        s@ == "challenge"@ ==> call_ensures(
            A::check,
            (auth, sender, ACTION_POWEROFF_WITH_WAKE, false),
            Ok::<Verdict, String>(Verdict::Challenge),
        ),
{
    reveal_strlit("na");
    reveal_strlit("yes");
    reveal_strlit("no");
    reveal_strlit("challenge");
    assert("na"@.len() == 2 && "yes"@.len() == 3 && "no"@.len() == 2 && "challenge"@.len() == 9);
    assert("na"@[1] == 'a' && "no"@[1] == 'o');
}

/// The display is switched exactly where the authority said yes and there is one, to what was asked
/// for, and a refusal or a missing display leaves it as it was.
pub proof fn law_the_display_is_switched_on_a_yes<A: Authorize>(auth: &A, sender: &str, on: bool)
    ensures
        forall|o: &mut OledControl, r: Result<Remember, BusError>| #[trigger]
            call_ensures(set_oled::<A>, (auth, sender, on, o), r) ==> {
                &&& r is Ok ==> final(o).wanted() == on && o.available() && call_ensures(
                    A::check,
                    (auth, sender, ACTION_OLED, false),
                    Ok::<Verdict, String>(Verdict::Yes),
                )
                &&& r is Err ==> final(o).wanted() == o.wanted()
                &&& r is Err && (r->Err_0) is Failed ==> !o.available()
                &&& final(o).available() == o.available()
            },
{
}

/// Every change of the limit is logged as what it was, with who asked for it.
pub proof fn law_a_change_of_the_limit_is_logged(sender: &str, on: String, off: String)
    requires
        call_ensures(cpu_cap_line, (sender, true), on),
        call_ensures(cpu_cap_line, (sender, false), off),
    ensures
        on@ == "argond: cpu: "@ + "capped at its lowest frequency"@ + " at "@ + sender@
            + "'s request"@,
        off@ == "argond: cpu: "@ + "cap lifted"@ + " at "@ + sender@ + "'s request"@,
{
}

} // verus!
