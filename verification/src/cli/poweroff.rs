//! `argonctl poweroff --wake-at TIME`: powers off now, and has the UPS power the machine on again.
//!
//! The daemon does the work, because it owns the UPS port. This command asks it to, over the
//! control socket, and reports what happened.

use crate::daemon::ups::{minute_text, minute_words};
use crate::device::control::{Response, SOCKET_PATH};
use crate::device::ups_time::UpsTime;
use crate::device::wake::{MIN_LEAD, POWEROFF_DELAY};
use crate::text::{
    chars_of, debug_of, debug_text, decimal, decimal_of, is_digit, join, law_number_of_decimal, number,
    parse_number, trim, trimmed,
};
use vstd::prelude::*;

verus! {

/// Whether a text is a time of day and nothing else: digits and colons.
pub open spec fn is_bare(s: Seq<char>) -> bool {
    forall|i: int| 0 <= i < s.len() ==> is_digit(#[trigger] s[i]) || s[i] == ':'
}

fn bare_time_of_day(s: &str) -> (r: bool)
    ensures
        r == is_bare(s@),
{
    let cs: Vec<char> = chars_of(s);
    let mut i: usize = 0;
    while i < cs.len()
        invariant
            i <= cs.len(),
            cs@ == s@,
            forall|k: int| 0 <= k < i ==> is_digit(#[trigger] s@[k]) || s@[k] == ':',
        decreases cs.len() - i,
    {
        let c: u32 = cs[i] as u32;
        assert(s@[i as int] as u32 == c);
        if !(48 <= c && c <= 57) && cs[i] != ':' {
            assert(!is_digit(s@[i as int]));
            return false;
        }
        i = i + 1;
    }
    true
}

/// Whether a time that was understood as `at` is moved to the next day: a bare time of day that has
/// already passed today, or is too close to be accepted.
pub open spec fn moves(input: Seq<char>, at: nat, now: nat) -> bool {
    is_bare(trimmed(input)) && at < now + MIN_LEAD
}

/// What to ask for in place of a time that was understood as `at`, if anything: the same time
/// tomorrow.
pub fn tomorrow(input: &str, at: u64, now: u64) -> (r: Option<String>)
    ensures
        match r {
            Some(s) => moves(input@, at as nat, now as nat) && s@ == "tomorrow "@ + trimmed(input@),
            None => !moves(input@, at as nat, now as nat),
        },
{
    let t: &str = trim(input);
    let close: bool = at < now || at - now < MIN_LEAD;
    if bare_time_of_day(t) && close {
        Some(join("tomorrow ", t))
    } else {
        None
    }
}

/// Resolves a local time with `date`, which turns a text into seconds since the unix epoch. A bare
/// time of day that has already passed today -- or is too close to be accepted -- means the same
/// time tomorrow, and only then is `date` asked again.
pub fn resolve<D: Fn(&str) -> Result<u64, String>>(input: &str, now: u64, date: D) -> (r: Result<
    u64,
    String,
>)
    requires
        call_requires(date, (input,)),
        forall|s: &str, at: u64| #[trigger]
            call_ensures(date, (input,), Ok::<u64, String>(at)) && moves(
                input@,
                at as nat,
                now as nat,
            ) && s@ == "tomorrow "@ + trimmed(input@) ==> #[trigger] call_requires(date, (s,)),
    ensures
        exists|first: Result<u64, String>|
            #[trigger] call_ensures(date, (input,), first) && match first {
                Ok(at) => if moves(input@, at as nat, now as nat) {
                    exists|s: &str|
                        s@ == "tomorrow "@ + trimmed(input@) && #[trigger] call_ensures(
                            date,
                            (s,),
                            r,
                        )
                } else {
                    r == first
                },
                Err(_) => r == first,
            },
{
    let first: Result<u64, String> = date(input);
    match first {
        Ok(at) => match tomorrow(input, at, now) {
            Some(s) => date(s.as_str()),
            None => first,
        },
        Err(_) => first,
    }
}

/// What `date` said of a text: the seconds in its output, or what is wrong. `complaint` is what it
/// said where it failed.
pub fn date_answer(input: &str, answer: Result<&str, &str>) -> (r: Result<u64, String>)
    ensures
        match answer {
            Err(complaint) => r matches Err(e) && e@ == "cannot understand "@ + debug_text(input@)
                + " as a time: "@ + trimmed(complaint@),
            Ok(out) => match r {
                Ok(n) => number(trimmed(out@), u64::MAX as nat) == Some(n as nat),
                Err(e) => number(trimmed(out@), u64::MAX as nat) is None && e@
                    == "date gave no timestamp for "@ + debug_text(input@),
            },
        },
{
    match answer {
        Err(complaint) => {
            let mut e: String = join("cannot understand ", debug_of(input).as_str());
            e.append(" as a time: ");
            e.append(trim(complaint));
            Err(e)
        },
        Ok(out) => match parse_number(trim(out), u64::MAX) {
            Some(n) => Ok(n),
            None => Err(join("date gave no timestamp for ", debug_of(input).as_str())),
        },
    }
}

/// What is printed of the plan. `local` is when the machine wakes, in local time.
pub fn plan_text(schedule: UpsTime, local: &str) -> (s: String)
    ensures
        s@
            == "Plan:\n  power off        in 60 s, announced to logged-in users\n  wake             "@
            + local@ + "   ("@ + minute_words(schedule) + ", as the UPS holds it)\n"@,
{
    let mut s: String = join(
        "Plan:\n  power off        in 60 s, announced to logged-in users\n  wake             ",
        local,
    );
    s.append("   (");
    s.append(minute_text(schedule).as_str());
    s.append(", as the UPS holds it)\n");
    s
}

/// What is printed once it is done. The times are in local time.
pub fn done_text(poweroff_local: &str, wake_local: &str) -> (s: String)
    ensures
        s@
            == "\nDone. The wake is set and was read back from the UPS.\n  powering off at  "@
            + poweroff_local@ + "\n  waking at        "@ + wake_local@
            + "\n\nTo stay up after all:  sudo shutdown -c\nargond then moves the wake out of the way before it can come due.\n"@,
{
    let mut s: String = join(
        "\nDone. The wake is set and was read back from the UPS.\n  powering off at  ",
        poweroff_local,
    );
    s.append("\n  waking at        ");
    s.append(wake_local);
    s.append(
        "\n\nTo stay up after all:  sudo shutdown -c\nargond then moves the wake out of the way before it can come due.\n",
    );
    s
}

/// Why the daemon could not be reached.
#[derive(Clone, Debug, PartialEq, Eq)]
pub enum Unreached {
    /// The socket may not be used.
    Denied,
    /// Nobody listens on it.
    NotListening,
    /// Anything else.
    Other(String),
}

/// Why the daemon could not be reached, in words.
pub fn unreached_words(why: &Unreached) -> (s: String)
    ensures
        s@ == match *why {
            Unreached::Denied => SOCKET_PATH@
                + " is argond's, and only root may use it: run this under sudo"@,
            Unreached::NotListening => "argond is not listening on "@ + SOCKET_PATH@
                + " -- is the argond service running?"@,
            Unreached::Other(e) => "cannot reach argond: "@ + e@,
        },
{
    match why {
        Unreached::Denied => join(
            SOCKET_PATH,
            " is argond's, and only root may use it: run this under sudo",
        ),
        Unreached::NotListening => {
            let mut s: String = join("argond is not listening on ", SOCKET_PATH);
            s.append(" -- is the argond service running?");
            s
        },
        Unreached::Other(e) => join("cannot reach argond: ", e.as_str()),
    }
}

/// An explicit date is never moved.
pub proof fn law_an_explicit_date_is_not_moved(input: Seq<char>, at: nat, now: nat, i: int)
    requires
        0 <= i < trimmed(input).len(),
        !is_digit(trimmed(input)[i]),
        trimmed(input)[i] != ':',
    ensures
        !moves(input, at, now),
{
}

/// A time of day and nothing else -- digits and colons -- that is past, however long ago, or closer
/// than fifteen minutes, is asked for again as the same time tomorrow, and nothing else is ever
/// moved. So a bare time of day is taken as it was understood only where it lies far enough ahead.
pub proof fn law_a_bare_time_is_never_past(input: &str, at: u64, now: u64, r: Option<String>)
    requires
        call_ensures(tomorrow, (input, at, now), r),
    ensures
        (forall|i: int|
            0 <= i < trimmed(input@).len() ==> 48 <= (#[trigger] trimmed(input@)[i]) as u32 <= 57
                || trimmed(input@)[i] == ':') && at < now + 900 <==> r is Some,
        r is Some ==> (r->0)@ == "tomorrow "@ + trimmed(input@),
{
}

/// What is resolved is what `date` said last: of the text as it was typed where that lies far enough
/// ahead or is no bare time of day, and of the same time tomorrow otherwise. What `date` refuses is
/// refused in its words.
pub proof fn law_resolved_is_what_date_said<D: Fn(&str) -> Result<u64, String>>(
    input: &str,
    now: u64,
    date: D,
    r: Result<u64, String>,
    at: u64,
)
    requires
        call_ensures(resolve::<D>, (input, now, date), r),
        forall|first: Result<u64, String>| #[trigger]
            call_ensures(date, (input,), first) ==> first == Ok::<u64, String>(at),
    ensures
        at >= now + 900 ==> r == Ok::<u64, String>(at),
        at < now + 900 && (forall|i: int|
            0 <= i < trimmed(input@).len() ==> is_digit(#[trigger] trimmed(input@)[i]) || trimmed(
                input@,
            )[i] == ':') ==> exists|s: &str|
            s@ == "tomorrow "@ + trimmed(input@) && #[trigger] call_ensures(date, (s,), r),
{
}

/// The answer of `date` is the number that it printed; where it failed, or printed no number, the
/// text that it could not take is named.
pub proof fn law_dates_answer_is_its_number(
    input: &str,
    out: &str,
    complaint: &str,
    ok: Result<u64, String>,
    failed: Result<u64, String>,
    n: nat,
)
    requires
        call_ensures(date_answer, (input, Ok::<&str, &str>(out)), ok),
        call_ensures(date_answer, (input, Err::<&str, &str>(complaint)), failed),
        trimmed(out@) == decimal(n),
        n <= u64::MAX,
    ensures
        ok is Ok && ok->Ok_0 == n,
        failed is Err,
        failed->Err_0@ == "cannot understand "@ + debug_text(input@) + " as a time: "@ + trimmed(
            complaint@,
        ),
{
    law_number_of_decimal(n, u64::MAX as nat);
}

/// A daemon that cannot be reached is told as what went wrong: not allowed, not there, or as it was.
pub proof fn law_an_unreached_daemon_is_told_apart(
    e: String,
    denied: String,
    absent: String,
    other: String,
    a: &Unreached,
    b: &Unreached,
    c: &Unreached,
)
    requires
        *a == Unreached::Denied,
        *b == Unreached::NotListening,
        *c == Unreached::Other(e),
        call_ensures(unreached_words, (a,), denied),
        call_ensures(unreached_words, (b,), absent),
        call_ensures(unreached_words, (c,), other),
    ensures
        denied@ == "/run/argon-utils/control.sock"@
            + " is argond's, and only root may use it: run this under sudo"@,
        absent@ == "argond is not listening on "@ + "/run/argon-utils/control.sock"@
            + " -- is the argond service running?"@,
        other@ == "cannot reach argond: "@ + e@,
{
}

} // verus!
