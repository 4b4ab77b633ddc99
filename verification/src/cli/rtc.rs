//! `argonctl rtc`: the UPS clock, and the two experiments that confirm how it and its wake schedule
//! are set.
//!
//! Setting the clock to the current time proves nothing: if it was already close, a correct
//! read-back is indistinguishable from a write the device ignored. So the clock is first set to a
//! deliberately *wrong*, distinctive time and read back; only then is it set to the real time.

use crate::device::clock_sync::capped;
use crate::device::config::{requested, requested_mode, Config, DEFAULT_PATH};
use crate::device::mode::Mode;
use crate::device::ups_time::{law_valid_times_are_in_range, UpsTime};
use crate::device::wake::{is_same_minute, same_minute};
use crate::text::{
    begins, debug_of, debug_text, decimal, decimal_of, digits_value, ends, holds, join, join_all, joined,
    lemma_padded_value, padded, padded_of, stands_at,
    plus_decimal, plus_decimal_of, same, signed_decimal, signed_decimal_of, texts,
};
use vstd::prelude::*;

verus! {

/// How far from the truth the distinctive target is set: 1 h 17 min 29 s behind. Distinctive rather
/// than round, so a read-back matching it cannot be a coincidence, a time-zone confusion (whole
/// hours) or a stale value.
pub const T15_OFFSET_S: u64 = 4_649;

/// How closely a read-back must match its expected value, in seconds. The device counts in whole
/// seconds and the write lands at an unknown phase within one.
pub const TOLERANCE_S: i64 = 2;

/// How long to listen for whatever the device sends after a set, in milliseconds.
pub const LISTEN_MS: u64 = 1_500;

// ---------------------------------------------------------------------------------------------
// What is asked for
// ---------------------------------------------------------------------------------------------

/// What a command asks for.
#[derive(Clone, Copy, Debug, PartialEq, Eq, Structural)]
pub enum Intent {
    /// To look only.
    Look,
    /// The experiment on the clock.
    Clock,
    /// The experiment on the wake schedule.
    Wake,
}

/// What a command asks for, or why it makes no sense: an experiment writes, so it needs the
/// permission to, and the permission means nothing without one.
pub fn intent(t15: bool, t17: bool, write: bool) -> (r: Result<Intent, &'static str>)
    ensures
        match r {
            Ok(i) => write == (t15 || t17) && i == if t17 {
                Intent::Wake
            } else if t15 {
                Intent::Clock
            } else {
                Intent::Look
            },
            Err(e) => if write {
                !t15 && !t17 && e@ == "argonctl: --write only means something with --t15 or --t17"@
            } else {
                (t15 || t17) && e@
                    == "argonctl: --t15 and --t17 write to the UPS and need --write as well. Read docs/testing/HUMAN-TASKS.md first."@
            },
        },
{
    let experiment: bool = t15 || t17;
    if experiment && !write {
        return Err(
            "argonctl: --t15 and --t17 write to the UPS and need --write as well. Read docs/testing/HUMAN-TASKS.md first.",
        );
    }
    if write && !experiment {
        return Err("argonctl: --write only means something with --t15 or --t17");
    }
    Ok(
        if t17 {
            Intent::Wake
        } else if t15 {
            Intent::Clock
        } else {
            Intent::Look
        },
    )
}

/// Refuses while anything else could be reading the port at `path`: the vendor's daemon, the daemon
/// of this project, or a process that was seen to hold it.
pub fn port_is_free(
    path: &str,
    vendor_contends: bool,
    argond_running: bool,
    owner: Option<(u32, &str)>,
) -> (r: Result<(), String>)
    ensures
        match r {
            Ok(()) => !vendor_contends && !argond_running && owner is None,
            Err(e) => if vendor_contends {
                e@ == "argonupsrtcd is running and holds the UPS port. Stop it first."@
            } else if argond_running {
                e@
                    == "argond is running and owns the UPS port. For the few seconds this takes, stop it:\n\n    sudo systemctl stop argond\n\nand start it again afterwards. Do this on mains: while it is stopped, nothing watches the battery."@
            } else {
                owner is Some && e@ == path@ + " is held by pid "@ + decimal((owner->0).0 as nat)
                    + " ("@ + (owner->0).1@ + "). Two readers corrupt each other's frames."@
            },
        },
{
    if vendor_contends {
        return Err("argonupsrtcd is running and holds the UPS port. Stop it first.".to_owned());
    }
    if argond_running {
        return Err(
            "argond is running and owns the UPS port. For the few seconds this takes, stop it:\n\n    sudo systemctl stop argond\n\nand start it again afterwards. Do this on mains: while it is stopped, nothing watches the battery.".to_owned(),
        );
    }
    if let Some((pid, comm)) = owner {
        let mut e: String = join(path, " is held by pid ");
        e.append(decimal_of(pid as u64).as_str());
        e.append(" (");
        e.append(comm);
        e.append("). Two readers corrupt each other's frames.");
        return Err(e);
    }
    Ok(())
}

// ---------------------------------------------------------------------------------------------
// Words
// ---------------------------------------------------------------------------------------------

/// A time in words, to the second.
pub open spec fn time_words(t: UpsTime) -> Seq<char> {
    padded(t.year as nat, 4) + "-"@ + padded(t.month as nat, 2) + "-"@ + padded(t.day as nat, 2)
        + " "@ + padded(t.hour as nat, 2) + ":"@ + padded(t.minute as nat, 2) + ":"@ + padded(
        match t.second {
            Some(s) => s as nat,
            None => 0,
        },
        2,
    ) + " UTC"@
}

/// A time in words, to the second.
pub fn fmt(t: UpsTime) -> (s: String)
    ensures
        s@ == time_words(t),
{
    let mut s: String = padded_of(t.year as u64, 4);
    s.append("-");
    s.append(padded_of(t.month as u64, 2).as_str());
    s.append("-");
    s.append(padded_of(t.day as u64, 2).as_str());
    s.append(" ");
    s.append(padded_of(t.hour as u64, 2).as_str());
    s.append(":");
    s.append(padded_of(t.minute as u64, 2).as_str());
    s.append(":");
    let second: u64 = match t.second {
        Some(s) => s as u64,
        None => 0,
    };
    s.append(padded_of(second, 2).as_str());
    s.append(" UTC");
    s
}

/// A hexadecimal digit, in upper case.
pub open spec fn upper_digit(d: nat) -> char {
    if d < 10 {
        (48 + d) as char
    } else {
        (55 + d) as char
    }
}

/// A byte as two hexadecimal digits, in upper case.
pub open spec fn upper_hex(b: u8) -> Seq<char> {
    seq![upper_digit((b / 16) as nat), upper_digit((b % 16) as nat)]
}

fn upper_of(d: u8) -> (c: char)
    requires
        d < 16,
    ensures
        c == upper_digit(d as nat),
{
    if d < 10 {
        (48 + d) as char
    } else {
        (55 + d) as char
    }
}

/// Bytes as pairs of hexadecimal digits.
pub open spec fn upper_words(bytes: Seq<u8>) -> Seq<Seq<char>> {
    bytes.map_values(|b: u8| upper_hex(b))
}

/// Bytes as pairs of hexadecimal digits in upper case, with spaces between.
pub fn hex(bytes: &[u8]) -> (s: String)
    ensures
        s@ == joined(upper_words(bytes@), " "@),
{
    let mut words: Vec<String> = Vec::new();
    let mut i: usize = 0;
    assert(texts(words@) =~= upper_words(bytes@).take(0));
    while i < bytes.len()
        invariant
            i <= bytes.len(),
            texts(words@) == upper_words(bytes@).take(i as int),
        decreases bytes.len() - i,
    {
        let ghost before = words@;
        let mut w: String = String::new();
        w.push(upper_of(bytes[i] / 16));
        w.push(upper_of(bytes[i] % 16));
        assert(w@ =~= upper_hex(bytes@[i as int]));
        words.push(w);
        assert(texts(words@) =~= texts(before).push(w@));
        assert(upper_words(bytes@).take(i + 1) =~= upper_words(bytes@).take(i as int).push(
            upper_hex(bytes@[i as int]),
        ));
        i = i + 1;
    }
    assert(upper_words(bytes@).take(i as int) =~= upper_words(bytes@));
    join_all(&words, " ")
}

/// The difference of two numbers of seconds, each cut off where a signed number ends.
pub open spec fn difference(a: nat, b: nat) -> int {
    capped(a as int) - capped(b as int)
}

fn as_i64(x: u64) -> (n: i64)
    ensures
        n == capped(x as int),
        n >= 0,
{
    if x <= 0x7fff_ffff_ffff_ffff {
        x as i64
    } else {
        0x7fff_ffff_ffff_ffff
    }
}

/// `a - b` as a signed number.
pub fn signed_diff(a: u64, b: u64) -> (d: i64)
    ensures
        d == difference(a as nat, b as nat),
{
    as_i64(a) - as_i64(b)
}

/// A time of the system clock in words, or a question mark where the UPS could not hold it.
pub open spec fn unix_words(time: Option<UpsTime>) -> Seq<char> {
    match time {
        Some(t) => time_words(t),
        None => "?"@,
    }
}

/// Whether a time is the one of this second, or none where there is none.
pub open spec fn is_time_of(time: Option<UpsTime>, unix_s: int) -> bool {
    match time {
        Some(t) => t.valid() && t.second is Some && t.unix() == unix_s,
        None => !(crate::device::ups_time::FIRST_SECOND <= unix_s
            < crate::device::ups_time::END_SECOND),
    }
}

fn time_of(unix_s: i64) -> (t: Option<UpsTime>)
    ensures
        is_time_of(t, unix_s as int),
{
    if unix_s < 0 {
        None
    } else {
        UpsTime::from_unix_seconds(unix_s as u64)
    }
}

/// What a clock was read as, or why it is not taken: a date that is none.
pub fn read_clock(t: UpsTime, plausible: bool) -> (r: Result<UpsTime, String>)
    ensures
        match r {
            Ok(u) => plausible && u == t,
            Err(e) => !plausible && e@ == "the clock read back as an impossible date: "@ + time_words(
                t,
            ),
        },
{
    if plausible {
        Ok(t)
    } else {
        Err(join("the clock read back as an impossible date: ", fmt(t).as_str()))
    }
}

/// The offset of the UPS clock from the system clock, and what is printed of it.
pub fn read_offset(ups: UpsTime, sys: u64) -> (r: Result<(i64, String), &'static str>)
    ensures
        match r {
            Ok((offset_s, s)) => ups.valid() && offset_s == ups.unix() - capped(sys as int) && exists|
                system: Option<UpsTime>,
            |
                #[trigger] is_time_of(system, sys as int) && s@ == "  UPS clock        "@ + time_words(
                    ups,
                ) + "   system "@ + unix_words(system) + "   offset "@ + plus_decimal(
                    offset_s as int,
                ) + " s"@,
            Err(e) => !ups.valid() && e@ == "implausible clock"@,
        },
{
    let ups_s: u64 = match ups.to_unix_seconds() {
        Some(s) => s,
        None => {
            return Err("implausible clock");
        },
    };
    proof {
        law_valid_times_are_in_range(ups);
    }
    let offset_s: i64 = signed_diff(ups_s, sys);
    let system: Option<UpsTime> = UpsTime::from_unix_seconds(sys);
    let shown: String = match system {
        Some(t) => fmt(t),
        None => "?".to_owned(),
    };
    let mut s: String = join("  UPS clock        ", fmt(ups).as_str());
    s.append("   system ");
    s.append(shown.as_str());
    s.append("   offset ");
    s.append(plus_decimal_of(offset_s).as_str());
    s.append(" s");
    assert(is_time_of(system, sys as int));
    Ok((offset_s, s))
}

/// What is printed of the wake schedule.
pub fn wake_line(wake: &Result<Option<UpsTime>, String>) -> (s: String)
    ensures
        s@ == "  wake schedule    "@ + match *wake {
            Ok(None) => "none"@,
            Ok(Some(t)) => time_words(t),
            Err(e) => "unreadable: "@ + e@,
        },
{
    let shown: String = match wake {
        Ok(None) => "none".to_owned(),
        Ok(Some(t)) => fmt(*t),
        Err(e) => join("unreadable: ", e.as_str()),
    };
    join("  wake schedule    ", shown.as_str())
}

/// What is printed of one exchange: what was meant, what was sent, and what came back.
pub fn exchange_text(target: &str, sent: &[u8], got: &[u8]) -> (s: String)
    ensures
        s@ == "  target           "@ + target@ + "\n  sent             "@ + joined(
            upper_words(sent@),
            " "@,
        ) + "\n  received         "@ + (if got@.len() == 0 {
            "nothing"@
        } else {
            joined(upper_words(got@), " "@)
        }) + " ("@ + decimal(got@.len()) + " bytes in 1500 ms)\n"@,
{
    let mut s: String = join("  target           ", target);
    s.append("\n  sent             ");
    s.append(hex(sent).as_str());
    s.append("\n  received         ");
    let shown: String = if got.len() == 0 {
        "nothing".to_owned()
    } else {
        hex(got)
    };
    s.append(shown.as_str());
    s.append(" (");
    s.append(decimal_of(got.len() as u64).as_str());
    s.append(" bytes in 1500 ms)\n");
    s
}

/// What is printed of a frame that came back: its command and payload, or why it was rejected.
pub fn decoded_line(frame: Result<(u8, &[u8]), &str>) -> (s: String)
    ensures
        s@ == "  decoded          "@ + match frame {
            Ok((cmd, payload)) => "frame: command "@ + decimal(cmd as nat) + ", payload "@ + (
            if payload@.len() == 0 {
                "empty"@
            } else {
                joined(upper_words(payload@), " "@)
            }),
            Err(e) => "rejected bytes: "@ + e@,
        },
{
    let shown: String = match frame {
        Ok((cmd, payload)) => {
            let mut f: String = join("frame: command ", decimal_of(cmd as u64).as_str());
            f.append(", payload ");
            let bytes: String = if payload.len() == 0 {
                "empty".to_owned()
            } else {
                hex(payload)
            };
            f.append(bytes.as_str());
            f
        },
        Err(e) => join("rejected bytes: ", e),
    };
    join("  decoded          ", shown.as_str())
}

// ---------------------------------------------------------------------------------------------
// When an experiment is refused
// ---------------------------------------------------------------------------------------------

/// The largest of some numbers and 0, where there are none.
pub open spec fn largest(v: Seq<i64>) -> int
    decreases v.len(),
{
    if v.len() == 0 {
        0
    } else if v.len() == 1 || v.last() > largest(v.drop_last()) {
        v.last() as int
    } else {
        largest(v.drop_last())
    }
}

/// The smallest of some numbers, and 0 where there are none.
pub open spec fn smallest(v: Seq<i64>) -> int
    decreases v.len(),
{
    if v.len() == 0 {
        0
    } else if v.len() == 1 || v.last() < smallest(v.drop_last()) {
        v.last() as int
    } else {
        smallest(v.drop_last())
    }
}

fn spread(v: &[i64]) -> (d: i128)
    ensures
        d == largest(v@) - smallest(v@),
{
    if v.len() == 0 {
        return 0;
    }
    let mut high: i64 = v[0];
    let mut low: i64 = v[0];
    let mut i: usize = 1;
    assert(v@.take(1).last() == v@[0]);
    while i < v.len()
        invariant
            1 <= i <= v.len(),
            high == largest(v@.take(i as int)),
            low == smallest(v@.take(i as int)),
        decreases v.len() - i,
    {
        assert(v@.take(i + 1).drop_last() =~= v@.take(i as int));
        assert(v@.take(i + 1).last() == v@[i as int]);
        if v[i] > high {
            high = v[i];
        }
        if v[i] < low {
            low = v[i];
        }
        i = i + 1;
    }
    assert(v@.take(i as int) =~= v@);
    high as i128 - low as i128
}

fn spread_text(d: i128) -> (s: String)
    requires
        0 <= d <= u64::MAX,
    ensures
        s@ == decimal(d as nat),
{
    decimal_of(d as u64)
}

proof fn lemma_spread(v: Seq<i64>)
    ensures
        smallest(v) <= largest(v),
        v.len() > 0 ==> i64::MIN <= smallest(v) && largest(v) <= i64::MAX,
    decreases v.len(),
{
    if v.len() > 0 {
        lemma_spread(v.drop_last());
        if v.len() == 1 {
            assert(v.drop_last().len() == 0);
        }
    }
}

/// Why the mode rules an experiment out, if it does. `config` is the configuration, or why it could
/// not be read, and `what` the operation.
pub open spec fn mode_refusal(config: Result<Config, String>, what: Seq<char>) -> Option<Seq<char>> {
    match config {
        Err(e) => Some("cannot read "@ + DEFAULT_PATH@ + " to check the mode: "@ + e@),
        Ok(c) => if requested_mode(c) != Mode::Full {
            Some(
                "mode is "@ + debug_text(c.mode@) + " in "@ + DEFAULT_PATH@ + "; "@ + what
                    + " is a full-mode operation"@,
            )
        } else {
            None
        },
    }
}

fn refused_by_mode(config: &Result<Config, String>, what: &str) -> (r: Option<String>)
    ensures
        match r {
            Some(s) => mode_refusal(*config, what@) == Some(s@),
            None => mode_refusal(*config, what@) is None,
        },
{
    match config {
        Err(e) => {
            let mut s: String = join("cannot read ", DEFAULT_PATH);
            s.append(" to check the mode: ");
            s.append(e.as_str());
            Some(s)
        },
        Ok(c) => {
            if matches!(requested(c), Mode::Full) {
                return None;
            }
            let mut s: String = join("mode is ", debug_of(c.mode.as_str()).as_str());
            s.append(" in ");
            s.append(DEFAULT_PATH);
            s.append("; ");
            s.append(what);
            s.append(" is a full-mode operation");
            Some(s)
        },
    }
}

/// Why the experiment on the clock is refused, if it is.
pub open spec fn clock_refusal(
    config: Result<Config, String>,
    wake: Result<Option<UpsTime>, String>,
    synced: bool,
    baseline: Seq<i64>,
) -> Option<Seq<char>> {
    if mode_refusal(config, "setting the UPS clock"@) is Some {
        mode_refusal(config, "setting the UPS clock"@)
    } else {
        match wake {
            Ok(Some(t)) => Some(
                "a wake schedule is set ("@ + time_words(t)
                    + "); a wrong clock could move or fire it"@,
            ),
            Err(e) => Some("the wake schedule could not be read ("@ + e@ + ")"@),
            Ok(None) => if !synced {
                Some(
                    "the system clock is not NTP-synchronised, so restoring the UPS clock from it would make it worse"@,
                )
            } else if largest(baseline) - smallest(baseline) > TOLERANCE_S {
                Some(
                    "the baseline reads disagree by "@ + decimal(
                        (largest(baseline) - smallest(baseline)) as nat,
                    ) + " s; the clock is not ticking steadily"@,
                )
            } else {
                None
            },
        }
    }
}

/// Refuses the experiment on the clock: without mode `full`; with a wake schedule set, or unknown,
/// which a wrong clock could move or fire; with a system clock that cannot be trusted to restore
/// the UPS from; or where the baseline reads disagree, so that the comparison means nothing.
pub fn t15_preconditions(
    config: &Result<Config, String>,
    wake: &Result<Option<UpsTime>, String>,
    synced: bool,
    baseline: &[i64],
) -> (r: Result<(), String>)
    ensures
        match r {
            Ok(()) => clock_refusal(*config, *wake, synced, baseline@) is None,
            Err(e) => clock_refusal(*config, *wake, synced, baseline@) == Some(e@),
        },
{
    if let Some(e) = refused_by_mode(config, "setting the UPS clock") {
        return Err(e);
    }
    match wake {
        Ok(None) => {},
        Ok(Some(t)) => {
            let mut e: String = join("a wake schedule is set (", fmt(*t).as_str());
            e.append("); a wrong clock could move or fire it");
            return Err(e);
        },
        Err(e) => {
            let mut s: String = join("the wake schedule could not be read (", e.as_str());
            s.append(")");
            return Err(s);
        },
    }
    if !synced {
        return Err(
            "the system clock is not NTP-synchronised, so restoring the UPS clock from it would make it worse".to_owned(),
        );
    }
    let d: i128 = spread(baseline);
    proof {
        lemma_spread(baseline@);
    }
    if d > TOLERANCE_S as i128 {
        let mut e: String = join("the baseline reads disagree by ", spread_text(d).as_str());
        e.append(" s; the clock is not ticking steadily");
        return Err(e);
    }
    Ok(())
}

/// Why the experiment on the wake schedule is refused, if it is.
pub open spec fn wake_refusal(
    config: Result<Config, String>,
    wake: Result<Option<UpsTime>, String>,
) -> Option<Seq<char>> {
    if mode_refusal(config, "setting a wake schedule"@) is Some {
        mode_refusal(config, "setting a wake schedule"@)
    } else {
        match wake {
            Ok(None) => None,
            Ok(Some(t)) => Some(
                "a wake schedule is already set ("@ + time_words(t)
                    + "); it would be overwritten and cannot be restored"@,
            ),
            Err(e) => Some("the current wake schedule could not be read ("@ + e@ + ")"@),
        }
    }
}

/// Refuses the experiment on the wake schedule: without mode `full`, and where a schedule is set, or
/// unknown. There is no known way to put one back.
pub fn t17_preconditions(
    config: &Result<Config, String>,
    wake: &Result<Option<UpsTime>, String>,
) -> (r: Result<(), String>)
    ensures
        match r {
            Ok(()) => wake_refusal(*config, *wake) is None,
            Err(e) => wake_refusal(*config, *wake) == Some(e@),
        },
{
    if let Some(e) = refused_by_mode(config, "setting a wake schedule") {
        return Err(e);
    }
    match wake {
        Ok(None) => Ok(()),
        Ok(Some(t)) => {
            let mut e: String = join("a wake schedule is already set (", fmt(*t).as_str());
            e.append("); it would be overwritten and cannot be restored");
            Err(e)
        },
        Err(e) => {
            let mut s: String = join("the current wake schedule could not be read (", e.as_str());
            s.append(")");
            Err(s)
        },
    }
}

// ---------------------------------------------------------------------------------------------
// The experiment on the clock
// ---------------------------------------------------------------------------------------------

/// Where a clock should stand, `now`, that was set `offset_s` from the system clock at `sent_at`.
pub open spec fn expected_at(sent_at: nat, offset_s: int, now: nat) -> int {
    capped(sent_at as int) + offset_s + difference(now, sent_at)
}

/// Holds a clock that was read back against what was set, and says what is printed of it.
pub fn check_readback(
    read: Result<UpsTime, &str>,
    sent_at: u64,
    offset_s: i64,
    now: u64,
) -> (r: (bool, String))
    requires
        -(T15_OFFSET_S as int) <= offset_s <= 0,
    ensures
        match read {
            Ok(t) => {
                let got = if t.valid() {
                    t.unix()
                } else {
                    0
                };
                let error = got - expected_at(sent_at as nat, offset_s as int, now as nat);
                &&& r.0 == (-TOLERANCE_S <= error <= TOLERANCE_S)
                &&& exists|expected: Option<UpsTime>|
                    #[trigger] is_time_of(
                        expected,
                        expected_at(sent_at as nat, offset_s as int, now as nat),
                    ) && r.1@ == "  read back        "@ + time_words(t) + "   expected "@
                        + unix_words(expected) + "   error "@ + plus_decimal(error) + " s   "@ + (
                    if r.0 {
                        "ok"@
                    } else {
                        "MISMATCH"@
                    })
            },
            Err(e) => !r.0 && r.1@ == "  read back        failed: "@ + e@,
        },
{
    match read {
        Err(e) => (false, join("  read back        failed: ", e)),
        Ok(t) => {
            let expected_s: i64 = (as_i64(sent_at) + offset_s) + signed_diff(now, sent_at);
            let got: i64 = match t.to_unix_seconds() {
                Some(s) => {
                    proof {
                        law_valid_times_are_in_range(t);
                    }
                    s as i64
                },
                None => 0,
            };
            let error: i64 = got - expected_s;
            let pass: bool = -TOLERANCE_S <= error && error <= TOLERANCE_S;
            let expected: Option<UpsTime> = time_of(expected_s);
            let shown: String = match expected {
                Some(e) => fmt(e),
                None => "?".to_owned(),
            };
            let mut s: String = join("  read back        ", fmt(t).as_str());
            s.append("   expected ");
            s.append(shown.as_str());
            s.append("   error ");
            s.append(plus_decimal_of(error).as_str());
            s.append(" s   ");
            s.append(
                if pass {
                    "ok"
                } else {
                    "MISMATCH"
                },
            );
            assert(is_time_of(
                expected,
                expected_at(sent_at as nat, offset_s as int, now as nat),
            ));
            (pass, s)
        },
    }
}

/// What the experiment on the clock established.
#[derive(Clone, Copy, Debug, PartialEq, Eq, Structural)]
pub struct Outcome {
    /// A distinctive wrong time was written and read back.
    pub confirmed: bool,
    /// The correct time was written afterwards and read back.
    pub restored: bool,
}

/// What to do next in the experiment on the clock.
#[derive(Clone, Copy, Debug, PartialEq, Eq, Structural)]
pub enum ClockStep {
    /// Set the clock to this time, and hand what became of it to `on_set`.
    SetClock {
        /// The time.
        target: UpsTime,
    },
    /// After a second, read the clock, hold it against a clock that is this far off, and hand
    /// whether it passed to `on_readback`.
    ReadBack {
        /// How far off the clock was set, in seconds.
        offset_s: i64,
    },
    /// At the start of a second, go on with `restore`.
    Restore,
    /// It is over.
    Over(Outcome),
}

/// How far the experiment on the clock has got.
#[derive(Clone, Copy, Debug, PartialEq, Eq, Structural)]
pub enum ClockPhase {
    /// The wrong time is being set.
    SettingWrong,
    /// It is being read back. How many reads came before, and whether all of them passed.
    ReadingWrong {
        /// How many reads came before.
        reads: u8,
        /// Whether they passed.
        passed: bool,
    },
    /// The correct time is about to be set. Whether the wrong one was confirmed.
    Restoring {
        /// Whether the wrong time was confirmed.
        confirmed: bool,
    },
    /// The correct time is being set.
    SettingRight {
        /// Whether the wrong time was confirmed.
        confirmed: bool,
    },
    /// It is being read back.
    ReadingRight {
        /// Whether the wrong time was confirmed.
        confirmed: bool,
        /// How many reads came before.
        reads: u8,
        /// Whether they passed.
        passed: bool,
    },
    /// It is over.
    Over,
}

impl ClockPhase {
    /// How it goes on once the clock was set, or could not be.
    pub open spec fn set(self, done: bool) -> (ClockPhase, ClockStep) {
        match self {
            ClockPhase::SettingWrong => if done {
                (
                    ClockPhase::ReadingWrong { reads: 0, passed: true },
                    ClockStep::ReadBack { offset_s: (-4_649) as i64 },
                )
            } else {
                (ClockPhase::Restoring { confirmed: false }, ClockStep::Restore)
            },
            ClockPhase::SettingRight { confirmed } => if done {
                (
                    ClockPhase::ReadingRight { confirmed, reads: 0, passed: true },
                    ClockStep::ReadBack { offset_s: 0 },
                )
            } else {
                (ClockPhase::Over, ClockStep::Over(Outcome { confirmed, restored: false }))
            },
            _ => (
                ClockPhase::Over,
                ClockStep::Over(Outcome { confirmed: false, restored: false }),
            ),
        }
    }

    /// How it goes on once the clock was read back. It is read back twice, and both have to pass.
    pub open spec fn readback(self, pass: bool) -> (ClockPhase, ClockStep) {
        match self {
            ClockPhase::ReadingWrong { reads, passed } => if reads == 0 {
                (
                    ClockPhase::ReadingWrong { reads: 1, passed: pass },
                    ClockStep::ReadBack { offset_s: (-4_649) as i64 },
                )
            } else {
                (ClockPhase::Restoring { confirmed: passed && pass }, ClockStep::Restore)
            },
            ClockPhase::ReadingRight { confirmed, reads, passed } => if reads == 0 {
                (
                    ClockPhase::ReadingRight { confirmed, reads: 1, passed: pass },
                    ClockStep::ReadBack { offset_s: 0 },
                )
            } else {
                (
                    ClockPhase::Over,
                    ClockStep::Over(Outcome { confirmed, restored: passed && pass }),
                )
            },
            _ => (
                ClockPhase::Over,
                ClockStep::Over(Outcome { confirmed: false, restored: false }),
            ),
        }
    }
}

/// The experiment on the clock: sets it to a wrong time, reads that back, and restores it --
/// always, whatever the read-back found, for if the set did take effect, the clock is now wrong by
/// over an hour.
pub struct ClockTrial {
    phase: ClockPhase,
}

impl View for ClockTrial {
    type V = ClockPhase;

    closed spec fn view(&self) -> ClockPhase {
        self.phase
    }
}

impl ClockTrial {
    /// Starts, at `now`.
    pub fn start(now: u64) -> (r: (ClockTrial, ClockStep))
        requires
            now >= T15_OFFSET_S,
        ensures
            match r.1 {
                ClockStep::SetClock { target } => r.0@ == ClockPhase::SettingWrong && is_time_of(
                    Some(target),
                    now - T15_OFFSET_S,
                ),
                ClockStep::Over(o) => r.0@ == ClockPhase::Over && is_time_of(
                    None,
                    now - T15_OFFSET_S,
                ) && o == (Outcome { confirmed: false, restored: false }),
                _ => false,
            },
    {
        match UpsTime::from_unix_seconds(now - T15_OFFSET_S) {
            Some(target) => (
                ClockTrial { phase: ClockPhase::SettingWrong },
                ClockStep::SetClock { target },
            ),
            None => (
                ClockTrial { phase: ClockPhase::Over },
                ClockStep::Over(Outcome { confirmed: false, restored: false }),
            ),
        }
    }

    /// Takes whether the clock was set.
    pub fn on_set(&mut self, done: bool) -> (n: ClockStep)
        requires
            old(self)@ is SettingWrong || old(self)@ is SettingRight,
        ensures
            (final(self)@, n) == old(self)@.set(done),
    {
        let (phase, step): (ClockPhase, ClockStep) = match self.phase {
            ClockPhase::SettingWrong => if done {
                (
                    ClockPhase::ReadingWrong { reads: 0, passed: true },
                    ClockStep::ReadBack { offset_s: -4_649 },
                )
            } else {
                (ClockPhase::Restoring { confirmed: false }, ClockStep::Restore)
            },
            ClockPhase::SettingRight { confirmed } => if done {
                (
                    ClockPhase::ReadingRight { confirmed, reads: 0, passed: true },
                    ClockStep::ReadBack { offset_s: 0 },
                )
            } else {
                (ClockPhase::Over, ClockStep::Over(Outcome { confirmed, restored: false }))
            },
            _ => (
                ClockPhase::Over,
                ClockStep::Over(Outcome { confirmed: false, restored: false }),
            ),
        };
        self.phase = phase;
        step
    }

    /// Takes whether a read-back passed.
    pub fn on_readback(&mut self, pass: bool) -> (n: ClockStep)
        requires
            old(self)@ is ReadingWrong || old(self)@ is ReadingRight,
        ensures
            (final(self)@, n) == old(self)@.readback(pass),
    {
        let (phase, step): (ClockPhase, ClockStep) = match self.phase {
            ClockPhase::ReadingWrong { reads, passed } => if reads == 0 {
                (
                    ClockPhase::ReadingWrong { reads: 1, passed: pass },
                    ClockStep::ReadBack { offset_s: -4_649 },
                )
            } else {
                (ClockPhase::Restoring { confirmed: passed && pass }, ClockStep::Restore)
            },
            ClockPhase::ReadingRight { confirmed, reads, passed } => if reads == 0 {
                (
                    ClockPhase::ReadingRight { confirmed, reads: 1, passed: pass },
                    ClockStep::ReadBack { offset_s: 0 },
                )
            } else {
                (
                    ClockPhase::Over,
                    ClockStep::Over(Outcome { confirmed, restored: passed && pass }),
                )
            },
            _ => (
                ClockPhase::Over,
                ClockStep::Over(Outcome { confirmed: false, restored: false }),
            ),
        };
        self.phase = phase;
        step
    }

    /// Goes on at the start of a second, at `now`.
    pub fn restore(&mut self, now: u64) -> (n: ClockStep)
        requires
            old(self)@ is Restoring,
        ensures
            match n {
                ClockStep::SetClock { target } => final(self)@ == (ClockPhase::SettingRight {
                    confirmed: old(self)@->Restoring_confirmed,
                }) && is_time_of(Some(target), now as int),
                ClockStep::Over(o) => final(self)@ == ClockPhase::Over && is_time_of(
                    None,
                    now as int,
                ) && o == (Outcome {
                    confirmed: old(self)@->Restoring_confirmed,
                    restored: false,
                }),
                _ => false,
            },
    {
        let confirmed: bool = match self.phase {
            ClockPhase::Restoring { confirmed } => confirmed,
            _ => false,
        };
        match UpsTime::from_unix_seconds(now) {
            Some(target) => {
                self.phase = ClockPhase::SettingRight { confirmed };
                ClockStep::SetClock { target }
            },
            None => {
                self.phase = ClockPhase::Over;
                ClockStep::Over(Outcome { confirmed, restored: false })
            },
        }
    }
}

/// Once the wrong time was sent, the clock is always restored before the experiment is over,
/// whatever became of the sending and of the read-back.
pub proof fn law_the_clock_is_always_restored(p: ClockPhase, done: bool, pass: bool)
    ensures
        p is SettingWrong ==> p.set(done).0 is ReadingWrong || p.set(done).0 is Restoring,
        p is ReadingWrong ==> p.readback(pass).0 is ReadingWrong || p.readback(pass).0 is Restoring,
        p is SettingWrong ==> !(p.set(done).1 is Over),
        p is ReadingWrong ==> !(p.readback(pass).1 is Over),
{
}

/// The experiment confirms only where the wrong time was set and both read-backs passed.
pub proof fn law_confirmed_only_by_two_read_backs(p: ClockPhase, done: bool, pass: bool)
    ensures
        p is SettingWrong && p.set(done).0 is Restoring ==> p.set(done).0 == (
        ClockPhase::Restoring { confirmed: false }),
        p matches ClockPhase::ReadingWrong { reads, passed } && (p.readback(
            pass,
        ).0 matches ClockPhase::Restoring { confirmed } && confirmed) ==> p->ReadingWrong_reads != 0
            && p->ReadingWrong_passed && pass,
{
}

/// What is printed of what the experiment established.
pub open spec fn outcome_words(o: Outcome) -> Seq<char> {
    "\nT15 RESULT\n"@ + (if o.confirmed {
        "  CONFIRMED: command 3 sets the UPS clock. A distinctive wrong time was written\n  and read back within 2 s of what was sent.\n"@
    } else {
        "  NOT CONFIRMED: the read-back did not match the distinctive time sent.\n  ARGON-UPS-CMD3 stays `inferred`, and no clock write path may be built on it.\n"@
    }) + (if o.restored {
        "  Clock restored to the correct time.\n"@
    } else if o.confirmed {
        "  !! RESTORE NOT CONFIRMED: the UPS clock may still be 4649 s behind.\n  !! Run this again, or report it before anything relies on the UPS clock.\n"@
    } else {
        Seq::empty()
    })
}

/// What is printed of what the experiment established.
pub fn report(o: Outcome) -> (s: String)
    ensures
        s@ == outcome_words(o),
{
    let mut s: String = join(
        "\nT15 RESULT\n",
        if o.confirmed {
            "  CONFIRMED: command 3 sets the UPS clock. A distinctive wrong time was written\n  and read back within 2 s of what was sent.\n"
        } else {
            "  NOT CONFIRMED: the read-back did not match the distinctive time sent.\n  ARGON-UPS-CMD3 stays `inferred`, and no clock write path may be built on it.\n"
        },
    );
    let end: String = if o.restored {
        "  Clock restored to the correct time.\n".to_owned()
    } else if o.confirmed {
        "  !! RESTORE NOT CONFIRMED: the UPS clock may still be 4649 s behind.\n  !! Run this again, or report it before anything relies on the UPS clock.\n".to_owned()
    } else {
        String::new()
    };
    s.append(end.as_str());
    s
}

/// Whether the experiment is a success.
pub fn succeeded(o: Outcome) -> (r: bool)
    ensures
        r == (o.confirmed && o.restored),
{
    o.confirmed && o.restored
}

// ---------------------------------------------------------------------------------------------
// The experiment on the wake schedule
// ---------------------------------------------------------------------------------------------

/// The first of the two times that are written: distinctive, and decades away, so a schedule the
/// UPS might act on cannot come due.
pub open spec fn t17_first() -> UpsTime {
    UpsTime { year: 2098, month: 7, day: 13, hour: 6, minute: 29, second: None }
}

/// The second of them, different from the first in every field, so that reading it back cannot be a
/// stale copy of the first.
pub open spec fn t17_second() -> UpsTime {
    UpsTime { year: 2097, month: 3, day: 21, hour: 17, minute: 42, second: None }
}

/// Both times of the experiment are real dates, decades away, and differ in every field.
pub proof fn law_the_two_times_are_far_and_different()
    ensures
        t17_first().year >= 2090 && t17_second().year >= 2090,
        t17_first().valid() && t17_second().valid(),
        t17_first().year != t17_second().year,
        t17_first().month != t17_second().month,
        t17_first().day != t17_second().day,
        t17_first().hour != t17_second().hour,
        t17_first().minute != t17_second().minute,
{
}

/// What the experiment on the wake schedule established.
#[derive(Clone, Copy, Debug, PartialEq, Eq, Structural)]
pub struct WakeOutcome {
    /// The first time was written and read back exactly.
    pub first: bool,
    /// The second, different, time was written and read back exactly.
    pub second: bool,
}

/// What to do next in the experiment on the wake schedule.
#[derive(Clone, Copy, Debug, PartialEq, Eq, Structural)]
pub enum WakeStep {
    /// Set the schedule to this time, and hand what became of it to `on_set`.
    SetWake {
        /// The time.
        target: UpsTime,
    },
    /// After half a second, read the schedule, hold it against the time, and hand whether it passed
    /// to `on_readback`.
    ReadBack {
        /// The time.
        target: UpsTime,
    },
    /// It is over.
    Over(WakeOutcome),
}

/// How far the experiment on the wake schedule has got.
#[derive(Clone, Copy, Debug, PartialEq, Eq, Structural)]
pub enum WakePhase {
    /// The first time is being set.
    SettingFirst,
    /// It is being read back, for the second time where `again`.
    ReadingFirst {
        /// Whether a read-back passed before.
        again: bool,
    },
    /// The second time is being set.
    SettingSecond {
        /// Whether the first time was read back.
        first: bool,
    },
    /// It is being read back, for the second time where `again`.
    ReadingSecond {
        /// Whether the first time was read back.
        first: bool,
        /// Whether a read-back passed before.
        again: bool,
    },
    /// It is over.
    Over,
}

impl WakePhase {
    /// How it goes on once the schedule was set, or could not be, which ends it.
    pub open spec fn set(self, done: bool) -> (WakePhase, WakeStep) {
        match self {
            WakePhase::SettingFirst => if done {
                (
                    WakePhase::ReadingFirst { again: false },
                    WakeStep::ReadBack { target: t17_first() },
                )
            } else {
                (WakePhase::Over, WakeStep::Over(WakeOutcome { first: false, second: false }))
            },
            WakePhase::SettingSecond { first } => if done {
                (
                    WakePhase::ReadingSecond { first, again: false },
                    WakeStep::ReadBack { target: t17_second() },
                )
            } else {
                (WakePhase::Over, WakeStep::Over(WakeOutcome { first, second: false }))
            },
            _ => (WakePhase::Over, WakeStep::Over(WakeOutcome { first: false, second: false })),
        }
    }

    /// How it goes on once the schedule was read back. It takes two that pass.
    pub open spec fn readback(self, pass: bool) -> (WakePhase, WakeStep) {
        match self {
            WakePhase::ReadingFirst { again } => if pass && !again {
                (
                    WakePhase::ReadingFirst { again: true },
                    WakeStep::ReadBack { target: t17_first() },
                )
            } else {
                (
                    WakePhase::SettingSecond { first: pass },
                    WakeStep::SetWake { target: t17_second() },
                )
            },
            WakePhase::ReadingSecond { first, again } => if pass && !again {
                (
                    WakePhase::ReadingSecond { first, again: true },
                    WakeStep::ReadBack { target: t17_second() },
                )
            } else {
                (WakePhase::Over, WakeStep::Over(WakeOutcome { first, second: pass }))
            },
            _ => (WakePhase::Over, WakeStep::Over(WakeOutcome { first: false, second: false })),
        }
    }
}

/// The experiment on the wake schedule: sets it to one far-future time and reads that back, then to
/// a different one.
pub struct WakeTrial {
    phase: WakePhase,
}

impl View for WakeTrial {
    type V = WakePhase;

    closed spec fn view(&self) -> WakePhase {
        self.phase
    }
}

fn first_time() -> (t: UpsTime)
    ensures
        t == t17_first(),
{
    UpsTime { year: 2098, month: 7, day: 13, hour: 6, minute: 29, second: None }
}

fn second_time() -> (t: UpsTime)
    ensures
        t == t17_second(),
{
    UpsTime { year: 2097, month: 3, day: 21, hour: 17, minute: 42, second: None }
}

impl WakeTrial {
    /// Starts.
    pub fn start() -> (r: (WakeTrial, WakeStep))
        ensures
            r.0@ == WakePhase::SettingFirst,
            r.1 == (WakeStep::SetWake { target: t17_first() }),
    {
        (WakeTrial { phase: WakePhase::SettingFirst }, WakeStep::SetWake { target: first_time() })
    }

    /// Takes whether the schedule was set.
    pub fn on_set(&mut self, done: bool) -> (n: WakeStep)
        requires
            old(self)@ is SettingFirst || old(self)@ is SettingSecond,
        ensures
            (final(self)@, n) == old(self)@.set(done),
    {
        let (phase, step): (WakePhase, WakeStep) = match self.phase {
            WakePhase::SettingFirst => if done {
                (
                    WakePhase::ReadingFirst { again: false },
                    WakeStep::ReadBack { target: first_time() },
                )
            } else {
                (WakePhase::Over, WakeStep::Over(WakeOutcome { first: false, second: false }))
            },
            WakePhase::SettingSecond { first } => if done {
                (
                    WakePhase::ReadingSecond { first, again: false },
                    WakeStep::ReadBack { target: second_time() },
                )
            } else {
                (WakePhase::Over, WakeStep::Over(WakeOutcome { first, second: false }))
            },
            _ => (WakePhase::Over, WakeStep::Over(WakeOutcome { first: false, second: false })),
        };
        self.phase = phase;
        step
    }

    /// Takes whether a read-back passed.
    pub fn on_readback(&mut self, pass: bool) -> (n: WakeStep)
        requires
            old(self)@ is ReadingFirst || old(self)@ is ReadingSecond,
        ensures
            (final(self)@, n) == old(self)@.readback(pass),
    {
        let (phase, step): (WakePhase, WakeStep) = match self.phase {
            WakePhase::ReadingFirst { again } => if pass && !again {
                (
                    WakePhase::ReadingFirst { again: true },
                    WakeStep::ReadBack { target: first_time() },
                )
            } else {
                (
                    WakePhase::SettingSecond { first: pass },
                    WakeStep::SetWake { target: second_time() },
                )
            },
            WakePhase::ReadingSecond { first, again } => if pass && !again {
                (
                    WakePhase::ReadingSecond { first, again: true },
                    WakeStep::ReadBack { target: second_time() },
                )
            } else {
                (WakePhase::Over, WakeStep::Over(WakeOutcome { first, second: pass }))
            },
            _ => (WakePhase::Over, WakeStep::Over(WakeOutcome { first: false, second: false })),
        };
        self.phase = phase;
        step
    }
}

/// Whatever becomes of it, the experiment only ever sets the two far-future times.
pub proof fn law_only_far_times_are_set(p: WakePhase, done: bool, pass: bool)
    ensures
        !(p.set(done).1 is SetWake),
        p.readback(pass).1 matches WakeStep::SetWake { target } ==> target == t17_second(),
{
}

/// Holds a schedule that was read back against the time that was set, and says what is printed.
pub fn check_wake_readback(read: &Result<Option<UpsTime>, String>, target: UpsTime) -> (r: (
    bool,
    String,
))
    ensures
        r.0 == (*read matches Ok(Some(got)) && is_same_minute(got, target)),
        r.1@ == "  read back        "@ + match *read {
            Ok(Some(got)) => time_words(got) + "   "@ + (if r.0 {
                "ok"@
            } else {
                "MISMATCH"@
            }),
            Ok(None) => "none   MISMATCH"@,
            Err(e) => "failed: "@ + e@,
        },
{
    let (pass, shown): (bool, String) = match read {
        Ok(Some(got)) => {
            let pass: bool = same_minute(*got, target);
            let mut s: String = join(fmt(*got).as_str(), "   ");
            s.append(
                if pass {
                    "ok"
                } else {
                    "MISMATCH"
                },
            );
            (pass, s)
        },
        Ok(None) => (false, "none   MISMATCH".to_owned()),
        Err(e) => (false, join("failed: ", e.as_str())),
    };
    (pass, join("  read back        ", shown.as_str()))
}

/// A truth value, in words.
pub open spec fn truth(b: bool) -> Seq<char> {
    if b {
        "true"@
    } else {
        "false"@
    }
}

fn truth_text(b: bool) -> (s: &'static str)
    ensures
        s@ == truth(b),
{
    if b {
        "true"
    } else {
        "false"
    }
}

/// What is printed of what the experiment on the wake schedule established, and of what the schedule
/// is left at.
pub fn wake_report(o: WakeOutcome, left: &Result<Option<UpsTime>, String>) -> (s: String)
    ensures
        s@ == "\nT17 RESULT\n"@ + (if o.first && o.second {
            "  CONFIRMED: command 6 sets the wake schedule. Two different far-future times\n  were written and each read back exactly.\n"@
        } else {
            "  NOT CONFIRMED (first "@ + truth(o.first) + ", second "@ + truth(o.second)
                + ").\n  ARGON-UPS-CMD6 stays `inferred`, and no wake write path may be built on it.\n"@
        }) + (match *left {
            Ok(Some(t)) => "  The schedule is LEFT at "@ + time_words(t)
                + " -- decades away. No command to clear a schedule is\n  known, and guessing one could leave a near-term time behind.\n"@,
            Ok(None) => "  The schedule reads as none.\n"@,
            Err(e) => "  The final schedule could not be read: "@ + e@ + "\n"@,
        }),
{
    let first: String = if o.first && o.second {
        "  CONFIRMED: command 6 sets the wake schedule. Two different far-future times\n  were written and each read back exactly.\n".to_owned()
    } else {
        let mut w: String = join("  NOT CONFIRMED (first ", truth_text(o.first));
        w.append(", second ");
        w.append(truth_text(o.second));
        w.append(
            ").\n  ARGON-UPS-CMD6 stays `inferred`, and no wake write path may be built on it.\n",
        );
        w
    };
    let last: String = match left {
        Ok(Some(t)) => {
            let mut w: String = join("  The schedule is LEFT at ", fmt(*t).as_str());
            w.append(
                " -- decades away. No command to clear a schedule is\n  known, and guessing one could leave a near-term time behind.\n",
            );
            w
        },
        Ok(None) => "  The schedule reads as none.\n".to_owned(),
        Err(e) => {
            let mut w: String = join("  The final schedule could not be read: ", e.as_str());
            w.append("\n");
            w
        },
    };
    let mut s: String = join("\nT17 RESULT\n", first.as_str());
    s.append(last.as_str());
    s
}

/// An experiment is made exactly where it was asked for and may write, and a look needs no permission.
pub proof fn law_an_experiment_needs_permission(
    t15: bool,
    t17: bool,
    write: bool,
    r: Result<Intent, &'static str>,
)
    requires
        call_ensures(intent, (t15, t17, write), r),
    ensures
        r is Ok <==> write == (t15 || t17),
        r == Ok::<Intent, &'static str>(Intent::Look) <==> !t15 && !t17 && !write,
        r == Ok::<Intent, &'static str>(Intent::Wake) <==> t17 && write,
        r == Ok::<Intent, &'static str>(Intent::Clock) <==> t15 && !t17 && write,
{
}

/// The port is taken exactly where neither daemon runs and nobody holds it.
pub proof fn law_only_a_free_port_is_taken(
    path: &str,
    vendor: bool,
    argond: bool,
    owner: Option<(u32, &str)>,
    r: Result<(), String>,
)
    requires
        call_ensures(port_is_free, (path, vendor, argond, owner), r),
    ensures
        r is Ok <==> !vendor && !argond && owner is None,
{
}

/// The offset of the UPS clock is its time less that of the system, where it has one.
pub proof fn law_the_offset_is_ups_less_system(
    ups: UpsTime,
    sys: u64,
    r: Result<(i64, String), &'static str>,
    a: u64,
    b: u64,
    d: i64,
)
    requires
        call_ensures(read_offset, (ups, sys), r),
        call_ensures(signed_diff, (a, b), d),
        sys <= i64::MAX,
        a <= i64::MAX,
        b <= i64::MAX,
    ensures
        r is Ok <==> ups.valid(),
        r matches Ok((offset_s, _)) ==> offset_s == ups.unix() - sys,
        d == a - b,
{
}

/// The experiment on the clock is made only in mode full, with no wake schedule set, a synchronised
/// system clock and a UPS clock that ticks steadily; that on the wake schedule only in mode full and
/// with none set.
pub proof fn law_an_experiment_is_refused_where_it_could_do_harm(
    config: &Result<Config, String>,
    wake: &Result<Option<UpsTime>, String>,
    synced: bool,
    baseline: &[i64],
    clock: Result<(), String>,
    schedule: Result<(), String>,
)
    requires
        call_ensures(t15_preconditions, (config, wake, synced, baseline), clock),
        call_ensures(t17_preconditions, (config, wake), schedule),
    ensures
        schedule is Ok <==> (*config matches Ok(c) && c.mode@ == "full"@) && *wake == Ok::<
            Option<UpsTime>,
            String,
        >(None),
        clock is Ok ==> schedule is Ok && synced,
        clock is Ok ==> forall|i: int, j: int|
            0 <= i < baseline@.len() && 0 <= j < baseline@.len() ==> #[trigger] baseline@[i]
                - #[trigger] baseline@[j] <= 2,
        schedule is Ok && synced && baseline@.len() <= 1 ==> clock is Ok,
{
    reveal_strlit("read-only");
    reveal_strlit("managed");
    reveal_strlit("full");
    assert("read-only"@.len() == 9 && "managed"@.len() == 7 && "full"@.len() == 4);
    assert forall|i: int, j: int|
        0 <= i < baseline@.len() && 0 <= j < baseline@.len() implies #[trigger] baseline@[i]
        - #[trigger] baseline@[j] <= largest(baseline@) - smallest(baseline@) by {
        lemma_within(baseline@, i);
        lemma_within(baseline@, j);
    }
    if baseline@.len() == 1 {
        assert(largest(baseline@) == smallest(baseline@));
    }
}

proof fn lemma_within(v: Seq<i64>, i: int)
    requires
        0 <= i < v.len(),
    ensures
        smallest(v) <= v[i] <= largest(v),
    decreases v.len(),
{
    if i < v.len() - 1 {
        lemma_within(v.drop_last(), i);
    }
}

/// A clock that was set reads back where it should be: at the time that was sent, and as far on as the
/// system clock has gone since, within two seconds.
pub proof fn law_a_set_clock_goes_on_from_there(
    t: UpsTime,
    sent_at: u64,
    offset_s: i64,
    now: u64,
    r: (bool, String),
    e: &str,
    failed: (bool, String),
)
    requires
        call_ensures(check_readback, (Ok::<UpsTime, &str>(t), sent_at, offset_s, now), r),
        call_ensures(check_readback, (Err::<UpsTime, &str>(e), sent_at, offset_s, now), failed),
        t.valid(),
        sent_at <= i64::MAX,
        now <= i64::MAX,
    ensures
        r.0 <==> -2 <= t.unix() - (now + offset_s) <= 2,
        !failed.0,
{
}

/// The experiment on the clock sets a time 4649 seconds behind, and in the end the right one; it is a
/// success exactly where the wrong one was confirmed and the right one restored.
pub proof fn law_the_experiment_sets_the_clock_back_and_right(
    now: u64,
    r: (ClockTrial, ClockStep),
    o: Outcome,
    s: bool,
)
    requires
        call_ensures(ClockTrial::start, (now,), r),
        call_ensures(succeeded, (o,), s),
        946_684_800 + 4_649 <= now < 4_102_444_800,
    ensures
        r.1 matches ClockStep::SetClock { target } && target.valid() && target.second is Some
            && target.unix() == now - 4_649,
        r.0@ == ClockPhase::SettingWrong,
        forall|c: &mut ClockTrial, n: ClockStep| #[trigger]
            call_ensures(ClockTrial::restore, (c, now), n) ==> (n matches ClockStep::SetClock {
                target,
            } && target.valid() && target.unix() == now) && final(c)@ == (ClockPhase::SettingRight {
                confirmed: c@->Restoring_confirmed,
            }),
        s <==> o.confirmed && o.restored,
{
}

/// Either time is confirmed by two read-backs in a row that both pass, and by nothing less.
pub proof fn law_two_read_backs_confirm(a: bool, b: bool, confirmed: bool)
    ensures
        forall|c: &mut ClockTrial, n: ClockStep| #[trigger]
            call_ensures(ClockTrial::on_set, (c, a), n) ==> (final(c)@, n) == c@.set(a),
        forall|c: &mut ClockTrial, n: ClockStep| #[trigger]
            call_ensures(ClockTrial::on_readback, (c, a), n) ==> (final(c)@, n) == c@.readback(a),
        ClockPhase::SettingWrong.set(true).0.readback(a).0.readback(b) == (
            ClockPhase::Restoring { confirmed: a && b },
            ClockStep::Restore,
        ),
        ClockPhase::SettingWrong.set(false) == (
            ClockPhase::Restoring { confirmed: false },
            ClockStep::Restore,
        ),
        (ClockPhase::SettingRight { confirmed }).set(true).0.readback(a).0.readback(b) == (
            ClockPhase::Over,
            ClockStep::Over(Outcome { confirmed, restored: a && b }),
        ),
        (ClockPhase::SettingRight { confirmed }).set(false) == (
            ClockPhase::Over,
            ClockStep::Over(Outcome { confirmed, restored: false }),
        ),
        ClockPhase::SettingWrong.set(true).1 == (ClockStep::ReadBack { offset_s: -4_649i64 }),
        (ClockPhase::SettingRight { confirmed }).set(true).1 == (ClockStep::ReadBack {
            offset_s: 0,
        }),
{
}

/// The experiment on the wake schedule writes one far time, reads it back, and then another; each is
/// confirmed by two read-backs that pass.
pub proof fn law_two_far_times_are_written_and_read_back(first: bool, r: (WakeTrial, WakeStep))
    requires
        call_ensures(WakeTrial::start, (), r),
    ensures
        forall|w: &mut WakeTrial, n: WakeStep| #[trigger]
            call_ensures(WakeTrial::on_set, (w, first), n) ==> (final(w)@, n) == w@.set(first),
        forall|w: &mut WakeTrial, n: WakeStep| #[trigger]
            call_ensures(WakeTrial::on_readback, (w, first), n) ==> (final(w)@, n) == w@.readback(
                first,
            ),
        r.0@ == WakePhase::SettingFirst,
        r.1 == (WakeStep::SetWake {
            target: UpsTime { year: 2098, month: 7, day: 13, hour: 6, minute: 29, second: None },
        }),
        WakePhase::SettingFirst.set(true).0.readback(true).0.readback(true) == (
            WakePhase::SettingSecond { first: true },
            WakeStep::SetWake {
                target: UpsTime {
                    year: 2097,
                    month: 3,
                    day: 21,
                    hour: 17,
                    minute: 42,
                    second: None,
                },
            },
        ),
        WakePhase::SettingFirst.set(true).0.readback(false) == (
            WakePhase::SettingSecond { first: false },
            WakeStep::SetWake {
                target: UpsTime {
                    year: 2097,
                    month: 3,
                    day: 21,
                    hour: 17,
                    minute: 42,
                    second: None,
                },
            },
        ),
        WakePhase::SettingFirst.set(true).0.readback(true).0.readback(false).0 == (
        WakePhase::SettingSecond { first: false }),
        WakePhase::SettingFirst.set(false).1 == WakeStep::Over(
            WakeOutcome { first: false, second: false },
        ),
        (WakePhase::SettingSecond { first }).set(true).0.readback(true).0.readback(true).1
            == WakeStep::Over(WakeOutcome { first, second: true }),
        (WakePhase::SettingSecond { first }).set(true).0.readback(false).1 == WakeStep::Over(
            WakeOutcome { first, second: false },
        ),
        (WakePhase::SettingSecond { first }).set(false).1 == WakeStep::Over(
            WakeOutcome { first, second: false },
        ),
{
}

/// A schedule passes exactly where it reads back as the minute that was set.
pub proof fn law_a_schedule_passes_where_it_reads_back(
    read: &Result<Option<UpsTime>, String>,
    target: UpsTime,
    r: (bool, String),
)
    requires
        call_ensures(check_wake_readback, (read, target), r),
    ensures
        r.0 <==> (*read matches Ok(Some(got)) && got.year == target.year && got.month == target.month
            && got.day == target.day && got.hour == target.hour && got.minute == target.minute),
{
}

/// A time is told with the year in four places and the rest in two, down to the second.
pub proof fn law_a_time_is_told_to_the_second(t: UpsTime, s: String)
    requires
        call_ensures(fmt, (t,), s),
        t.valid(),
        t.second is Some,
    ensures
        s@.len() == 23,
        digits_value(s@.subrange(0, 4)) == t.year,
        digits_value(s@.subrange(5, 7)) == t.month,
        digits_value(s@.subrange(8, 10)) == t.day,
        digits_value(s@.subrange(11, 13)) == t.hour,
        digits_value(s@.subrange(14, 16)) == t.minute,
        digits_value(s@.subrange(17, 19)) == t.second->0,
{
    reveal_strlit("-");
    reveal_strlit(" ");
    reveal_strlit(":");
    reveal_strlit(" UTC");
    lemma_padded_value(t.year as nat, 4);
    lemma_padded_value(t.month as nat, 2);
    lemma_padded_value(t.day as nat, 2);
    lemma_padded_value(t.hour as nat, 2);
    lemma_padded_value(t.minute as nat, 2);
    lemma_padded_value((t.second->0) as nat, 2);
    assert(s@.subrange(0, 4) =~= padded(t.year as nat, 4));
    assert(s@.subrange(5, 7) =~= padded(t.month as nat, 2));
    assert(s@.subrange(8, 10) =~= padded(t.day as nat, 2));
    assert(s@.subrange(11, 13) =~= padded(t.hour as nat, 2));
    assert(s@.subrange(14, 16) =~= padded(t.minute as nat, 2));
    assert(s@.subrange(17, 19) =~= padded((t.second->0) as nat, 2));
}

/// The schedule is printed as what was read: none, the time, or that it could not be.
pub proof fn law_a_schedule_is_printed_as_it_was_read(
    t: UpsTime,
    e: String,
    a: &Result<Option<UpsTime>, String>,
    b: &Result<Option<UpsTime>, String>,
    c: &Result<Option<UpsTime>, String>,
    none: String,
    some: String,
    failed: String,
)
    requires
        *a == Ok::<Option<UpsTime>, String>(None),
        *b == Ok::<Option<UpsTime>, String>(Some(t)),
        *c == Err::<Option<UpsTime>, String>(e),
        call_ensures(wake_line, (a,), none),
        call_ensures(wake_line, (b,), some),
        call_ensures(wake_line, (c,), failed),
    ensures
        none@ == "  wake schedule    "@ + "none"@,
        some@ == "  wake schedule    "@ + time_words(t),
        failed@ == "  wake schedule    "@ + ("unreadable: "@ + e@),
{
}

/// The experiment on the clock is reported as confirmed exactly where it was, and a clock that may
/// still be wrong is said wherever the wrong time was taken and not undone.
pub proof fn law_the_report_says_what_was_confirmed(o: Outcome, s: String)
    requires
        call_ensures(report, (o,), s),
    ensures
        o.confirmed <==> begins(s@, "\nT15 RESULT\n  CONFIRMED"@),
        !o.confirmed <==> begins(s@, "\nT15 RESULT\n  NOT CONFIRMED"@),
        o.restored ==> ends(s@, "  Clock restored to the correct time.\n"@),
        o.confirmed && !o.restored ==> ends(
            s@,
            "  !! RESTORE NOT CONFIRMED: the UPS clock may still be 4649 s behind.\n  !! Run this again, or report it before anything relies on the UPS clock.\n"@,
        ),
{
    reveal_strlit("\nT15 RESULT\n");
    reveal_strlit("\nT15 RESULT\n  CONFIRMED");
    reveal_strlit("\nT15 RESULT\n  NOT CONFIRMED");
    reveal_strlit(
        "  CONFIRMED: command 3 sets the UPS clock. A distinctive wrong time was written\n  and read back within 2 s of what was sent.\n",
    );
    reveal_strlit(
        "  NOT CONFIRMED: the read-back did not match the distinctive time sent.\n  ARGON-UPS-CMD3 stays `inferred`, and no clock write path may be built on it.\n",
    );
    let yes = "\nT15 RESULT\n  CONFIRMED"@;
    let no = "\nT15 RESULT\n  NOT CONFIRMED"@;
    assert(yes[14] == 'C' && no[14] == 'N');
    if o.confirmed {
        assert(s@.take(yes.len() as int) =~= yes);
        assert(s@.take(no.len() as int)[14] == 'C');
    } else {
        assert(s@.take(no.len() as int) =~= no);
        assert(s@.take(yes.len() as int)[14] == 'N');
    }
    let r = "  Clock restored to the correct time.\n"@;
    if o.restored {
        assert(s@.skip(s@.len() - r.len()) =~= r);
    }
    let w =
        "  !! RESTORE NOT CONFIRMED: the UPS clock may still be 4649 s behind.\n  !! Run this again, or report it before anything relies on the UPS clock.\n"@;
    if o.confirmed && !o.restored {
        assert(s@.skip(s@.len() - w.len()) =~= w);
    }
}

/// The experiment on the wake schedule is reported as confirmed exactly where both times were.
pub proof fn law_the_wake_report_says_what_was_confirmed(
    o: WakeOutcome,
    left: &Result<Option<UpsTime>, String>,
    s: String,
)
    requires
        call_ensures(wake_report, (o, left), s),
    ensures
        o.first && o.second <==> begins(s@, "\nT17 RESULT\n  CONFIRMED"@),
        !(o.first && o.second) <==> begins(s@, "\nT17 RESULT\n  NOT CONFIRMED"@),
        *left == Ok::<Option<UpsTime>, String>(None) ==> ends(
            s@,
            "  The schedule reads as none.\n"@,
        ),
        *left matches Ok(Some(t)) ==> holds(s@, "  The schedule is LEFT at "@ + time_words(t)),
        *left matches Err(e) ==> ends(
            s@,
            "  The final schedule could not be read: "@ + e@ + "\n"@,
        ),
{
    reveal_strlit("\nT17 RESULT\n");
    reveal_strlit("\nT17 RESULT\n  CONFIRMED");
    reveal_strlit("\nT17 RESULT\n  NOT CONFIRMED");
    reveal_strlit(
        "  CONFIRMED: command 6 sets the wake schedule. Two different far-future times\n  were written and each read back exactly.\n",
    );
    reveal_strlit("  NOT CONFIRMED (first ");
    let yes = "\nT17 RESULT\n  CONFIRMED"@;
    let no = "\nT17 RESULT\n  NOT CONFIRMED"@;
    assert(yes[14] == 'C' && no[14] == 'N');
    let head = "\nT17 RESULT\n"@ + (if o.first && o.second {
        "  CONFIRMED: command 6 sets the wake schedule. Two different far-future times\n  were written and each read back exactly.\n"@
    } else {
        "  NOT CONFIRMED (first "@ + truth(o.first) + ", second "@ + truth(o.second)
            + ").\n  ARGON-UPS-CMD6 stays `inferred`, and no wake write path may be built on it.\n"@
    });
    if o.first && o.second {
        assert(s@.take(yes.len() as int) =~= yes);
        assert(s@.take(no.len() as int)[14] == 'C');
    } else {
        assert(s@.take(no.len() as int) =~= no);
        assert(s@.take(yes.len() as int)[14] == 'N');
    }
    match *left {
        Ok(Some(t)) => {
            let part = "  The schedule is LEFT at "@ + time_words(t);
            assert(s@.subrange(head.len() as int, (head.len() + part.len()) as int) =~= part);
            assert(stands_at(s@, part, head.len() as int));
        },
        Ok(None) => {
            let e = "  The schedule reads as none.\n"@;
            assert(s@.skip(s@.len() - e.len()) =~= e);
        },
        Err(x) => {
            let e = "  The final schedule could not be read: "@ + x@ + "\n"@;
            assert(s@.skip(s@.len() - e.len()) =~= e);
        },
    }
}

/// An impossible date is refused, and any other is taken as it is.
pub proof fn law_an_impossible_date_is_refused(t: UpsTime, plausible: bool, r: Result<UpsTime, String>)
    requires
        call_ensures(read_clock, (t, plausible), r),
    ensures
        r is Ok <==> plausible,
        r is Ok ==> r->Ok_0 == t,
{
}

/// Bytes are told as two hexadecimal digits each, in capitals, with a blank between each two.
pub proof fn law_bytes_are_told_in_capitals(one: &[u8], more: &[u8], b: u8, s: String, t: String)
    requires
        call_ensures(hex, (one,), s),
        call_ensures(hex, (more,), t),
        one@ == seq![b],
        more@.len() > 1,
    ensures
        s@.len() == 2,
        b < 160 ==> s@[0] as u32 == '0' as u32 + b / 16,
        b >= 160 ==> s@[0] as u32 == 'A' as u32 + (b / 16 - 10),
        b % 16 < 10 ==> s@[1] as u32 == '0' as u32 + b % 16,
        b % 16 >= 10 ==> s@[1] as u32 == 'A' as u32 + (b % 16 - 10),
        t@ == joined(upper_words(more@.drop_last()), " "@) + " "@ + upper_hex(more@.last()),
{
    assert(upper_words(one@)[0] == upper_hex(b));
    assert(upper_words(one@).len() == 1);
    assert(upper_words(more@).drop_last() =~= upper_words(more@.drop_last()));
    assert(upper_words(more@).last() == upper_hex(more@.last()));
}

/// An exchange is told with what was sent and what came back, or that nothing did; and what came back
/// as a frame, or as why it is none.
pub proof fn law_an_exchange_is_told_as_it_was(
    target: &str,
    sent: &[u8],
    got: &[u8],
    s: String,
    cmd: u8,
    e: &str,
    frame: String,
    rejected: String,
)
    requires
        call_ensures(exchange_text, (target, sent, got), s),
        call_ensures(decoded_line, (Ok::<(u8, &[u8]), &str>((cmd, got)),), frame),
        call_ensures(decoded_line, (Err::<(u8, &[u8]), &str>(e),), rejected),
    ensures
        ({
            let head = "  target           "@ + target@ + "\n  sent             "@ + joined(
                upper_words(sent@),
                " "@,
            ) + "\n  received         "@;
            &&& got@.len() == 0 ==> s@ == head + "nothing"@ + " ("@ + decimal(0)
                + " bytes in 1500 ms)\n"@
            &&& got@.len() > 0 ==> s@ == head + joined(upper_words(got@), " "@) + " ("@ + decimal(
                got@.len(),
            ) + " bytes in 1500 ms)\n"@
            &&& got@.len() == 0 ==> frame@ == "  decoded          "@ + ("frame: command "@ + decimal(
                cmd as nat,
            ) + ", payload "@ + "empty"@)
            &&& got@.len() > 0 ==> frame@ == "  decoded          "@ + ("frame: command "@ + decimal(
                cmd as nat,
            ) + ", payload "@ + joined(upper_words(got@), " "@))
            &&& rejected@ == "  decoded          "@ + ("rejected bytes: "@ + e@)
        }),
{
}

} // verus!
