//! `argonctl ups`: what the UPS is doing.
//!
//! Read-only, by three routes: the daemon over the bus, the HID interface, or the serial protocol.

use crate::daemon::dbus::{age_of, status_report};
use crate::device::config::Config;
use crate::device::control::{field_views, find_value, value_of, Fields};
use crate::device::power::Advice;
use crate::device::status::{level_name, name_of, source, UpsStatus};
use crate::device::ups::{Poll, PowerSource};
use crate::json::{
    members, no_members, number_or_null, put, text_or_null, trees, Json, Member, Tree,
};
use crate::text::{
    begins, debug_of, debug_text, decimal, decimal_of, hex, hex_of, join, join_all, joined,
    law_number_of_decimal, left_aligned, number, pad_left, pad_right, padded, padded_of, parse_number, right_aligned, same,
    signed_decimal, signed_decimal_of, starts_with, texts, views,
};
use crate::time::SystemTime;
use vstd::prelude::*;

verus! {

/// What the daemon calls the level where no UPS is connected.
pub const ABSENT: &'static str = "absent";

/// What the daemon calls the level where a UPS that was connected before cannot be found.
pub const MISSING: &'static str = "missing";

/// How old a reading may be before it is called stale, in seconds: long enough that a slow poll is
/// not an alarm, short enough that a thread which stopped is noticed.
pub const STALE_AFTER_S: u64 = 120;

// ---------------------------------------------------------------------------------------------
// The daemon's answer
// ---------------------------------------------------------------------------------------------

/// The value of a field, or nothing.
pub open spec fn given(fields: Seq<(Seq<char>, Seq<char>)>, key: Seq<char>) -> Seq<char> {
    match value_of(fields, key) {
        Some(v) => v,
        None => Seq::empty(),
    }
}

/// The value of a field, or nothing.
pub fn get<'a>(fields: &'a Fields, key: &str) -> (s: &'a str)
    ensures
        s@ == given(field_views(fields@), key@),
{
    match find_value(fields, key) {
        Some(v) => v,
        None => {
            proof {
                reveal_strlit("");
                assert(""@ =~= Seq::<char>::empty());
            }
            ""
        },
    }
}

/// The number that a field holds, if it holds one.
pub open spec fn given_number(fields: Seq<(Seq<char>, Seq<char>)>, key: Seq<char>) -> Option<nat> {
    number(given(fields, key), u64::MAX as nat)
}

fn get_number(fields: &Fields, key: &str) -> (r: Option<u64>)
    ensures
        match r {
            Some(n) => given_number(field_views(fields@), key@) == Some(n as nat),
            None => given_number(field_views(fields@), key@) is None,
        },
{
    parse_number(get(fields, key), u64::MAX)
}

/// A text, or a dash in its place.
pub open spec fn dashed(v: Seq<char>) -> Seq<char> {
    if v.len() == 0 {
        "-"@
    } else {
        v
    }
}

/// A text, or a dash in its place.
pub fn dash<'a>(v: &'a str) -> (s: &'a str)
    ensures
        s@ == dashed(v@),
{
    if v.is_empty() {
        "-"
    } else {
        v
    }
}

/// The difference of two numbers, or 0.
pub open spec fn less(a: nat, b: nat) -> nat {
    if a >= b {
        (a - b) as nat
    } else {
        0
    }
}

fn saturating(a: u64, b: u64) -> (d: u64)
    ensures
        d == less(a as nat, b as nat),
{
    if a >= b {
        a - b
    } else {
        0
    }
}

/// How long ago a reading was taken, in words.
pub open spec fn age_words(age_s: Seq<char>) -> Seq<char> {
    match number(age_s, u64::MAX as nat) {
        None => "-"@,
        Some(secs) => {
            let when = if secs < 60 {
                decimal(secs) + "s ago"@
            } else {
                decimal(secs / 60) + "m "@ + decimal(secs % 60) + "s ago"@
            };
            if secs >= STALE_AFTER_S {
                when + "  (stale -- is argond still polling?)"@
            } else {
                when
            }
        },
    }
}

/// How long ago the reading was taken, called out when it is old enough to distrust: a status that
/// stopped being updated looks exactly like a healthy one otherwise.
pub fn age(age_s: &str) -> (s: String)
    ensures
        s@ == age_words(age_s@),
{
    let secs: u64 = match parse_number(age_s, u64::MAX) {
        Some(n) => n,
        None => {
            return "-".to_owned();
        },
    };
    let mut when: String = if secs < 60 {
        join(decimal_of(secs).as_str(), "s ago")
    } else {
        let mut w: String = join(decimal_of(secs / 60).as_str(), "m ");
        w.append(decimal_of(secs % 60).as_str());
        w.append("s ago");
        w
    };
    if secs >= STALE_AFTER_S {
        when.append("  (stale -- is argond still polling?)");
    }
    when
}

/// A pending poweroff, in words.
pub open spec fn poweroff_words(at_unix: Seq<char>, now_unix: nat) -> Seq<char> {
    match number(at_unix, u64::MAX as nat) {
        None => "none scheduled"@,
        Some(at) => {
            let left = less(at, now_unix);
            "scheduled in "@ + decimal(left / 60) + "m "@ + decimal(left % 60) + "s"@
        },
    }
}

/// A pending poweroff, as the time left rather than a timestamp to subtract in your head.
pub fn poweroff(at_unix: &str, now_unix: u64) -> (s: String)
    ensures
        s@ == poweroff_words(at_unix@, now_unix as nat),
{
    let at: u64 = match parse_number(at_unix, u64::MAX) {
        Some(n) => n,
        None => {
            return "none scheduled".to_owned();
        },
    };
    let left: u64 = saturating(at, now_unix);
    let mut s: String = join("scheduled in ", decimal_of(left / 60).as_str());
    s.append("m ");
    s.append(decimal_of(left % 60).as_str());
    s.append("s");
    s
}

/// A line of a table: a label in fourteen columns, and a value.
pub open spec fn row(label: Seq<char>, value: Seq<char>) -> Seq<char> {
    "  "@ + pad_right(label, 14) + " "@ + value + "\n"@
}

fn add_row(s: &mut String, label: &str, value: &str)
    ensures
        final(s)@ == old(s)@ + row(label@, value@),
{
    let mut line: String = join("  ", left_aligned(label, 14).as_str());
    line.append(" ");
    line.append(value);
    line.append("\n");
    s.append(line.as_str());
}

/// What is said where the daemon has no reading.
pub open spec fn no_reading_words(source: Seq<char>) -> Seq<char> {
    if source == "none"@ {
        "  argond is running, and UPS monitoring is off by configuration\n  ([ups] source = \"none\" in /etc/argon-utils/config.toml). Nothing is wrong.\n"@
    } else if source.len() == 0 {
        "  argond is running but has no reading yet: it has not completed its first\n  poll, or the battery is unreachable.\n"@
    } else {
        "  argond is running and configured to monitor "@ + debug_text(source)
            + ", but has no reading\n  yet: either its first poll has not finished, or that source is unreachable.\n  `journalctl -u argond -n 20` says which.\n"@
    }
}

/// How long ago a UPS that is missing was read, in words.
pub open spec fn seen_words(last_seen: Option<nat>, now_unix: nat) -> Seq<char> {
    match last_seen {
        Some(t) => ", last read "@ + decimal(less(now_unix, t) / 60) + " min ago"@,
        None => Seq::empty(),
    }
}

/// What is said of a UPS that cannot be found.
pub open spec fn missing_words(
    fields: Seq<(Seq<char>, Seq<char>)>,
    now_unix: nat,
) -> Seq<char> {
    "  The UPS connected before ("@ + dashed(given(fields, "missing_name"@)) + seen_words(
        given_number(fields, "last_seen_unix"@),
        now_unix,
    )
        + ") cannot be found.\n  No battery is being watched. If it was removed on purpose:\n  sudo argonctl ups --forget\n"@
}

/// A charge, in words.
pub open spec fn charge_words(percent: Seq<char>) -> Seq<char> {
    if percent.len() == 0 {
        "unknown"@
    } else {
        percent + "%"@
    }
}

/// What is printed of the daemon's answer.
pub open spec fn rendered(fields: Seq<(Seq<char>, Seq<char>)>, now_unix: nat) -> Seq<char> {
    let head = "From argond\n-----------\n"@;
    if given(fields, "available"@) != "yes"@ {
        head + no_reading_words(given(fields, "source_config"@))
    } else if given(fields, "level"@) == ABSENT@ {
        head
            + "  No UPS connected. argond keeps looking and picks one up when it is plugged in.\n"@
    } else if given(fields, "level"@) == MISSING@ {
        head + missing_words(fields, now_unix)
    } else {
        head + row("charge"@, charge_words(given(fields, "percent"@))) + row(
            "source"@,
            dashed(given(fields, "source"@)),
        ) + row("level"@, dashed(given(fields, "level"@))) + row(
            "last read"@,
            age_words(given(fields, "age_s"@)),
        ) + row("poweroff"@, poweroff_words(given(fields, "shutdown_at_unix"@), now_unix))
    }
}

/// Formats the daemon's answer.
///
/// Unknown keys are ignored and missing ones read as "-", so a newer daemon reporting more, or an
/// older one reporting less, still prints something truthful. "Not monitoring" and "no reading yet"
/// are told apart: the first is a configuration choice and perfectly healthy.
pub fn render(fields: &Fields, now_unix: u64) -> (s: String)
    ensures
        s@ == rendered(field_views(fields@), now_unix as nat),
{
    let mut out: String = "From argond\n-----------\n".to_owned();
    if !same(get(fields, "available"), "yes") {
        let source: &str = get(fields, "source_config");
        proof {
            reveal_strlit("none");
            assert("none"@.len() == 4);
        }
        if same(source, "none") {
            out.append(
                "  argond is running, and UPS monitoring is off by configuration\n  ([ups] source = \"none\" in /etc/argon-utils/config.toml). Nothing is wrong.\n",
            );
        } else if source.is_empty() {
            out.append(
                "  argond is running but has no reading yet: it has not completed its first\n  poll, or the battery is unreachable.\n",
            );
        } else {
            let mut line: String = join(
                "  argond is running and configured to monitor ",
                debug_of(source).as_str(),
            );
            line.append(
                ", but has no reading\n  yet: either its first poll has not finished, or that source is unreachable.\n  `journalctl -u argond -n 20` says which.\n",
            );
            out.append(line.as_str());
        }
        return out;
    }
    let level: &str = get(fields, "level");
    if same(level, ABSENT) {
        out.append(
            "  No UPS connected. argond keeps looking and picks one up when it is plugged in.\n",
        );
        return out;
    }
    if same(level, MISSING) {
        let mut line: String = join(
            "  The UPS connected before (",
            dash(get(fields, "missing_name")),
        );
        let seen: String = match get_number(fields, "last_seen_unix") {
            Some(t) => {
                let mut w: String = join(
                    ", last read ",
                    decimal_of(saturating(now_unix, t) / 60).as_str(),
                );
                w.append(" min ago");
                w
            },
            None => String::new(),
        };
        line.append(seen.as_str());
        line.append(
            ") cannot be found.\n  No battery is being watched. If it was removed on purpose:\n  sudo argonctl ups --forget\n",
        );
        out.append(line.as_str());
        return out;
    }
    let percent: &str = get(fields, "percent");
    let charge: String = if percent.is_empty() {
        "unknown".to_owned()
    } else {
        join(percent, "%")
    };
    add_row(&mut out, "charge", charge.as_str());
    add_row(&mut out, "source", dash(get(fields, "source")));
    add_row(&mut out, "level", dash(level));
    add_row(&mut out, "last read", age(get(fields, "age_s")).as_str());
    add_row(
        &mut out,
        "poweroff",
        poweroff(get(fields, "shutdown_at_unix"), now_unix).as_str(),
    );
    out
}

/// A text, or `null` in place of an empty one.
pub open spec fn some_text(v: Seq<char>) -> Tree {
    if v.len() == 0 {
        Tree::Null
    } else {
        Tree::Text(v)
    }
}

fn text_json(v: &str) -> (j: Json)
    ensures
        j.tree() == some_text(v@),
{
    if v.is_empty() {
        Json::Null
    } else {
        Json::text(v)
    }
}

/// A number, as an integer.
pub open spec fn as_int(n: Option<nat>) -> Option<int> {
    match n {
        Some(n) => Some(n as int),
        None => None,
    }
}

/// What is said of the daemon's answer in JSON.
pub open spec fn daemon_tree(fields: Seq<(Seq<char>, Seq<char>)>, now_unix: nat) -> Tree {
    let age = given_number(fields, "age_s"@);
    let at = given_number(fields, "shutdown_at_unix"@);
    Tree::Object(
        seq![
            ("route"@, Tree::Text("argond"@)),
            ("available"@, Tree::Bool(given(fields, "available"@) == "yes"@)),
            ("level"@, some_text(given(fields, "level"@))),
            ("source"@, some_text(given(fields, "source"@))),
            ("percent"@, number_or_null(as_int(number(given(fields, "percent"@), 255)))),
            ("updated_unix"@, number_or_null(as_int(given_number(fields, "updated_unix"@)))),
            ("age_s"@, number_or_null(as_int(age))),
            ("stale"@, Tree::Bool(age is Some && age->0 >= STALE_AFTER_S)),
            ("shutdown_at_unix"@, number_or_null(as_int(at))),
            (
                "shutdown_in_s"@,
                match at {
                    Some(t) => Tree::Number(less(t, now_unix) as int),
                    None => Tree::Null,
                },
            ),
            ("missing_name"@, some_text(given(fields, "missing_name"@))),
            ("last_seen_unix"@, number_or_null(as_int(given_number(fields, "last_seen_unix"@)))),
        ],
    )
}

/// The daemon's answer in JSON.
///
/// Numbers are numbers and an absent value is `null`, never `0` or `""` -- a monitor that cannot
/// tell "no reading" from "0 %" is worse than no monitor. `stale` applies the same threshold as the
/// text, so the two cannot disagree.
pub fn json_from_daemon(fields: &Fields, now_unix: u64) -> (j: Json)
    ensures
        j.tree() == daemon_tree(field_views(fields@), now_unix as nat),
{
    let age: Option<u64> = get_number(fields, "age_s");
    let at: Option<u64> = get_number(fields, "shutdown_at_unix");
    let mut v: Vec<Member> = no_members();
    put(&mut v, "route", Json::text("argond"));
    put(&mut v, "available", Json::Bool(same(get(fields, "available"), "yes")));
    put(&mut v, "level", text_json(get(fields, "level")));
    put(&mut v, "source", text_json(get(fields, "source")));
    put(
        &mut v,
        "percent",
        Json::number_or_null(parse_number(get(fields, "percent"), 255)),
    );
    put(&mut v, "updated_unix", Json::number_or_null(get_number(fields, "updated_unix")));
    put(&mut v, "age_s", Json::number_or_null(age));
    put(
        &mut v,
        "stale",
        Json::Bool(
            match age {
                Some(a) => a >= STALE_AFTER_S,
                None => false,
            },
        ),
    );
    put(&mut v, "shutdown_at_unix", Json::number_or_null(at));
    put(
        &mut v,
        "shutdown_in_s",
        match at {
            Some(t) => Json::number(saturating(t, now_unix)),
            None => Json::Null,
        },
    );
    put(&mut v, "missing_name", text_json(get(fields, "missing_name")));
    put(&mut v, "last_seen_unix", Json::number_or_null(get_number(fields, "last_seen_unix")));
    assert(members(v@) =~= daemon_tree(field_views(fields@), now_unix as nat)->Object_0);
    Json::object(v)
}

/// The first field of a name is the one that is found.
proof fn lemma_value_at(fields: Seq<(Seq<char>, Seq<char>)>, i: int)
    requires
        0 <= i < fields.len(),
        forall|j: int| 0 <= j < i ==> (#[trigger] fields[j]).0 != fields[i].0,
    ensures
        value_of(fields, fields[i].0) == Some(fields[i].1),
    decreases i,
{
    if i > 0 {
        assert(fields[0].0 != fields[i].0);
        let rest = fields.skip(1);
        assert forall|j: int| 0 <= j < i - 1 implies (#[trigger] rest[j]).0 != rest[i - 1].0 by {
            assert(fields[j + 1].0 != fields[i].0);
        }
        lemma_value_at(rest, i - 1);
    }
}

/// A name that no field has is not found.
proof fn lemma_no_value(fields: Seq<(Seq<char>, Seq<char>)>, key: Seq<char>)
    requires
        forall|j: int| 0 <= j < fields.len() ==> (#[trigger] fields[j]).0 != key,
    ensures
        value_of(fields, key) is None,
    decreases fields.len(),
{
    if fields.len() > 0 {
        assert(fields[0].0 != key);
        let rest = fields.skip(1);
        assert forall|j: int| 0 <= j < rest.len() implies (#[trigger] rest[j]).0 != key by {
            assert(fields[j + 1].0 != key);
        }
        lemma_no_value(rest, key);
    }
}

/// What is shown of the daemon's answer is the reading that the daemon holds: each of its fields
/// arrives as it was, and what it does not have is null, never a zero or an empty string.
pub proof fn law_what_the_daemon_holds_is_what_is_shown(
    s: UpsStatus,
    now: SystemTime,
    configured: Seq<char>,
    now_unix: nat,
)
    requires
        s.updated.unix_or_zero() <= u64::MAX,
        s.shutdown_at is Some ==> (s.shutdown_at->0).unix_or_zero() <= u64::MAX,
    ensures
        ({
            let at = match s.shutdown_at {
                Some(t) => Some(t.unix_or_zero()),
                None => None,
            };
            daemon_tree(
                status_report(Some(s), now).push(("source_config"@, configured)),
                now_unix,
            ) == Tree::Object(
                seq![
                    ("route"@, Tree::Text("argond"@)),
                    ("available"@, Tree::Bool(true)),
                    ("level"@, some_text(s.level@)),
                    ("source"@, some_text(source(s.level@))),
                    ("percent"@, number_or_null(as_int(s@.percent))),
                    ("updated_unix"@, Tree::Number(s.updated.unix_or_zero() as int)),
                    ("age_s"@, Tree::Number(age_of(s, now) as int)),
                    ("stale"@, Tree::Bool(age_of(s, now) >= STALE_AFTER_S)),
                    ("shutdown_at_unix"@, number_or_null(as_int(at))),
                    (
                        "shutdown_in_s"@,
                        match at {
                            Some(t) => Tree::Number(less(t, now_unix) as int),
                            None => Tree::Null,
                        },
                    ),
                    ("missing_name"@, Tree::Null),
                    ("last_seen_unix"@, Tree::Null),
                ],
            )
        }),
{
    let f = status_report(Some(s), now).push(("source_config"@, configured));
    reveal_strlit("available");
    reveal_strlit("level");
    reveal_strlit("source");
    reveal_strlit("percent");
    reveal_strlit("updated_unix");
    reveal_strlit("age_s");
    reveal_strlit("shutdown_at_unix");
    reveal_strlit("source_config");
    reveal_strlit("missing_name");
    reveal_strlit("last_seen_unix");
    assert("available"@.len() == 9 && "level"@.len() == 5 && "source"@.len() == 6);
    assert("percent"@.len() == 7 && "updated_unix"@.len() == 12 && "age_s"@.len() == 5);
    assert("shutdown_at_unix"@.len() == 16 && "source_config"@.len() == 13);
    assert("missing_name"@.len() == 12 && "last_seen_unix"@.len() == 14);
    assert(f[0].0 == "available"@ && f[1].0 == "level"@ && f[2].0 == "source"@);
    assert(f[3].0 == "percent"@ && f[4].0 == "updated_unix"@ && f[5].0 == "age_s"@);
    assert(f[6].0 == "shutdown_at_unix"@ && f[7].0 == "source_config"@ && f.len() == 8);
    assert("level"@[0] == 'l' && "age_s"@[0] == 'a');
    assert("updated_unix"@[0] == 'u' && "missing_name"@[0] == 'm');
    lemma_value_at(f, 0);
    lemma_value_at(f, 1);
    lemma_value_at(f, 2);
    lemma_value_at(f, 3);
    lemma_value_at(f, 4);
    lemma_value_at(f, 5);
    lemma_value_at(f, 6);
    lemma_no_value(f, "missing_name"@);
    lemma_no_value(f, "last_seen_unix"@);
    if let Some(p) = s.percent {
        law_number_of_decimal(p as nat, 255);
    }
    law_number_of_decimal(s.updated.unix_or_zero(), u64::MAX as nat);
    law_number_of_decimal(age_of(s, now), u64::MAX as nat);
    if let Some(t) = s.shutdown_at {
        law_number_of_decimal(t.unix_or_zero(), u64::MAX as nat);
    }
    lemma_nothing_is_no_number(u64::MAX as nat);
    lemma_nothing_is_no_number(255);
}

/// Nothing is no number.
proof fn lemma_nothing_is_no_number(max: nat)
    ensures
        number(Seq::empty(), max) is None,
{
}

/// The text and the JSON agree on whether a reading is stale.
pub proof fn law_text_and_json_agree_on_stale(
    fields: Seq<(Seq<char>, Seq<char>)>,
    now_unix: nat,
    secs: nat,
)
    requires
        given_number(fields, "age_s"@) == Some(secs),
    ensures
        ({
            let when = if secs < 60 {
                decimal(secs) + "s ago"@
            } else {
                decimal(secs / 60) + "m "@ + decimal(secs % 60) + "s ago"@
            };
            let stale = secs >= STALE_AFTER_S;
            &&& (daemon_tree(fields, now_unix)->Object_0)[7] == ("stale"@, Tree::Bool(stale))
            &&& age_words(given(fields, "age_s"@)) == if stale {
                when + "  (stale -- is argond still polling?)"@
            } else {
                when
            }
        }),
{
}

/// A reading that is missing never becomes a number.
pub proof fn law_a_missing_reading_is_null(fields: Seq<(Seq<char>, Seq<char>)>, now_unix: nat)
    ensures
        value_of(fields, "percent"@) is None ==> (daemon_tree(fields, now_unix)->Object_0)[4] == (
            "percent"@,
            Tree::Null,
        ),
        value_of(fields, "shutdown_at_unix"@) is None ==> (daemon_tree(
            fields,
            now_unix,
        )->Object_0)[8] == ("shutdown_at_unix"@, Tree::Null) && (daemon_tree(
            fields,
            now_unix,
        )->Object_0)[9] == ("shutdown_in_s"@, Tree::Null),
        value_of(fields, "percent"@) is None ==> charge_words(given(fields, "percent"@))
            == "unknown"@,
{
}

// ---------------------------------------------------------------------------------------------
// The HID interface
// ---------------------------------------------------------------------------------------------

/// What a field of a report stands for.
#[derive(Clone, Copy, Debug, PartialEq, Eq, Structural)]
pub enum Usage {
    /// The charge, in percent.
    Charge,
    /// The time left on battery, in seconds.
    RunTime,
    /// The capacity at full charge.
    FullCharge,
    /// The voltage.
    Voltage,
    /// The battery is being charged.
    Charging,
    /// The battery is being discharged.
    Discharging,
    /// Mains power is there.
    AcPresent,
    /// A battery is there.
    BatteryPresent,
    /// It is fully charged.
    FullyCharged,
    /// It is fully discharged.
    FullyDischarged,
    /// It needs to be replaced.
    NeedReplacement,
    /// The power is about to be cut.
    ShutdownImminent,
    /// A shutdown is asked for.
    ShutdownRequested,
    /// Anything else.
    Other,
}

/// A field that the report descriptor declares.
#[derive(Clone, Copy, Debug, PartialEq, Eq, Structural)]
pub struct Field {
    /// Whether it is part of an input report.
    pub input: bool,
    /// The report that it is part of.
    pub report_id: u8,
    /// What it stands for.
    pub usage: Usage,
}

/// A report that arrived.
#[derive(Clone, Debug, PartialEq, Eq)]
pub struct Report {
    /// Which report.
    pub id: u8,
    /// What each of the declared fields holds when it is read out of this report, in their order.
    pub values: Vec<Option<i64>>,
}

/// What a reading is of.
#[derive(Clone, Copy, Debug, PartialEq, Eq, Structural)]
pub enum Label {
    /// The charge.
    Charge,
    /// The capacity at full charge.
    FullCharge,
    /// The time left on battery.
    RunTime,
    /// The voltage.
    Voltage,
}

impl Label {
    /// Its name.
    pub open spec fn word(self) -> Seq<char> {
        match self {
            Label::Charge => "charge"@,
            Label::FullCharge => "full charge"@,
            Label::RunTime => "runtime left"@,
            Label::Voltage => "voltage"@,
        }
    }

    /// Its name.
    pub fn name(self) -> (s: &'static str)
        ensures
            s@ == self.word(),
    {
        match self {
            Label::Charge => "charge",
            Label::FullCharge => "full charge",
            Label::RunTime => "runtime left",
            Label::Voltage => "voltage",
        }
    }
}

/// A decoded telemetry value.
#[derive(Clone, Debug, PartialEq, Eq)]
pub struct Reading {
    /// What it is of.
    pub label: Label,
    /// The value, in words.
    pub value: String,
}

/// What was decoded: readings, and status words.
pub struct Decoded {
    /// The readings, in order.
    pub readings: Seq<(Label, Seq<char>)>,
    /// The status words, in order.
    pub status: Seq<Seq<char>>,
}

/// The readings of a list.
pub open spec fn reading_views(v: Seq<Reading>) -> Seq<(Label, Seq<char>)> {
    v.map_values(|r: Reading| (r.label, r.value@))
}

/// A number of seconds, in words.
pub open spec fn seconds_words(v: int) -> Seq<char> {
    if v < 0 {
        signed_decimal(v) + " (negative — unexpected)"@
    } else if v >= 3_600 {
        decimal((v / 3_600) as nat) + "h "@ + padded(((v % 3_600) / 60) as nat, 2) + "m"@
    } else if v >= 60 {
        decimal((v / 60) as nat) + "m "@ + padded((v % 60) as nat, 2) + "s"@
    } else {
        decimal(v as nat) + "s"@
    }
}

/// Formats a duration in seconds as something a human reads at a glance.
pub fn format_seconds(v: i64) -> (s: String)
    ensures
        s@ == seconds_words(v as int),
{
    if v < 0 {
        return join(signed_decimal_of(v).as_str(), " (negative — unexpected)");
    }
    let n: u64 = v as u64;
    if n >= 3_600 {
        let mut s: String = join(decimal_of(n / 3_600).as_str(), "h ");
        s.append(padded_of((n % 3_600) / 60, 2).as_str());
        s.append("m");
        s
    } else if n >= 60 {
        let mut s: String = join(decimal_of(n / 60).as_str(), "m ");
        s.append(padded_of(n % 60, 2).as_str());
        s.append("s");
        s
    } else {
        join(decimal_of(n).as_str(), "s")
    }
}

/// The words for a status flag that is reported.
pub open spec fn flag_words(usage: Usage) -> Option<Seq<char>> {
    match usage {
        Usage::Charging => Some("charging"@),
        Usage::Discharging => Some("discharging"@),
        Usage::AcPresent => Some("on mains"@),
        Usage::BatteryPresent => Some("battery present"@),
        Usage::FullyCharged => Some("fully charged"@),
        Usage::FullyDischarged => Some("fully discharged"@),
        Usage::NeedReplacement => Some("NEEDS REPLACEMENT"@),
        Usage::ShutdownImminent => Some("SHUTDOWN IMMINENT"@),
        Usage::ShutdownRequested => Some("shutdown requested"@),
        _ => None,
    }
}

/// The words for a status flag, if it is one that is reported.
pub fn flag_label(usage: Usage) -> (r: Option<&'static str>)
    ensures
        match r {
            Some(s) => flag_words(usage) == Some(s@),
            None => flag_words(usage) is None,
        },
{
    match usage {
        Usage::Charging => Some("charging"),
        Usage::Discharging => Some("discharging"),
        Usage::AcPresent => Some("on mains"),
        Usage::BatteryPresent => Some("battery present"),
        Usage::FullyCharged => Some("fully charged"),
        Usage::FullyDischarged => Some("fully discharged"),
        Usage::NeedReplacement => Some("NEEDS REPLACEMENT"),
        Usage::ShutdownImminent => Some("SHUTDOWN IMMINENT"),
        Usage::ShutdownRequested => Some("shutdown requested"),
        _ => None,
    }
}

/// The reading that a value of a field is, if it is one.
pub open spec fn reading_of(usage: Usage, v: int) -> Option<(Label, Seq<char>)> {
    match usage {
        Usage::Charge => Some((Label::Charge, signed_decimal(v) + "%"@)),
        Usage::RunTime => Some((Label::RunTime, seconds_words(v))),
        Usage::FullCharge => Some((Label::FullCharge, signed_decimal(v))),
        Usage::Voltage => Some((Label::Voltage, signed_decimal(v))),
        _ => None,
    }
}

/// What is decoded after one more value of a field. Of flags only what is set: a list of every
/// false bit is noise.
pub open spec fn with_value(d: Decoded, usage: Usage, v: int) -> Decoded {
    match reading_of(usage, v) {
        Some(r) => Decoded { readings: d.readings.push(r), ..d },
        None => match flag_words(usage) {
            Some(w) => if v != 0 {
                Decoded { status: d.status.push(w), ..d }
            } else {
                d
            },
            None => d,
        },
    }
}

/// What is decoded after the first `n` fields of a report.
pub open spec fn with_fields(d: Decoded, fields: Seq<Field>, report: Report, n: int) -> Decoded
    decreases n,
{
    if n <= 0 {
        d
    } else {
        let before = with_fields(d, fields, report, n - 1);
        let f = fields[n - 1];
        if f.input && f.report_id == report.id && n - 1 < report.values@.len()
            && report.values@[n - 1] is Some {
            with_value(before, f.usage, report.values@[n - 1]->0 as int)
        } else {
            before
        }
    }
}

/// What is decoded of the first `n` reports.
pub open spec fn decoded(fields: Seq<Field>, reports: Seq<Report>, n: int) -> Decoded
    decreases n,
{
    if n <= 0 {
        Decoded { readings: Seq::empty(), status: Seq::empty() }
    } else {
        with_fields(
            decoded(fields, reports, n - 1),
            fields,
            reports[n - 1],
            fields.len() as int,
        )
    }
}

/// Decodes recognised telemetry fields out of whatever reports arrived.
///
/// Which field stands where comes from the descriptor, so a firmware that moves or drops a report
/// yields a missing reading rather than a number assembled from the wrong bits.
pub fn decode(fields: &Vec<Field>, reports: &Vec<Report>) -> (r: (Vec<Reading>, Vec<&'static str>))
    ensures
        (Decoded { readings: reading_views(r.0@), status: views(r.1@) }) == decoded(
            fields@,
            reports@,
            reports@.len() as int,
        ),
{
    let mut readings: Vec<Reading> = Vec::new();
    let mut status: Vec<&'static str> = Vec::new();
    let mut i: usize = 0;
    assert(reading_views(readings@) =~= Seq::<(Label, Seq<char>)>::empty());
    assert(views(status@) =~= Seq::<Seq<char>>::empty());
    while i < reports.len()
        invariant
            i <= reports.len(),
            (Decoded { readings: reading_views(readings@), status: views(status@) }) == decoded(
                fields@,
                reports@,
                i as int,
            ),
        decreases reports.len() - i,
    {
        let report: &Report = &reports[i];
        let ghost start = decoded(fields@, reports@, i as int);
        let mut k: usize = 0;
        while k < fields.len()
            invariant
                i < reports.len(),
                report == reports@[i as int],
                k <= fields.len(),
                (Decoded { readings: reading_views(readings@), status: views(status@) })
                    == with_fields(start, fields@, *report, k as int),
            decreases fields.len() - k,
        {
            let f: Field = fields[k];
            let ghost r0 = readings@;
            let ghost s0 = status@;
            if f.input && f.report_id == report.id && k < report.values.len() {
                if let Some(v) = report.values[k] {
                    let reading: Option<Reading> = match f.usage {
                        Usage::Charge => Some(
                            Reading {
                                label: Label::Charge,
                                value: join(signed_decimal_of(v).as_str(), "%"),
                            },
                        ),
                        Usage::RunTime => Some(
                            Reading { label: Label::RunTime, value: format_seconds(v) },
                        ),
                        Usage::FullCharge => Some(
                            Reading { label: Label::FullCharge, value: signed_decimal_of(v) },
                        ),
                        Usage::Voltage => Some(
                            Reading { label: Label::Voltage, value: signed_decimal_of(v) },
                        ),
                        _ => None,
                    };
                    match reading {
                        Some(r) => {
                            readings.push(r);
                            assert(reading_views(readings@) =~= reading_views(r0).push(
                                (r.label, r.value@),
                            ));
                        },
                        None => {
                            if let Some(w) = flag_label(f.usage) {
                                if v != 0 {
                                    status.push(w);
                                    assert(views(status@) =~= views(s0).push(w@));
                                }
                            }
                        },
                    }
                }
            }
            k = k + 1;
        }
        i = i + 1;
    }
    (readings, status)
}

/// The identifiers of reports, each once where it repeats.
pub open spec fn id_words(ids: Seq<u8>) -> Seq<Seq<char>>
    decreases ids.len(),
{
    if ids.len() == 0 {
        Seq::empty()
    } else if ids.len() >= 2 && ids[ids.len() - 2] == ids.last() {
        id_words(ids.drop_last())
    } else {
        id_words(ids.drop_last()).push("0x"@ + hex(ids.last()))
    }
}

/// The reports that were seen, each once where it repeats.
pub fn fmt_ids(ids: &Vec<u8>) -> (s: String)
    ensures
        s@ == joined(id_words(ids@), " "@),
{
    let mut out: Vec<String> = Vec::new();
    let mut i: usize = 0;
    assert(ids@.take(0) =~= Seq::<u8>::empty());
    assert(texts(out@) =~= id_words(ids@.take(0)));
    while i < ids.len()
        invariant
            i <= ids.len(),
            texts(out@) == id_words(ids@.take(i as int)),
        decreases ids.len() - i,
    {
        let ghost before = out@;
        assert(ids@.take(i + 1).drop_last() =~= ids@.take(i as int));
        if i == 0 || ids[i - 1] != ids[i] {
            let w: String = join("0x", hex_of(ids[i]).as_str());
            out.push(w);
            assert(texts(out@) =~= texts(before).push(w@));
        }
        i = i + 1;
    }
    assert(ids@.take(i as int) =~= ids@);
    join_all(&out, " ")
}

/// The lines of the readings.
pub open spec fn reading_lines(rs: Seq<(Label, Seq<char>)>) -> Seq<char>
    decreases rs.len(),
{
    if rs.len() == 0 {
        Seq::empty()
    } else {
        reading_lines(rs.drop_last()) + telemetry_row(rs.last().0.word(), rs.last().1)
    }
}

/// A line of telemetry: a label in thirteen columns, and a value.
pub open spec fn telemetry_row(label: Seq<char>, value: Seq<char>) -> Seq<char> {
    "  "@ + pad_right(label, 13) + " "@ + value + "\n"@
}

fn add_telemetry(s: &mut String, label: &str, value: &str)
    ensures
        final(s)@ == old(s)@ + telemetry_row(label@, value@),
{
    let mut line: String = join("  ", left_aligned(label, 13).as_str());
    line.append(" ");
    line.append(value);
    line.append("\n");
    s.append(line.as_str());
}

/// What is printed of the telemetry.
pub open spec fn telemetry(d: Decoded, ids: Seq<u8>) -> Seq<char> {
    let head = "\nTelemetry\n---------\n"@;
    let lines = if d.readings.len() == 0 && d.status.len() == 0 {
        "  (reports arrived but carried no recognised fields)\n"@
    } else if d.status.len() == 0 {
        reading_lines(d.readings)
    } else {
        reading_lines(d.readings) + telemetry_row("status"@, joined(d.status, ", "@))
    };
    head + lines + "\nReports seen: "@ + joined(id_words(ids), " "@) + "\n"@
}

/// What is printed of the telemetry in reports.
pub fn telemetry_text(
    readings: &Vec<Reading>,
    status: &Vec<&'static str>,
    ids: &Vec<u8>,
) -> (s: String)
    ensures
        s@ == telemetry(
            Decoded { readings: reading_views(readings@), status: views(status@) },
            ids@,
        ),
{
    let mut out: String = "\nTelemetry\n---------\n".to_owned();
    let mut lines: String = String::new();
    let mut words: Vec<String> = Vec::new();
    let mut k: usize = 0;
    assert(texts(words@) =~= views(status@).take(0));
    while k < status.len()
        invariant
            k <= status.len(),
            texts(words@) == views(status@).take(k as int),
        decreases status.len() - k,
    {
        let ghost before = words@;
        let w: String = status[k].to_owned();
        words.push(w);
        assert(texts(words@) =~= texts(before).push(w@));
        assert(views(status@).take(k + 1) =~= views(status@).take(k as int).push(
            status@[k as int]@,
        ));
        k = k + 1;
    }
    assert(views(status@).take(k as int) =~= views(status@));
    if readings.len() == 0 && status.len() == 0 {
        lines.append("  (reports arrived but carried no recognised fields)\n");
    } else {
        let ghost rs = reading_views(readings@);
        let mut i: usize = 0;
        assert(rs.take(0) =~= Seq::<(Label, Seq<char>)>::empty());
        while i < readings.len()
            invariant
                i <= readings.len(),
                rs == reading_views(readings@),
                lines@ == reading_lines(rs.take(i as int)),
            decreases readings.len() - i,
        {
            assert(rs.take(i + 1).drop_last() =~= rs.take(i as int));
            assert(rs.take(i + 1).last() == (
                readings@[i as int].label,
                readings@[i as int].value@,
            ));
            add_telemetry(&mut lines, readings[i].label.name(), readings[i].value.as_str());
            i = i + 1;
        }
        assert(rs.take(i as int) =~= rs);
        if status.len() > 0 {
            add_telemetry(&mut lines, "status", join_all(&words, ", ").as_str());
        }
    }
    out.append(lines.as_str());
    out.append("\nReports seen: ");
    out.append(fmt_ids(ids).as_str());
    out.append("\n");
    out
}

/// The last reading of a label, if there is one.
pub open spec fn last_of(rs: Seq<(Label, Seq<char>)>, label: Label) -> Option<Seq<char>>
    decreases rs.len(),
{
    if rs.len() == 0 {
        None
    } else if rs.last().0 == label {
        Some(rs.last().1)
    } else {
        last_of(rs.drop_last(), label)
    }
}

fn find_last(readings: &Vec<Reading>, label: Label) -> (r: Option<&str>)
    ensures
        match r {
            Some(s) => last_of(reading_views(readings@), label) == Some(s@),
            None => last_of(reading_views(readings@), label) is None,
        },
{
    let ghost rs = reading_views(readings@);
    let mut i: usize = readings.len();
    assert(rs.take(i as int) =~= rs);
    while i > 0
        invariant
            i <= readings.len(),
            rs == reading_views(readings@),
            last_of(rs, label) == last_of(rs.take(i as int), label),
        decreases i,
    {
        assert(rs.take(i as int).last() == (
            readings@[i - 1].label,
            readings@[i - 1].value@,
        ));
        assert(rs.take(i as int).drop_last() =~= rs.take(i - 1));
        if readings[i - 1].label == label {
            return Some(readings[i - 1].value.as_str());
        }
        i = i - 1;
    }
    None
}

/// A member of the readings, where there is such a reading.
pub open spec fn reading_member(rs: Seq<(Label, Seq<char>)>, label: Label) -> Seq<
    (Seq<char>, Tree),
> {
    match last_of(rs, label) {
        Some(v) => seq![(label.word(), Tree::Text(v))],
        None => seq![],
    }
}

/// What is said of the HID interface in JSON. Of several readings with one name the last one
/// counts, and the names are in their order.
pub open spec fn device_tree(
    node: Seq<char>,
    serial: Option<Seq<char>>,
    rs: Seq<(Label, Seq<char>)>,
    status: Seq<Seq<char>>,
) -> Tree {
    Tree::Object(
        seq![
            ("route"@, Tree::Text("hidraw"@)),
            ("node"@, Tree::Text(node)),
            (
                "serial"@,
                match serial {
                    Some(s) => Tree::Text(s),
                    None => Tree::Null,
                },
            ),
            (
                "readings"@,
                Tree::Object(
                    reading_member(rs, Label::Charge) + reading_member(rs, Label::FullCharge)
                        + reading_member(rs, Label::RunTime) + reading_member(rs, Label::Voltage),
                ),
            ),
            ("status"@, Tree::List(status.map_values(|s: Seq<char>| Tree::Text(s)))),
        ],
    )
}

fn put_reading(v: &mut Vec<Member>, readings: &Vec<Reading>, label: Label)
    ensures
        members(final(v)@) == members(old(v)@) + reading_member(reading_views(readings@), label),
{
    match find_last(readings, label) {
        Some(s) => {
            let ghost before = members(v@);
            put(v, label.name(), Json::text(s));
            assert(members(v@) =~= before + reading_member(reading_views(readings@), label));
        },
        None => {
            assert(members(v@) =~= members(v@) + reading_member(reading_views(readings@), label));
        },
    }
}

/// The HID interface in JSON. The readings are what the descriptor actually yielded, so a firmware
/// that serves nothing produces an empty object rather than invented zeroes.
pub fn json_from_device(
    node: &str,
    serial: Option<&str>,
    readings: &Vec<Reading>,
    status: &Vec<&'static str>,
) -> (j: Json)
    ensures
        j.tree() == device_tree(
            node@,
            match serial {
                Some(s) => Some(s@),
                None => None,
            },
            reading_views(readings@),
            views(status@),
        ),
{
    let mut map: Vec<Member> = no_members();
    put_reading(&mut map, readings, Label::Charge);
    put_reading(&mut map, readings, Label::FullCharge);
    put_reading(&mut map, readings, Label::RunTime);
    put_reading(&mut map, readings, Label::Voltage);
    let ghost rs = reading_views(readings@);
    assert(members(map@) =~= reading_member(rs, Label::Charge) + reading_member(
        rs,
        Label::FullCharge,
    ) + reading_member(rs, Label::RunTime) + reading_member(rs, Label::Voltage));
    let mut list: Vec<Json> = Vec::new();
    let ghost each = |s: Seq<char>| Tree::Text(s);
    let mut i: usize = 0;
    assert(trees(list@) =~= views(status@).take(0).map_values(each));
    while i < status.len()
        invariant
            i <= status.len(),
            each == (|s: Seq<char>| Tree::Text(s)),
            trees(list@) == views(status@).take(i as int).map_values(each),
        decreases status.len() - i,
    {
        let ghost before = list@;
        let j: Json = Json::text(status[i]);
        list.push(j);
        assert(trees(list@) =~= trees(before).push(j.tree()));
        assert(views(status@).take(i + 1).map_values(each) =~= views(status@).take(
            i as int,
        ).map_values(each).push(Tree::Text(status@[i as int]@)));
        i = i + 1;
    }
    assert(views(status@).take(i as int) =~= views(status@));
    let mut v: Vec<Member> = no_members();
    put(&mut v, "route", Json::text("hidraw"));
    put(&mut v, "node", Json::text(node));
    put(
        &mut v,
        "serial",
        match serial {
            Some(s) => Json::text(s),
            None => Json::Null,
        },
    );
    put(&mut v, "readings", Json::object(map));
    put(&mut v, "status", Json::list(list));
    let ghost tree = device_tree(
        node@,
        match serial {
            Some(s) => Some(s@),
            None => None,
        },
        rs,
        views(status@),
    );
    assert(members(v@) =~= tree->Object_0);
    Json::object(v)
}

// ---------------------------------------------------------------------------------------------
// The serial protocol
// ---------------------------------------------------------------------------------------------

/// Whether this process may talk to the UPS over serial: the port, and a note to print.
#[derive(Clone, Debug, PartialEq, Eq)]
pub struct SerialPort {
    /// The port.
    pub path: String,
    /// What to print first, if anything.
    pub note: Option<&'static str>,
}

/// The port that is meant: the one that is named, or, for `auto`, the one that was discovered.
pub open spec fn meant(port: Seq<char>, discovered: Option<Seq<char>>) -> Option<Seq<char>> {
    if port == "auto"@ {
        discovered
    } else {
        Some(port)
    }
}

/// Resolves the port to use, and refuses when something else holds it. Two readers on a CDC-ACM
/// port corrupt each other's frames. `vendor_active` is whether the vendor's daemon runs, `owner`
/// the process that was seen to hold the port, and `sees_all` whether every process could be seen:
/// where not, that nobody was seen is not a finding, and a note says so.
pub fn serial_path(
    port: &str,
    discovered: Option<&str>,
    vendor_active: bool,
    owner: Option<(u32, &str)>,
    sees_all: bool,
) -> (r: Result<SerialPort, String>)
    ensures
        ({
            let path = meant(
                port@,
                match discovered {
                    Some(p) => Some(p@),
                    None => None,
                },
            );
            match r {
                Ok(p) => {
                    &&& path == Some(p.path@)
                    &&& !vendor_active
                    &&& owner is None
                    &&& match p.note {
                        Some(n) => !sees_all && n@
                            == "argonctl: note: cannot check for other readers as an unprivileged user; run under sudo for that check to mean anything."@,
                        None => sees_all,
                    }
                },
                Err(e) => if path is None {
                    e@ == "argonctl: no Argon UPS serial port found"@
                } else if vendor_active {
                    e@
                        == "argonctl: argonupsrtcd is running and holds the UPS serial port.\nTwo readers on a CDC-ACM port corrupt each other's frames. Stop it first:\n\n    sudo systemctl stop argonupsrtcd\n\nand start it again when you are done."@
                } else {
                    owner is Some && e@ == "argonctl: "@ + path->0 + " is held by pid "@ + decimal(
                        (owner->0).0 as nat,
                    ) + " ("@ + (owner->0).1@ + "). Two readers corrupt each other's frames."@
                },
            }
        }),
{
    let path: &str = if same(port, "auto") {
        match discovered {
            Some(p) => p,
            None => {
                return Err("argonctl: no Argon UPS serial port found".to_owned());
            },
        }
    } else {
        port
    };
    if vendor_active {
        return Err(
            "argonctl: argonupsrtcd is running and holds the UPS serial port.\nTwo readers on a CDC-ACM port corrupt each other's frames. Stop it first:\n\n    sudo systemctl stop argonupsrtcd\n\nand start it again when you are done.".to_owned(),
        );
    }
    if let Some((pid, comm)) = owner {
        let mut e: String = join("argonctl: ", path);
        e.append(" is held by pid ");
        e.append(decimal_of(pid as u64).as_str());
        e.append(" (");
        e.append(comm);
        e.append("). Two readers corrupt each other's frames.");
        return Err(e);
    }
    Ok(
        SerialPort {
            path: path.to_owned(),
            note: if sees_all {
                None
            } else {
                Some(
                    "argonctl: note: cannot check for other readers as an unprivileged user; run under sudo for that check to mean anything.",
                )
            },
        },
    )
}

/// What is said where the daemon holds the port: it may not be opened for lack of permission, and
/// the daemon is running.
pub fn held_by_daemon(path: &str, denied: bool, argond_running: bool) -> (r: Option<String>)
    ensures
        match r {
            Some(e) => denied && argond_running && e@ == "argonctl: "@ + path@
                + " belongs to the argond service (group `argon`), which is holding it now.\n\nargond publishes what it reads, so for a quick look:\n\n    argonctl ups\n\nTo talk to the device from here instead, stop the service first:\n\n    sudo systemctl stop argond\n\nand start it again when you are done."@,
            None => !denied || !argond_running,
        },
{
    if !denied || !argond_running {
        return None;
    }
    let mut e: String = join("argonctl: ", path);
    e.append(
        " belongs to the argond service (group `argon`), which is holding it now.\n\nargond publishes what it reads, so for a quick look:\n\n    argonctl ups\n\nTo talk to the device from here instead, stop the service first:\n\n    sudo systemctl stop argond\n\nand start it again when you are done.",
    );
    Some(e)
}

/// What the UPS says about itself: read once, not every poll. Kept as values, so the same read
/// serves the table and the JSON and the two cannot drift apart.
#[derive(Debug, PartialEq, Eq)]
pub struct Identity {
    /// Its firmware, or why that could not be read.
    pub firmware: Result<String, String>,
    /// Its clock, and whether it is plausible: an implausible clock is a reading, not an error.
    pub clock: Result<(String, bool), String>,
    /// Its wake schedule; `Ok(None)` where none is set.
    pub wake: Result<Option<String>, String>,
}

/// What is printed in place of something that could not be read.
pub open spec fn unavailable(e: Seq<char>) -> Seq<char> {
    "unavailable ("@ + e + ")"@
}

fn unavailable_text(e: &str) -> (s: String)
    ensures
        s@ == unavailable(e@),
{
    let mut s: String = join("unavailable (", e);
    s.append(")");
    s
}

/// What is printed of what the UPS says about itself.
pub open spec fn identity_words(id: Identity) -> Seq<char> {
    row(
        "firmware"@,
        match id.firmware {
            Ok(v) => v@,
            Err(e) => unavailable(e@),
        },
    ) + row(
        "clock"@,
        match id.clock {
            Ok((t, plausible)) => if plausible {
                t@
            } else {
                t@ + "  (implausible)"@
            },
            Err(e) => unavailable(e@),
        },
    ) + row(
        "wake schedule"@,
        match id.wake {
            Ok(None) => "none set"@,
            Ok(Some(t)) => t@,
            Err(e) => unavailable(e@),
        },
    )
}

/// What is printed of what the UPS says about itself.
pub fn identity_text(id: &Identity) -> (s: String)
    ensures
        s@ == identity_words(*id),
{
    let mut out: String = String::new();
    let firmware: String = match &id.firmware {
        Ok(v) => v.as_str().to_owned(),
        Err(e) => unavailable_text(e.as_str()),
    };
    let clock: String = match &id.clock {
        Ok((t, plausible)) => if *plausible {
            t.as_str().to_owned()
        } else {
            join(t.as_str(), "  (implausible)")
        },
        Err(e) => unavailable_text(e.as_str()),
    };
    let wake: String = match &id.wake {
        Ok(None) => "none set".to_owned(),
        Ok(Some(t)) => t.as_str().to_owned(),
        Err(e) => unavailable_text(e.as_str()),
    };
    add_row(&mut out, "firmware", firmware.as_str());
    assert(out@ =~= row("firmware"@, firmware@));
    add_row(&mut out, "clock", clock.as_str());
    add_row(&mut out, "wake schedule", wake.as_str());
    out
}

/// Where the power comes from, in a word.
pub open spec fn source_word(source: PowerSource) -> Seq<char> {
    match source {
        PowerSource::Mains => "mains"@,
        PowerSource::Battery => "battery"@,
    }
}

fn source_name(source: PowerSource) -> (s: &'static str)
    ensures
        s@ == source_word(source),
{
    match source {
        PowerSource::Mains => "mains",
        PowerSource::Battery => "battery",
    }
}

/// What the policy advises, in a word.
pub open spec fn advice_word(advice: Advice) -> Seq<char> {
    match advice {
        Advice::Nothing => "none"@,
        Advice::Shutdown => "shutdown"@,
        Advice::HeldForUptime { .. } => "held-for-uptime"@,
    }
}

/// What is said of one poll in JSON. `error` is why the reading failed, in words.
pub open spec fn serial_tree(
    port: Seq<char>,
    id: Identity,
    poll: Poll,
    error: Option<Seq<char>>,
    time: Seq<char>,
) -> Tree {
    Tree::Object(
        seq![
            ("route"@, Tree::Text("serial"@)),
            ("port"@, Tree::Text(port)),
            ("time"@, Tree::Text(time)),
            (
                "firmware"@,
                match id.firmware {
                    Ok(v) => Tree::Text(v@),
                    Err(_) => Tree::Null,
                },
            ),
            (
                "clock"@,
                match id.clock {
                    Ok((t, _)) => Tree::Text(t@),
                    Err(_) => Tree::Null,
                },
            ),
            (
                "clock_plausible"@,
                match id.clock {
                    Ok((_, plausible)) => Tree::Bool(plausible),
                    Err(_) => Tree::Null,
                },
            ),
            (
                "wake_at"@,
                match id.wake {
                    Ok(Some(t)) => Tree::Text(t@),
                    _ => Tree::Null,
                },
            ),
            (
                "percent"@,
                match poll.battery {
                    Some(b) => Tree::Number(b.percent as int),
                    None => Tree::Null,
                },
            ),
            (
                "source"@,
                match poll.battery {
                    Some(b) => Tree::Text(source_word(b.source)),
                    None => Tree::Null,
                },
            ),
            ("level"@, Tree::Text(name_of(poll.decision.level))),
            ("advice"@, Tree::Text(advice_word(poll.decision.advice))),
            (
                "error"@,
                match error {
                    Some(e) => Tree::Text(e),
                    None => Tree::Null,
                },
            ),
            ("consecutive_failures"@, Tree::Number(poll.consecutive_failures as int)),
        ],
    )
}

/// One poll on the serial route in JSON. The same object for a single read and for each line while
/// watching, so a consumer parses one shape either way. A failed read gives a `null` charge and an
/// error, never a stale number.
pub fn json_from_serial(
    port: &str,
    id: &Identity,
    poll: &Poll,
    error: Option<&str>,
    time: &str,
) -> (j: Json)
    ensures
        j.tree() == serial_tree(
            port@,
            *id,
            *poll,
            match error {
                Some(e) => Some(e@),
                None => None,
            },
            time@,
        ),
{
    let mut v: Vec<Member> = no_members();
    put(&mut v, "route", Json::text("serial"));
    put(&mut v, "port", Json::text(port));
    put(&mut v, "time", Json::text(time));
    put(
        &mut v,
        "firmware",
        match &id.firmware {
            Ok(f) => Json::text(f.as_str()),
            Err(_) => Json::Null,
        },
    );
    put(
        &mut v,
        "clock",
        match &id.clock {
            Ok((t, _)) => Json::text(t.as_str()),
            Err(_) => Json::Null,
        },
    );
    put(
        &mut v,
        "clock_plausible",
        match &id.clock {
            Ok((_, plausible)) => Json::Bool(*plausible),
            Err(_) => Json::Null,
        },
    );
    put(
        &mut v,
        "wake_at",
        match &id.wake {
            Ok(Some(t)) => Json::text(t.as_str()),
            _ => Json::Null,
        },
    );
    put(
        &mut v,
        "percent",
        match poll.battery {
            Some(b) => Json::number(b.percent as u64),
            None => Json::Null,
        },
    );
    put(
        &mut v,
        "source",
        match poll.battery {
            Some(b) => Json::text(source_name(b.source)),
            None => Json::Null,
        },
    );
    put(&mut v, "level", Json::text(level_name(poll.decision.level)));
    put(
        &mut v,
        "advice",
        match poll.decision.advice {
            Advice::Nothing => Json::text("none"),
            Advice::Shutdown => Json::text("shutdown"),
            Advice::HeldForUptime { remaining: _ } => Json::text("held-for-uptime"),
        },
    );
    put(
        &mut v,
        "error",
        match error {
            Some(e) => Json::text(e),
            None => Json::Null,
        },
    );
    put(&mut v, "consecutive_failures", Json::number(poll.consecutive_failures as u64));
    let ghost tree = serial_tree(
        port@,
        *id,
        *poll,
        match error {
            Some(e) => Some(e@),
            None => None,
        },
        time@,
    );
    assert(members(v@) =~= tree->Object_0);
    Json::object(v)
}

/// What the policy advises, in the words of the watch.
pub open spec fn watch_advice(advice: Advice) -> Seq<char> {
    match advice {
        Advice::Nothing => Seq::empty(),
        Advice::Shutdown => "WOULD SHUT DOWN (not enabled)"@,
        Advice::HeldForUptime { remaining } => "critical, held "@ + decimal(remaining.secs())
            + "s after boot"@,
    }
}

/// What is printed of one poll. `level` is its level, `was` the level it changed from, and `error`
/// why the reading failed, all in words.
pub open spec fn watch_words(
    poll: Poll,
    time: Seq<char>,
    level: Seq<char>,
    was: Option<Seq<char>>,
    error: Option<Seq<char>>,
) -> Seq<char> {
    let pct = match poll.battery {
        Some(b) => decimal(b.percent as nat) + "%"@,
        None => "-"@,
    };
    let source = match poll.battery {
        Some(b) => source_word(b.source),
        None => "-"@,
    };
    "  "@ + pad_right(time, 8) + "  "@ + pad_left(pct, 4) + "  "@ + pad_right(source, 11) + "  "@
        + pad_right(level, 16) + "  "@ + watch_advice(poll.decision.advice) + (match was {
        Some(from) => "   <- was "@ + from,
        None => Seq::empty(),
    }) + "\n"@ + (match error {
        Some(e) => "            read failed ("@ + decimal(poll.consecutive_failures as nat)
            + " in a row): "@ + e + "\n"@,
        None => Seq::empty(),
    })
}

/// What is printed of one poll while watching. Monitoring only: where the policy advises a
/// shutdown, it is said what would be done, and nothing is.
pub fn watch_line(
    poll: &Poll,
    time: &str,
    level: &str,
    was: Option<&str>,
    error: Option<&str>,
) -> (s: String)
    ensures
        s@ == watch_words(
            *poll,
            time@,
            level@,
            match was {
                Some(w) => Some(w@),
                None => None,
            },
            match error {
                Some(e) => Some(e@),
                None => None,
            },
        ),
{
    let pct: String = match poll.battery {
        Some(b) => join(decimal_of(b.percent as u64).as_str(), "%"),
        None => "-".to_owned(),
    };
    let source: &str = match poll.battery {
        Some(b) => source_name(b.source),
        None => "-",
    };
    let advice: String = match poll.decision.advice {
        Advice::Nothing => String::new(),
        Advice::Shutdown => "WOULD SHUT DOWN (not enabled)".to_owned(),
        Advice::HeldForUptime { remaining } => {
            let mut a: String = join("critical, held ", decimal_of(remaining.as_secs()).as_str());
            a.append("s after boot");
            a
        },
    };
    let change: String = match was {
        Some(from) => join("   <- was ", from),
        None => String::new(),
    };
    let failed: String = match error {
        Some(e) => {
            let mut f: String = join(
                "            read failed (",
                decimal_of(poll.consecutive_failures as u64).as_str(),
            );
            f.append(" in a row): ");
            f.append(e);
            f.append("\n");
            f
        },
        None => String::new(),
    };
    let mut s: String = join("  ", left_aligned(time, 8).as_str());
    s.append("  ");
    s.append(right_aligned(pct.as_str(), 4).as_str());
    s.append("  ");
    s.append(left_aligned(source, 11).as_str());
    s.append("  ");
    s.append(left_aligned(level, 16).as_str());
    s.append("  ");
    s.append(advice.as_str());
    s.append(change.as_str());
    s.append("\n");
    s.append(failed.as_str());
    s
}

/// What is printed before watching starts: the policy, and the head of the table.
pub fn watch_head(config: &Config) -> (s: String)
    ensures
        s@ == "\nPolicy: low "@ + decimal(config.ups.low_percent as nat) + "%, critical "@ + decimal(
            config.ups.critical_percent as nat,
        ) + "% (confirmed "@ + decimal(config.ups.confirmations as nat) + "x), margin "@ + decimal(
            config.ups.recover_margin as nat,
        ) + "%, no advice before "@ + decimal(config.ups.min_uptime_s as nat)
            + "s uptime\nWatching every "@ + decimal(poll_every(*config))
            + "s. Monitoring only: nothing is shut down. Ctrl-C to stop.\n\n  time       pct  source       level             advice\n"@,
{
    let mut s: String = join("\nPolicy: low ", decimal_of(config.ups.low_percent as u64).as_str());
    s.append("%, critical ");
    s.append(decimal_of(config.ups.critical_percent as u64).as_str());
    s.append("% (confirmed ");
    s.append(decimal_of(config.ups.confirmations as u64).as_str());
    s.append("x), margin ");
    s.append(decimal_of(config.ups.recover_margin as u64).as_str());
    s.append("%, no advice before ");
    s.append(decimal_of(config.ups.min_uptime_s).as_str());
    s.append("s uptime\nWatching every ");
    s.append(decimal_of(poll_interval(config)).as_str());
    s.append(
        "s. Monitoring only: nothing is shut down. Ctrl-C to stop.\n\n  time       pct  source       level             advice\n",
    );
    s
}

/// Seconds between two polls: at least one.
pub open spec fn poll_every(config: Config) -> nat {
    if config.ups.poll_interval_s < 1 {
        1
    } else {
        config.ups.poll_interval_s as nat
    }
}

/// Seconds between two polls: at least one.
pub fn poll_interval(config: &Config) -> (s: u64)
    ensures
        s == poll_every(*config),
{
    if config.ups.poll_interval_s < 1 {
        1
    } else {
        config.ups.poll_interval_s
    }
}

/// What is printed of a single poll. `battery` is the reading in words, and `error` why there is
/// none.
pub fn battery_line(battery: Option<&str>, error: Option<&str>) -> (s: String)
    ensures
        s@ == "  battery        "@ + match battery {
            Some(b) => b@,
            None => "unavailable ("@ + (match error {
                Some(e) => e@,
                None => ""@,
            }) + ")"@,
        },
{
    match battery {
        Some(b) => join("  battery        ", b),
        None => {
            let mut w: String = join(
                "unavailable (",
                match error {
                    Some(e) => e,
                    None => "",
                },
            );
            w.append(")");
            join("  battery        ", w.as_str())
        },
    }
}

/// What is said of the frames that were discarded while waiting for replies, where there were any.
pub fn discarded_text(frames: u64) -> (r: Option<String>)
    ensures
        match r {
            Some(s) => frames > 0 && s@ == "\nNote: "@ + decimal(frames as nat)
                + " unsolicited or rejected frame(s) were discarded while waiting for replies."@,
            None => frames == 0,
        },
{
    if frames == 0 {
        return None;
    }
    let mut s: String = join("\nNote: ", decimal_of(frames).as_str());
    s.append(" unsolicited or rejected frame(s) were discarded while waiting for replies.");
    Some(s)
}

/// Whether the name of a device node is that of a raw HID device.
pub fn is_hidraw(name: &str) -> (r: bool)
    ensures
        r == begins(name@, "hidraw"@),
{
    starts_with(name, "hidraw")
}

/// Whether watching stops after so many polls; a count of 0 means never.
pub fn stops_after(polls: u64, count: u64) -> (r: bool)
    ensures
        r == (count > 0 && polls >= count),
{
    count > 0 && polls >= count
}

// ---------------------------------------------------------------------------------------------
// Forgetting
// ---------------------------------------------------------------------------------------------

/// What became of deleting the record of the UPS that was seen last.
#[derive(Clone, Debug, PartialEq, Eq)]
pub enum Removal {
    /// It is gone.
    Removed,
    /// There was none.
    NotFound,
    /// It may not be deleted.
    Denied,
    /// It could not be deleted, for this reason.
    Failed(String),
}

/// What is said of it, and whether that is a success. `name` is what the UPS called itself.
pub open spec fn forgotten(removal: Removal, path: Seq<char>, name: Option<Seq<char>>) -> (
    bool,
    Seq<char>,
) {
    match removal {
        Removal::Removed => (
            true,
            "Forgot "@ + (match name {
                Some(n) => n,
                None => "the UPS"@,
            }) + ". argond reports no UPS now, and records the next one it reads."@,
        ),
        Removal::NotFound => (true, "No UPS is remembered; nothing to forget."@),
        Removal::Denied => (
            false,
            "argonctl: "@ + path + " belongs to argond; run this with sudo."@,
        ),
        Removal::Failed(e) => (false, "argonctl: cannot remove "@ + path + ": "@ + e@),
    }
}

/// What is said of deleting the record of the UPS that was seen last, and whether it is a success.
pub fn forget(removal: &Removal, path: &str, name: Option<&str>) -> (r: (bool, String))
    ensures
        (r.0, r.1@) == forgotten(
            *removal,
            path@,
            match name {
                Some(n) => Some(n@),
                None => None,
            },
        ),
{
    match removal {
        Removal::Removed => {
            let mut s: String = join(
                "Forgot ",
                match name {
                    Some(n) => n,
                    None => "the UPS",
                },
            );
            s.append(". argond reports no UPS now, and records the next one it reads.");
            (true, s)
        },
        Removal::NotFound => (true, "No UPS is remembered; nothing to forget.".to_owned()),
        Removal::Denied => {
            let mut s: String = join("argonctl: ", path);
            s.append(" belongs to argond; run this with sudo.");
            (false, s)
        },
        Removal::Failed(e) => {
            let mut s: String = join("argonctl: cannot remove ", path);
            s.append(": ");
            s.append(e.as_str());
            (false, s)
        },
    }
}

/// A reading's age is told in seconds below a minute, in minutes and seconds from there on, and is
/// called stale exactly from two minutes on.
pub proof fn law_an_old_reading_is_called_stale(
    age_s: &str,
    m: nat,
    sec: nat,
    s: String,
)
    requires
        call_ensures(age, (age_s,), s),
        number(age_s@, u64::MAX as nat) == Some(m * 60 + sec),
        sec < 60,
    ensures
        m == 0 ==> s@ == decimal(sec) + "s ago"@,
        m == 1 ==> s@ == decimal(1) + "m "@ + decimal(sec) + "s ago"@,
        m >= 2 ==> s@ == decimal(m) + "m "@ + decimal(sec) + "s ago"@
            + "  (stale -- is argond still polling?)"@,
{
    assert((m * 60 + sec) / 60 == m && (m * 60 + sec) % 60 == sec) by (nonlinear_arith)
        requires
            sec < 60,
    ;
}

/// What is no number has no age, and is no pending poweroff.
pub proof fn law_what_is_no_number_is_no_time(v: &str, now_unix: u64, a: String, p: String)
    requires
        call_ensures(age, (v,), a),
        call_ensures(poweroff, (v, now_unix), p),
        number(v@, u64::MAX as nat) is None,
    ensures
        a@ == "-"@,
        p@ == "none scheduled"@,
{
}

/// A pending poweroff is told as the time that is left until it, and as nothing left once it is due.
pub proof fn law_a_poweroff_is_told_as_the_time_left(
    v: &str,
    now_unix: u64,
    m: nat,
    sec: nat,
    at: nat,
    p: String,
)
    requires
        call_ensures(poweroff, (v, now_unix), p),
        number(v@, u64::MAX as nat) == Some(at),
        sec < 60,
    ensures
        at == now_unix + m * 60 + sec ==> p@ == "scheduled in "@ + decimal(m) + "m "@ + decimal(sec)
            + "s"@,
        at <= now_unix ==> p@ == "scheduled in "@ + decimal(0) + "m "@ + decimal(0) + "s"@,
{
    assert((m * 60 + sec) / 60 == m && (m * 60 + sec) % 60 == sec) by (nonlinear_arith)
        requires
            sec < 60,
    ;
}

/// A duration is told in seconds, in minutes and seconds, or in hours and minutes, by its size.
pub proof fn law_a_duration_is_told_in_its_units(v: i64, h: nat, m: nat, sec: nat, s: String)
    requires
        call_ensures(format_seconds, (v,), s),
        v == h * 3_600 + m * 60 + sec,
        m < 60,
        sec < 60,
    ensures
        h > 0 ==> s@ == decimal(h) + "h "@ + padded(m, 2) + "m"@,
        h == 0 && m > 0 ==> s@ == decimal(m) + "m "@ + padded(sec, 2) + "s"@,
        h == 0 && m == 0 ==> s@ == decimal(sec) + "s"@,
{
    let low = m * 60 + sec;
    assert((h * 3_600 + low) / 3_600 == h && (h * 3_600 + low) % 3_600 == low) by (nonlinear_arith)
        requires
            low < 3_600,
    ;
    assert((m * 60 + sec) / 60 == m && (m * 60 + sec) % 60 == sec) by (nonlinear_arith)
        requires
            sec < 60,
    ;
    assert(v / 3_600 == h && v % 3_600 == low);
    assert(h > 0 ==> v >= 3_600);
}

/// The daemon's answer is shown as what it says: no reading, no UPS, one that cannot be found, or the
/// reading with its charge, source, level, age and poweroff.
pub proof fn law_the_answer_is_shown_as_what_it_says(
    fields: &Fields,
    now_unix: u64,
    s: String,
    a: &str,
    age_text: String,
    at: &str,
    off: String,
)
    requires
        call_ensures(render, (fields, now_unix), s),
        call_ensures(age, (a,), age_text),
        call_ensures(poweroff, (at, now_unix), off),
        value_of(field_views(fields@), "age_s"@) == Some(a@),
        value_of(field_views(fields@), "shutdown_at_unix"@) == Some(at@),
    ensures
        ({
            let f = field_views(fields@);
            let head = "From argond\n-----------\n"@;
            let up = value_of(f, "available"@) == Some("yes"@);
            let level = value_of(f, "level"@);
            &&& begins(s@, head)
            &&& !up && value_of(f, "source_config"@) == Some("none"@) ==> begins(
                s@,
                head + "  argond is running, and UPS monitoring is off by configuration\n"@,
            )
            &&& !up && value_of(f, "source_config"@) is None ==> begins(
                s@,
                head + "  argond is running but has no reading yet"@,
            )
            &&& up && level == Some("absent"@) ==> s@ == head
                + "  No UPS connected. argond keeps looking and picks one up when it is plugged in.\n"@
            &&& up && level == Some("missing"@) && value_of(f, "missing_name"@) is Some && (value_of(
                f,
                "missing_name"@,
            )->0).len() > 0 ==> begins(
                s@,
                head + "  The UPS connected before ("@ + value_of(f, "missing_name"@)->0,
            )
            &&& up && level is Some && (level->0).len() > 0 && level->0 != "absent"@ && level->0
                != "missing"@ && value_of(f, "percent"@) is Some && (value_of(f, "percent"@)->0).len()
                > 0 && value_of(f, "source"@) is Some && (value_of(f, "source"@)->0).len() > 0
                ==> s@ == head + table_row("charge"@, value_of(f, "percent"@)->0 + "%"@) + table_row(
                "source"@,
                value_of(f, "source"@)->0,
            ) + table_row("level"@, level->0) + table_row("last read"@, age_text@) + table_row(
                "poweroff"@,
                off@,
            )
            &&& up && level is Some && (level->0).len() > 0 && level->0 != "absent"@ && level->0
                != "missing"@ && value_of(f, "percent"@) is None ==> begins(
                s@,
                head + table_row("charge"@, "unknown"@),
            )
        }),
{
    let f = field_views(fields@);
    let head = "From argond\n-----------\n"@;
    reveal_strlit("yes");
    reveal_strlit("none");
    reveal_strlit("absent");
    reveal_strlit("missing");
    reveal_strlit(
        "  argond is running, and UPS monitoring is off by configuration\n  ([ups] source = \"none\" in /etc/argon-utils/config.toml). Nothing is wrong.\n",
    );
    reveal_strlit("  argond is running, and UPS monitoring is off by configuration\n");
    reveal_strlit(
        "  argond is running but has no reading yet: it has not completed its first\n  poll, or the battery is unreachable.\n",
    );
    reveal_strlit("  argond is running but has no reading yet");
    assert("yes"@.len() == 3 && "none"@.len() == 4 && "absent"@.len() == 6 && "missing"@.len() == 7);
    assert(s@.take(head.len() as int) =~= head);
    let off_head = head + "  argond is running, and UPS monitoring is off by configuration\n"@;
    let yet_head = head + "  argond is running but has no reading yet"@;
    let up = value_of(f, "available"@) == Some("yes"@);
    if !up && value_of(f, "source_config"@) == Some("none"@) {
        assert(s@.take(off_head.len() as int) =~= off_head);
    }
    if !up && value_of(f, "source_config"@) is None {
        assert(s@.take(yet_head.len() as int) =~= yet_head);
    }
    if value_of(f, "missing_name"@) is Some {
        let name_head = head + "  The UPS connected before ("@ + value_of(f, "missing_name"@)->0;
        if up && value_of(f, "level"@) == Some("missing"@) && (value_of(f, "missing_name"@)->0).len()
            > 0 {
            assert(s@.take(name_head.len() as int) =~= name_head);
        }
    }
    let unknown_head = head + table_row("charge"@, "unknown"@);
    assert(row("charge"@, "unknown"@) =~= table_row("charge"@, "unknown"@));
    let l = value_of(f, "level"@);
    if up && l is Some && l->0 != "absent"@ && l->0 != "missing"@ && value_of(f, "percent"@) is None {
        assert(s@.take(unknown_head.len() as int) =~= unknown_head);
    }
}

/// A line of a table: two spaces, the label in as many columns as fourteen characters take, a space and
/// the value.
pub open spec fn table_row(label: Seq<char>, value: Seq<char>) -> Seq<char> {
    "  "@ + pad_right(label, 14) + " "@ + value + "\n"@
}

/// The daemon's answer in JSON gives a number where the field holds one and null where it holds none;
/// it is stale from two minutes on, and a poweroff is as far away as it is, never below zero.
pub proof fn law_the_answer_is_given_as_numbers(fields: &Fields, now_unix: u64, j: Json, at: nat)
    requires
        call_ensures(json_from_daemon, (fields, now_unix), j),
    ensures
        j.tree() is Object,
        ({
            let m = j.tree()->Object_0;
            let f = field_views(fields@);
            let age = number_in(f, "age_s"@);
            let off = number_in(f, "shutdown_at_unix"@);
            &&& m.len() == 12
            &&& m[1] == ("available"@, Tree::Bool(value_of(f, "available"@) == Some("yes"@)))
            &&& m[2].0 == "level"@
            &&& value_of(f, "level"@) is None ==> m[2].1 == Tree::Null
            &&& value_of(f, "level"@) is Some && (value_of(f, "level"@)->0).len() > 0 ==> m[2].1
                == Tree::Text(value_of(f, "level"@)->0)
            &&& m[3].0 == "source"@
            &&& value_of(f, "source"@) is None ==> m[3].1 == Tree::Null
            &&& value_of(f, "source"@) is Some && (value_of(f, "source"@)->0).len() > 0 ==> m[3].1
                == Tree::Text(value_of(f, "source"@)->0)
            &&& m[4].0 == "percent"@
            &&& m[5].0 == "updated_unix"@
            &&& number_in(f, "updated_unix"@) == Some(at) ==> m[5].1 == Tree::Number(at as int)
            &&& m[6].0 == "age_s"@ && m[7].0 == "stale"@
            &&& age == Some(at) ==> m[6].1 == Tree::Number(at as int) && m[7].1 == Tree::Bool(
                at >= 120,
            )
            &&& age is None ==> m[6].1 == Tree::Null && m[7].1 == Tree::Bool(false)
            &&& m[8].0 == "shutdown_at_unix"@ && m[9].0 == "shutdown_in_s"@
            &&& off == Some(at) ==> m[8].1 == Tree::Number(at as int)
            &&& off == Some(at) && at >= now_unix ==> m[9].1 == Tree::Number(at - now_unix)
            &&& off == Some(at) && at < now_unix ==> m[9].1 == Tree::Number(0)
            &&& off is None ==> m[8].1 == Tree::Null && m[9].1 == Tree::Null
            &&& m[10].0 == "missing_name"@
            &&& m[11].0 == "last_seen_unix"@
            &&& number_in(f, "last_seen_unix"@) == Some(at) ==> m[11].1 == Tree::Number(at as int)
        }),
{
    reveal_strlit("yes");
    assert("yes"@.len() == 3);
    lemma_nothing_is_no_number(u64::MAX as nat);
}

/// The charge in JSON is the percentage that was reported, up to the largest that a byte holds.
pub proof fn law_the_charge_is_given_as_reported(
    fields: &Fields,
    now_unix: u64,
    j: Json,
    v: Seq<char>,
)
    requires
        call_ensures(json_from_daemon, (fields, now_unix), j),
        value_of(field_views(fields@), "percent"@) == Some(v),
    ensures
        number(v, 255) is Some ==> (j.tree()->Object_0)[4] == (
            "percent"@,
            Tree::Number((number(v, 255)->0) as int),
        ),
        number(v, 255) is None ==> (j.tree()->Object_0)[4] == ("percent"@, Tree::Null),
{
}

/// The number in a field, where the field is there and holds one.
pub open spec fn number_in(fields: Seq<(Seq<char>, Seq<char>)>, key: Seq<char>) -> Option<nat> {
    match value_of(fields, key) {
        Some(v) => number(v, u64::MAX as nat),
        None => None,
    }
}

/// A port is opened exactly where there is one, no other daemon holds it and nobody was seen to; it is
/// the one that was named, or the discovered one where none was; and it is said where not everybody
/// could be seen.
pub proof fn law_a_port_is_opened_where_nobody_holds_it(
    port: &str,
    discovered: Option<&str>,
    vendor: bool,
    owner: Option<(u32, &str)>,
    sees_all: bool,
    r: Result<SerialPort, String>,
)
    requires
        call_ensures(serial_path, (port, discovered, vendor, owner, sees_all), r),
    ensures
        r is Ok <==> (port@ != "auto"@ || discovered is Some) && !vendor && owner is None,
        r is Ok && port@ != "auto"@ ==> (r->Ok_0).path@ == port@,
        r is Ok && port@ == "auto"@ ==> (r->Ok_0).path@ == (discovered->0)@,
        r is Ok ==> ((r->Ok_0).note is None <==> sees_all),
{
}

/// The daemon is blamed exactly where it runs and the port was denied.
pub proof fn law_the_daemon_is_blamed_where_it_holds_the_port(
    path: &str,
    denied: bool,
    running: bool,
    r: Option<String>,
)
    requires
        call_ensures(held_by_daemon, (path, denied, running), r),
    ensures
        r is Some <==> denied && running,
{
}

/// What the UPS says about itself is shown line by line, each as it was read, and a clock that cannot
/// be right is called that.
pub proof fn law_the_identity_is_shown_as_it_was_read(id: &Identity, s: String)
    requires
        call_ensures(identity_text, (id,), s),
    ensures
        ({
            let firmware = match id.firmware {
                Ok(v) => v@,
                Err(e) => "unavailable ("@ + e@ + ")"@,
            };
            let clock = match id.clock {
                Ok((t, true)) => t@,
                Ok((t, false)) => t@ + "  (implausible)"@,
                Err(e) => "unavailable ("@ + e@ + ")"@,
            };
            let wake = match id.wake {
                Ok(Some(t)) => t@,
                Ok(None) => "none set"@,
                Err(e) => "unavailable ("@ + e@ + ")"@,
            };
            s@ == table_row("firmware"@, firmware) + table_row("clock"@, clock) + table_row(
                "wake schedule"@,
                wake,
            )
        }),
{
}

/// A poll in JSON gives what was read and what was concluded, each under its name, and null for what
/// could not be read.
pub proof fn law_a_poll_is_given_as_it_was(
    port: &str,
    id: &Identity,
    poll: &Poll,
    error: Option<&str>,
    time: &str,
    j: Json,
)
    requires
        call_ensures(json_from_serial, (port, id, poll, error, time), j),
    ensures
        j.tree() is Object,
        ({
            let m = j.tree()->Object_0;
            &&& m.len() == 13
            &&& m[1] == ("port"@, Tree::Text(port@))
            &&& m[2] == ("time"@, Tree::Text(time@))
            &&& m[3].0 == "firmware"@
            &&& id.firmware is Ok ==> m[3].1 == Tree::Text((id.firmware->Ok_0)@)
            &&& id.firmware is Err ==> m[3].1 == Tree::Null
            &&& m[4].0 == "clock"@ && m[5].0 == "clock_plausible"@
            &&& id.clock is Ok ==> m[4].1 == Tree::Text((id.clock->Ok_0).0@) && m[5].1 == Tree::Bool(
                (id.clock->Ok_0).1,
            )
            &&& id.clock is Err ==> m[4].1 == Tree::Null && m[5].1 == Tree::Null
            &&& m[6].0 == "wake_at"@
            &&& id.wake is Err ==> m[6].1 == Tree::Null
            &&& id.wake is Ok && id.wake->Ok_0 is None ==> m[6].1 == Tree::Null
            &&& id.wake is Ok && id.wake->Ok_0 is Some ==> m[6].1 == Tree::Text(
                ((id.wake->Ok_0)->0)@,
            )
            &&& m[7].0 == "percent"@ && m[8].0 == "source"@
            &&& poll.battery is None ==> m[7].1 == Tree::Null && m[8].1 == Tree::Null
            &&& poll.battery is Some ==> m[7].1 == Tree::Number((poll.battery->0).percent as int)
            &&& poll.battery is Some && (poll.battery->0).source == PowerSource::Mains ==> m[8].1
                == Tree::Text("mains"@)
            &&& poll.battery is Some && (poll.battery->0).source == PowerSource::Battery ==> m[8].1
                == Tree::Text("battery"@)
            &&& m[9] == ("level"@, Tree::Text(name_of(poll.decision.level)))
            &&& m[10].0 == "advice"@
            &&& poll.decision.advice == Advice::Nothing ==> m[10].1 == Tree::Text("none"@)
            &&& poll.decision.advice == Advice::Shutdown ==> m[10].1 == Tree::Text("shutdown"@)
            &&& poll.decision.advice is HeldForUptime ==> m[10].1 == Tree::Text("held-for-uptime"@)
            &&& m[11].0 == "error"@
            &&& error is None ==> m[11].1 == Tree::Null
            &&& error is Some ==> m[11].1 == Tree::Text((error->0)@)
            &&& m[12] == ("consecutive_failures"@, Tree::Number(poll.consecutive_failures as int))
        }),
{
}

/// A watch line gives the charge, the source, the level and the advice of the poll, what the level
/// changed from where it did, and the failure where there was one.
pub proof fn law_a_watch_line_is_its_poll(
    poll: &Poll,
    time: &str,
    level: &str,
    was: &str,
    error: &str,
    plain: String,
    changed: String,
    failed: String,
)
    requires
        call_ensures(watch_line, (poll, time, level, None::<&str>, None::<&str>), plain),
        call_ensures(watch_line, (poll, time, level, Some(was), None::<&str>), changed),
        call_ensures(watch_line, (poll, time, level, None::<&str>, Some(error)), failed),
    ensures
        ({
            let pct = if poll.battery is Some {
                decimal((poll.battery->0).percent as nat) + "%"@
            } else {
                "-"@
            };
            let source = if poll.battery is None {
                "-"@
            } else if (poll.battery->0).source == PowerSource::Mains {
                "mains"@
            } else {
                "battery"@
            };
            let advice = match poll.decision.advice {
                Advice::Shutdown => "WOULD SHUT DOWN (not enabled)"@,
                Advice::HeldForUptime { remaining } => "critical, held "@ + decimal(remaining.secs())
                    + "s after boot"@,
                Advice::Nothing => Seq::empty(),
            };
            let line = "  "@ + pad_right(time@, 8) + "  "@ + pad_left(pct, 4) + "  "@ + pad_right(
                source,
                11,
            ) + "  "@ + pad_right(level@, 16) + "  "@ + advice;
            &&& plain@ == line + "\n"@
            &&& changed@ == line + "   <- was "@ + was@ + "\n"@
            &&& failed@ == line + "\n            read failed ("@ + decimal(
                poll.consecutive_failures as nat,
            ) + " in a row): "@ + error@ + "\n"@
        }),
{
    reveal_strlit("\n            read failed (");
    reveal_strlit("            read failed (");
    reveal_strlit("\n");
    let pct = match poll.battery {
        Some(b) => decimal(b.percent as nat) + "%"@,
        None => "-"@,
    };
    let source = match poll.battery {
        Some(b) => source_word(b.source),
        None => "-"@,
    };
    let line = "  "@ + pad_right(time@, 8) + "  "@ + pad_left(pct, 4) + "  "@ + pad_right(source, 11)
        + "  "@ + pad_right(level@, 16) + "  "@ + watch_advice(poll.decision.advice);
    assert("\n            read failed ("@ =~= "\n"@ + "            read failed ("@);
    assert(plain@ =~= line + "\n"@);
    assert(changed@ =~= line + "   <- was "@ + was@ + "\n"@);
    assert(failed@ =~= line + "\n            read failed ("@ + decimal(
        poll.consecutive_failures as nat,
    ) + " in a row): "@ + error@ + "\n"@);
}

/// Polls are as far apart as configured, but at least a second; watching ends after as many as were
/// asked for, and never where none were; frames that were discarded are told, and only those.
pub proof fn law_watching_goes_as_configured(
    config: &Config,
    every: u64,
    polls: u64,
    count: u64,
    stop: bool,
    frames: u64,
    note: Option<String>,
)
    requires
        call_ensures(poll_interval, (config,), every),
        call_ensures(stops_after, (polls, count), stop),
        call_ensures(discarded_text, (frames,), note),
    ensures
        every >= 1,
        config.ups.poll_interval_s >= 1 ==> every == config.ups.poll_interval_s,
        config.ups.poll_interval_s == 0 ==> every == 1,
        count == 0 ==> !stop,
        count > 0 ==> (stop <==> polls >= count),
        note is None <==> frames == 0,
        note matches Some(s) ==> begins(s@, "\nNote: "@ + decimal(frames as nat)),
{
    if frames > 0 {
        let h = "\nNote: "@ + decimal(frames as nat);
        assert((note->0)@.take(h.len() as int) =~= h);
    }
}

/// Forgetting succeeds where the record is gone, also where there was none, and fails otherwise.
pub proof fn law_forgetting_succeeds_where_nothing_is_left(
    removal: &Removal,
    path: &str,
    name: Option<&str>,
    r: (bool, String),
)
    requires
        call_ensures(forget, (removal, path, name), r),
    ensures
        r.0 <==> *removal == Removal::Removed || *removal == Removal::NotFound,
        *removal == Removal::Removed && name is Some ==> begins(r.1@, "Forgot "@ + (name->0)@),
        *removal == Removal::Removed && name is None ==> begins(r.1@, "Forgot the UPS"@),
        *removal == Removal::NotFound ==> r.1@ == "No UPS is remembered; nothing to forget."@,
        !r.0 ==> begins(r.1@, "argonctl: "@),
{
    reveal_strlit("Forgot ");
    reveal_strlit("the UPS");
    reveal_strlit("Forgot the UPS");
    reveal_strlit("argonctl: ");
    reveal_strlit("argonctl: cannot remove ");
    assert("Forgot the UPS"@ =~= "Forgot "@ + "the UPS"@);
    if *removal == Removal::Removed {
        if name is Some {
            let h = "Forgot "@ + (name->0)@;
            assert(r.1@.take(h.len() as int) =~= h);
        } else {
            assert(r.1@.take("Forgot the UPS"@.len() as int) =~= "Forgot the UPS"@);
        }
    }
    if !r.0 {
        assert(r.1@.take(10) =~= "argonctl: "@);
    }
}

/// Each flag has its word, and each reading its name.
pub proof fn law_each_flag_has_its_word(usage: Usage, r: Option<&'static str>, l: Label, n: &'static str)
    requires
        call_ensures(flag_label, (usage,), r),
        call_ensures(Label::name, (l,), n),
    ensures
        usage == Usage::Charging ==> r is Some && (r->0)@ == "charging"@,
        usage == Usage::Discharging ==> r is Some && (r->0)@ == "discharging"@,
        usage == Usage::AcPresent ==> r is Some && (r->0)@ == "on mains"@,
        usage == Usage::BatteryPresent ==> r is Some && (r->0)@ == "battery present"@,
        usage == Usage::FullyCharged ==> r is Some && (r->0)@ == "fully charged"@,
        usage == Usage::FullyDischarged ==> r is Some && (r->0)@ == "fully discharged"@,
        usage == Usage::NeedReplacement ==> r is Some && (r->0)@ == "NEEDS REPLACEMENT"@,
        usage == Usage::ShutdownImminent ==> r is Some && (r->0)@ == "SHUTDOWN IMMINENT"@,
        usage == Usage::ShutdownRequested ==> r is Some && (r->0)@ == "shutdown requested"@,
        usage == Usage::Charge || usage == Usage::RunTime || usage == Usage::FullCharge || usage
            == Usage::Voltage || usage == Usage::Other ==> r is None,
        l == Label::Charge ==> n@ == "charge"@,
        l == Label::FullCharge ==> n@ == "full charge"@,
        l == Label::RunTime ==> n@ == "runtime left"@,
        l == Label::Voltage ==> n@ == "voltage"@,
{
}

/// Whether a field of a report arrived with a value.
pub open spec fn arrived(fields: Seq<Field>, reports: Seq<Report>, i: int, k: int) -> bool {
    0 <= i < reports.len() && 0 <= k < fields.len() && fields[k].input && fields[k].report_id
        == reports[i].id && k < reports[i].values@.len() && reports[i].values@[k] is Some
}

proof fn lemma_fields_add(d: Decoded, fields: Seq<Field>, report: Report, n: int)
    requires
        0 <= n <= fields.len(),
    ensures
        ({
            let e = with_fields(d, fields, report, n);
            &&& forall|x: (Label, Seq<char>)|
                d.readings.contains(x) ==> #[trigger] e.readings.contains(x)
            &&& forall|w: Seq<char>| d.status.contains(w) ==> #[trigger] e.status.contains(w)
            &&& forall|k: int|
                #![trigger fields[k]]
                0 <= k < n && fields[k].input && fields[k].report_id == report.id && k
                    < report.values@.len() && report.values@[k] is Some ==> {
                    let v = report.values@[k]->0;
                    &&& reading_of(fields[k].usage, v as int) is Some ==> e.readings.contains(
                        reading_of(fields[k].usage, v as int)->0,
                    )
                    &&& v != 0 && flag_words(fields[k].usage) is Some ==> e.status.contains(
                        flag_words(fields[k].usage)->0,
                    )
                }
            &&& forall|x: (Label, Seq<char>)| #[trigger]
                e.readings.contains(x) ==> d.readings.contains(x) || exists|k: int|
                    0 <= k < n && (#[trigger] fields[k]).input && fields[k].report_id == report.id
                        && k < report.values@.len() && report.values@[k] is Some && reading_of(
                        fields[k].usage,
                        (report.values@[k]->0) as int,
                    ) == Some(x)
            &&& forall|w: Seq<char>| #[trigger]
                e.status.contains(w) ==> d.status.contains(w) || exists|k: int|
                    0 <= k < n && (#[trigger] fields[k]).input && fields[k].report_id == report.id
                        && k < report.values@.len() && report.values@[k] is Some
                        && report.values@[k]->0 != 0 && flag_words(fields[k].usage) == Some(w)
        }),
    decreases n,
{
    if n > 0 {
        lemma_fields_add(d, fields, report, n - 1);
        let b = with_fields(d, fields, report, n - 1);
        let e = with_fields(d, fields, report, n);
        let f = fields[n - 1];
        if f.input && f.report_id == report.id && n - 1 < report.values@.len()
            && report.values@[n - 1] is Some {
            let v = report.values@[n - 1]->0;
            if let Some(x) = reading_of(f.usage, v as int) {
                assert(e.readings == b.readings.push(x));
                assert(e.readings.last() == x);
                assert forall|y: (Label, Seq<char>)|
                    b.readings.contains(y) implies #[trigger] e.readings.contains(y) by {
                    let j = b.readings.index_of(y);
                    assert(e.readings[j] == y);
                }
                assert forall|y: (Label, Seq<char>)| #[trigger]
                    e.readings.contains(y) implies y == x || b.readings.contains(y) by {
                    let j = e.readings.index_of(y);
                    if j < b.readings.len() {
                        assert(b.readings[j] == y);
                    }
                }
            } else if let Some(w) = flag_words(f.usage) {
                if v != 0 {
                    assert(e.status == b.status.push(w));
                    assert(e.status.last() == w);
                    assert forall|y: Seq<char>|
                        b.status.contains(y) implies #[trigger] e.status.contains(y) by {
                        let j = b.status.index_of(y);
                        assert(e.status[j] == y);
                    }
                    assert forall|y: Seq<char>| #[trigger]
                        e.status.contains(y) implies y == w || b.status.contains(y) by {
                        let j = e.status.index_of(y);
                        if j < b.status.len() {
                            assert(b.status[j] == y);
                        }
                    }
                }
            }
        }
    }
}

proof fn lemma_reports_add(fields: Seq<Field>, reports: Seq<Report>, n: int, i: int)
    requires
        0 <= i < n <= reports.len(),
    ensures
        forall|k: int|
            #![trigger fields[k]]
            arrived(fields, reports, i, k) ==> {
                let v = reports[i].values@[k]->0;
                &&& reading_of(fields[k].usage, v as int) is Some ==> decoded(
                    fields,
                    reports,
                    n,
                ).readings.contains(reading_of(fields[k].usage, v as int)->0)
                &&& v != 0 && flag_words(fields[k].usage) is Some ==> decoded(
                    fields,
                    reports,
                    n,
                ).status.contains(flag_words(fields[k].usage)->0)
            },
    decreases n,
{
    lemma_fields_add(
        decoded(fields, reports, n - 1),
        fields,
        reports[n - 1],
        fields.len() as int,
    );
    if i < n - 1 {
        lemma_reports_add(fields, reports, n - 1, i);
    }
}

proof fn lemma_nothing_else_is_decoded(fields: Seq<Field>, reports: Seq<Report>, n: int)
    requires
        0 <= n <= reports.len(),
    ensures
        forall|x: (Label, Seq<char>)| #[trigger]
            decoded(fields, reports, n).readings.contains(x) ==> exists|i: int, k: int| #[trigger]
                arrived(fields, reports, i, k) && reading_of(
                    fields[k].usage,
                    (reports[i].values@[k]->0) as int,
                ) == Some(x),
        forall|w: Seq<char>| #[trigger]
            decoded(fields, reports, n).status.contains(w) ==> exists|i: int, k: int| #[trigger]
                arrived(fields, reports, i, k) && reports[i].values@[k]->0 != 0 && flag_words(
                    fields[k].usage,
                ) == Some(w),
    decreases n,
{
    if n > 0 {
        lemma_nothing_else_is_decoded(fields, reports, n - 1);
        let d = decoded(fields, reports, n - 1);
        let report = reports[n - 1];
        lemma_fields_add(d, fields, report, fields.len() as int);
        let e = decoded(fields, reports, n);
        assert forall|x: (Label, Seq<char>)| #[trigger]
            e.readings.contains(x) implies exists|i: int, k: int| #[trigger]
            arrived(fields, reports, i, k) && reading_of(
                fields[k].usage,
                (reports[i].values@[k]->0) as int,
            ) == Some(x) by {
            if !d.readings.contains(x) {
                let k = choose|k: int|
                    0 <= k < fields.len() && (#[trigger] fields[k]).input && fields[k].report_id
                        == report.id && k < report.values@.len() && report.values@[k] is Some
                        && reading_of(fields[k].usage, (report.values@[k]->0) as int) == Some(x);
                assert(arrived(fields, reports, n - 1, k));
            }
        }
        assert forall|w: Seq<char>| #[trigger]
            e.status.contains(w) implies exists|i: int, k: int| #[trigger]
            arrived(fields, reports, i, k) && reports[i].values@[k]->0 != 0 && flag_words(
                fields[k].usage,
            ) == Some(w) by {
            if !d.status.contains(w) {
                let k = choose|k: int|
                    0 <= k < fields.len() && (#[trigger] fields[k]).input && fields[k].report_id
                        == report.id && k < report.values@.len() && report.values@[k] is Some
                        && report.values@[k]->0 != 0 && flag_words(fields[k].usage) == Some(w);
                assert(arrived(fields, reports, n - 1, k));
            }
        }
    }
}

/// Every field that arrived is decoded: a charge with its sign, a capacity and a voltage as they are,
/// and a flag that is set as its word.
pub proof fn law_what_arrived_is_decoded(
    fields: &Vec<Field>,
    reports: &Vec<Report>,
    r: (Vec<Reading>, Vec<&'static str>),
    i: int,
    k: int,
)
    requires
        call_ensures(decode, (fields, reports), r),
        arrived(fields@, reports@, i, k),
    ensures
        ({
            let u = fields@[k].usage;
            let v = reports@[i].values@[k]->0;
            let rs = reading_views(r.0@);
            let st = views(r.1@);
            &&& u == Usage::Charge ==> rs.contains((Label::Charge, signed_decimal(v as int) + "%"@))
            &&& u == Usage::FullCharge ==> rs.contains((Label::FullCharge, signed_decimal(v as int)))
            &&& u == Usage::Voltage ==> rs.contains((Label::Voltage, signed_decimal(v as int)))
            &&& u == Usage::RunTime && 0 <= v < 60 ==> rs.contains(
                (Label::RunTime, decimal(v as nat) + "s"@),
            )
            &&& v != 0 && u == Usage::Charging ==> st.contains("charging"@)
            &&& v != 0 && u == Usage::Discharging ==> st.contains("discharging"@)
            &&& v != 0 && u == Usage::AcPresent ==> st.contains("on mains"@)
            &&& v != 0 && u == Usage::BatteryPresent ==> st.contains("battery present"@)
            &&& v != 0 && u == Usage::FullyCharged ==> st.contains("fully charged"@)
            &&& v != 0 && u == Usage::FullyDischarged ==> st.contains("fully discharged"@)
            &&& v != 0 && u == Usage::NeedReplacement ==> st.contains("NEEDS REPLACEMENT"@)
            &&& v != 0 && u == Usage::ShutdownImminent ==> st.contains("SHUTDOWN IMMINENT"@)
            &&& v != 0 && u == Usage::ShutdownRequested ==> st.contains("shutdown requested"@)
        }),
{
    lemma_reports_add(fields@, reports@, reports@.len() as int, i);
    assert(fields@[k] == fields@[k]);
}

/// Nothing is decoded that did not arrive: a reading is of a field that arrived, and a word stands for
/// a flag that is set.
pub proof fn law_nothing_is_decoded_that_did_not_arrive(
    fields: &Vec<Field>,
    reports: &Vec<Report>,
    r: (Vec<Reading>, Vec<&'static str>),
)
    requires
        call_ensures(decode, (fields, reports), r),
    ensures
        forall|x: (Label, Seq<char>)| #[trigger]
            reading_views(r.0@).contains(x) ==> exists|i: int, k: int| #[trigger]
                arrived(fields@, reports@, i, k) && ((x.0 == Label::Charge && fields@[k].usage
                    == Usage::Charge) || (x.0 == Label::FullCharge && fields@[k].usage
                    == Usage::FullCharge) || (x.0 == Label::RunTime && fields@[k].usage
                    == Usage::RunTime) || (x.0 == Label::Voltage && fields@[k].usage
                    == Usage::Voltage)),
        forall|w: Seq<char>| #[trigger]
            views(r.1@).contains(w) ==> exists|i: int, k: int| #[trigger]
                arrived(fields@, reports@, i, k) && reports@[i].values@[k]->0 != 0 && flag_words(
                    fields@[k].usage,
                ) == Some(w),
{
    lemma_nothing_else_is_decoded(fields@, reports@, reports@.len() as int);
    let d = decoded(fields@, reports@, reports@.len() as int);
    assert forall|x: (Label, Seq<char>)| #[trigger]
        reading_views(r.0@).contains(x) implies exists|i: int, k: int| #[trigger]
        arrived(fields@, reports@, i, k) && ((x.0 == Label::Charge && fields@[k].usage
            == Usage::Charge) || (x.0 == Label::FullCharge && fields@[k].usage == Usage::FullCharge)
            || (x.0 == Label::RunTime && fields@[k].usage == Usage::RunTime) || (x.0
            == Label::Voltage && fields@[k].usage == Usage::Voltage)) by {
        assert(d.readings.contains(x));
        let (i, k) = choose|i: int, k: int| #[trigger]
            arrived(fields@, reports@, i, k) && reading_of(
                fields@[k].usage,
                (reports@[i].values@[k]->0) as int,
            ) == Some(x);
        assert(arrived(fields@, reports@, i, k));
    }
    assert forall|w: Seq<char>| #[trigger] views(r.1@).contains(w) implies exists|i: int, k: int|
        #[trigger]
        arrived(fields@, reports@, i, k) && reports@[i].values@[k]->0 != 0 && flag_words(
            fields@[k].usage,
        ) == Some(w) by {
        assert(d.status.contains(w));
    }
}

/// The reports that were seen are listed in order, and one that repeats is listed once.
pub proof fn law_a_repeated_report_is_listed_once(
    a: &Vec<u8>,
    b: &Vec<u8>,
    c: &Vec<u8>,
    id: u8,
    other: u8,
    one: String,
    again: String,
    next: String,
)
    requires
        call_ensures(fmt_ids, (a,), one),
        call_ensures(fmt_ids, (b,), again),
        call_ensures(fmt_ids, (c,), next),
        a@.len() > 0,
        a@.last() == id,
        b@ == a@.push(id),
        c@ == a@.push(other),
        other != id,
    ensures
        again@ == one@,
        next@ == one@ + " 0x"@ + hex(other),
{
    assert(b@.drop_last() =~= a@ && c@.drop_last() =~= a@);
    reveal_strlit(" ");
    reveal_strlit("0x");
    reveal_strlit(" 0x");
    assert(" 0x"@ =~= " "@ + "0x"@);
    lemma_ids_listed(a@);
    let words = id_words(a@).push("0x"@ + hex(other));
    assert(words.drop_last() =~= id_words(a@));
    assert(joined(words, " "@) =~= joined(id_words(a@), " "@) + " "@ + ("0x"@ + hex(other)));
    assert(next@ =~= one@ + " 0x"@ + hex(other));
}

proof fn lemma_ids_listed(ids: Seq<u8>)
    requires
        ids.len() > 0,
    ensures
        id_words(ids).len() > 0,
    decreases ids.len(),
{
    if ids.len() >= 2 && ids[ids.len() - 2] == ids.last() {
        lemma_ids_listed(ids.drop_last());
    }
}

/// The HID interface in JSON gives each kind of reading once, as the last one that arrived, and every
/// status word in its order.
pub proof fn law_the_device_is_given_as_it_answered(
    node: &str,
    serial: Option<&str>,
    readings: &Vec<Reading>,
    status: &Vec<&'static str>,
    j: Json,
    i: int,
)
    requires
        call_ensures(json_from_device, (node, serial, readings, status), j),
        0 <= i < status@.len(),
    ensures
        j.tree() is Object,
        ({
            let m = j.tree()->Object_0;
            &&& m.len() == 5
            &&& m[0] == ("route"@, Tree::Text("hidraw"@))
            &&& m[1] == ("node"@, Tree::Text(node@))
            &&& m[2].0 == "serial"@
            &&& serial is None ==> m[2].1 == Tree::Null
            &&& serial is Some ==> m[2].1 == Tree::Text((serial->0)@)
            &&& m[3].0 == "readings"@ && m[3].1 is Object
            &&& readings@.len() == 0 ==> (m[3].1->Object_0).len() == 0
            &&& readings@.len() == 1 && readings@[0].label == Label::Charge ==> m[3].1->Object_0
                == seq![("charge"@, Tree::Text(readings@[0].value@))]
            &&& m[4].0 == "status"@ && m[4].1 is List
            &&& (m[4].1->List_0).len() == status@.len()
            &&& (m[4].1->List_0)[i] == Tree::Text(status@[i]@)
        }),
{
    let rs = reading_views(readings@);
    let st = views(status@);
    assert(st[i] == status@[i]@);
    let m = j.tree()->Object_0;
    assert(m[4].1->List_0 == st.map_values(|s: Seq<char>| Tree::Text(s)));
    if readings@.len() == 0 {
        assert(rs.len() == 0);
        assert(m[3].1->Object_0 =~= Seq::<(Seq<char>, Tree)>::empty());
    }
    if readings@.len() == 1 && readings@[0].label == Label::Charge {
        assert(rs.len() == 1 && rs.last() == (Label::Charge, readings@[0].value@));
        assert(rs.drop_last().len() == 0);
        assert(last_of(rs, Label::FullCharge) is None) by {
            assert(last_of(rs.drop_last(), Label::FullCharge) is None);
        }
        assert(last_of(rs, Label::RunTime) is None) by {
            assert(last_of(rs.drop_last(), Label::RunTime) is None);
        }
        assert(last_of(rs, Label::Voltage) is None) by {
            assert(last_of(rs.drop_last(), Label::Voltage) is None);
        }
        assert(m[3].1->Object_0 =~= seq![("charge"@, Tree::Text(readings@[0].value@))]);
    }
}

/// The last reading of a kind is the one that counts.
pub proof fn law_the_last_reading_counts(rs: Seq<(Label, Seq<char>)>, l: Label, v: Seq<char>, k: Label)
    ensures
        last_of(rs.push((l, v)), l) == Some(v),
        k != l ==> last_of(rs.push((l, v)), k) == last_of(rs, k),
        last_of(Seq::empty(), k) is None,
{
    assert(rs.push((l, v)).drop_last() =~= rs);
}

/// The telemetry is printed with a line for each reading and one for the status words, where there are
/// any, and it is said where there is neither.
pub proof fn law_telemetry_is_printed_line_by_line(
    d: Decoded,
    ids: Seq<u8>,
    rs: Seq<(Label, Seq<char>)>,
    r: (Label, Seq<char>),
)
    ensures
        d.readings.len() == 0 && d.status.len() == 0 ==> telemetry(d, ids)
            == "\nTelemetry\n---------\n"@
            + "  (reports arrived but carried no recognised fields)\n"@ + "\nReports seen: "@
            + joined(id_words(ids), " "@) + "\n"@,
        d.readings.len() > 0 && d.status.len() == 0 ==> telemetry(d, ids)
            == "\nTelemetry\n---------\n"@ + reading_lines(d.readings) + "\nReports seen: "@
            + joined(id_words(ids), " "@) + "\n"@,
        d.status.len() > 0 ==> telemetry(d, ids) == "\nTelemetry\n---------\n"@ + (reading_lines(
            d.readings,
        ) + ("  "@ + pad_right("status"@, 13) + " "@ + joined(d.status, ", "@) + "\n"@))
            + "\nReports seen: "@ + joined(id_words(ids), " "@) + "\n"@,
        r.0 == Label::Charge ==> reading_lines(rs.push(r)) == reading_lines(rs) + ("  "@ + pad_right(
            "charge"@,
            13,
        ) + " "@ + r.1 + "\n"@),
        r.0 == Label::RunTime ==> reading_lines(rs.push(r)) == reading_lines(rs) + ("  "@ + pad_right(
            "runtime left"@,
            13,
        ) + " "@ + r.1 + "\n"@),
{
    assert(rs.push(r).drop_last() =~= rs);
}

/// A single poll prints the battery, or why there is none, and a node is a raw HID device by its name.
pub proof fn law_a_battery_is_printed_or_why_there_is_none(
    battery: &str,
    error: &str,
    ok: String,
    failed: String,
    name: &str,
    raw: bool,
)
    requires
        call_ensures(battery_line, (Some(battery), None::<&str>), ok),
        call_ensures(battery_line, (None::<&str>, Some(error)), failed),
        call_ensures(is_hidraw, (name,), raw),
    ensures
        ok@ == "  battery        "@ + battery@,
        failed@ == "  battery        "@ + ("unavailable ("@ + error@ + ")"@),
        raw <==> begins(name@, "hidraw"@),
{
}

} // verus!
