//! `argonctl battery`: the Argon ONE UP's battery, from its fuel gauge. Read-only.

use crate::device::gauge::{Flow, Health, Reading};
use crate::device::ups::PowerSource;
use crate::json::{members, no_members, put, Json, Member, Tree};
use crate::text::{
    begins, decimal, decimal_of, join, left_aligned, pad_left, pad_right, plus_decimal,
    plus_decimal_of,
    right_aligned,
};
use vstd::prelude::*;

verus! {

/// Which way the charge moves, in a word.
pub open spec fn flow_word(flow: Flow) -> Seq<char> {
    match flow {
        Flow::Charging => "charging"@,
        Flow::Discharging => "discharging"@,
        Flow::Idle => "idle"@,
    }
}

/// Which way the charge moves, in a word.
pub fn flow_name(flow: Flow) -> (s: &'static str)
    ensures
        s@ == flow_word(flow),
{
    match flow {
        Flow::Charging => "charging",
        Flow::Discharging => "discharging",
        Flow::Idle => "idle",
    }
}

/// Where the power comes from, in a word.
pub open spec fn source_word(source: PowerSource) -> Seq<char> {
    match source {
        PowerSource::Battery => "battery"@,
        PowerSource::Mains => "mains"@,
    }
}

fn source_name(source: PowerSource) -> (s: &'static str)
    ensures
        s@ == source_word(source),
{
    match source {
        PowerSource::Battery => "battery",
        PowerSource::Mains => "mains",
    }
}

/// What is said of one reading in JSON. A reading comes with the source that the battery policy
/// sees in it.
pub open spec fn reading_tree(
    bus: Seq<char>,
    health: Option<Health>,
    reading: Result<(Reading, PowerSource), Seq<char>>,
) -> Tree {
    Tree::Object(
        seq![
            ("route"@, Tree::Text("cw2217"@)),
            ("bus"@, Tree::Text(bus)),
            (
                "cycles"@,
                match health {
                    Some(h) => Tree::Number(h.cycles as int),
                    None => Tree::Null,
                },
            ),
            (
                "state_of_health_percent"@,
                match health {
                    Some(h) => Tree::Number(h.soh as int),
                    None => Tree::Null,
                },
            ),
            (
                "percent"@,
                match reading {
                    Ok((r, _)) => Tree::Number(r.percent as int),
                    Err(_) => Tree::Null,
                },
            ),
            (
                "vcell_uv"@,
                match reading {
                    Ok((r, _)) => Tree::Number(r.vcell_uv as int),
                    Err(_) => Tree::Null,
                },
            ),
            (
                "current_raw"@,
                match reading {
                    Ok((r, _)) => Tree::Number(r.current as int),
                    Err(_) => Tree::Null,
                },
            ),
            (
                "flow"@,
                match reading {
                    Ok((r, _)) => Tree::Text(flow_word(r.flow)),
                    Err(_) => Tree::Null,
                },
            ),
            (
                "source"@,
                match reading {
                    Ok((_, source)) => Tree::Text(source_word(source)),
                    Err(_) => Tree::Null,
                },
            ),
            (
                "error"@,
                match reading {
                    Ok(_) => Tree::Null,
                    Err(e) => Tree::Text(e),
                },
            ),
        ],
    )
}

/// A reading, or why there is none, with a text in place of a string.
pub open spec fn reading_view(reading: Result<(Reading, PowerSource), &str>) -> Result<
    (Reading, PowerSource),
    Seq<char>,
> {
    match reading {
        Ok(r) => Ok(r),
        Err(e) => Err(e@),
    }
}

/// One gauge reading in JSON.
///
/// The raw current is named for what it is: the register value, positive charging, negative
/// discharging, in no unit. A failed read gives `null` readings and an error, never the previous
/// numbers again.
pub fn json_reading(
    bus: &str,
    health: Option<Health>,
    reading: Result<(Reading, PowerSource), &str>,
) -> (j: Json)
    ensures
        j.tree() == reading_tree(bus@, health, reading_view(reading)),
{
    let mut v: Vec<Member> = no_members();
    put(&mut v, "route", Json::text("cw2217"));
    put(&mut v, "bus", Json::text(bus));
    match health {
        Some(h) => {
            put(&mut v, "cycles", Json::number(h.cycles as u64));
            put(&mut v, "state_of_health_percent", Json::number(h.soh as u64));
        },
        None => {
            put(&mut v, "cycles", Json::Null);
            put(&mut v, "state_of_health_percent", Json::Null);
        },
    }
    match reading {
        Ok((r, source)) => {
            put(&mut v, "percent", Json::number(r.percent as u64));
            put(&mut v, "vcell_uv", Json::number(r.vcell_uv as u64));
            put(&mut v, "current_raw", Json::Number(r.current as i128));
            put(&mut v, "flow", Json::text(flow_name(r.flow)));
            put(&mut v, "source", Json::text(source_name(source)));
            put(&mut v, "error", Json::Null);
        },
        Err(e) => {
            put(&mut v, "percent", Json::Null);
            put(&mut v, "vcell_uv", Json::Null);
            put(&mut v, "current_raw", Json::Null);
            put(&mut v, "flow", Json::Null);
            put(&mut v, "source", Json::Null);
            put(&mut v, "error", Json::text(e));
        },
    }
    assert(members(v@) =~= reading_tree(bus@, health, reading_view(reading))->Object_0);
    Json::object(v)
}

/// What is printed of a reading. `volts` is the cell's voltage in volts.
pub fn reading_line(
    reading: Result<(Reading, PowerSource), &str>,
    volts: &str,
) -> (s: String)
    ensures
        s@ == match reading {
            Ok((r, source)) => "  "@ + pad_left(decimal(r.percent as nat), 5) + " %  "@ + volts@
                + " V  "@ + pad_left(plus_decimal(r.current as int), 7) + "  "@ + pad_right(
                flow_word(r.flow),
                12,
            ) + "  on "@ + source_word(source),
            Err(e) => "  read failed: "@ + e@,
        },
{
    match reading {
        Ok((r, source)) => {
            let mut s: String = join(
                "  ",
                right_aligned(decimal_of(r.percent as u64).as_str(), 5).as_str(),
            );
            s.append(" %  ");
            s.append(volts);
            s.append(" V  ");
            s.append(right_aligned(plus_decimal_of(r.current as i64).as_str(), 7).as_str());
            s.append("  ");
            s.append(left_aligned(flow_name(r.flow), 12).as_str());
            s.append("  on ");
            s.append(source_name(source));
            s
        },
        Err(e) => join("  read failed: ", e),
    }
}

/// What is printed of the wear figures, or of why they are unreadable.
pub fn health_line(health: Result<Health, &str>) -> (s: String)
    ensures
        s@ == match health {
            Ok(h) => "  "@ + decimal(h.cycles as nat) + " charge cycles, state of health "@
                + decimal(h.soh as nat) + " %"@,
            Err(e) => "  cycles and health unreadable: "@ + e@,
        },
{
    match health {
        Ok(h) => {
            let mut s: String = join("  ", decimal_of(h.cycles as u64).as_str());
            s.append(" charge cycles, state of health ");
            s.append(decimal_of(h.soh as u64).as_str());
            s.append(" %");
            s
        },
        Err(e) => join("  cycles and health unreadable: ", e),
    }
}

/// How many times to read: at least once.
pub fn reads(count: u32) -> (n: u32)
    ensures
        n == if count < 1 {
            1
        } else {
            count
        },
{
    if count < 1 {
        1
    } else {
        count
    }
}

/// A failed read never shows numbers, whatever was read before.
pub proof fn law_a_failed_read_has_no_numbers(bus: Seq<char>, health: Option<Health>, e: Seq<char>)
    ensures
        ({
            let m = reading_tree(bus, health, Err(e))->Object_0;
            &&& m[4] == ("percent"@, Tree::Null)
            &&& m[5] == ("vcell_uv"@, Tree::Null)
            &&& m[6] == ("current_raw"@, Tree::Null)
            &&& m[7] == ("flow"@, Tree::Null)
            &&& m[8] == ("source"@, Tree::Null)
            &&& m[9] == ("error"@, Tree::Text(e))
        }),
{
}

/// Each way that the charge moves has its own word.
pub proof fn law_flow_words_are_told_apart(flow: Flow, s: &'static str)
    requires
        call_ensures(flow_name, (flow,), s),
    ensures
        s@ == "charging"@ <==> flow == Flow::Charging,
        s@ == "discharging"@ <==> flow == Flow::Discharging,
        s@ == "idle"@ <==> flow == Flow::Idle,
{
    reveal_strlit("charging");
    reveal_strlit("discharging");
    reveal_strlit("idle");
    assert("charging"@.len() == 8 && "discharging"@.len() == 11 && "idle"@.len() == 4);
}

/// A reading is given as it was read: the charge, the voltage and the raw current with its sign, which
/// way the charge moves and where the power comes from, and no error.
pub proof fn law_a_reading_is_given_as_it_was_read(
    bus: &str,
    health: Health,
    r: Reading,
    source: PowerSource,
    j: Json,
)
    requires
        call_ensures(
            json_reading,
            (bus, Some(health), Ok::<(Reading, PowerSource), &str>((r, source))),
            j,
        ),
    ensures
        j.tree() is Object,
        ({
            let m = j.tree()->Object_0;
            &&& m.len() == 10
            &&& m[1] == ("bus"@, Tree::Text(bus@))
            &&& m[2] == ("cycles"@, Tree::Number(health.cycles as int))
            &&& m[3] == ("state_of_health_percent"@, Tree::Number(health.soh as int))
            &&& m[4] == ("percent"@, Tree::Number(r.percent as int))
            &&& m[5] == ("vcell_uv"@, Tree::Number(r.vcell_uv as int))
            &&& m[6] == ("current_raw"@, Tree::Number(r.current as int))
            &&& m[7].0 == "flow"@
            &&& m[7].1 == Tree::Text("charging"@) <==> r.flow == Flow::Charging
            &&& m[7].1 == Tree::Text("discharging"@) <==> r.flow == Flow::Discharging
            &&& m[8].0 == "source"@
            &&& m[8].1 == Tree::Text("mains"@) <==> source == PowerSource::Mains
            &&& m[8].1 == Tree::Text("battery"@) <==> source == PowerSource::Battery
            &&& m[9] == ("error"@, Tree::Null)
        }),
{
    reveal_strlit("charging");
    reveal_strlit("discharging");
    reveal_strlit("idle");
    reveal_strlit("mains");
    reveal_strlit("battery");
    assert("charging"@.len() == 8 && "discharging"@.len() == 11 && "idle"@.len() == 4);
    assert("mains"@.len() == 5 && "battery"@.len() == 7);
}

/// What is printed of a reading names its charge and where the power comes from, at its ends, and of
/// a failure why.
pub proof fn law_a_printed_reading_says_where_the_power_comes_from(
    r: Reading,
    source: PowerSource,
    volts: &str,
    s: String,
    e: &str,
    f: String,
)
    requires
        call_ensures(reading_line, (Ok::<(Reading, PowerSource), &str>((r, source)), volts), s),
        call_ensures(reading_line, (Err::<(Reading, PowerSource), &str>(e), volts), f),
    ensures
        begins(s@, "  "@ + pad_left(decimal(r.percent as nat), 5) + " %  "@ + volts@ + " V  "@),
        source == PowerSource::Mains ==> s@.skip(s@.len() - 9) == "  on "@.skip(1) + "mains"@,
        source == PowerSource::Battery ==> s@.skip(s@.len() - 12) == "  on "@ + "battery"@,
        f@ == "  read failed: "@ + e@,
{
    reveal_strlit("  on ");
    reveal_strlit("mains");
    reveal_strlit("battery");
    let head = "  "@ + pad_left(decimal(r.percent as nat), 5) + " %  "@ + volts@ + " V  "@;
    assert(s@.take(head.len() as int) =~= head);
    if source == PowerSource::Mains {
        assert(s@.skip(s@.len() - 9) =~= "  on "@.skip(1) + "mains"@);
    } else {
        assert(s@.skip(s@.len() - 12) =~= "  on "@ + "battery"@);
    }
}

/// A gauge is read as often as was asked for, and at least once.
pub proof fn law_a_gauge_is_read_at_least_once(count: u32, n: u32)
    requires
        call_ensures(reads, (count,), n),
    ensures
        n >= 1,
        count >= 1 ==> n == count,
        count == 0 ==> n == 1,
{
}

/// The health is told as it was read, and that it could not be where it was not.
pub proof fn law_health_is_told_as_it_was_read(h: Health, e: &str, ok: String, failed: String)
    requires
        call_ensures(health_line, (Ok::<Health, &str>(h),), ok),
        call_ensures(health_line, (Err::<Health, &str>(e),), failed),
    ensures
        ok@ == "  "@ + decimal(h.cycles as nat) + " charge cycles, state of health "@ + decimal(
            h.soh as nat,
        ) + " %"@,
        failed@ == "  cycles and health unreadable: "@ + e@,
{
}

} // verus!
