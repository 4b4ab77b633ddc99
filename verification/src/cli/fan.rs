//! `argonctl fan`: what the fan controller would do.
//!
//! Dry run by default. The two commands that write say what goes on the wire first, and only write
//! where that is asked for.

use crate::cli::ups::{get, given};
use crate::device::celsius::{tenths, tenths_of};
use crate::device::config::{Config, CurvePoint};
use crate::device::control::{field_views, value_of, Fields};
use crate::device::fan::Step;
use crate::device::mcu::Dialect;
use crate::device::mode::{FanDuty, Mode};
use crate::json::{members, no_members, put, trees, Json, Member, Tree};
use crate::text::{
    begins, debug_of, debug_text, decimal, decimal_of, hex, hex_joined, hex_of, hex_words, join, joined,
    left_aligned, pad_left, right_aligned, same, signed_decimal, signed_decimal_of,
};
use vstd::prelude::*;

verus! {

// ---------------------------------------------------------------------------------------------
// What the daemon does
// ---------------------------------------------------------------------------------------------

/// What the daemon has the fan doing, in words.
pub open spec fn fan_state_words(f: Seq<(Seq<char>, Seq<char>)>) -> Seq<char> {
    let temp = if given(f, "temperature_c"@).len() == 0 {
        Seq::empty()
    } else {
        " at "@ + given(f, "temperature_c"@) + "C"@
    };
    let duty = given(f, "duty_percent"@);
    if given(f, "available"@) != "yes"@ {
        "argond is running, but has not completed a control iteration yet."@
    } else if given(f, "driving"@) == "yes"@ {
        "argond has the fan "@ + (if duty.len() == 0 || duty == "0"@ {
            "off"@
        } else {
            duty + "%"@
        }) + temp + ", decided "@ + given(f, "age_s"@) + "s ago."@
    } else {
        "argond is running"@ + temp
            + " but not driving the fan: it reports the fan rather than\nsetting it, which is what read-only mode does, and what any mode does with no MCU."@
    }
}

/// What the daemon has the fan doing. Without this, what the curve *would* choose is described
/// while a daemon is already driving the fan -- true about the configuration, and nothing about the
/// machine.
pub fn daemon_fan_state(fields: &Fields) -> (s: String)
    ensures
        s@ == fan_state_words(field_views(fields@)),
{
    if !same(get(fields, "available"), "yes") {
        return "argond is running, but has not completed a control iteration yet.".to_owned();
    }
    let t: &str = get(fields, "temperature_c");
    let temp: String = if t.is_empty() {
        String::new()
    } else {
        let mut w: String = join(" at ", t);
        w.append("C");
        w
    };
    if same(get(fields, "driving"), "yes") {
        let d: &str = get(fields, "duty_percent");
        let duty: String = if d.is_empty() || same(d, "0") {
            "off".to_owned()
        } else {
            join(d, "%")
        };
        let mut s: String = join("argond has the fan ", duty.as_str());
        s.append(temp.as_str());
        s.append(", decided ");
        s.append(get(fields, "age_s"));
        s.append("s ago.");
        s
    } else {
        let mut s: String = join("argond is running", temp.as_str());
        s.append(
            " but not driving the fan: it reports the fan rather than\nsetting it, which is what read-only mode does, and what any mode does with no MCU.",
        );
        s
    }
}

// ---------------------------------------------------------------------------------------------
// The curve
// ---------------------------------------------------------------------------------------------

/// Whether stopping the fan is allowed, in words.
pub open spec fn stopping_words(allowed: bool) -> Seq<char> {
    if allowed {
        "allowed"@
    } else {
        "not allowed"@
    }
}

fn stopping_text(allowed: bool) -> (s: &'static str)
    ensures
        s@ == stopping_words(allowed),
{
    if allowed {
        "allowed"
    } else {
        "not allowed"
    }
}

/// The lines of a curve, each with its duty in words.
pub open spec fn curve_lines(points: Seq<(i32, String)>) -> Seq<char>
    decreases points.len(),
{
    if points.len() == 0 {
        Seq::empty()
    } else {
        curve_lines(points.drop_last()) + "  >= "@ + pad_left(
            signed_decimal(points.last().0 as int),
            3,
        ) + "C   "@ + points.last().1@ + "\n"@
    }
}

/// What is printed of the curve that would be applied.
pub fn report_curve(config: &Config, mode: Mode, points: &Vec<(i32, String)>) -> (s: String)
    ensures
        s@ == "Mode:   "@ + mode.name() + "\n\nCurve\n-----\n"@ + curve_lines(points@)
            + "  hysteresis "@ + signed_decimal(config.fan.hysteresis_c as int) + "C, floor "@
            + decimal(config.fan.min_duty as nat) + "%, safe "@ + decimal(
            config.fan.safe_duty as nat,
        ) + "%, stopping "@ + stopping_words(config.fan.allow_stop) + "\n"@,
{
    let mut lines: String = String::new();
    let mut i: usize = 0;
    assert(points@.take(0) =~= Seq::<(i32, String)>::empty());
    while i < points.len()
        invariant
            i <= points.len(),
            lines@ == curve_lines(points@.take(i as int)),
        decreases points.len() - i,
    {
        assert(points@.take(i + 1).drop_last() =~= points@.take(i as int));
        let p: &(i32, String) = &points[i];
        lines.append("  >= ");
        lines.append(right_aligned(signed_decimal_of(p.0 as i64).as_str(), 3).as_str());
        lines.append("C   ");
        lines.append(p.1.as_str());
        lines.append("\n");
        i = i + 1;
    }
    assert(points@.take(i as int) =~= points@);
    let mut s: String = join("Mode:   ", mode.as_str());
    s.append("\n\nCurve\n-----\n");
    s.append(lines.as_str());
    s.append("  hysteresis ");
    s.append(signed_decimal_of(config.fan.hysteresis_c as i64).as_str());
    s.append("C, floor ");
    s.append(decimal_of(config.fan.min_duty as u64).as_str());
    s.append("%, safe ");
    s.append(decimal_of(config.fan.safe_duty as u64).as_str());
    s.append("%, stopping ");
    s.append(stopping_text(config.fan.allow_stop));
    s.append("\n");
    s
}

/// What is printed of the present temperature: what the curve says, and what would be written. The
/// controller applies the floor and the no-stopping rule afterwards, so "curve says off" on its own
/// reads as "the fan would stop", which is the opposite of what happens. The duties come in words
/// beside their values.
pub fn now_line(
    config: &Config,
    decicelsius: i32,
    curve_duty: FanDuty,
    curve_words: &str,
    would_write: FanDuty,
    write_words: &str,
) -> (s: String)
    ensures
        s@ == "Now:    "@ + tenths(decicelsius) + "C -> curve says "@ + curve_words@
            + ", would write "@ + write_words@ + (if would_write == curve_duty {
            Seq::empty()
        } else {
            " (floor "@ + decimal(config.fan.min_duty as nat) + "%, stopping "@ + stopping_words(
                config.fan.allow_stop,
            ) + ")"@
        }),
{
    let mut s: String = join("Now:    ", tenths_of(decicelsius).as_str());
    s.append("C -> curve says ");
    s.append(curve_words);
    s.append(", would write ");
    s.append(write_words);
    let why: String = if would_write.equals(curve_duty) {
        String::new()
    } else {
        let mut w: String = join(" (floor ", decimal_of(config.fan.min_duty as u64).as_str());
        w.append("%, stopping ");
        w.append(stopping_text(config.fan.allow_stop));
        w.append(")");
        w
    };
    s.append(why.as_str());
    s
}

/// What is said of a curve point in JSON.
pub open spec fn point_tree(p: CurvePoint) -> Tree {
    Tree::Object(
        seq![
            ("celsius"@, Tree::Number(p.celsius as int)),
            ("duty_percent"@, Tree::Number(p.duty.value() as int)),
        ],
    )
}

/// What is said of the fan and its curve in JSON.
pub open spec fn state_tree(
    config: Config,
    mode: Mode,
    points: Seq<CurvePoint>,
    curve_duty: FanDuty,
    sensor: Seq<char>,
    decicelsius: i32,
) -> Tree {
    Tree::Object(
        seq![
            ("route"@, Tree::Text("fan-dry-run"@)),
            ("mode"@, Tree::Text(mode.name())),
            ("sensor"@, Tree::Text(sensor)),
            ("temperature_c"@, Tree::Decimal(decicelsius as int, 1)),
            ("curve_duty_percent"@, Tree::Number(curve_duty.value() as int)),
            ("curve"@, Tree::List(points.map_values(|p: CurvePoint| point_tree(p)))),
            ("hysteresis_c"@, Tree::Number(config.fan.hysteresis_c as int)),
            ("floor_percent"@, Tree::Number(config.fan.min_duty as int)),
            ("safe_percent"@, Tree::Number(config.fan.safe_duty as int)),
            ("stopping_allowed"@, Tree::Bool(config.fan.allow_stop)),
        ],
    )
}

fn point_json(p: CurvePoint) -> (j: Json)
    ensures
        j.tree() == point_tree(p),
{
    let mut v: Vec<Member> = no_members();
    put(&mut v, "celsius", Json::Number(p.celsius as i128));
    put(&mut v, "duty_percent", Json::number(p.duty.percent() as u64));
    assert(members(v@) =~= point_tree(p)->Object_0);
    Json::object(v)
}

/// The fan's state and what the curve makes of it, in JSON.
///
/// The curve's duty is the curve's own answer, which is not necessarily what would be written: the
/// controller then applies the floor and the hysteresis, both reported here. Nothing here is a
/// reading of the fan.
pub fn json_state(
    config: &Config,
    mode: Mode,
    points: &Vec<CurvePoint>,
    curve_duty: FanDuty,
    sensor: &str,
    decicelsius: i32,
) -> (j: Json)
    ensures
        j.tree() == state_tree(*config, mode, points@, curve_duty, sensor@, decicelsius),
{
    let mut list: Vec<Json> = Vec::new();
    let ghost each = |p: CurvePoint| point_tree(p);
    let mut i: usize = 0;
    assert(trees(list@) =~= points@.take(0).map_values(each));
    while i < points.len()
        invariant
            i <= points.len(),
            each == (|p: CurvePoint| point_tree(p)),
            trees(list@) == points@.take(i as int).map_values(each),
        decreases points.len() - i,
    {
        let ghost before = list@;
        let j: Json = point_json(points[i]);
        list.push(j);
        assert(trees(list@) =~= trees(before).push(j.tree()));
        assert(points@.take(i + 1).map_values(each) =~= points@.take(i as int).map_values(
            each,
        ).push(point_tree(points@[i as int])));
        i = i + 1;
    }
    assert(points@.take(i as int) =~= points@);
    let mut v: Vec<Member> = no_members();
    put(&mut v, "route", Json::text("fan-dry-run"));
    put(&mut v, "mode", Json::text(mode.as_str()));
    put(&mut v, "sensor", Json::text(sensor));
    put(&mut v, "temperature_c", Json::Decimal { units: decicelsius as i64, places: 1 });
    put(&mut v, "curve_duty_percent", Json::number(curve_duty.percent() as u64));
    put(&mut v, "curve", Json::list(list));
    put(&mut v, "hysteresis_c", Json::Number(config.fan.hysteresis_c as i128));
    put(&mut v, "floor_percent", Json::number(config.fan.min_duty as u64));
    put(&mut v, "safe_percent", Json::number(config.fan.safe_duty as u64));
    put(&mut v, "stopping_allowed", Json::Bool(config.fan.allow_stop));
    assert(members(v@) =~= state_tree(
        *config,
        mode,
        points@,
        curve_duty,
        sensor@,
        decicelsius,
    )->Object_0);
    Json::object(v)
}

// ---------------------------------------------------------------------------------------------
// Watching
// ---------------------------------------------------------------------------------------------

/// What is said of an iteration in JSON.
pub open spec fn step_tree(step: Step) -> Tree {
    match step {
        Step::Applied { decicelsius, duty, wrote } => Tree::Object(
            seq![
                ("temperature_c"@, Tree::Decimal(decicelsius as int, 1)),
                ("duty_percent"@, Tree::Number(duty.value() as int)),
                ("would_write"@, Tree::Bool(wrote)),
                ("sensor_ok"@, Tree::Bool(true)),
            ],
        ),
        Step::SensorFailed { fallback, consecutive } => Tree::Object(
            seq![
                ("temperature_c"@, Tree::Null),
                ("duty_percent"@, Tree::Number(fallback.value() as int)),
                ("would_write"@, Tree::Bool(true)),
                ("sensor_ok"@, Tree::Bool(false)),
                ("consecutive_failures"@, Tree::Number(consecutive as int)),
            ],
        ),
    }
}

/// One controller iteration in JSON. A failed sensor read is its own shape: the temperature is
/// `null` and the duty is the fallback, so nothing reads a fallback as a measurement.
pub fn json_step(step: Step) -> (j: Json)
    ensures
        j.tree() == step_tree(step),
{
    let mut v: Vec<Member> = no_members();
    match step {
        Step::Applied { decicelsius, duty, wrote } => {
            put(&mut v, "temperature_c", Json::Decimal { units: decicelsius as i64, places: 1 });
            put(&mut v, "duty_percent", Json::number(duty.percent() as u64));
            put(&mut v, "would_write", Json::Bool(wrote));
            put(&mut v, "sensor_ok", Json::Bool(true));
        },
        Step::SensorFailed { fallback, consecutive } => {
            put(&mut v, "temperature_c", Json::Null);
            put(&mut v, "duty_percent", Json::number(fallback.percent() as u64));
            put(&mut v, "would_write", Json::Bool(true));
            put(&mut v, "sensor_ok", Json::Bool(false));
            put(&mut v, "consecutive_failures", Json::number(consecutive as u64));
        },
    }
    assert(members(v@) =~= step_tree(step)->Object_0);
    Json::object(v)
}

/// What is printed of one iteration. `duty` is its duty in words.
pub fn step_line(step: Step, duty: &str) -> (s: String)
    ensures
        s@ == match step {
            Step::Applied { decicelsius, wrote, .. } => "  "@ + pad_left(tenths(decicelsius), 7)
                + "C  "@ + pad_left(duty@, 6) + "  "@ + pad_left(
                if wrote {
                    "yes"@
                } else {
                    "-"@
                },
                6,
            ),
            Step::SensorFailed { consecutive, .. } => "  "@ + pad_left("-"@, 8) + "  "@ + pad_left(
                duty@,
                6,
            ) + "  "@ + pad_left("yes"@, 6) + "  sensor read failed ("@ + decimal(
                consecutive as nat,
            ) + " in a row)"@,
        },
{
    match step {
        Step::Applied { decicelsius, duty: _, wrote } => {
            let mut s: String = join(
                "  ",
                right_aligned(tenths_of(decicelsius).as_str(), 7).as_str(),
            );
            s.append("C  ");
            s.append(right_aligned(duty, 6).as_str());
            s.append("  ");
            s.append(
                right_aligned(
                    if wrote {
                        "yes"
                    } else {
                        "-"
                    },
                    6,
                ).as_str(),
            );
            s
        },
        Step::SensorFailed { fallback: _, consecutive } => {
            let mut s: String = join("  ", right_aligned("-", 8).as_str());
            s.append("  ");
            s.append(right_aligned(duty, 6).as_str());
            s.append("  ");
            s.append(right_aligned("yes", 6).as_str());
            s.append("  sensor read failed (");
            s.append(decimal_of(consecutive as u64).as_str());
            s.append(" in a row)");
            s
        },
    }
}

/// The lines of writes: an address each, and bytes.
pub open spec fn write_lines(writes: Seq<(u8, Vec<u8>)>) -> Seq<char>
    decreases writes.len(),
{
    if writes.len() == 0 {
        Seq::empty()
    } else {
        write_lines(writes.drop_last()) + wire_words(writes.last().0, writes.last().1@) + "\n"@
    }
}

/// One write: an address, and bytes.
pub open spec fn wire_words(addr: u8, bytes: Seq<u8>) -> Seq<char> {
    "  i2c 0x"@ + hex(addr) + " <- "@ + joined(hex_words(bytes), " "@)
}

/// What is printed of the writes that were recorded rather than performed.
pub fn writes_text(writes: &Vec<(u8, Vec<u8>)>) -> (s: String)
    ensures
        s@ == "\nWould have written "@ + decimal(writes@.len()) + " transaction(s):\n"@
            + write_lines(writes@),
{
    let mut lines: String = String::new();
    let mut i: usize = 0;
    assert(writes@.take(0) =~= Seq::<(u8, Vec<u8>)>::empty());
    while i < writes.len()
        invariant
            i <= writes.len(),
            lines@ == write_lines(writes@.take(i as int)),
        decreases writes.len() - i,
    {
        assert(writes@.take(i + 1).drop_last() =~= writes@.take(i as int));
        let w: &(u8, Vec<u8>) = &writes[i];
        let mut line: String = join("  i2c 0x", hex_of(w.0).as_str());
        line.append(" <- ");
        line.append(hex_joined(w.1.as_slice(), " ").as_str());
        lines.append(line.as_str());
        lines.append("\n");
        i = i + 1;
    }
    assert(writes@.take(i as int) =~= writes@);
    let mut s: String = join("\nWould have written ", decimal_of(writes.len() as u64).as_str());
    s.append(" transaction(s):\n");
    s.append(lines.as_str());
    s
}

/// Watching stops after so many iterations; a count of 0 means never.
pub fn stops_after(iterations: usize, count: usize) -> (r: bool)
    ensures
        r == (count > 0 && iterations >= count),
{
    count > 0 && iterations >= count
}

// ---------------------------------------------------------------------------------------------
// Writing
// ---------------------------------------------------------------------------------------------

/// The I2C bus to use: the one that is configured, or, for `auto`, the one that was discovered.
pub fn resolve_bus(config: &Config, discovered: Option<&str>) -> (r: Result<String, &'static str>)
    ensures
        match r {
            Ok(p) => if config.mcu.bus@ == "auto"@ {
                discovered is Some && p@ == (discovered->0)@
            } else {
                p@ == config.mcu.bus@
            },
            Err(e) => config.mcu.bus@ == "auto"@ && discovered is None && e@
                == "no I2C bus found; is dtparam=i2c_arm=on set?"@,
        },
{
    if !same(config.mcu.bus.as_str(), "auto") {
        return Ok(config.mcu.bus.clone());
    }
    match discovered {
        Some(p) => Ok(p.to_owned()),
        None => Err("no I2C bus found; is dtparam=i2c_arm=on set?"),
    }
}

/// The name of a dialect.
pub open spec fn dialect_word(d: Dialect) -> Seq<char> {
    match d {
        Dialect::Legacy => "Legacy"@,
        Dialect::Register => "Register"@,
    }
}

/// The byte of a percentage: at most 100.
pub open spec fn duty_byte(percent: u8) -> u8 {
    if percent <= 100 {
        percent
    } else {
        100
    }
}

/// The bytes that set a duty as it was asked for, in a dialect.
pub open spec fn set_frame(dialect: Dialect, percent: u8) -> Seq<u8> {
    match dialect {
        Dialect::Legacy => seq![duty_byte(percent)],
        Dialect::Register => seq![0x80u8, duty_byte(percent)],
    }
}

/// The dialect that a configuration names.
pub open spec fn dialect_of(config: Config) -> Dialect {
    match Dialect::named(config.mcu.dialect@) {
        Some(d) => d,
        None => Dialect::Legacy,
    }
}

/// What setting a duty puts on the wire, and what is printed of it.
///
/// Deliberately not raised to the duty at which a fan turns, `min_spinning`: that is right for a
/// curve point and wrong for a test command, so it is only pointed out. In the configured dialect:
/// a legacy byte sent to an MCU with the register protocol is unobserved behaviour.
pub fn set_duty(config: &Config, percent: u8, min_spinning: u8) -> (r: (Vec<u8>, String))
    ensures
        ({
            let byte = duty_byte(percent);
            let dialect = dialect_of(*config);
            &&& r.0@ == set_frame(dialect, percent)
            &&& r.1@ == "Fan to "@ + decimal(byte as nat) + "% ("@ + dialect_word(dialect)
                + " dialect)\n  on the wire: i2c 0x1a <- "@ + joined(hex_words(r.0@), " "@) + "\n"@
                + (if 0 < byte < min_spinning {
                "  note: below "@ + decimal(min_spinning as nat)
                    + "%, the duty at which a fan is documented to turn at all. Sent as\n  asked -- finding out what this firmware does with it is the point.\n"@
            } else {
                Seq::empty()
            })
        }),
{
    let byte: u8 = if percent <= 100 {
        percent
    } else {
        100
    };
    let dialect: Dialect = config.mcu.dialect();
    let (frame, name): (Vec<u8>, &str) = match dialect {
        Dialect::Legacy => (vec![byte], "Legacy"),
        Dialect::Register => (vec![0x80u8, byte], "Register"),
    };
    assert(frame@ =~= set_frame(dialect, percent));
    let mut s: String = join("Fan to ", decimal_of(byte as u64).as_str());
    s.append("% (");
    s.append(name);
    s.append(" dialect)\n  on the wire: i2c 0x1a <- ");
    s.append(hex_joined(frame.as_slice(), " ").as_str());
    s.append("\n");
    let note: String = if byte > 0 && byte < min_spinning {
        let mut n: String = join("  note: below ", decimal_of(min_spinning as u64).as_str());
        n.append(
            "%, the duty at which a fan is documented to turn at all. Sent as\n  asked -- finding out what this firmware does with it is the point.\n",
        );
        n
    } else {
        String::new()
    };
    s.append(note.as_str());
    (frame, s)
}

/// Whether a duty that was asked for is sent.
#[derive(Clone, Copy, Debug, PartialEq, Eq, Structural)]
pub enum Sending {
    /// It is not: the command to write was not given.
    NotAsked,
    /// It is not: the daemon runs, and would overwrite it within a poll.
    DaemonRuns,
    /// It is.
    Send,
}

/// Decides whether a duty that was asked for is sent.
pub fn may_send(write: bool, argond_running: bool) -> (r: Sending)
    ensures
        r == if !write {
            Sending::NotAsked
        } else if argond_running {
            Sending::DaemonRuns
        } else {
            Sending::Send
        },
{
    if !write {
        Sending::NotAsked
    } else if argond_running {
        Sending::DaemonRuns
    } else {
        Sending::Send
    }
}

/// A step of the experiment that settles which protocol the MCU speaks.
#[derive(Clone, Copy, Debug, PartialEq, Eq, Structural)]
pub enum Trial {
    /// Write this one byte.
    Write(u8),
    /// Read register `0x80`: the hazardous transaction, on purpose.
    Read,
}

/// The step of that name.
pub open spec fn trial_named(step: Seq<char>) -> Option<Trial> {
    if step == "baseline"@ {
        Some(Trial::Write(25))
    } else if step == "probe"@ {
        Some(Trial::Read)
    } else if step == "restore"@ {
        Some(Trial::Write(50))
    } else {
        None
    }
}

/// What a step is, in words.
pub open spec fn trial_words(trial: Trial, step: Seq<char>) -> Seq<char> {
    "T5 step `"@ + step + "`: "@ + (match trial {
        Trial::Write(25) => "legacy write, fan to 25%\n  on the wire: i2c 0x1a <- 19\n"@,
        Trial::Write(_) => "legacy write, fan to 50%\n  on the wire: i2c 0x1a <- 32\n"@,
        Trial::Read => "register READ of 0x80 -- the hazardous transaction, on purpose\n  on the wire: i2c S 1a+W 80 Sr 1a+R <one byte> P\n"@,
    })
}

/// The step of that name, and what is printed of it; or what is said of a name that is none.
///
/// The steps are separate invocations rather than one timed script, because the evidence is a sound
/// in the room. A register read puts the register number on the bus as a write first, so on legacy
/// firmware `0x80` lands as a fan duty of 128, where register firmware answers with the stored duty
/// and does not move the fan at all.
pub fn t5(step: &str) -> (r: Result<(Trial, String), String>)
    ensures
        match r {
            Ok((trial, s)) => trial_named(step@) == Some(trial) && s@ == trial_words(trial, step@),
            Err(e) => trial_named(step@) is None && e@ == "argonctl: unknown --t5 step "@
                + debug_text(step@) + "; expected baseline, probe or restore"@,
        },
{
    proof {
        reveal_strlit("baseline");
        reveal_strlit("probe");
        reveal_strlit("restore");
        assert("baseline"@.len() == 8 && "probe"@.len() == 5 && "restore"@.len() == 7);
    }
    let (trial, what): (Trial, &str) = if same(step, "baseline") {
        (Trial::Write(25), "legacy write, fan to 25%\n  on the wire: i2c 0x1a <- 19\n")
    } else if same(step, "probe") {
        (
            Trial::Read,
            "register READ of 0x80 -- the hazardous transaction, on purpose\n  on the wire: i2c S 1a+W 80 Sr 1a+R <one byte> P\n",
        )
    } else if same(step, "restore") {
        (Trial::Write(50), "legacy write, fan to 50%\n  on the wire: i2c 0x1a <- 32\n")
    } else {
        let mut e: String = join("argonctl: unknown --t5 step ", debug_of(step).as_str());
        e.append("; expected baseline, probe or restore");
        return Err(e);
    };
    let mut s: String = join("T5 step `", step);
    s.append("`: ");
    s.append(what);
    Ok((trial, s))
}

/// What is printed of the register read: the byte that came back, or why none did.
pub fn t5_read_text(read: Result<u8, &str>) -> (s: String)
    ensures
        s@ == match read {
            Ok(b) => "\n  returned: 0x"@ + hex(b) + " ("@ + decimal(b as nat)
                + ")\n\n  LISTEN NOW.\n  Fan pinned at FULL and staying there -> LEGACY firmware: it read 0x80\n  as a duty of 128. The returned byte is then meaningless.\n  Fan unchanged, and the byte reads like the 25 we just set -> REGISTER\n  firmware.\n"@,
            Err(e) => "\n  the read failed: "@ + e@
                + "\n  A refusal is evidence too: a device that NAKs a register read is not\n  speaking the register protocol. Listen anyway -- the register number\n  reached the bus before any NAK could stop it.\n"@,
        },
{
    match read {
        Ok(b) => {
            let mut s: String = join("\n  returned: 0x", hex_of(b).as_str());
            s.append(" (");
            s.append(decimal_of(b as u64).as_str());
            s.append(
                ")\n\n  LISTEN NOW.\n  Fan pinned at FULL and staying there -> LEGACY firmware: it read 0x80\n  as a duty of 128. The returned byte is then meaningless.\n  Fan unchanged, and the byte reads like the 25 we just set -> REGISTER\n  firmware.\n",
            );
            s
        },
        Err(e) => {
            let mut s: String = join("\n  the read failed: ", e);
            s.append(
                "\n  A refusal is evidence too: a device that NAKs a register read is not\n  speaking the register protocol. Listen anyway -- the register number\n  reached the bus before any NAK could stop it.\n",
            );
            s
        },
    }
}

/// What is printed of asking whether anything answers at the MCU's address, and whether it is a
/// success. An answer says no more than that something acknowledged its address; nobody answering is
/// an answer too.
pub fn probe_text(answer: Result<bool, &str>) -> (r: (bool, String))
    ensures
        r.0 == answer is Ok,
        r.1@ == match answer {
            Ok(true) => "\n  ANSWERED. Something is at 0x1a and acknowledged its address.\n  That is all this says: not which firmware, not which dialect, and not that\n  it is a fan controller. Deciding the dialect is task T5, and there is no safe\n  probe for it -- see docs/design/adr/0002-legacy-mcu-dialect-by-default.md.\n"@,
            Ok(false) => "\n  NO ANSWER at 0x1a: nothing acknowledged the address.\n  On a Pi 5 in an Argon ONE V5 this is expected -- that case has no such\n  device, and the kernel drives the fan (T11).\n"@,
            Err(e) => "\nargonctl: the probe itself failed: "@ + e@ + "\n"@,
        },
{
    match answer {
        Ok(true) => (
            true,
            "\n  ANSWERED. Something is at 0x1a and acknowledged its address.\n  That is all this says: not which firmware, not which dialect, and not that\n  it is a fan controller. Deciding the dialect is task T5, and there is no safe\n  probe for it -- see docs/design/adr/0002-legacy-mcu-dialect-by-default.md.\n".to_owned(),
        ),
        Ok(false) => (
            true,
            "\n  NO ANSWER at 0x1a: nothing acknowledged the address.\n  On a Pi 5 in an Argon ONE V5 this is expected -- that case has no such\n  device, and the kernel drives the fan (T11).\n".to_owned(),
        ),
        Err(e) => {
            let mut s: String = join("\nargonctl: the probe itself failed: ", e);
            s.append("\n");
            (false, s)
        },
    }
}

/// Whether the safe duty is written.
#[derive(Clone, Debug, PartialEq, Eq)]
pub enum Safe {
    /// It is.
    Write,
    /// It is not, and this is a success: what is said.
    Nothing(String),
    /// It is not, and this is a failure: what is said.
    Failed(String),
}

/// What is said where the mode does not allow a write. A safety fallback that ignores the mode
/// would be a way to write to the hardware from a configuration that says not to.
pub fn safe_refusal(mode: Mode) -> (r: Option<String>)
    ensures
        match r {
            Some(s) => !mode.writes() && s@ == "argonctl: mode is "@ + mode.name()
                + ", so nothing was written.\nIn read-only mode this daemon never drove the fan, so there is nothing to restore."@,
            None => mode.writes(),
        },
{
    if mode.allows_writes() {
        return None;
    }
    let mut s: String = join("argonctl: mode is ", mode.as_str());
    s.append(
        ", so nothing was written.\nIn read-only mode this daemon never drove the fan, so there is nothing to restore.",
    );
    Some(s)
}

/// Decides whether the safe duty is written, once it was asked whether an MCU answers: "nothing
/// answered" means "write nothing", not "write anyway and log the error".
pub fn set_safe(present: Result<bool, &str>, bus: &str) -> (r: Safe)
    ensures
        match present {
            Ok(true) => r is Write,
            Ok(false) => r matches Safe::Nothing(s) && s@ == "no Argon MCU answers at 0x1a on "@
                + bus@ + "; nothing to restore"@,
            Err(e) => r matches Safe::Failed(s) && s@ == "argonctl: cannot probe "@ + bus@ + ": "@
                + e@,
        },
{
    match present {
        Ok(true) => Safe::Write,
        Ok(false) => {
            let mut s: String = join("no Argon MCU answers at 0x1a on ", bus);
            s.append("; nothing to restore");
            Safe::Nothing(s)
        },
        Err(e) => {
            let mut s: String = join("argonctl: cannot probe ", bus);
            s.append(": ");
            s.append(e);
            Safe::Failed(s)
        },
    }
}

/// The duty that a test command sends is never more than full, whatever is asked for.
pub proof fn law_a_set_duty_is_at_most_full(dialect: Dialect, percent: u8)
    ensures
        set_frame(dialect, percent).last() <= 100,
        percent <= 100 ==> set_frame(dialect, percent).last() == percent,
{
}

/// What the daemon has the fan doing is told from what it reported: nothing before its first
/// iteration, the duty where it drives the fan, off where that is none, and that it does not drive
/// it otherwise.
pub proof fn law_the_daemons_fan_is_told_as_reported(fields: &Fields, s: String)
    requires
        call_ensures(daemon_fan_state, (fields,), s),
    ensures
        ({
            let f = field_views(fields@);
            let up = value_of(f, "available"@) == Some("yes"@);
            let driving = value_of(f, "driving"@) == Some("yes"@);
            &&& !up ==> s@ == "argond is running, but has not completed a control iteration yet."@
            &&& up && driving ==> begins(s@, "argond has the fan "@)
            &&& up && !driving ==> begins(s@, "argond is running"@)
            &&& up && driving && (value_of(f, "duty_percent"@) == Some("0"@) || value_of(
                f,
                "duty_percent"@,
            ) is None) ==> begins(s@, "argond has the fan "@ + "off"@)
            &&& up && driving && (value_of(f, "duty_percent"@) matches Some(d) && d.len() > 0 && d
                != "0"@) ==> begins(
                s@,
                "argond has the fan "@ + value_of(f, "duty_percent"@)->0 + "%"@,
            )
        }),
{
    let f = field_views(fields@);
    reveal_strlit("yes");
    assert("yes"@.len() == 3);
    let a = "argond has the fan "@;
    let b = "argond is running"@;
    let off = a + "off"@;
    if s@.len() >= a.len() && s@.take(a.len() as int) =~= a {
    }
    if s@.len() >= b.len() && s@.take(b.len() as int) =~= b {
    }
    if s@.len() >= off.len() && s@.take(off.len() as int) =~= off {
    }
    if value_of(f, "duty_percent"@) is Some {
        let h = a + value_of(f, "duty_percent"@)->0 + "%"@;
        if s@.len() >= h.len() && s@.take(h.len() as int) =~= h {
        }
    }
}

/// A test command sends the percentage that was asked for, cut off at a hundred, in the configured
/// dialect.
pub proof fn law_a_test_command_sends_what_was_asked_for(
    config: &Config,
    percent: u8,
    min_spinning: u8,
    r: (Vec<u8>, String),
)
    requires
        call_ensures(set_duty, (config, percent, min_spinning), r),
    ensures
        percent <= 100 ==> r.0@.last() == percent,
        percent > 100 ==> r.0@.last() == 100,
        config.mcu.dialect@ == "register"@ ==> r.0@.len() == 2 && r.0@[0] == 0x80,
        config.mcu.dialect@ != "register"@ ==> r.0@.len() == 1,
        begins(r.1@, "Fan to "@ + decimal(r.0@.last() as nat) + "% ("@),
{
    reveal_strlit("legacy");
    reveal_strlit("register");
    assert("legacy"@.len() == 6 && "register"@.len() == 8);
    let h = "Fan to "@ + decimal(duty_byte(percent) as nat) + "% ("@;
    assert(r.1@.take(h.len() as int) =~= h);
}

/// Nothing is sent unless writing was asked for, and never beside a daemon that would overwrite it.
pub proof fn law_nothing_is_sent_unasked(write: bool, running: bool, r: Sending)
    requires
        call_ensures(may_send, (write, running), r),
    ensures
        r == Sending::Send <==> write && !running,
        r == Sending::NotAsked <==> !write,
        r == Sending::DaemonRuns <==> write && running,
{
}

/// The experiment has three steps, and no other: a write of 25 percent, the register read, and a write
/// of 50.
pub proof fn law_the_experiment_has_three_steps(step: &str, r: Result<(Trial, String), String>)
    requires
        call_ensures(t5, (step,), r),
    ensures
        r matches Ok((t, _)) ==> (t == Trial::Write(25) <==> step@ == "baseline"@) && (t
            == Trial::Read <==> step@ == "probe"@) && (t == Trial::Write(50) <==> step@
            == "restore"@),
        r is Ok <==> step@ == "baseline"@ || step@ == "probe"@ || step@ == "restore"@,
{
    reveal_strlit("baseline");
    reveal_strlit("probe");
    reveal_strlit("restore");
    assert("baseline"@.len() == 8 && "probe"@.len() == 5 && "restore"@.len() == 7);
}

/// The safe duty is written exactly where the mode writes and an MCU answers; nobody answering is no
/// failure, not being able to ask is one.
pub proof fn law_the_safe_duty_is_written_where_it_may_be(
    mode: Mode,
    refusal: Option<String>,
    bus: &str,
    e: &str,
    yes: Safe,
    no: Safe,
    failed: Safe,
)
    requires
        call_ensures(safe_refusal, (mode,), refusal),
        call_ensures(set_safe, (Ok::<bool, &str>(true), bus), yes),
        call_ensures(set_safe, (Ok::<bool, &str>(false), bus), no),
        call_ensures(set_safe, (Err::<bool, &str>(e), bus), failed),
    ensures
        refusal is Some <==> mode == Mode::ReadOnly,
        yes is Write,
        no is Nothing,
        failed is Failed,
{
}

/// Asking whether anything answers is a success exactly where it could be asked.
pub proof fn law_no_answer_is_an_answer(
    e: &str,
    yes: (bool, String),
    no: (bool, String),
    failed: (bool, String),
)
    requires
        call_ensures(probe_text, (Ok::<bool, &str>(true),), yes),
        call_ensures(probe_text, (Ok::<bool, &str>(false),), no),
        call_ensures(probe_text, (Err::<bool, &str>(e),), failed),
    ensures
        yes.0 && no.0 && !failed.0,
        yes.1@ != no.1@,
{
    reveal_strlit("\n  ANSWERED. Something is at 0x1a and acknowledged its address.\n  That is all this says: not which firmware, not which dialect, and not that\n  it is a fan controller. Deciding the dialect is task T5, and there is no safe\n  probe for it -- see docs/design/adr/0002-legacy-mcu-dialect-by-default.md.\n");
    reveal_strlit("\n  NO ANSWER at 0x1a: nothing acknowledged the address.\n  On a Pi 5 in an Argon ONE V5 this is expected -- that case has no such\n  device, and the kernel drives the fan (T11).\n");
    assert(yes.1@[3] == 'A' && no.1@[3] == 'N');
}

/// The bus is the configured one, or the one that was discovered where that is left open, and there is
/// an error exactly where neither is there.
pub proof fn law_the_bus_is_configured_or_discovered(
    config: &Config,
    discovered: Option<&str>,
    r: Result<String, &'static str>,
)
    requires
        call_ensures(resolve_bus, (config, discovered), r),
    ensures
        r is Err <==> config.mcu.bus@ == "auto"@ && discovered is None,
        r is Ok && config.mcu.bus@ != "auto"@ ==> (r->Ok_0)@ == config.mcu.bus@,
        r is Ok && config.mcu.bus@ == "auto"@ ==> (r->Ok_0)@ == (discovered->0)@,
{
}

/// Watching ends after as many iterations as were asked for, and never where none were.
pub proof fn law_watching_ends_when_it_was_asked_to(iterations: usize, count: usize, r: bool)
    requires
        call_ensures(stops_after, (iterations, count), r),
    ensures
        count == 0 ==> !r,
        count > 0 ==> (r <==> iterations >= count),
{
}

/// An iteration is given as it was: a measurement with its temperature, and a failure without one.
pub proof fn law_a_fallback_is_no_measurement(
    dc: i32,
    d: FanDuty,
    wrote: bool,
    n: u32,
    ok: Json,
    failed: Json,
)
    requires
        call_ensures(json_step, (Step::Applied { decicelsius: dc, duty: d, wrote },), ok),
        call_ensures(json_step, (Step::SensorFailed { fallback: d, consecutive: n },), failed),
    ensures
        ok.tree() is Object && failed.tree() is Object,
        (ok.tree()->Object_0)[0] == ("temperature_c"@, Tree::Decimal(dc as int, 1)),
        (ok.tree()->Object_0)[1] == ("duty_percent"@, Tree::Number(d.value() as int)),
        (ok.tree()->Object_0)[2] == ("would_write"@, Tree::Bool(wrote)),
        (ok.tree()->Object_0)[3] == ("sensor_ok"@, Tree::Bool(true)),
        (failed.tree()->Object_0)[0] == ("temperature_c"@, Tree::Null),
        (failed.tree()->Object_0)[1] == ("duty_percent"@, Tree::Number(d.value() as int)),
        (failed.tree()->Object_0)[3] == ("sensor_ok"@, Tree::Bool(false)),
        (failed.tree()->Object_0)[4] == ("consecutive_failures"@, Tree::Number(n as int)),
{
}

/// The fan's state is given with the temperature, the curve's own answer, every point of the curve in
/// order, and the floor, the safe duty and the hysteresis that were configured.
pub proof fn law_the_curve_is_given_point_by_point(
    config: &Config,
    mode: Mode,
    points: &Vec<CurvePoint>,
    curve_duty: FanDuty,
    sensor: &str,
    dc: i32,
    j: Json,
    i: int,
)
    requires
        call_ensures(json_state, (config, mode, points, curve_duty, sensor, dc), j),
        0 <= i < points@.len(),
    ensures
        j.tree() is Object,
        ({
            let m = j.tree()->Object_0;
            &&& m.len() == 10
            &&& m[3] == ("temperature_c"@, Tree::Decimal(dc as int, 1))
            &&& m[4] == ("curve_duty_percent"@, Tree::Number(curve_duty.value() as int))
            &&& m[5].0 == "curve"@ && m[5].1 is List
            &&& (m[5].1->List_0).len() == points@.len()
            &&& (m[5].1->List_0)[i] == Tree::Object(
                seq![
                    ("celsius"@, Tree::Number(points@[i].celsius as int)),
                    ("duty_percent"@, Tree::Number(points@[i].duty.value() as int)),
                ],
            )
            &&& m[6] == ("hysteresis_c"@, Tree::Number(config.fan.hysteresis_c as int))
            &&& m[7] == ("floor_percent"@, Tree::Number(config.fan.min_duty as int))
            &&& m[8] == ("safe_percent"@, Tree::Number(config.fan.safe_duty as int))
            &&& m[9] == ("stopping_allowed"@, Tree::Bool(config.fan.allow_stop))
        }),
{
    let list = points@.map_values(|p: CurvePoint| point_tree(p));
    assert(list[i] == point_tree(points@[i]));
}

/// What would be written is explained exactly where it is not what the curve says.
pub proof fn law_a_duty_off_the_curve_is_explained(
    config: &Config,
    dc: i32,
    curve: FanDuty,
    cw: &str,
    write: FanDuty,
    ww: &str,
    s: String,
)
    requires
        call_ensures(now_line, (config, dc, curve, cw, write, ww), s),
    ensures
        ({
            let line = "Now:    "@ + tenths(dc) + "C -> curve says "@ + cw@ + ", would write "@ + ww@;
            &&& write == curve ==> s@ == line
            &&& write != curve && config.fan.allow_stop ==> s@ == line + (" (floor "@ + decimal(
                config.fan.min_duty as nat,
            ) + "%, stopping "@ + "allowed"@ + ")"@)
            &&& write != curve && !config.fan.allow_stop ==> s@ == line + (" (floor "@ + decimal(
                config.fan.min_duty as nat,
            ) + "%, stopping "@ + "not allowed"@ + ")"@)
        }),
{
    let line = "Now:    "@ + tenths(dc) + "C -> curve says "@ + cw@ + ", would write "@ + ww@;
    assert(line + Seq::<char>::empty() =~= line);
}

/// Every point of the curve and every write gets a line of its own behind those before it.
pub proof fn law_each_point_and_each_write_gets_its_line(
    points: Seq<(i32, String)>,
    p: (i32, String),
    writes: Seq<(u8, Vec<u8>)>,
    w: (u8, Vec<u8>),
)
    ensures
        curve_lines(points.push(p)) == curve_lines(points) + "  >= "@ + pad_left(
            signed_decimal(p.0 as int),
            3,
        ) + "C   "@ + p.1@ + "\n"@,
        write_lines(writes.push(w)) == write_lines(writes) + ("  i2c 0x"@ + hex(w.0) + " <- "@
            + joined(hex_words(w.1@), " "@)) + "\n"@,
        curve_lines(Seq::empty()).len() == 0,
        write_lines(Seq::empty()).len() == 0,
{
    assert(points.push(p).drop_last() =~= points);
    assert(writes.push(w).drop_last() =~= writes);
}

/// An iteration is printed with its temperature, its duty and whether it would write, and a failed one
/// as a failure, with how many there were in a row.
pub proof fn law_an_iteration_is_printed_as_it_was(
    dc: i32,
    d: FanDuty,
    n: u32,
    duty: &str,
    wrote: String,
    kept: String,
    failed: String,
)
    requires
        call_ensures(step_line, (Step::Applied { decicelsius: dc, duty: d, wrote: true }, duty), wrote),
        call_ensures(step_line, (Step::Applied { decicelsius: dc, duty: d, wrote: false }, duty), kept),
        call_ensures(step_line, (Step::SensorFailed { fallback: d, consecutive: n }, duty), failed),
    ensures
        ({
            let line = "  "@ + pad_left(tenths(dc), 7) + "C  "@ + pad_left(duty@, 6) + "  "@;
            &&& wrote@ == line + pad_left("yes"@, 6)
            &&& kept@ == line + pad_left("-"@, 6)
            &&& failed@ == "  "@ + pad_left("-"@, 8) + "  "@ + pad_left(duty@, 6) + "  "@ + pad_left(
                "yes"@,
                6,
            ) + "  sensor read failed ("@ + decimal(n as nat) + " in a row)"@
        }),
{
}

} // verus!
