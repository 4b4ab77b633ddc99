//! The UPS status file the daemon publishes, and what is worth telling a person about it.
//!
//! The daemon runs as a system service and cannot reach a desktop session's bus, so it writes its
//! state to a file and an agent inside the session turns changes into notifications. A plain
//! `key=value` file keeps that boundary trivial to inspect with `cat`.

use crate::text::{
    debug_of, debug_text, decimal, decimal_of, field, field_line, field_of, is_value, join,
    key_value, lemma_decimal_is_value, law_field_is_read_back, law_lines_are_read_back,
    law_number_of_decimal, lines, lines_of, lines_text, number, parse_number, same, trim, trimmed,
    views, FileText,
};
use crate::time::{Duration, SystemTime, MAX_NANOS, NANOS_PER_SEC};
use vstd::prelude::*;

verus! {

/// Where the daemon publishes UPS status by default.
pub const DEFAULT_PATH: &'static str = "/run/argon-utils/ups.state";

/// The format version. Bumped on any incompatible change.
pub const VERSION: u32 = 1;

/// How old a status may be before it counts as stale, in seconds.
pub const STALE_AFTER: u64 = 60;

/// The battery policy's level.
#[derive(Clone, Copy, Debug, PartialEq, Eq, Structural)]
pub enum Level {
    /// Mains power is there.
    OnMains,
    /// Running on battery.
    OnBattery,
    /// On battery, at or below the low threshold.
    Low,
    /// On battery, confirmed at or below the critical threshold.
    Critical,
    /// The UPS could not be read.
    Unknown,
}

/// The name of a level in the status file.
pub open spec fn name_of(level: Level) -> Seq<char> {
    match level {
        Level::OnMains => "on-mains"@,
        Level::OnBattery => "on-battery"@,
        Level::Low => "low"@,
        Level::Critical => "critical"@,
        Level::Unknown => "unknown"@,
    }
}

/// The status-file name for a policy level.
pub fn level_name(level: Level) -> (s: &'static str)
    ensures
        s@ == name_of(level),
{
    match level {
        Level::OnMains => "on-mains",
        Level::OnBattery => "on-battery",
        Level::Low => "low",
        Level::Critical => "critical",
        Level::Unknown => "unknown",
    }
}

/// A snapshot of UPS state as published by the daemon.
#[derive(Clone, Debug, PartialEq, Eq)]
pub struct UpsStatus {
    /// When this was written.
    pub updated: SystemTime,
    /// The policy's level: `on-mains`, `on-battery`, `low`, `critical` or `unknown`.
    pub level: String,
    /// Charge percentage, if the last read succeeded.
    pub percent: Option<u8>,
    /// When the scheduled poweroff will happen, if one is pending.
    pub shutdown_at: Option<SystemTime>,
}

/// What a status says: points in time in nanoseconds since the start of 1970.
pub struct StatusView {
    /// When it was written.
    pub updated: int,
    /// The level.
    pub level: Seq<char>,
    /// Charge percentage.
    pub percent: Option<nat>,
    /// When the poweroff will happen.
    pub shutdown_at: Option<int>,
}

impl View for UpsStatus {
    type V = StatusView;

    open spec fn view(&self) -> StatusView {
        StatusView {
            updated: self.updated.ns(),
            level: self.level@,
            percent: match self.percent {
                Some(p) => Some(p as nat),
                None => None,
            },
            shutdown_at: match self.shutdown_at {
                Some(t) => Some(t.ns()),
                None => None,
            },
        }
    }
}

/// So many seconds after the start of 1970, in nanoseconds.
pub open spec fn stamp(secs: nat) -> int {
    secs * NANOS_PER_SEC as int
}

/// What is known of a status after some of its lines.
pub struct Draft {
    /// The format version, where the last line that gives one is a number.
    pub version: Option<nat>,
    /// When it was written, in seconds, where the last line that says so is a number.
    pub updated: Option<nat>,
    /// The level.
    pub level: Option<Seq<char>>,
    /// Charge percentage.
    pub percent: Option<nat>,
    /// When the poweroff will happen, in seconds.
    pub shutdown_at: Option<nat>,
}

impl Draft {
    /// Nothing is known.
    pub open spec fn empty() -> Draft {
        Draft { version: None, updated: None, level: None, percent: None, shutdown_at: None }
    }

    /// What is known after one more line. Unknown keys are ignored, and so are an empty percentage
    /// and an empty poweroff time; one that is not a number is an error.
    pub open spec fn with_line(self, line: Seq<char>) -> Result<Draft, Seq<char>> {
        match field_of(line) {
            None => Ok(self),
            Some((k, v)) => if k == "version"@ {
                Ok(Draft { version: number(v, u32::MAX as nat), ..self })
            } else if k == "updated"@ {
                Ok(Draft { updated: number(v, u64::MAX as nat), ..self })
            } else if k == "level"@ {
                Ok(Draft { level: Some(v), ..self })
            } else if k == "percent"@ && v.len() > 0 {
                match number(v, u8::MAX as nat) {
                    Some(p) => Ok(Draft { percent: Some(p), ..self }),
                    None => Err("bad percent "@ + debug_text(v)),
                }
            } else if k == "shutdown_at"@ && v.len() > 0 {
                match number(v, u64::MAX as nat) {
                    Some(s) => Ok(Draft { shutdown_at: Some(s), ..self }),
                    None => Err("bad shutdown_at "@ + debug_text(v)),
                }
            } else {
                Ok(self)
            },
        }
    }

    /// The status it amounts to, at the end of the file.
    pub open spec fn finished(self) -> Result<StatusView, Seq<char>> {
        match self.version {
            None => Err("missing version"@),
            Some(n) => if n != VERSION {
                Err("unsupported status version "@ + decimal(n))
            } else if self.updated is None {
                Err("missing updated"@)
            } else if self.level is None {
                Err("missing level"@)
            } else {
                Ok(
                    StatusView {
                        updated: stamp(self.updated->0),
                        level: self.level->0,
                        percent: self.percent,
                        shutdown_at: match self.shutdown_at {
                            Some(s) => Some(stamp(s)),
                            None => None,
                        },
                    },
                )
            },
        }
    }
}

/// What is known after the first `n` lines, or the first error in them.
pub open spec fn drafted(ls: Seq<Seq<char>>, n: int) -> Result<Draft, Seq<char>>
    decreases n,
{
    if n <= 0 {
        Ok(Draft::empty())
    } else {
        match drafted(ls, n - 1) {
            Ok(d) => d.with_line(ls[n - 1]),
            Err(e) => Err(e),
        }
    }
}

/// The status that a text is, or why it is none.
pub open spec fn parsed(text: Seq<char>) -> Result<StatusView, Seq<char>> {
    match drafted(lines(text), lines(text).len() as int) {
        Ok(d) => d.finished(),
        Err(e) => Err(e),
    }
}

/// The lines of a status file.
pub open spec fn status_lines(s: UpsStatus) -> Seq<Seq<char>> {
    seq![
        field_line("version"@, "1"@),
        field_line("updated"@, decimal(s.updated.unix_or_zero())),
        field_line("level"@, s.level@),
        field_line("percent"@, optional_decimal(s@.percent)),
        field_line(
            "shutdown_at"@,
            optional_decimal(
                match s.shutdown_at {
                    Some(t) => Some(t.unix_or_zero()),
                    None => None,
                },
            ),
        ),
    ]
}

/// A number in decimal, or nothing.
pub open spec fn optional_decimal(n: Option<nat>) -> Seq<char> {
    match n {
        Some(n) => decimal(n),
        None => Seq::empty(),
    }
}

fn optional_decimal_of(n: Option<u64>) -> (s: String)
    ensures
        s@ == optional_decimal(
            match n {
                Some(n) => Some(n as nat),
                None => None,
            },
        ),
{
    match n {
        Some(n) => decimal_of(n),
        None => String::new(),
    }
}

/// What is known of a status while its lines are read.
struct Fields {
    version: Option<u64>,
    updated: Option<u64>,
    level: Option<String>,
    percent: Option<u64>,
    shutdown_at: Option<u64>,
}

spec fn wide(n: Option<u64>) -> Option<nat> {
    match n {
        Some(n) => Some(n as nat),
        None => None,
    }
}

impl View for Fields {
    type V = Draft;

    closed spec fn view(&self) -> Draft {
        Draft {
            version: wide(self.version),
            updated: wide(self.updated),
            level: match self.level {
                Some(s) => Some(s@),
                None => None,
            },
            percent: wide(self.percent),
            shutdown_at: wide(self.shutdown_at),
        }
    }
}

impl Fields {
    fn line(self, line: &str) -> (r: Result<Fields, String>)
        requires
            self.percent is Some ==> self.percent->0 <= u8::MAX,
        ensures
            match r {
                Ok(f) => self@.with_line(line@) == Ok::<Draft, Seq<char>>(f@) && (f.percent is Some
                    ==> f.percent->0 <= u8::MAX),
                Err(e) => self@.with_line(line@) == Err::<Draft, Seq<char>>(e@),
            },
    {
        match field(line) {
            None => Ok(self),
            Some((k, v)) => {
                if same(k, "version") {
                    Ok(Fields { version: parse_number(v, 0xffff_ffff), ..self })
                } else if same(k, "updated") {
                    Ok(Fields { updated: parse_number(v, 0xffff_ffff_ffff_ffff), ..self })
                } else if same(k, "level") {
                    Ok(Fields { level: Some(v.to_owned()), ..self })
                } else if same(k, "percent") && !v.is_empty() {
                    match parse_number(v, 0xff) {
                        Some(p) => Ok(Fields { percent: Some(p), ..self }),
                        None => Err(join("bad percent ", debug_of(v).as_str())),
                    }
                } else if same(k, "shutdown_at") && !v.is_empty() {
                    match parse_number(v, 0xffff_ffff_ffff_ffff) {
                        Some(s) => Ok(Fields { shutdown_at: Some(s), ..self }),
                        None => Err(join("bad shutdown_at ", debug_of(v).as_str())),
                    }
                } else {
                    Ok(self)
                }
            },
        }
    }
}

impl UpsStatus {
    /// Serialises to the file format.
    pub fn to_text(&self) -> (s: String)
        ensures
            s@ == lines_text(status_lines(*self)),
    {
        let percent: Option<u64> = match self.percent {
            Some(p) => Some(p as u64),
            None => None,
        };
        let shutdown_at: Option<u64> = match self.shutdown_at {
            Some(t) => Some(t.secs_or_zero()),
            None => None,
        };
        let file: FileText = FileText::new().line(key_value("version", "1").as_str()).line(
            key_value("updated", decimal_of(self.updated.secs_or_zero()).as_str()).as_str(),
        ).line(key_value("level", self.level.as_str()).as_str()).line(
            key_value("percent", optional_decimal_of(percent).as_str()).as_str(),
        ).line(key_value("shutdown_at", optional_decimal_of(shutdown_at).as_str()).as_str());
        assert(file.lines() =~= status_lines(*self));
        file.text()
    }

    /// Parses the file format.
    ///
    /// Fails on an unknown version or a missing or malformed required field. Unknown keys are
    /// ignored, so a newer daemon can add fields without breaking an older agent.
    pub fn parse(text: &str) -> (r: Result<UpsStatus, String>)
        ensures
            match r {
                Ok(s) => parsed(text@) == Ok::<StatusView, Seq<char>>(s@),
                Err(e) => parsed(text@) == Err::<StatusView, Seq<char>>(e@),
            },
    {
        let ls: Vec<&str> = lines_of(text);
        let mut fields: Fields = Fields {
            version: None,
            updated: None,
            level: None,
            percent: None,
            shutdown_at: None,
        };
        let mut i: usize = 0;
        while i < ls.len()
            invariant
                i <= ls.len(),
                views(ls@) == lines(text@),
                drafted(lines(text@), i as int) == Ok::<Draft, Seq<char>>(fields@),
                fields.percent is Some ==> fields.percent->0 <= u8::MAX,
            decreases ls.len() - i,
        {
            assert(views(ls@)[i as int] == ls@[i as int]@);
            match fields.line(ls[i]) {
                Ok(f) => {
                    fields = f;
                },
                Err(e) => {
                    proof {
                        lemma_error_stays(lines(text@), i + 1, lines(text@).len() as int);
                    }
                    return Err(e);
                },
            }
            i = i + 1;
        }
        match fields.version {
            None => {
                return Err("missing version".to_owned());
            },
            Some(n) => {
                if n != VERSION as u64 {
                    return Err(join("unsupported status version ", decimal_of(n).as_str()));
                }
            },
        }
        let updated: u64 = match fields.updated {
            Some(s) => s,
            None => {
                return Err("missing updated".to_owned());
            },
        };
        let level: String = match fields.level {
            Some(s) => s,
            None => {
                return Err("missing level".to_owned());
            },
        };
        let percent: Option<u8> = match fields.percent {
            Some(p) => Some(p as u8),
            None => None,
        };
        let shutdown_at: Option<SystemTime> = match fields.shutdown_at {
            Some(s) => Some(SystemTime::from_unix(s)),
            None => None,
        };
        Ok(UpsStatus { updated: SystemTime::from_unix(updated), level, percent, shutdown_at })
    }
}

proof fn lemma_error_stays(ls: Seq<Seq<char>>, n: int, m: int)
    requires
        0 <= n <= m,
        drafted(ls, n) is Err,
    ensures
        drafted(ls, m) == drafted(ls, n),
    decreases m - n,
{
    if n < m {
        lemma_error_stays(ls, n, m - 1);
    }
}

/// A status is read back as it was written: its times to the second, and a level that can stand in
/// a line as it is.
pub proof fn law_status_is_read_back(s: UpsStatus)
    requires
        s.updated.whole(),
        is_value(s.level@),
        s.shutdown_at is Some ==> (s.shutdown_at->0).whole(),
    ensures
        parsed(lines_text(status_lines(s))) == Ok::<StatusView, Seq<char>>(s@),
{
    reveal_strlit("version");
    reveal_strlit("1");
    reveal_strlit("updated");
    reveal_strlit("level");
    reveal_strlit("percent");
    reveal_strlit("shutdown_at");
    let ls = status_lines(s);
    let updated = s.updated.unix_or_zero();
    let shutdown: Option<nat> = match s.shutdown_at {
        Some(t) => Some(t.unix_or_zero()),
        None => None,
    };
    let p = optional_decimal(s@.percent);
    let q = optional_decimal(shutdown);
    assert("1"@ =~= decimal(1));
    lemma_decimal_is_value(1);
    lemma_decimal_is_value(updated);
    law_number_of_decimal(1, u32::MAX as nat);
    law_number_of_decimal(updated, u64::MAX as nat);
    if s.percent is Some {
        lemma_decimal_is_value(s@.percent->0);
        law_number_of_decimal(s@.percent->0, u8::MAX as nat);
    }
    if s.shutdown_at is Some {
        lemma_decimal_is_value(shutdown->0);
        law_number_of_decimal(shutdown->0, u64::MAX as nat);
        assert(stamp(shutdown->0) == (s.shutdown_at->0).ns());
    }
    law_field_is_read_back("version"@, "1"@);
    law_field_is_read_back("updated"@, decimal(updated));
    law_field_is_read_back("level"@, s.level@);
    law_field_is_read_back("percent"@, p);
    law_field_is_read_back("shutdown_at"@, q);
    law_lines_are_read_back(ls);
    assert("version"@.len() == 7 && "updated"@.len() == 7 && "percent"@.len() == 7
        && "level"@.len() == 5 && "shutdown_at"@.len() == 11);
    assert("version"@[0] == 'v' && "updated"@[0] == 'u' && "percent"@[0] == 'p');
    reveal_with_fuel(drafted, 6);
    assert(stamp(updated) == s.updated.ns());
    let d0 = Draft::empty();
    let d1 = d0.with_line(ls[0])->Ok_0;
    let d2 = d1.with_line(ls[1])->Ok_0;
    let d3 = d2.with_line(ls[2])->Ok_0;
    let d4 = d3.with_line(ls[3])->Ok_0;
    let d5 = d4.with_line(ls[4])->Ok_0;
    assert(drafted(ls, 5) == Ok::<Draft, Seq<char>>(d5));
    assert(d5.version == Some(1nat));
    assert(d5.updated == Some(updated));
    assert(d5.level == Some(s.level@));
}

/// What the daemon publishes, a level of the policy, can stand in a line.
pub proof fn law_level_names_can_be_written(level: Level)
    ensures
        is_value(name_of(level)),
{
    reveal_strlit("on-mains");
    reveal_strlit("on-battery");
    reveal_strlit("low");
    reveal_strlit("critical");
    reveal_strlit("unknown");
    let s = name_of(level);
    assert(s[0] == 'o' || s[0] == 'l' || s[0] == 'c' || s[0] == 'u');
    assert(s.last() == 's' || s.last() == 'y' || s.last() == 'w' || s.last() == 'l' || s.last()
        == 'n');
}

// ---------------------------------------------------------------------------------------------
// What a status means
// ---------------------------------------------------------------------------------------------

/// A level from the status file.
#[derive(Clone, Copy, Debug, PartialEq, Eq)]
pub enum LevelName<'a> {
    /// `on-mains`.
    OnMains,
    /// `on-battery`.
    OnBattery,
    /// `low`.
    Low,
    /// `critical`.
    Critical,
    /// A name this build does not know -- a newer daemon. Shown as such rather than guessed.
    Unrecognised(&'a str),
}

/// What a status file means at a given moment.
///
/// Every display of UPS state renders from this, so the rules about when a reading may be shown as
/// current live in exactly one place. The one that matters most is staleness: a file that is no
/// longer updated still says whatever it said last, and a display that showed "on mains, 95 %"
/// from it would claim the machine is protected at the moment nothing is watching the battery.
#[derive(Clone, Copy, Debug, PartialEq, Eq)]
pub enum Reading<'a> {
    /// No status file, or one that could not be parsed.
    NoData,
    /// The file has not been updated for this long.
    Stale {
        /// How long since it was last written.
        age: Duration,
    },
    /// The daemon is running but its last read of the UPS failed.
    Failed,
    /// A poweroff is scheduled. Outranks the level: it is the one thing with a deadline.
    PowerOffPending {
        /// Charge, percent.
        percent: u8,
        /// When the machine goes off.
        at: SystemTime,
    },
    /// A current reading.
    Current {
        /// Charge, percent.
        percent: u8,
        /// The level, as named in the status file.
        level: LevelName<'a>,
    },
}

/// A level from the status file, as text.
pub open spec fn level_of<'a>(name: LevelName<'a>) -> Seq<char> {
    match name {
        LevelName::OnMains => "on-mains"@,
        LevelName::OnBattery => "on-battery"@,
        LevelName::Low => "low"@,
        LevelName::Critical => "critical"@,
        LevelName::Unrecognised(s) => s@,
    }
}

/// Whether `name` is the level that `text` names.
pub open spec fn names<'a>(name: LevelName<'a>, text: Seq<char>) -> bool {
    &&& level_of(name) == text
    &&& name is Unrecognised ==> text != "on-mains"@ && text != "on-battery"@ && text != "low"@
        && text != "critical"@
}

/// Whether a status is too old to be believed.
pub open spec fn is_stale(s: UpsStatus, now: SystemTime) -> bool {
    now.since(s.updated) > STALE_AFTER * NANOS_PER_SEC
}

/// Interprets a status file at `now`.
///
/// Order matters and is the point of this function: absent, then stale, then failed, then a
/// pending poweroff, then the level. A stale file's poweroff time cannot be vouched for either, so
/// staleness is checked before anything it says is believed. A file dated in the future (a clock
/// step) is not old.
pub fn interpret<'a>(status: Option<&'a UpsStatus>, now: SystemTime) -> (r: Reading<'a>)
    ensures
        match status {
            None => r is NoData,
            Some(s) => if is_stale(*s, now) {
                r matches Reading::Stale { age } && age.ns() == if now.since(s.updated)
                    <= MAX_NANOS {
                    now.since(s.updated)
                } else {
                    MAX_NANOS as nat
                }
            } else if s.percent is None || s.level@ == "unknown"@ {
                r is Failed
            } else if s.shutdown_at is Some {
                r matches Reading::PowerOffPending { percent, at } && Some(percent) == s.percent
                    && Some(at) == s.shutdown_at
            } else {
                r matches Reading::Current { percent, level } && Some(percent) == s.percent
                    && names(level, s.level@)
            },
        },
{
    let s: &UpsStatus = match status {
        Some(s) => s,
        None => {
            return Reading::NoData;
        },
    };
    let age: Duration = now.elapsed_since(s.updated);
    if age.as_nanos() > STALE_AFTER as u128 * NANOS_PER_SEC {
        return Reading::Stale { age };
    }
    // The last percentage keeps being published next to `level=unknown`; the level is the
    // authority on whether that number is current.
    let percent: u8 = match s.percent {
        Some(p) => p,
        None => {
            return Reading::Failed;
        },
    };
    let name: &'a str = s.level.as_str();
    if same(name, "unknown") {
        return Reading::Failed;
    }
    if let Some(at) = s.shutdown_at {
        return Reading::PowerOffPending { percent, at };
    }
    let level: LevelName<'a> = if same(name, "on-mains") {
        LevelName::OnMains
    } else if same(name, "on-battery") {
        LevelName::OnBattery
    } else if same(name, "low") {
        LevelName::Low
    } else if same(name, "critical") {
        LevelName::Critical
    } else {
        LevelName::Unrecognised(name)
    };
    Reading::Current { percent, level }
}

/// Where the power comes from, by the name of a level.
pub open spec fn source(level: Seq<char>) -> Seq<char> {
    if level == "on-mains"@ {
        "mains"@
    } else if level == "on-battery"@ || level == "low"@ || level == "critical"@ {
        "battery"@
    } else {
        "unknown"@
    }
}

/// Where the power comes from, by the name of a level: `mains`, `battery` or `unknown`.
pub fn source_of(level: &str) -> (s: &'static str)
    ensures
        s@ == source(level@),
{
    if same(level, "on-mains") {
        "mains"
    } else if same(level, "on-battery") || same(level, "low") || same(level, "critical") {
        "battery"
    } else {
        "unknown"
    }
}

// ---------------------------------------------------------------------------------------------
// What is worth saying
// ---------------------------------------------------------------------------------------------

/// How urgent a notification is.
#[derive(Clone, Copy, Debug, PartialEq, Eq, Structural)]
pub enum Urgency {
    /// Informational.
    Normal,
    /// Something is about to happen to the machine.
    Critical,
}

/// Something worth telling a person.
#[derive(Clone, Debug, PartialEq, Eq)]
pub struct Notice {
    /// How urgent.
    pub urgency: Urgency,
    /// What to say.
    pub text: String,
}

impl View for Notice {
    type V = (Urgency, Seq<char>);

    open spec fn view(&self) -> (Urgency, Seq<char>) {
        (self.urgency, self.text@)
    }
}

/// What an optional notice says.
pub open spec fn said(n: Option<Notice>) -> Option<(Urgency, Seq<char>)> {
    match n {
        Some(n) => Some(n@),
        None => None,
    }
}

/// The charge in brackets, or nothing.
pub open spec fn charge(percent: Option<u8>) -> Seq<char> {
    match percent {
        Some(p) => " ("@ + decimal(p as nat) + "%)"@,
        None => Seq::empty(),
    }
}

/// What a change of status deserves to be said of it, if anything. `clock` is the time of day of
/// the scheduled poweroff.
pub open spec fn notable(
    previous: Option<UpsStatus>,
    current: UpsStatus,
    clock: Seq<char>,
) -> Option<(Urgency, Seq<char>)> {
    let pct = charge(current.percent);
    let was_scheduled = previous is Some && (previous->0).shutdown_at is Some;
    let level = current.level@;
    if current.shutdown_at is Some && !was_scheduled {
        // A shutdown being scheduled outranks everything else.
        Some(
            (
                Urgency::Critical,
                "Battery critical"@ + pct + ": powering off at "@ + clock
                    + ". Restore mains power to cancel."@,
            ),
        )
    } else if current.shutdown_at is None && was_scheduled {
        Some(
            (
                Urgency::Normal,
                if level == "on-mains"@ {
                    "Mains power restored"@ + pct + ": shutdown cancelled."@
                } else {
                    "Scheduled shutdown cancelled."@
                },
            ),
        )
    } else if previous is None {
        // First sight of the status, e.g. at login. Only speak if something needs attention.
        if level == "low"@ {
            Some((Urgency::Normal, "Battery low"@ + pct + "."@))
        } else if level == "critical"@ {
            Some((Urgency::Critical, "Battery critical"@ + pct + "."@))
        } else {
            None
        }
    } else if (previous->0).level@ == level {
        None
    } else if level == "on-battery"@ {
        if (previous->0).level@ == "on-mains"@ {
            Some((Urgency::Normal, "Running on battery"@ + pct + "."@))
        } else {
            None
        }
    } else if level == "low"@ {
        Some((Urgency::Normal, "Battery low"@ + pct + "."@))
    } else if level == "critical"@ {
        Some((Urgency::Critical, "Battery critical"@ + pct + "."@))
    } else if level == "on-mains"@ {
        Some((Urgency::Normal, "Mains power restored"@ + pct + "."@))
    } else if level == "unknown"@ {
        Some((Urgency::Normal, "Lost contact with the UPS."@))
    } else {
        None
    }
}

/// The three parts one after the other.
fn sentence(a: &str, b: &str, c: &str) -> (s: String)
    ensures
        s@ == a@ + b@ + c@,
{
    let mut s: String = join(a, b);
    s.append(c);
    s
}

/// An optional status by value.
pub open spec fn owned(s: Option<&UpsStatus>) -> Option<UpsStatus> {
    match s {
        Some(s) => Some(*s),
        None => None,
    }
}

/// Decides whether a change in status deserves a notification. `clock` is the time of day of
/// `current.shutdown_at`, where there is one, as it is to be shown.
///
/// The bias is towards saying less. A notification at every login saying "on mains" trains people
/// to dismiss them, and the one that matters -- a shutdown is scheduled -- has to be read.
pub fn notice(previous: Option<&UpsStatus>, current: &UpsStatus, clock: &str) -> (r: Option<Notice>)
    ensures
        said(r) == notable(owned(previous), *current, clock@),
{
    let pct: String = match current.percent {
        Some(p) => sentence(" (", decimal_of(p as u64).as_str(), "%)"),
        None => String::new(),
    };
    let level: &str = current.level.as_str();
    let was_scheduled: bool = match previous {
        Some(p) => p.shutdown_at.is_some(),
        None => false,
    };
    if current.shutdown_at.is_some() && !was_scheduled {
        let mut text: String = sentence("Battery critical", pct.as_str(), ": powering off at ");
        text.append(clock);
        text.append(". Restore mains power to cancel.");
        return Some(Notice { urgency: Urgency::Critical, text });
    }
    if current.shutdown_at.is_none() && was_scheduled {
        let text: String = if same(level, "on-mains") {
            sentence("Mains power restored", pct.as_str(), ": shutdown cancelled.")
        } else {
            "Scheduled shutdown cancelled.".to_owned()
        };
        return Some(Notice { urgency: Urgency::Normal, text });
    }
    let prev: &UpsStatus = match previous {
        Some(p) => p,
        None => {
            if same(level, "low") {
                return Some(
                    Notice {
                        urgency: Urgency::Normal,
                        text: sentence("Battery low", pct.as_str(), "."),
                    },
                );
            }
            if same(level, "critical") {
                return Some(
                    Notice {
                        urgency: Urgency::Critical,
                        text: sentence("Battery critical", pct.as_str(), "."),
                    },
                );
            }
            return None;
        },
    };
    if same(prev.level.as_str(), level) {
        return None;
    }
    if same(level, "on-battery") {
        if same(prev.level.as_str(), "on-mains") {
            Some(
                Notice {
                    urgency: Urgency::Normal,
                    text: sentence("Running on battery", pct.as_str(), "."),
                },
            )
        } else {
            None
        }
    } else if same(level, "low") {
        Some(Notice { urgency: Urgency::Normal, text: sentence("Battery low", pct.as_str(), ".") })
    } else if same(level, "critical") {
        Some(
            Notice {
                urgency: Urgency::Critical,
                text: sentence("Battery critical", pct.as_str(), "."),
            },
        )
    } else if same(level, "on-mains") {
        Some(
            Notice {
                urgency: Urgency::Normal,
                text: sentence("Mains power restored", pct.as_str(), "."),
            },
        )
    } else if same(level, "unknown") {
        Some(Notice { urgency: Urgency::Normal, text: "Lost contact with the UPS.".to_owned() })
    } else {
        None
    }
}

/// Watches successive reads of the status file and decides what to say.
///
/// When the daemon stops writing, every read returns the same file with the same timestamp, so
/// "was this already stale last time" is only knowable by remembering having said so.
pub struct Watcher {
    last: Option<UpsStatus>,
    stale_reported: bool,
}

/// What a watcher remembers.
pub struct WatcherView {
    /// The last status that was not stale.
    pub last: Option<UpsStatus>,
    /// Whether staleness was noted and has not ended since.
    pub noted_stale: bool,
}

impl WatcherView {
    /// What is remembered after one read of the status file, and what is said of it.
    pub open spec fn observed(
        self,
        current: Option<UpsStatus>,
        now: SystemTime,
        clock: Seq<char>,
    ) -> (WatcherView, Option<(Urgency, Seq<char>)>) {
        match current {
            None => (self, None),
            Some(s) => if is_stale(s, now) {
                (
                    WatcherView { noted_stale: true, ..self },
                    if self.last is Some && !self.noted_stale {
                        Some((Urgency::Normal, "UPS monitoring has stopped updating."@))
                    } else {
                        None
                    },
                )
            } else {
                (
                    WatcherView { last: Some(s), noted_stale: false },
                    notable(self.last, s, clock),
                )
            },
        }
    }
}

impl View for Watcher {
    type V = WatcherView;

    closed spec fn view(&self) -> WatcherView {
        WatcherView { last: self.last, noted_stale: self.stale_reported }
    }
}

impl Watcher {
    /// A watcher that has seen nothing yet.
    pub fn new() -> (w: Self)
        ensures
            w@ == (WatcherView { last: None, noted_stale: false }),
    {
        Watcher { last: None, stale_reported: false }
    }

    /// Feeds one read of the status file. `None` means the file is absent: nothing is said, for
    /// that is also the normal state on a machine without the daemon. `clock` is the time of day
    /// of the scheduled poweroff.
    pub fn observe(
        &mut self,
        current: Option<UpsStatus>,
        now: SystemTime,
        clock: &str,
    ) -> (r: Option<Notice>)
        ensures
            (final(self)@, said(r)) == old(self)@.observed(current, now, clock@),
    {
        let current: UpsStatus = match current {
            Some(s) => s,
            None => {
                return None;
            },
        };
        if now.nanos_since(current.updated) > STALE_AFTER as u128 * NANOS_PER_SEC {
            let say: bool = self.last.is_some() && !self.stale_reported;
            self.stale_reported = true;
            if say {
                return Some(
                    Notice {
                        urgency: Urgency::Normal,
                        text: "UPS monitoring has stopped updating.".to_owned(),
                    },
                );
            }
            return None;
        }
        self.stale_reported = false;
        let out: Option<Notice> = notice(self.last.as_ref(), &current, clock);
        self.last = Some(current);
        out
    }
}

/// A stop in the updates is said at most once: after a stale status, a second one is silent,
/// whatever the two say and however often the file was absent in between.
pub proof fn law_staleness_is_said_once(
    w: WatcherView,
    first: UpsStatus,
    then_at: SystemTime,
    second: UpsStatus,
    later: SystemTime,
    clock: Seq<char>,
)
    requires
        is_stale(first, then_at),
        is_stale(second, later),
    ensures
        ({
            let a = w.observed(Some(first), then_at, clock).0;
            let b = a.observed(None, later, clock).0;
            b.observed(Some(second), later, clock).1 is None
        }),
{
}

/// Only a status that is not stale is ever compared with: what a stale one says is never believed.
pub proof fn law_stale_status_is_not_remembered(
    w: WatcherView,
    s: UpsStatus,
    now: SystemTime,
    clock: Seq<char>,
)
    requires
        is_stale(s, now),
    ensures
        w.observed(Some(s), now, clock).0.last == w.last,
{
}

/// A status that does not change is never said twice: with the same level and the same poweroff,
/// nothing is.
pub proof fn law_no_change_no_notice(previous: UpsStatus, current: UpsStatus, clock: Seq<char>)
    requires
        previous.level@ == current.level@,
        previous.shutdown_at is Some <==> current.shutdown_at is Some,
    ensures
        notable(Some(previous), current, clock) is None,
{
}

/// A newly scheduled poweroff is always said, and as critical, whatever else changed.
pub proof fn law_scheduled_poweroff_is_always_said(
    previous: Option<UpsStatus>,
    current: UpsStatus,
    clock: Seq<char>,
)
    requires
        current.shutdown_at is Some,
        previous is None || (previous->0).shutdown_at is None,
    ensures
        notable(previous, current, clock) is Some,
        (notable(previous, current, clock)->0).0 == Urgency::Critical,
{
}

// ---------------------------------------------------------------------------------------------
// Time of day
// ---------------------------------------------------------------------------------------------

/// The time of day to show for a point in time: what `date` printed of it, or `@` and its seconds
/// where that could not be had, so the time is never silently dropped.
pub fn local_hhmm(t: SystemTime, date: Option<&str>) -> (s: String)
    ensures
        s@ == match date {
            Some(d) => trimmed(d@),
            None => "@"@ + decimal(t.unix_or_zero()),
        },
{
    match date {
        Some(d) => trim(d).to_owned(),
        None => join("@", decimal_of(t.secs_or_zero()).as_str()),
    }
}

// ---------------------------------------------------------------------------------------------
// What holds of all this
// ---------------------------------------------------------------------------------------------

/// No two of the levels have the same name.
pub proof fn lemma_levels_differ()
    ensures
        "on-mains"@ != "on-battery"@,
        "on-mains"@ != "low"@,
        "on-mains"@ != "critical"@,
        "on-mains"@ != "unknown"@,
        "on-battery"@ != "low"@,
        "on-battery"@ != "critical"@,
        "on-battery"@ != "unknown"@,
        "low"@ != "critical"@,
        "low"@ != "unknown"@,
        "critical"@ != "unknown"@,
{
    reveal_strlit("on-mains");
    reveal_strlit("on-battery");
    reveal_strlit("low");
    reveal_strlit("critical");
    reveal_strlit("unknown");
    assert("on-mains"@.len() == 8 && "on-battery"@.len() == 10 && "low"@.len() == 3);
    assert("critical"@.len() == 8 && "unknown"@.len() == 7);
    assert("on-mains"@[0] == 'o' && "critical"@[0] == 'c');
}

/// Each level is published under its own name.
pub proof fn law_each_level_has_its_name(level: Level, s: &'static str)
    requires
        call_ensures(level_name, (level,), s),
    ensures
        s@ == "on-mains"@ <==> level == Level::OnMains,
        s@ == "on-battery"@ <==> level == Level::OnBattery,
        s@ == "low"@ <==> level == Level::Low,
        s@ == "critical"@ <==> level == Level::Critical,
        s@ == "unknown"@ <==> level == Level::Unknown,
{
    lemma_levels_differ();
}

/// A file is a status exactly where its version is 1 and both the time of writing and the level are
/// there. Each of its lines goes to the field that it names and to no other.
pub proof fn law_a_status_needs_version_time_and_level(d: Draft)
    ensures
        d.finished() is Ok <==> d.version == Some(1nat) && d.updated is Some && d.level is Some,
        d.finished() is Ok ==> {
            let s = d.finished()->Ok_0;
            &&& s.updated == (d.updated->0) * 1_000_000_000
            &&& Some(s.level) == d.level
            &&& s.percent == d.percent
            &&& s.shutdown_at is Some <==> d.shutdown_at is Some
            &&& d.shutdown_at is Some ==> s.shutdown_at->0 == (d.shutdown_at->0) * 1_000_000_000
        },
{
}

/// A status that was written within the last minute, or is dated in the future, is believed; one that
/// is older is not, whatever it says. The age that is told is the time since.
pub proof fn law_a_status_is_believed_for_a_minute<'a>(
    s: &'a UpsStatus,
    now: SystemTime,
    r: Reading<'a>,
    none: Reading<'a>,
)
    requires
        call_ensures(interpret, (Some(s), now), r),
        call_ensures(interpret, (None::<&'a UpsStatus>, now), none),
    ensures
        none is NoData,
        !(r is NoData),
        r is Stale <==> now.ns() - s.updated.ns() > 60 * 1_000_000_000,
        r matches Reading::Stale { age } ==> now.ns() - s.updated.ns() <= MAX_NANOS ==> age.ns()
            == now.ns() - s.updated.ns(),
{
}

/// A fresh status that could not be read for a charge is a failure; otherwise a pending poweroff
/// outranks the level, and the level shown is the one that was published.
pub proof fn law_a_fresh_status_is_what_it_says<'a>(
    s: &'a UpsStatus,
    now: SystemTime,
    r: Reading<'a>,
)
    requires
        call_ensures(interpret, (Some(s), now), r),
        now.ns() - s.updated.ns() <= 60 * 1_000_000_000,
    ensures
        r is Failed <==> s.percent is None || s.level@ == "unknown"@,
        !(r is Failed) ==> (r is PowerOffPending <==> s.shutdown_at is Some),
        !(r is Failed) ==> (r is Current <==> s.shutdown_at is None),
        r matches Reading::PowerOffPending { percent, at } ==> s.percent == Some(percent)
            && s.shutdown_at == Some(at),
        r matches Reading::Current { percent, level } ==> {
            &&& s.percent == Some(percent)
            &&& level is OnMains <==> s.level@ == "on-mains"@
            &&& level is OnBattery <==> s.level@ == "on-battery"@
            &&& level is Low <==> s.level@ == "low"@
            &&& level is Critical <==> s.level@ == "critical"@
            &&& level matches LevelName::Unrecognised(name) ==> name@ == s.level@
        },
{
    lemma_levels_differ();
}

/// Power comes from the mains on the mains, from the battery on the three other levels that are
/// known, and from nobody knows where otherwise.
pub proof fn law_the_source_of_each_level(level: &str, s: &'static str)
    requires
        call_ensures(source_of, (level,), s),
    ensures
        s@ == "mains"@ <==> level@ == "on-mains"@,
        s@ == "battery"@ <==> level@ == "on-battery"@ || level@ == "low"@ || level@ == "critical"@,
        s@ == "mains"@ || s@ == "battery"@ || s@ == "unknown"@,
{
    lemma_levels_differ();
    reveal_strlit("mains");
    reveal_strlit("battery");
    reveal_strlit("unknown");
    assert("mains"@.len() == 5 && "battery"@.len() == 7 && "unknown"@.len() == 7);
    assert("battery"@[0] == 'b' && "unknown"@[0] == 'u');
}

/// Whether no poweroff was pending before and none is now.
pub open spec fn no_poweroff(previous: Option<&UpsStatus>, current: &UpsStatus) -> bool {
    current.shutdown_at is None && (previous is Some ==> (previous->0).shutdown_at is None)
}

/// Whether the level is another one than before, or nothing was known before.
pub open spec fn newly(previous: Option<&UpsStatus>, current: &UpsStatus, level: Seq<char>) -> bool {
    current.level@ == level && (previous is Some ==> (previous->0).level@ != level)
}

/// A battery that becomes low, from any other level or at first sight, is said, with its charge.
pub proof fn law_a_low_battery_is_said(
    previous: Option<&UpsStatus>,
    current: &UpsStatus,
    clock: &str,
    r: Option<Notice>,
)
    requires
        call_ensures(notice, (previous, current, clock), r),
        no_poweroff(previous, current),
        newly(previous, current, "low"@),
    ensures
        r is Some,
        (r->0).urgency == Urgency::Normal,
        current.percent is Some ==> (r->0).text@ == "Battery low"@ + (" ("@ + decimal(
            (current.percent->0) as nat,
        ) + "%)"@) + "."@,
        current.percent is None ==> (r->0).text@ == "Battery low"@ + "."@,
{
    lemma_levels_differ();
    assert("Battery low"@ + Seq::<char>::empty() =~= "Battery low"@);
}

/// A battery that becomes critical, from any other level or at first sight, is said as critical,
/// with its charge.
pub proof fn law_a_critical_battery_is_said(
    previous: Option<&UpsStatus>,
    current: &UpsStatus,
    clock: &str,
    r: Option<Notice>,
)
    requires
        call_ensures(notice, (previous, current, clock), r),
        no_poweroff(previous, current),
        newly(previous, current, "critical"@),
    ensures
        r is Some,
        (r->0).urgency == Urgency::Critical,
        current.percent is Some ==> (r->0).text@ == "Battery critical"@ + (" ("@ + decimal(
            (current.percent->0) as nat,
        ) + "%)"@) + "."@,
        current.percent is None ==> (r->0).text@ == "Battery critical"@ + "."@,
{
    lemma_levels_differ();
    assert("Battery critical"@ + Seq::<char>::empty() =~= "Battery critical"@);
}

/// Mains power that comes or goes is said, as it happens and not at first sight: the loss of it where
/// it was there before, and its return from any other level. A battery that recovers without it is
/// not.
pub proof fn law_mains_coming_and_going_is_said(
    previous: &UpsStatus,
    current: &UpsStatus,
    clock: &str,
    r: Option<Notice>,
    first: Option<Notice>,
)
    requires
        call_ensures(notice, (Some(previous), current, clock), r),
        call_ensures(notice, (None::<&UpsStatus>, current, clock), first),
        no_poweroff(Some(previous), current),
        current.percent is Some,
        current.level@ == "on-mains"@ || current.level@ == "on-battery"@,
        previous.level@ != current.level@,
    ensures
        first is None,
        r is Some <==> current.level@ == "on-mains"@ || previous.level@ == "on-mains"@,
        r is Some ==> (r->0).urgency == Urgency::Normal,
        r is Some ==> (r->0).text@ == (if current.level@ == "on-mains"@ {
            "Mains power restored"@
        } else {
            "Running on battery"@
        }) + (" ("@ + decimal((current.percent->0) as nat) + "%)"@) + "."@,
{
    lemma_levels_differ();
}

/// Losing the UPS is said where it was known before, and not at first sight.
pub proof fn law_a_lost_ups_is_said(
    previous: &UpsStatus,
    current: &UpsStatus,
    clock: &str,
    r: Option<Notice>,
    first: Option<Notice>,
)
    requires
        call_ensures(notice, (Some(previous), current, clock), r),
        call_ensures(notice, (None::<&UpsStatus>, current, clock), first),
        no_poweroff(Some(previous), current),
        newly(Some(previous), current, "unknown"@),
    ensures
        first is None,
        r is Some,
        (r->0).urgency == Urgency::Normal,
        (r->0).text@ == "Lost contact with the UPS."@,
{
    lemma_levels_differ();
}

/// A poweroff that is newly pending is said as critical, with its time of day and how to stop it, and
/// one that is gone is said too, with the mains where they are what ended it; whatever the levels.
pub proof fn law_a_poweroff_is_said_when_it_comes_and_when_it_goes(
    off: Option<&UpsStatus>,
    on: &UpsStatus,
    gone: &UpsStatus,
    clock: &str,
    comes: Option<Notice>,
    goes: Option<Notice>,
)
    requires
        call_ensures(notice, (off, on, clock), comes),
        call_ensures(notice, (Some(on), gone, clock), goes),
        off is Some ==> (off->0).shutdown_at is None,
        on.shutdown_at is Some,
        gone.shutdown_at is None,
        on.percent is Some,
        gone.percent is Some,
    ensures
        comes is Some,
        (comes->0).urgency == Urgency::Critical,
        (comes->0).text@ == "Battery critical"@ + (" ("@ + decimal((on.percent->0) as nat) + "%)"@)
            + ": powering off at "@ + clock@ + ". Restore mains power to cancel."@,
        goes is Some,
        (goes->0).urgency == Urgency::Normal,
        gone.level@ == "on-mains"@ ==> (goes->0).text@ == "Mains power restored"@ + (" ("@
            + decimal((gone.percent->0) as nat) + "%)"@) + ": shutdown cancelled."@,
        gone.level@ != "on-mains"@ ==> (goes->0).text@ == "Scheduled shutdown cancelled."@,
{
}

/// A status that is as it was -- the same level, and a poweroff pending in both or in neither -- is
/// never spoken of.
pub proof fn law_the_same_status_is_silent(
    previous: &UpsStatus,
    current: &UpsStatus,
    clock: &str,
    r: Option<Notice>,
)
    requires
        call_ensures(notice, (Some(previous), current, clock), r),
        previous.level@ == current.level@,
        previous.shutdown_at is Some <==> current.shutdown_at is Some,
    ensures
        r is None,
{
}

/// The first stale status after a good one is said, and the next good one is compared with the last
/// good one and remembered. A file that is absent changes nothing and says nothing.
pub proof fn law_a_stop_in_the_updates_is_said(
    w: WatcherView,
    s: UpsStatus,
    now: SystemTime,
    clock: Seq<char>,
)
    ensures
        w.observed(None, now, clock) == (w, None::<(Urgency, Seq<char>)>),
        now.ns() - s.updated.ns() > 60 * 1_000_000_000 ==> w.observed(Some(s), now, clock) == (
            WatcherView { last: w.last, noted_stale: true },
            if w.last is Some && !w.noted_stale {
                Some((Urgency::Normal, "UPS monitoring has stopped updating."@))
            } else {
                None
            },
        ),
        now.ns() - s.updated.ns() <= 60 * 1_000_000_000 ==> w.observed(Some(s), now, clock) == (
            WatcherView { last: Some(s), noted_stale: false },
            notable(w.last, s, clock),
        ),
{
}

/// A time of day is what `date` printed, and where it printed nothing, the second itself.
pub proof fn law_a_time_is_never_dropped(t: SystemTime, d: &str, s: String, bare: String)
    requires
        call_ensures(local_hhmm, (t, Some(d)), s),
        call_ensures(local_hhmm, (t, None::<&str>), bare),
        t.ns() >= 0,
    ensures
        s@ == trimmed(d@),
        bare@ == "@"@ + decimal((t.ns() / 1_000_000_000) as nat),
{
}

/// A watch starts without a status and without having spoken.
pub proof fn law_a_watch_starts_in_silence(w: Watcher)
    requires
        call_ensures(Watcher::new, (), w),
    ensures
        w@.last is None,
        !w@.noted_stale,
{
}

} // verus!
