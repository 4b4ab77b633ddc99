//! The UPS that was seen last, remembered across restarts.
//!
//! Any Argon case may run with or without a UPS, so whether there is one is found out at runtime
//! rather than configured. That alone cannot tell a machine that never had a UPS from one whose UPS
//! has come unplugged, and the difference matters: the first is fine, the second has lost its
//! battery protection without anyone deciding so. This record is how they are told apart.

use crate::text::{
    chars_of, decimal, decimal_of, field, field_line, field_of, is_clean, is_control,
    is_control_char, is_value, key_value, law_field_is_read_back, law_lines_are_read_back,
    law_number_of_decimal, lemma_decimal_is_value, lines, lines_of, lines_text, number,
    parse_number, same, trimmed, views, FileText,
};
use crate::time::{SystemTime, NANOS_PER_SEC};
use vstd::prelude::*;

verus! {

/// The record's file name, inside the daemon's state directory.
pub const FILE_NAME: &'static str = "ups.seen";

/// Where the packaged daemon keeps it.
pub const DEFAULT_PATH: &'static str = "/var/lib/argon-utils/ups.seen";

/// How often a connected UPS's record is refreshed, in seconds, so `last_seen` stays roughly true
/// without writing to the SD card on every poll.
pub const REFRESH_EVERY: u64 = 3_600;

/// A UPS that was read successfully.
#[derive(Clone, Debug, PartialEq, Eq)]
pub struct SeenUps {
    /// What it called itself: its USB product string, or the port when that is unknown.
    pub name: String,
    /// Its USB serial number, when it has one. Tells two units of the same model apart.
    pub serial: Option<String>,
    /// When it was last read successfully.
    pub last_seen: SystemTime,
}

/// What a record says.
pub struct SeenView {
    /// What the UPS called itself.
    pub name: Seq<char>,
    /// Its serial number.
    pub serial: Option<Seq<char>>,
    /// When it was last read, in nanoseconds since the start of 1970.
    pub last_seen: int,
}

impl View for SeenUps {
    type V = SeenView;

    open spec fn view(&self) -> SeenView {
        SeenView {
            name: self.name@,
            serial: match self.serial {
                Some(s) => Some(s@),
                None => None,
            },
            last_seen: self.last_seen.ns(),
        }
    }
}

/// `s` with a space in place of each control character.
pub open spec fn one_line_text(s: Seq<char>) -> Seq<char> {
    s.map_values(
        |c: char|
            if is_control_char(c) {
                ' '
            } else {
                c
            },
    )
}

/// `s` with a space in place of each control character.
fn one_line(s: &str) -> (r: String)
    ensures
        r@ == one_line_text(s@),
{
    let v: Vec<char> = chars_of(s);
    let mut r: String = String::new();
    let mut i: usize = 0;
    while i < v.len()
        invariant
            i <= v.len(),
            r@ == one_line_text(v@.take(i as int)),
        decreases v.len() - i,
    {
        if is_control(v[i]) {
            r.push(' ');
        } else {
            r.push(v[i]);
        }
        i = i + 1;
        assert(r@ =~= one_line_text(v@.take(i as int)));
    }
    assert(v@.take(i as int) =~= s@);
    r
}

/// The lines of a record.
pub open spec fn seen_lines(u: SeenUps) -> Seq<Seq<char>> {
    seq![
        field_line("name"@, one_line_text(u.name@)),
        field_line(
            "serial"@,
            match u.serial {
                Some(s) => one_line_text(s@),
                None => Seq::empty(),
            },
        ),
        field_line("last_seen"@, decimal(u.last_seen.unix_or_zero())),
    ]
}

/// What is known of a UPS after some of the lines of its record.
pub struct SeenDraft {
    /// What it called itself.
    pub name: Option<Seq<char>>,
    /// Its serial number.
    pub serial: Option<Seq<char>>,
    /// When it was last read, in seconds since the start of 1970.
    pub last_seen: nat,
}

impl SeenDraft {
    /// Nothing is known.
    pub open spec fn empty() -> SeenDraft {
        SeenDraft { name: None, serial: None, last_seen: 0 }
    }

    /// What is known after one more line. Empty names and serials, unknown keys and a time that is
    /// not a number are ignored.
    pub open spec fn with_line(self, line: Seq<char>) -> SeenDraft {
        match field_of(line) {
            None => self,
            Some((k, v)) => if k == "name"@ && v.len() > 0 {
                SeenDraft { name: Some(v), ..self }
            } else if k == "serial"@ && v.len() > 0 {
                SeenDraft { serial: Some(v), ..self }
            } else if k == "last_seen"@ && number(v, u64::MAX as nat) is Some {
                SeenDraft { last_seen: number(v, u64::MAX as nat)->0, ..self }
            } else {
                self
            },
        }
    }
}

/// What is known after the first `n` lines.
pub open spec fn seen_after(ls: Seq<Seq<char>>, n: int) -> SeenDraft
    decreases n,
{
    if n <= 0 {
        SeenDraft::empty()
    } else {
        seen_after(ls, n - 1).with_line(ls[n - 1])
    }
}

/// The record that a text is, where it is one.
pub open spec fn seen_in(text: Seq<char>) -> Option<SeenView> {
    let d = seen_after(lines(text), lines(text).len() as int);
    match d.name {
        Some(name) => Some(
            SeenView {
                name,
                serial: d.serial,
                last_seen: d.last_seen * NANOS_PER_SEC as int,
            },
        ),
        None => None,
    }
}

/// Whether two records are of the same unit.
pub open spec fn is_same_unit(a: SeenView, b: SeenView) -> bool {
    a.name == b.name && a.serial == b.serial
}

impl SeenUps {
    /// Whether `other` is the same unit. With no serial on either side, the name has to do.
    pub fn same_unit(&self, other: &Self) -> (r: bool)
        ensures
            r == is_same_unit(self@, other@),
    {
        let same_serial: bool = match (&self.serial, &other.serial) {
            (Some(a), Some(b)) => same(a.as_str(), b.as_str()),
            (None, None) => true,
            _ => false,
        };
        same(self.name.as_str(), other.name.as_str()) && same_serial
    }

    /// Serialises to the file format.
    pub fn to_text(&self) -> (s: String)
        ensures
            s@ == lines_text(seen_lines(*self)),
    {
        let serial: String = match &self.serial {
            Some(s) => one_line(s.as_str()),
            None => String::new(),
        };
        let file: FileText = FileText::new().line(
            key_value("name", one_line(self.name.as_str()).as_str()).as_str(),
        ).line(key_value("serial", serial.as_str()).as_str()).line(
            key_value("last_seen", decimal_of(self.last_seen.secs_or_zero()).as_str()).as_str(),
        );
        assert(file.lines() =~= seen_lines(*self));
        file.text()
    }

    /// Parses the file format. `None` for anything without a name: a record that cannot say what
    /// is missing is not worth an alarm.
    pub fn parse(text: &str) -> (r: Option<SeenUps>)
        ensures
            match r {
                Some(u) => seen_in(text@) == Some(u@),
                None => seen_in(text@) is None,
            },
    {
        let ls: Vec<&str> = lines_of(text);
        let mut name: Option<String> = None;
        let mut serial: Option<String> = None;
        let mut last_seen: u64 = 0;
        let mut i: usize = 0;
        while i < ls.len()
            invariant
                i <= ls.len(),
                views(ls@) == lines(text@),
                seen_after(lines(text@), i as int) == (SeenDraft {
                    name: match name {
                        Some(s) => Some(s@),
                        None => None,
                    },
                    serial: match serial {
                        Some(s) => Some(s@),
                        None => None,
                    },
                    last_seen: last_seen as nat,
                }),
            decreases ls.len() - i,
        {
            assert(views(ls@)[i as int] == ls@[i as int]@);
            if let Some((k, v)) = field(ls[i]) {
                if same(k, "name") && !v.is_empty() {
                    name = Some(v.to_owned());
                } else if same(k, "serial") && !v.is_empty() {
                    serial = Some(v.to_owned());
                } else if same(k, "last_seen") {
                    if let Some(s) = parse_number(v, 0xffff_ffff_ffff_ffff) {
                        last_seen = s;
                    }
                }
            }
            i = i + 1;
        }
        match name {
            Some(name) => Some(
                SeenUps { name, serial, last_seen: SystemTime::from_unix(last_seen) },
            ),
            None => None,
        }
    }
}

/// Keeps the record current while a UPS is being read, writing only when it has to.
pub struct Recorder {
    written: Option<(SeenUps, SystemTime)>,
}

impl Recorder {
    /// What was written last, and when.
    pub closed spec fn written(self) -> Option<(SeenUps, SystemTime)> {
        self.written
    }

    /// Whether `ups`, just read at `now`, needs writing.
    pub open spec fn is_due(self, ups: SeenUps, now: SystemTime) -> bool {
        match self.written() {
            None => true,
            Some((last, at)) => !is_same_unit(last@, ups@) || now.since(at) >= REFRESH_EVERY
                * NANOS_PER_SEC,
        }
    }

    /// A recorder that has written nothing yet.
    pub fn new() -> (r: Self)
        ensures
            r.written() is None,
    {
        Recorder { written: None }
    }

    /// Says whether `ups`, just read successfully at `now`, needs writing: the first time, when a
    /// different unit appears, or after `REFRESH_EVERY`. Call `wrote` once it has been.
    pub fn due(&self, ups: &SeenUps, now: SystemTime) -> (r: bool)
        ensures
            r == self.is_due(*ups, now),
    {
        match &self.written {
            None => true,
            Some((last, at)) => {
                !last.same_unit(ups) || now.nanos_since(*at) >= REFRESH_EVERY as u128
                    * NANOS_PER_SEC
            },
        }
    }

    /// Notes that `ups` was written at `now`.
    pub fn wrote(&mut self, ups: SeenUps, now: SystemTime)
        ensures
            final(self).written() == Some((ups, now)),
    {
        self.written = Some((ups, now));
    }
}

proof fn lemma_one_line_is_free_of_feeds(s: Seq<char>)
    ensures
        forall|i: int|
            0 <= i < one_line_text(s).len() ==> #[trigger] one_line_text(s)[i] != '\n'
                && one_line_text(s)[i] != '\r',
{
}

/// A record is read back as it was written, where its name and serial are printable text without
/// space at their ends, and its time is to the second.
pub proof fn law_record_is_read_back(u: SeenUps)
    requires
        u.name@.len() > 0,
        is_clean(u.name@),
        one_line_text(u.name@) == u.name@,
        u.serial is Some ==> (u.serial->0)@.len() > 0 && is_clean((u.serial->0)@) && one_line_text(
            (u.serial->0)@,
        ) == (u.serial->0)@,
        u.last_seen.whole(),
    ensures
        seen_in(lines_text(seen_lines(u))) == Some(u@),
{
    let serial = match u.serial {
        Some(s) => one_line_text(s@),
        None => Seq::empty(),
    };
    lemma_one_line_is_free_of_feeds(u.name@);
    if u.serial is Some {
        lemma_one_line_is_free_of_feeds((u.serial->0)@);
    }
    lemma_fields_read(u, u.name@, serial);
}

proof fn lemma_fields_read(u: SeenUps, name: Seq<char>, serial: Seq<char>)
    requires
        name == one_line_text(u.name@),
        serial == (match u.serial {
            Some(s) => one_line_text(s@),
            None => Seq::<char>::empty(),
        }),
        is_value(name),
        is_value(serial),
    ensures
        ({
            let d = seen_after(lines(lines_text(seen_lines(u))), lines(lines_text(seen_lines(u))).len() as int);
            &&& d.name == if name.len() > 0 {
                Some(name)
            } else {
                None
            }
            &&& d.serial == if serial.len() > 0 {
                Some(serial)
            } else {
                None
            }
            &&& d.last_seen == u.last_seen.unix_or_zero() || u.last_seen.unix_or_zero() > u64::MAX
        }),
{
    reveal_strlit("name");
    reveal_strlit("serial");
    reveal_strlit("last_seen");
    let ls = seen_lines(u);
    let secs = u.last_seen.unix_or_zero();
    lemma_decimal_is_value(secs);
    if secs <= u64::MAX {
        law_number_of_decimal(secs, u64::MAX as nat);
    }
    law_field_is_read_back("name"@, name);
    law_field_is_read_back("serial"@, serial);
    law_field_is_read_back("last_seen"@, decimal(secs));
    law_lines_are_read_back(ls);
    assert("name"@.len() == 4 && "serial"@.len() == 6 && "last_seen"@.len() == 9);
    reveal_with_fuel(seen_after, 4);
    let d1 = SeenDraft::empty().with_line(ls[0]);
    let d2 = d1.with_line(ls[1]);
    let d3 = d2.with_line(ls[2]);
    assert(seen_after(ls, 3) == d3);
}

/// A line feed in a name cannot forge a key: whatever the name holds, what is read back as the
/// serial is the serial.
pub proof fn law_a_name_cannot_forge_a_serial(u: SeenUps, v: SeenView)
    requires
        seen_in(lines_text(seen_lines(u))) == Some(v),
    ensures
        v.serial == match u.serial {
            Some(s) => if trimmed(one_line_text(s@)).len() > 0 {
                Some(trimmed(one_line_text(s@)))
            } else {
                None
            },
            None => None,
        },
{
    reveal_strlit("name");
    reveal_strlit("serial");
    reveal_strlit("last_seen");
    reveal_strlit("=");
    let name = one_line_text(u.name@);
    let serial = match u.serial {
        Some(s) => one_line_text(s@),
        None => Seq::empty(),
    };
    let ls = seen_lines(u);
    let secs = u.last_seen.unix_or_zero();
    lemma_one_line_is_free_of_feeds(u.name@);
    if u.serial is Some {
        lemma_one_line_is_free_of_feeds((u.serial->0)@);
    }
    lemma_decimal_is_value(secs);
    lemma_field_of_any("name"@, name);
    lemma_field_of_any("serial"@, serial);
    law_field_is_read_back("last_seen"@, decimal(secs));
    law_lines_are_read_back(ls);
    assert("name"@.len() == 4 && "serial"@.len() == 6 && "last_seen"@.len() == 9);
    reveal_with_fuel(seen_after, 4);
    assert(trimmed(Seq::<char>::empty()) =~= Seq::<char>::empty());
    let d1 = SeenDraft::empty().with_line(ls[0]);
    let d2 = d1.with_line(ls[1]);
    let d3 = d2.with_line(ls[2]);
    assert(seen_after(ls, 3) == d3);
}

proof fn lemma_field_of_any(key: Seq<char>, value: Seq<char>)
    requires
        is_value(key),
        forall|i: int| 0 <= i < key.len() ==> key[i] != '=',
        forall|i: int| 0 <= i < value.len() ==> value[i] != '\n' && value[i] != '\r',
    ensures
        field_of(field_line(key, value)) == Some((key, trimmed(value))),
        crate::text::is_line(field_line(key, value)),
{
    reveal_strlit("=");
    let line = field_line(key, value);
    crate::text::lemma_first_at_unique(line, '=', key.len() as int);
    assert(line.take(key.len() as int) =~= key);
    assert(line.skip(key.len() as int + 1) =~= value);
    crate::text::lemma_trimmed_clean(key);
    assert(line.last() == if value.len() > 0 {
        value.last()
    } else {
        '='
    });
}

/// A clock that steps back never makes a record due by itself: it just waits.
pub proof fn law_a_clock_step_back_is_not_due(r: Recorder, ups: SeenUps, now: SystemTime)
    requires
        r.written() is Some,
        is_same_unit((r.written()->0).0@, ups@),
        now.ns() < (r.written()->0).1.ns(),
    ensures
        !r.is_due(ups, now),
{
}

/// Two records are of the same unit exactly where both the names and the serials agree, and where the
/// one has no serial, neither has the other.
pub proof fn law_a_unit_is_its_name_and_serial(a: &SeenUps, b: &SeenUps, r: bool)
    requires
        call_ensures(SeenUps::same_unit, (a, b), r),
    ensures
        r <==> a.name@ == b.name@ && (a.serial is None <==> b.serial is None) && (a.serial is Some
            ==> b.serial is Some && (a.serial->0)@ == (b.serial->0)@),
{
}

/// A record is written the first time, when another unit appears, and once an hour; and it is then
/// not written again before another hour is over.
pub proof fn law_a_record_is_written_once_an_hour(
    recorder: &Recorder,
    ups: &SeenUps,
    now: SystemTime,
    r: bool,
)
    requires
        call_ensures(Recorder::due, (recorder, ups, now), r),
    ensures
        recorder.written() is None ==> r,
        recorder.written() matches Some((last, at)) ==> (r <==> last.name@ != ups.name@ || last@.serial
            != ups@.serial || now.ns() - at.ns() >= 3_600 * 1_000_000_000),
        forall|m: &mut Recorder, u: ()| #[trigger]
            call_ensures(Recorder::wrote, (m, *ups, now), u) ==> final(m).written() == Some(
                (*ups, now),
            ),
{
}

} // verus!
