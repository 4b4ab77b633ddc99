//! A record of the UPS clock's drift that survives reboots.
//!
//! One check per line: `UNIX OFFSET ACTION [AFTER]`, where `OFFSET` is UPS minus system in seconds
//! and `AFTER` is the offset read back after a correction. Lines starting with `#` are comments.
//! Anything unparseable is skipped, so a damaged line costs that line, not the record.

use crate::text::{
    decimal, decimal_of, is_digit, is_space, join, law_number_of_decimal, law_decimal_is_digits,
    law_signed_number_of_plus_decimal, lines, lines_of, lines_text, number, parse_number,
    parse_signed, plus_decimal, plus_decimal_of, same, signed_number, trim, trim_end, trim_start,
    trimmed, views,
    words, words_of, FileText,
};
use vstd::prelude::*;

verus! {

/// When the record exceeds this many lines, it is cut back to `KEEP_LINES`.
pub const MAX_LINES: usize = 1_000;

/// How many of the newest lines survive a cut. At four checks a day, months of history.
pub const KEEP_LINES: usize = 500;

/// The shortest uncorrected stretch a rate is reported for, in seconds. The clock is read in whole
/// seconds, so over a few hours a one-second step is most of the signal.
pub const MIN_SPAN_S: u64 = 86_400;

/// What a check did.
#[derive(Clone, Copy, Debug, PartialEq, Eq, Structural)]
pub enum Action {
    /// Within tolerance; nothing done.
    InSync,
    /// Set from the system clock; the offset read back afterwards.
    Corrected {
        /// Offset after the correction.
        after_s: i64,
    },
    /// Off by more than tolerance but not corrected, because the system clock was unsynced or
    /// clock writes are off.
    LeftAlone,
}

/// One check.
#[derive(Clone, Copy, Debug, PartialEq, Eq, Structural)]
pub struct Entry {
    /// When, seconds since the unix epoch.
    pub unix: u64,
    /// UPS minus system, seconds, before any correction.
    pub offset_s: i64,
    /// What was done.
    pub action: Action,
}

/// The words of an action.
pub open spec fn action_words(a: Action) -> Seq<char> {
    match a {
        Action::InSync => "in-sync"@,
        Action::Corrected { after_s } => "corrected "@ + plus_decimal(after_s as int),
        Action::LeftAlone => "left-alone"@,
    }
}

/// The line of an entry.
pub open spec fn entry_line(e: Entry) -> Seq<char> {
    decimal(e.unix as nat) + " "@ + plus_decimal(e.offset_s as int) + " "@ + action_words(e.action)
}

/// The action that the words of a line, from the third on, name.
pub open spec fn action_in(ws: Seq<Seq<char>>) -> Option<Action> {
    if ws.len() < 3 {
        None
    } else if ws[2] == "in-sync"@ {
        Some(Action::InSync)
    } else if ws[2] == "left-alone"@ {
        Some(Action::LeftAlone)
    } else if ws[2] == "corrected"@ && ws.len() >= 4 {
        match signed_number(ws[3]) {
            Some(n) => Some(Action::Corrected { after_s: n as i64 }),
            None => None,
        }
    } else {
        None
    }
}

/// The entry that a line holds, where it holds one.
pub open spec fn entry_in(line: Seq<char>) -> Option<Entry> {
    let l = trimmed(line);
    let ws = words(l);
    if l.len() == 0 || l[0] == '#' || ws.len() < 2 {
        None
    } else {
        match (number(ws[0], u64::MAX as nat), signed_number(ws[1]), action_in(ws)) {
            (Some(unix), Some(offset), Some(action)) => Some(
                Entry { unix: unix as u64, offset_s: offset as i64, action },
            ),
            _ => None,
        }
    }
}

impl Entry {
    /// The line of this entry.
    pub fn to_line(&self) -> (s: String)
        ensures
            s@ == entry_line(*self),
    {
        let action: String = match self.action {
            Action::InSync => "in-sync".to_owned(),
            Action::Corrected { after_s } => join("corrected ", plus_decimal_of(after_s).as_str()),
            Action::LeftAlone => "left-alone".to_owned(),
        };
        let mut s: String = join(decimal_of(self.unix).as_str(), " ");
        s.append(plus_decimal_of(self.offset_s).as_str());
        s.append(" ");
        s.append(action.as_str());
        s
    }

    /// Parses one line; `None` for comments and anything malformed.
    pub fn parse(line: &str) -> (r: Option<Entry>)
        ensures
            r == entry_in(line@),
    {
        let l: &str = trim(line);
        if l.is_empty() || l.get_char(0) == '#' {
            return None;
        }
        let ws: Vec<&str> = words_of(l);
        assert(views(ws@).len() == ws@.len());
        if ws.len() < 3 {
            return None;
        }
        assert(views(ws@)[0] == ws@[0]@ && views(ws@)[1] == ws@[1]@ && views(ws@)[2] == ws@[2]@);
        let unix: u64 = match parse_number(ws[0], 0xffff_ffff_ffff_ffff) {
            Some(n) => n,
            None => {
                return None;
            },
        };
        let offset_s: i64 = match parse_signed(ws[1]) {
            Some(n) => n,
            None => {
                return None;
            },
        };
        let action: Action = if same(ws[2], "in-sync") {
            Action::InSync
        } else if same(ws[2], "left-alone") {
            Action::LeftAlone
        } else if same(ws[2], "corrected") {
            if ws.len() < 4 {
                return None;
            }
            assert(views(ws@)[3] == ws@[3]@);
            match parse_signed(ws[3]) {
                Some(after_s) => Action::Corrected { after_s },
                None => {
                    return None;
                },
            }
        } else {
            return None;
        };
        Some(Entry { unix, offset_s, action })
    }
}

/// The entries that the first `n` lines hold.
pub open spec fn entries_in(ls: Seq<Seq<char>>, n: int) -> Seq<Entry>
    decreases n,
{
    if n <= 0 {
        Seq::empty()
    } else {
        match entry_in(ls[n - 1]) {
            Some(e) => entries_in(ls, n - 1).push(e),
            None => entries_in(ls, n - 1),
        }
    }
}

/// Every parseable entry of a record, oldest first.
pub fn read(text: &str) -> (r: Vec<Entry>)
    ensures
        r@ == entries_in(lines(text@), lines(text@).len() as int),
{
    let ls: Vec<&str> = lines_of(text);
    let mut out: Vec<Entry> = Vec::new();
    let mut i: usize = 0;
    while i < ls.len()
        invariant
            i <= ls.len(),
            views(ls@) == lines(text@),
            out@ == entries_in(lines(text@), i as int),
        decreases ls.len() - i,
    {
        assert(views(ls@)[i as int] == ls@[i as int]@);
        if let Some(e) = Entry::parse(ls[i]) {
            out.push(e);
        }
        i = i + 1;
    }
    out
}

/// What a record that has grown past `MAX_LINES` lines is replaced by: its newest `KEEP_LINES`.
/// `None` while it has not.
pub fn cut_back(text: &str) -> (r: Option<String>)
    ensures
        match r {
            Some(s) => lines(text@).len() > MAX_LINES && s@ == lines_text(
                lines(text@).skip(lines(text@).len() - KEEP_LINES),
            ),
            None => lines(text@).len() <= MAX_LINES,
        },
{
    let ls: Vec<&str> = lines_of(text);
    assert(views(ls@).len() == ls@.len());
    if ls.len() <= MAX_LINES {
        return None;
    }
    let mut file: FileText = FileText::new();
    let from: usize = ls.len() - KEEP_LINES;
    let mut i: usize = from;
    assert(file.lines() =~= lines(text@).subrange(from as int, from as int));
    while i < ls.len()
        invariant
            from <= i <= ls.len(),
            views(ls@) == lines(text@),
            file.lines() == lines(text@).subrange(from as int, i as int),
        decreases ls.len() - i,
    {
        assert(views(ls@)[i as int] == ls@[i as int]@);
        assert(lines(text@).subrange(from as int, i + 1) =~= lines(text@).subrange(
            from as int,
            i as int,
        ).push(lines(text@)[i as int]));
        file = file.line(ls[i]);
        i = i + 1;
    }
    assert(lines(text@).subrange(from as int, i as int) =~= lines(text@).skip(from as int));
    Some(file.text())
}

/// A drift, over one uncorrected stretch of the record.
#[derive(Clone, Copy, Debug, PartialEq, Eq, Structural)]
pub struct Rate {
    /// Seconds gained (positive) or lost (negative) over the stretch.
    pub gained_s: i128,
    /// How long the stretch it was measured over is, in seconds.
    pub span_s: u64,
}

/// The offset at which an entry leaves the clock: the one read back after a correction, or the one
/// that was found.
pub open spec fn offset_left(e: Entry) -> i64 {
    match e.action {
        Action::Corrected { after_s } => after_s,
        _ => e.offset_s,
    }
}

/// The place of the entry at which the most recent free-running stretch starts: the last
/// correction, or the first entry.
pub open spec fn stretch_start(es: Seq<Entry>) -> int
    decreases es.len(),
{
    if es.len() <= 1 {
        0
    } else if es.last().action is Corrected {
        es.len() - 1
    } else {
        stretch_start(es.drop_last())
    }
}

/// The drift over the most recent stretch with no correction in it, where it spans at least a day.
pub open spec fn drift(es: Seq<Entry>) -> Option<Rate> {
    if es.len() == 0 {
        None
    } else {
        let first = es[stretch_start(es)];
        let last = es.last();
        if last.unix < first.unix || last.unix - first.unix < MIN_SPAN_S {
            None
        } else {
            Some(
                Rate {
                    gained_s: (offset_left(last) - offset_left(first)) as i128,
                    span_s: (last.unix - first.unix) as u64,
                },
            )
        }
    }
}

proof fn lemma_stretch_start(es: Seq<Entry>)
    requires
        es.len() > 0,
    ensures
        0 <= stretch_start(es) < es.len(),
    decreases es.len(),
{
    if es.len() > 1 && !(es.last().action is Corrected) {
        lemma_stretch_start(es.drop_last());
    }
}

fn left_at(e: Entry) -> (n: i64)
    ensures
        n == offset_left(e),
{
    match e.action {
        Action::Corrected { after_s } => after_s,
        _ => e.offset_s,
    }
}

/// The drift over the most recent stretch with no correction in it, if that stretch spans at least
/// `MIN_SPAN_S`.
///
/// A stretch starts at a correction -- from the offset read back after it -- or at the first entry,
/// and ends at the last entry. Within it, the UPS clock is running free, so the change in offset
/// over the time elapsed is its drift.
pub fn rate(entries: &[Entry]) -> (r: Option<Rate>)
    ensures
        r == drift(entries@),
{
    if entries.len() == 0 {
        return None;
    }
    let mut start: usize = 0;
    let mut i: usize = 1;
    assert(stretch_start(entries@.take(1)) == 0);
    while i < entries.len()
        invariant
            1 <= i <= entries.len(),
            start < i,
            start == stretch_start(entries@.take(i as int)),
        decreases entries.len() - i,
    {
        assert(entries@.take(i + 1).drop_last() =~= entries@.take(i as int));
        assert(entries@.take(i + 1).last() == entries@[i as int]);
        if let Action::Corrected { after_s: _ } = entries[i].action {
            start = i;
        }
        i = i + 1;
    }
    assert(entries@.take(i as int) =~= entries@);
    let first: Entry = entries[start];
    let last: Entry = entries[entries.len() - 1];
    if last.unix < first.unix {
        return None;
    }
    let span_s: u64 = last.unix - first.unix;
    if span_s < MIN_SPAN_S {
        return None;
    }
    Some(Rate { gained_s: left_at(last) as i128 - left_at(first) as i128, span_s })
}

/// Whether a text is a word: not empty, and without white space.
pub open spec fn is_word(s: Seq<char>) -> bool {
    s.len() > 0 && forall|i: int| 0 <= i < s.len() ==> !is_space(#[trigger] s[i])
}

proof fn lemma_word_len_of(w: Seq<char>, rest: Seq<char>)
    requires
        forall|i: int| 0 <= i < w.len() ==> !is_space(#[trigger] w[i]),
        rest.len() == 0 || is_space(rest[0]),
    ensures
        crate::text::word_len(w + rest) == w.len(),
    decreases w.len(),
{
    let s = w + rest;
    if w.len() > 0 {
        assert(s[0] == w[0]);
        let w1 = w.skip(1);
        assert(s.skip(1) =~= w1 + rest);
        assert forall|i: int| 0 <= i < w1.len() implies !is_space(#[trigger] w1[i]) by {
            assert(w1[i] == w[i + 1]);
        }
        lemma_word_len_of(w1, rest);
    } else {
        assert(s =~= rest);
    }
}

proof fn lemma_words_first(w: Seq<char>, rest: Seq<char>)
    requires
        is_word(w),
    ensures
        words(w + " "@ + rest) == seq![w] + words(rest),
        words(w) == seq![w],
{
    reveal_strlit(" ");
    let tail = " "@ + rest;
    let s = w + " "@ + rest;
    assert(s =~= w + tail);
    assert(!is_space(w[0]));
    assert(s[0] == w[0]);
    assert(tail[0] == ' ');
    lemma_word_len_of(w, tail);
    assert(s.take(w.len() as int) =~= w);
    assert(s.skip(w.len() as int) =~= tail);
    assert(words(tail) == words(rest)) by {
        assert(tail.skip(1) =~= rest);
        assert(crate::text::trim_start(tail) == crate::text::trim_start(rest));
    }
    let none = Seq::<char>::empty();
    assert(w =~= w + none);
    lemma_word_len_of(w, none);
    assert(w.take(w.len() as int) =~= w);
    assert(w.skip(w.len() as int) =~= none);
    assert(words(none) =~= Seq::<Seq<char>>::empty());
    assert(seq![w] + words(none) =~= seq![w]);
}

proof fn lemma_decimal_word(n: nat)
    ensures
        is_word(decimal(n)),
        is_digit(decimal(n)[0]),
{
    law_decimal_is_digits(n);
    let s = decimal(n);
    assert forall|i: int| 0 <= i < s.len() implies !is_space(#[trigger] s[i]) by {
        assert(is_digit(s[i]));
    }
}

proof fn lemma_plus_decimal_word(n: int)
    ensures
        is_word(plus_decimal(n)),
{
    reveal_strlit("-");
    reveal_strlit("+");
    let m = if n < 0 {
        (-n) as nat
    } else {
        n as nat
    };
    lemma_decimal_word(m);
    let s = plus_decimal(n);
    assert forall|i: int| 0 <= i < s.len() implies !is_space(#[trigger] s[i]) by {
        if i > 0 {
            assert(s[i] == decimal(m)[i - 1]);
        }
    }
}

/// An entry is read back from its line.
pub proof fn law_entry_is_read_back(e: Entry)
    ensures
        entry_in(entry_line(e)) == Some(e),
{
    reveal_strlit(" ");
    reveal_strlit("in-sync");
    reveal_strlit("left-alone");
    reveal_strlit("corrected");
    reveal_strlit("corrected ");
    let unix = decimal(e.unix as nat);
    let offset = plus_decimal(e.offset_s as int);
    let act = action_words(e.action);
    let line = entry_line(e);
    lemma_decimal_word(e.unix as nat);
    lemma_plus_decimal_word(e.offset_s as int);
    law_number_of_decimal(e.unix as nat, u64::MAX as nat);
    law_signed_number_of_plus_decimal(e.offset_s as int);
    let tail = offset + " "@ + act;
    assert(line =~= unix + " "@ + tail);
    lemma_words_first(unix, tail);
    lemma_words_first(offset, act);
    match e.action {
        Action::InSync => {
            assert(is_word(act));
            lemma_words_first(act, act);
        },
        Action::LeftAlone => {
            assert(is_word(act));
            lemma_words_first(act, act);
        },
        Action::Corrected { after_s } => {
            let w = "corrected"@;
            let after = plus_decimal(after_s as int);
            lemma_plus_decimal_word(after_s as int);
            law_signed_number_of_plus_decimal(after_s as int);
            assert(is_word(w));
            assert(act =~= w + " "@ + after);
            lemma_words_first(w, after);
            lemma_words_first(after, after);
            assert(after.last() == act.last());
        },
    }
    assert(line.last() == act.last());
    assert(!is_space(act.last()));
    assert(line[0] == unix[0]);
    crate::text::lemma_trimmed_clean(line);
    let ws = words(line);
    assert(ws[0] == unix);
    assert(ws[1] == offset);
    assert("in-sync"@.len() == 7 && "left-alone"@.len() == 10 && "corrected"@.len() == 9);
}

/// The record is never longer than `MAX_LINES` after it was cut back, and the newest line is
/// always among those kept.
pub proof fn law_cut_back_keeps_the_newest(ls: Seq<Seq<char>>)
    requires
        ls.len() > MAX_LINES,
    ensures
        ls.skip(ls.len() - KEEP_LINES).len() == KEEP_LINES,
        ls.skip(ls.len() - KEEP_LINES).last() == ls.last(),
        KEEP_LINES < MAX_LINES,
{
}

/// The drift is measured from the last correction, or from the first entry where there was none, to
/// the last entry: the seconds that the offset changed by, from the one left by the correction. It
/// is there exactly where that took a day or more.
pub proof fn law_the_drift_is_since_the_last_correction(entries: &[Entry], r: Option<Rate>, first: int)
    requires
        call_ensures(rate, (entries,), r),
        0 <= first < entries@.len(),
        forall|k: int| first < k < entries@.len() ==> !((#[trigger] entries@[k]).action is Corrected),
        first == 0 || entries@[first].action is Corrected,
    ensures
        r is Some <==> entries@.last().unix - entries@[first].unix >= 86_400,
        r matches Some(d) ==> d.span_s == entries@.last().unix - entries@[first].unix,
        r is Some && first < entries@.len() - 1 ==> (r->0).gained_s == entries@.last().offset_s
            - match entries@[first].action {
            Action::Corrected { after_s } => after_s,
            _ => entries@[first].offset_s,
        },
{
    lemma_stretch_from(entries@, first);
    if first < entries@.len() - 1 {
        assert(!(entries@[entries@.len() - 1].action is Corrected));
    }
}

proof fn lemma_stretch_from(es: Seq<Entry>, first: int)
    requires
        0 <= first < es.len(),
        forall|k: int| first < k < es.len() ==> !((#[trigger] es[k]).action is Corrected),
        first == 0 || es[first].action is Corrected,
    ensures
        stretch_start(es) == first,
    decreases es.len(),
{
    if es.len() > 1 {
        if first < es.len() - 1 {
            assert(!(es[es.len() - 1].action is Corrected));
            assert forall|k: int| first < k < es.drop_last().len() implies !((
            #[trigger] es.drop_last()[k]).action is Corrected) by {
                assert(es.drop_last()[k] == es[k]);
            }
            lemma_stretch_from(es.drop_last(), first);
        }
    }
}

/// There is no drift without entries.
pub proof fn law_an_empty_record_has_no_drift(entries: &[Entry], r: Option<Rate>)
    requires
        call_ensures(rate, (entries,), r),
        entries@.len() == 0,
    ensures
        r is None,
{
}

/// A record is read line by line: each line that holds an entry adds it at the end, and any other
/// adds nothing. A comment never holds one.
pub proof fn law_a_damaged_line_costs_that_line(ls: Seq<Seq<char>>, n: int, e: Entry)
    requires
        0 <= n < ls.len(),
    ensures
        ls[n] == entry_line(e) ==> entries_in(ls, n + 1) == entries_in(ls, n).push(e),
        ls[n].len() > 0 && ls[n][0] == '#' ==> entries_in(ls, n + 1) == entries_in(ls, n),
        entries_in(ls, 0).len() == 0,
        entries_in(ls, n + 1).len() <= entries_in(ls, n).len() + 1,
        entries_in(ls, n + 1).take(entries_in(ls, n).len() as int) == entries_in(ls, n),
{
    law_entry_is_read_back(e);
    let l = ls[n];
    if l.len() > 0 && l[0] == '#' {
        assert(trim_start(l) == l);
        lemma_trim_end_start(l);
    }
    assert(entries_in(ls, n + 1).take(entries_in(ls, n).len() as int) =~= entries_in(ls, n));
}

proof fn lemma_trim_end_start(s: Seq<char>)
    requires
        s.len() > 0,
        !is_space(s[0]),
    ensures
        trim_end(s).len() > 0,
        trim_end(s)[0] == s[0],
    decreases s.len(),
{
    if is_space(s.last()) {
        lemma_trim_end_start(s.drop_last());
    }
}

/// A record is cut back exactly where it has more than a thousand lines, to its last five hundred.
pub proof fn law_a_long_record_keeps_its_newest_half(text: &str, r: Option<String>)
    requires
        call_ensures(cut_back, (text,), r),
    ensures
        r is Some <==> lines(text@).len() > 1_000,
        r is Some ==> (r->0)@ == lines_text(
            lines(text@).subrange(lines(text@).len() - 500, lines(text@).len() as int),
        ),
{
    if r is Some {
        assert(lines(text@).subrange(lines(text@).len() - 500, lines(text@).len() as int) =~= lines(
            text@,
        ).skip(lines(text@).len() - 500));
    }
}

} // verus!
