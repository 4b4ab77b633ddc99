//! Reading `config.txt`: which directives are actually in force on this board.
//!
//! The file is not a flat list of settings. It is divided by **conditional filters** -- `[pi4]`,
//! `[pi5]`, `[cm5]`, `[all]`, `[none]` and others -- and a directive only applies when its filter
//! matches the board the file is booting. A check that greps for a line gets this wrong in both
//! directions: it reports a `[pi5]`-only overlay as present on a Pi 4, and a commented-out line as
//! configured.

use crate::text::{
    begins, contains, cut, holds, is_value, lines, lines_of, lower, same_ignoring_case, split_once,
    starts_with, to_lower, trim, trimmed, views,
};
use vstd::prelude::*;

verus! {

/// Where a directive was found, and whether it counts.
#[derive(Clone, Debug, PartialEq, Eq)]
pub struct Directive {
    /// The filter section it sits under; `None` before any filter, which applies to every board.
    pub section: Option<String>,
    /// Everything after the `=`, trimmed.
    pub value: String,
    /// Whether the line is commented out.
    pub commented: bool,
    /// 1-based line number, for telling a person where to look.
    pub line: usize,
}

/// What a `Directive` says.
pub struct DirectiveView {
    /// The filter section it sits under.
    pub section: Option<Seq<char>>,
    /// Everything after the `=`, trimmed.
    pub value: Seq<char>,
    /// Whether the line is commented out.
    pub commented: bool,
    /// 1-based line number.
    pub line: int,
}

impl View for Directive {
    type V = DirectiveView;

    open spec fn view(&self) -> DirectiveView {
        DirectiveView {
            section: match self.section {
                Some(s) => Some(s@),
                None => None,
            },
            value: self.value@,
            commented: self.commented,
            line: self.line as int,
        }
    }
}

impl DirectiveView {
    /// Whether it is in force on a board that `sections` match.
    pub open spec fn in_force(self, sections: Seq<Seq<char>>) -> bool {
        !self.commented && match self.section {
            Some(s) => exists|i: int|
                0 <= i < sections.len() && lower(#[trigger] sections[i]) == lower(s),
            None => true,
        }
    }
}

impl Directive {
    /// Whether this directive is in force for a board matching `sections`.
    ///
    /// `sections` are the filter names that match the board, without brackets: `["all", "pi4"]`
    /// for a Pi 4. A directive before any filter applies always; a commented one never.
    pub fn applies_to(&self, sections: &[&str]) -> (r: bool)
        ensures
            r == self@.in_force(views(sections@)),
    {
        if self.commented {
            return false;
        }
        match &self.section {
            None => true,
            Some(s) => {
                let mut i: usize = 0;
                while i < sections.len()
                    invariant
                        i <= sections.len(),
                        !self.commented,
                        self.section == Some(*s),
                        forall|j: int|
                            0 <= j < i ==> lower(#[trigger] views(sections@)[j]) != lower(s@),
                    decreases sections.len() - i,
                {
                    assert(views(sections@)[i as int] == sections@[i as int]@);
                    if same_ignoring_case(sections[i], s.as_str()) {
                        return true;
                    }
                    i = i + 1;
                }
                false
            },
        }
    }
}

/// The name between the brackets of a line that is a filter, where it is one.
pub open spec fn filter_of(line: Seq<char>) -> Option<Seq<char>> {
    let l = trimmed(line);
    if l.len() >= 2 && l[0] == '[' && l.last() == ']' {
        Some(trimmed(l.subrange(1, l.len() - 1)))
    } else {
        None
    }
}

/// The filter in force at line `i`: the last one before it.
pub open spec fn section_at(ls: Seq<Seq<char>>, i: int) -> Option<Seq<char>>
    decreases i,
{
    if i <= 0 {
        None
    } else if filter_of(ls[i - 1]) is Some {
        filter_of(ls[i - 1])
    } else {
        section_at(ls, i - 1)
    }
}

/// Whether a line is commented out, and what it says without the comment sign.
pub open spec fn uncommented(line: Seq<char>) -> (bool, Seq<char>) {
    let l = trimmed(line);
    if l.len() > 0 && l[0] == '#' {
        (true, trimmed(l.skip(1)))
    } else {
        (false, l)
    }
}

/// The directive `key` in line `i`, where the line holds one, commented out or not.
pub open spec fn directive_at(ls: Seq<Seq<char>>, i: int, key: Seq<char>) -> Option<DirectiveView> {
    let (commented, body) = uncommented(ls[i]);
    if filter_of(ls[i]) is Some {
        None
    } else {
        match cut(body, '=') {
            Some((k, v)) => if lower(trimmed(k)) == lower(key) {
                Some(
                    DirectiveView {
                        section: section_at(ls, i),
                        value: trimmed(v),
                        commented,
                        line: i + 1,
                    },
                )
            } else {
                None
            },
            None => None,
        }
    }
}

/// The directives `key` in the first `n` lines, in order.
pub open spec fn found(ls: Seq<Seq<char>>, key: Seq<char>, n: int) -> Seq<DirectiveView>
    decreases n,
{
    if n <= 0 {
        Seq::empty()
    } else {
        match directive_at(ls, n - 1, key) {
            Some(d) => found(ls, key, n - 1).push(d),
            None => found(ls, key, n - 1),
        }
    }
}

/// The directives `key` of a text, in order.
pub open spec fn directives(text: Seq<char>, key: Seq<char>) -> Seq<DirectiveView> {
    found(lines(text), key, lines(text).len() as int)
}

/// What a list of directives says.
pub open spec fn said(ds: Seq<Directive>) -> Seq<DirectiveView> {
    ds.map_values(|d: Directive| d@)
}

/// The name of the filter that `line` is, where it is one.
fn filter_name(line: &str) -> (r: Option<String>)
    ensures
        match r {
            Some(s) => filter_of(line@) == Some(s@),
            None => filter_of(line@) is None,
        },
{
    let l: &str = trim(line);
    let n: usize = l.unicode_len();
    if n >= 2 && l.get_char(0) == '[' && l.get_char(n - 1) == ']' {
        Some(trim(l.substring_char(1, n - 1)).to_owned())
    } else {
        None
    }
}

/// Finds every occurrence of `key`, in order, commented ones included.
///
/// `key` is matched case-insensitively on the part before `=`, so `dtoverlay` finds
/// `dtoverlay=gpio-ir,gpio_pin=23` and reports the whole right-hand side as the value.
pub fn find(text: &str, key: &str) -> (r: Vec<Directive>)
    ensures
        said(r@) == directives(text@, key@),
{
    let ls: Vec<&str> = lines_of(text);
    let mut section: Option<String> = None;
    let mut out: Vec<Directive> = Vec::new();
    let mut i: usize = 0;
    assert(said(out@) =~= found(lines(text@), key@, 0));
    while i < ls.len()
        invariant
            i <= ls.len(),
            views(ls@) == lines(text@),
            said(out@) == found(lines(text@), key@, i as int),
            section_at(lines(text@), i as int) == match section {
                Some(s) => Some(s@),
                None => None,
            },
        decreases ls.len() - i,
    {
        let ghost before = out@;
        let raw: &str = ls[i];
        assert(views(ls@)[i as int] == raw@);
        match filter_name(raw) {
            Some(name) => {
                section = Some(name);
            },
            None => {
                let line: &str = trim(raw);
                let commented: bool = line.unicode_len() > 0 && line.get_char(0) == '#';
                let body: &str = if commented {
                    let rest: &str = line.substring_char(1, line.unicode_len());
                    assert(rest@ =~= line@.skip(1));
                    trim(rest)
                } else {
                    line
                };
                assert(uncommented(raw@) == (commented, body@));
                if let Some((k, v)) = split_once(body, '=') {
                    if same_ignoring_case(trim(k), key) {
                        let d: Directive = Directive {
                            section: section.clone(),
                            value: trim(v).to_owned(),
                            commented,
                            line: i + 1,
                        };
                        assert(directive_at(lines(text@), i as int, key@) == Some(d@));
                        out.push(d);
                        assert(said(out@) =~= said(before).push(d@));
                    }
                }
            },
        }
        i = i + 1;
    }
    out
}

/// Whether a directive of `text` with this key and this exact value is in force.
pub open spec fn active(
    text: Seq<char>,
    key: Seq<char>,
    value: Seq<char>,
    sections: Seq<Seq<char>>,
) -> bool {
    exists|i: int|
        0 <= i < directives(text, key).len() && (#[trigger] directives(text, key)[i]).in_force(
            sections,
        ) && lower(directives(text, key)[i].value) == lower(trimmed(value))
}

/// Whether a directive of `text` with this key whose value starts with `prefix` is in force.
pub open spec fn active_prefix(
    text: Seq<char>,
    key: Seq<char>,
    prefix: Seq<char>,
    sections: Seq<Seq<char>>,
) -> bool {
    exists|i: int|
        0 <= i < directives(text, key).len() && (#[trigger] directives(text, key)[i]).in_force(
            sections,
        ) && begins(lower(directives(text, key)[i].value), lower(prefix))
}

/// Whether a directive with this exact value is in force for the given board. Values are compared
/// with white space trimmed and case ignored.
pub fn is_active(text: &str, key: &str, value: &str, sections: &[&str]) -> (r: bool)
    ensures
        r == active(text@, key@, value@, views(sections@)),
{
    let ds: Vec<Directive> = find(text, key);
    let wanted: &str = trim(value);
    let mut i: usize = 0;
    while i < ds.len()
        invariant
            i <= ds.len(),
            said(ds@) == directives(text@, key@),
            wanted@ == trimmed(value@),
            forall|j: int|
                0 <= j < i ==> !((#[trigger] directives(text@, key@)[j]).in_force(views(sections@))
                    && lower(directives(text@, key@)[j].value) == lower(trimmed(value@))),
        decreases ds.len() - i,
    {
        assert(said(ds@)[i as int] == ds@[i as int]@);
        if ds[i].applies_to(sections) && same_ignoring_case(ds[i].value.as_str(), wanted) {
            return true;
        }
        i = i + 1;
    }
    false
}

/// Whether any directive with this key *starts with* `prefix` and is in force.
///
/// For overlays, where the parameters vary: `dtoverlay=gpio-ir,gpio_pin=23` is still the `gpio-ir`
/// overlay.
pub fn is_active_prefix(text: &str, key: &str, prefix: &str, sections: &[&str]) -> (r: bool)
    ensures
        r == active_prefix(text@, key@, prefix@, views(sections@)),
{
    let ds: Vec<Directive> = find(text, key);
    let wanted: String = to_lower(prefix);
    let mut i: usize = 0;
    while i < ds.len()
        invariant
            i <= ds.len(),
            said(ds@) == directives(text@, key@),
            wanted@ == lower(prefix@),
            forall|j: int|
                0 <= j < i ==> !((#[trigger] directives(text@, key@)[j]).in_force(views(sections@))
                    && begins(lower(directives(text@, key@)[j].value), lower(prefix@))),
        decreases ds.len() - i,
    {
        assert(said(ds@)[i as int] == ds@[i as int]@);
        if ds[i].applies_to(sections) && starts_with(
            to_lower(ds[i].value.as_str()).as_str(),
            wanted.as_str(),
        ) {
            return true;
        }
        i = i + 1;
    }
    false
}

/// The filter sections that match a board, given its model string. A model that is not recognised
/// gets `[all]` alone, so a directive under a specific filter is not claimed to be in force.
pub open spec fn board_sections(model: Seq<char>) -> Seq<Seq<char>> {
    let m = lower(model);
    if holds(m, "compute module 5"@) || holds(m, "cm5"@) {
        seq!["all"@, "cm5"@, "pi5"@]
    } else if holds(m, "pi 5"@) {
        seq!["all"@, "pi5"@]
    } else if holds(m, "compute module 4"@) || holds(m, "cm4"@) {
        seq!["all"@, "cm4"@, "pi4"@]
    } else if holds(m, "pi 4"@) || holds(m, "pi 400"@) {
        seq!["all"@, "pi4"@]
    } else if holds(m, "pi 3"@) {
        seq!["all"@, "pi3"@]
    } else if holds(m, "pi zero 2"@) {
        seq!["all"@, "pi02"@, "pi0"@]
    } else {
        seq!["all"@]
    }
}

/// The filter sections that match a board, given its model string.
pub fn sections_for(model: &str) -> (r: Vec<&'static str>)
    ensures
        views(r@) == board_sections(model@),
{
    let lowered: String = to_lower(model);
    let m: &str = lowered.as_str();
    let mut out: Vec<&'static str> = vec!["all"];
    if contains(m, "compute module 5") || contains(m, "cm5") {
        out.push("cm5");
        out.push("pi5");
    } else if contains(m, "pi 5") {
        out.push("pi5");
    } else if contains(m, "compute module 4") || contains(m, "cm4") {
        out.push("cm4");
        out.push("pi4");
    } else if contains(m, "pi 4") || contains(m, "pi 400") {
        out.push("pi4");
    } else if contains(m, "pi 3") {
        out.push("pi3");
    } else if contains(m, "pi zero 2") {
        out.push("pi02");
        out.push("pi0");
    }
    assert(views(out@) =~= board_sections(model@));
    out
}

/// A directive that is commented out is in force on no board.
pub proof fn law_commented_is_never_in_force(d: DirectiveView, sections: Seq<Seq<char>>)
    requires
        d.commented,
    ensures
        !d.in_force(sections),
{
}

/// A directive before any filter is in force on every board.
pub proof fn law_unfiltered_applies_everywhere(d: DirectiveView, sections: Seq<Seq<char>>)
    requires
        !d.commented,
        d.section is None,
    ensures
        d.in_force(sections),
{
}

/// A board never matches the filter `[none]`: what stands under it is in force nowhere.
pub proof fn law_nothing_under_none_is_in_force(d: DirectiveView, model: Seq<char>)
    requires
        d.section == Some("none"@),
    ensures
        !d.in_force(board_sections(model)),
{
    reveal_strlit("none");
    reveal_strlit("all");
    reveal_strlit("cm5");
    reveal_strlit("pi5");
    reveal_strlit("cm4");
    reveal_strlit("pi4");
    reveal_strlit("pi3");
    reveal_strlit("pi02");
    reveal_strlit("pi0");
    let s = board_sections(model);
    assert forall|i: int| 0 <= i < s.len() implies lower(#[trigger] s[i]) != lower("none"@) by {
        if s[i].len() == 4 {
            assert(lower(s[i])[0] == 'p');
            assert(lower("none"@)[0] == 'n');
        } else {
            assert(lower(s[i]).len() == 3);
        }
    }
}

/// A line that sets a key is found with its value, under the last filter before it, and at its place;
/// with a comment sign in front it is found as commented out.
pub proof fn law_a_line_is_a_directive(ls: Seq<Seq<char>>, i: int, key: Seq<char>, value: Seq<char>)
    requires
        0 <= i < ls.len(),
        key.len() > 0,
        value.len() > 0,
        is_value(key),
        forall|k: int| 0 <= k < key.len() ==> key[k] != '=' && key[k] != '#' && key[k] != '[',
        is_value(value),
        ls[i] == key + "="@ + value || ls[i] == "#"@ + key + "="@ + value,
    ensures
        directive_at(ls, i, key) == Some(
            DirectiveView {
                section: section_at(ls, i),
                value,
                commented: ls[i][0] == '#',
                line: i + 1,
            },
        ),
{
    reveal_strlit("=");
    reveal_strlit("#");
    let body = key + "="@ + value;
    crate::text::lemma_first_at_unique(body, '=', key.len() as int);
    assert(body.take(key.len() as int) =~= key);
    assert(body.skip(key.len() as int + 1) =~= value);
    crate::text::lemma_trimmed_clean(key);
    crate::text::lemma_trimmed_clean(value);
    assert(body[0] == key[0]);
    assert(body.last() == value.last());
    crate::text::lemma_trimmed_clean(body);
    if ls[i] != body {
        let l = ls[i];
        assert(l =~= seq!['#'] + body);
        assert(l.skip(1) =~= body);
        assert(l.last() == value.last());
        crate::text::lemma_trimmed_clean(l);
    }
}

/// What stands below a filter is under it, up to the next one; before the first there is none.
pub proof fn law_a_filter_holds_until_the_next(ls: Seq<Seq<char>>, from: int, i: int, name: Seq<char>)
    requires
        0 <= from < i <= ls.len(),
        is_value(name),
        ls[from] == "["@ + name + "]"@,
        forall|k: int| from < k < i ==> filter_of(#[trigger] ls[k]) is None,
    ensures
        section_at(ls, i) == Some(name),
        section_at(ls, 0) is None,
    decreases i - from,
{
    if i == from + 1 {
        reveal_strlit("[");
        reveal_strlit("]");
        let l = ls[from];
        assert(l.len() == name.len() + 2);
        assert(l[0] == '[' && l.last() == ']');
        crate::text::lemma_trimmed_clean(l);
        assert(l.subrange(1, l.len() - 1) =~= name);
        crate::text::lemma_trimmed_clean(name);
    } else {
        law_a_filter_holds_until_the_next(ls, from, i - 1, name);
        assert(filter_of(ls[i - 1]) is None);
    }
}

/// Every line that holds a directive is found, and nothing else is.
pub proof fn law_every_directive_is_found(ls: Seq<Seq<char>>, key: Seq<char>, n: int, d: DirectiveView)
    requires
        0 <= n <= ls.len(),
    ensures
        found(ls, key, n).contains(d) <==> exists|i: int|
            0 <= i < n && #[trigger] directive_at(ls, i, key) == Some(d),
    decreases n,
{
    if n > 0 {
        law_every_directive_is_found(ls, key, n - 1, d);
        let before = found(ls, key, n - 1);
        let all = found(ls, key, n);
        match directive_at(ls, n - 1, key) {
            Some(e) => {
                assert(all == before.push(e));
                assert(all[all.len() - 1] == e);
                if before.contains(d) {
                    let k = choose|k: int| 0 <= k < before.len() && before[k] == d;
                    assert(all[k] == d);
                }
                if all.contains(d) && d != e {
                    let k = choose|k: int| 0 <= k < all.len() && all[k] == d;
                    assert(before[k] == d);
                }
            },
            None => {},
        }
    }
}

/// A setting is in force exactly where some line sets the key to that value, is not commented out,
/// and stands before any filter or under one that the board matches.
pub proof fn law_a_setting_is_in_force_where_a_line_sets_it(
    text: &str,
    key: &str,
    value: &str,
    sections: &[&str],
    r: bool,
)
    requires
        call_ensures(is_active, (text, key, value, sections), r),
    ensures
        r <==> exists|i: int|
            0 <= i < lines(text@).len() && (#[trigger] directive_at(lines(text@), i, key@) matches Some(
                d,
            ) && !d.commented && lower(d.value) == lower(trimmed(value@)) && match d.section {
                None => true,
                Some(s) => exists|k: int|
                    0 <= k < sections@.len() && lower((#[trigger] sections@[k])@) == lower(s),
            }),
{
    let ls = lines(text@);
    let n = ls.len() as int;
    let ds = directives(text@, key@);
    let vs = views(sections@);
    assert forall|d: DirectiveView| #[trigger] d.in_force(vs) <==> !d.commented && match d.section {
        None => true,
        Some(s) => exists|k: int|
            0 <= k < sections@.len() && lower((#[trigger] sections@[k])@) == lower(s),
    } by {
        if let Some(s) = d.section {
            if exists|k: int| 0 <= k < vs.len() && lower(#[trigger] vs[k]) == lower(s) {
                let k = choose|k: int| 0 <= k < vs.len() && lower(#[trigger] vs[k]) == lower(s);
                assert(lower(sections@[k]@) == lower(s));
            }
            if exists|k: int|
                0 <= k < sections@.len() && lower((#[trigger] sections@[k])@) == lower(s) {
                let k = choose|k: int|
                    0 <= k < sections@.len() && lower((#[trigger] sections@[k])@) == lower(s);
                assert(lower(vs[k]) == lower(s));
            }
        }
    }
    if r {
        let j = choose|j: int|
            0 <= j < ds.len() && (#[trigger] ds[j]).in_force(vs) && lower(ds[j].value) == lower(
                trimmed(value@),
            );
        law_every_directive_is_found(ls, key@, n, ds[j]);
        assert(ds.contains(ds[j]));
        let i = choose|i: int| 0 <= i < n && #[trigger] directive_at(ls, i, key@) == Some(ds[j]);
        assert(directive_at(ls, i, key@) == Some(ds[j]));
    }
    assert forall|i: int|
        0 <= i < n && (#[trigger] directive_at(ls, i, key@) matches Some(d) && d.in_force(vs)
            && lower(d.value) == lower(trimmed(value@))) implies r by {
        let d = directive_at(ls, i, key@)->0;
        law_every_directive_is_found(ls, key@, n, d);
        assert(ds.contains(d));
        let j = choose|j: int| 0 <= j < ds.len() && ds[j] == d;
        assert(ds[j].in_force(vs));
    }
}

/// Each board matches `all` and its own filters: a Compute Module those of its kind and of its Pi, a
/// board that is not known no other.
pub proof fn law_a_board_matches_its_own_filters(model: &str, r: Vec<&'static str>)
    requires
        call_ensures(sections_for, (model,), r),
    ensures
        r@.len() >= 1,
        r@[0]@ == "all"@,
        ({
            let m = lower(model@);
            let five = holds(m, "compute module 5"@) || holds(m, "cm5"@);
            let four = holds(m, "compute module 4"@) || holds(m, "cm4"@);
            &&& five ==> views(r@) == seq!["all"@, "cm5"@, "pi5"@]
            &&& !five && holds(m, "pi 5"@) ==> views(r@) == seq!["all"@, "pi5"@]
            &&& !five && !holds(m, "pi 5"@) && four ==> views(r@) == seq!["all"@, "cm4"@, "pi4"@]
            &&& !five && !holds(m, "pi 5"@) && !four && (holds(m, "pi 4"@) || holds(m, "pi 400"@))
                ==> views(r@) == seq!["all"@, "pi4"@]
            &&& r@.len() == 1 <==> !five && !four && !holds(m, "pi 5"@) && !holds(m, "pi 4"@)
                && !holds(m, "pi 400"@) && !holds(m, "pi 3"@) && !holds(m, "pi zero 2"@)
        }),
{
    assert(views(r@).len() == r@.len());
    assert(views(r@)[0] == r@[0]@);
}

} // verus!
