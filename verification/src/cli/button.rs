//! `argonctl button`: measures the case button's pulse widths.
//!
//! The case button is wired to the MCU, which decodes the press and emits a calibrated pulse. So
//! the host is not timing a human finger; it is measuring a signal the MCU generates. The kernel
//! timestamps each edge in nanoseconds.

use crate::device::button::Edge;
use crate::text::{
    begins, decimal, decimal_of, ends, join, left_aligned, pad_left, pad_right, padded, padded_of,
    right_aligned,
};
use vstd::prelude::*;

verus! {

/// The line the MCU pulses to signal the host.
pub const BUTTON_LINE: u32 = 4;

/// Microseconds as milliseconds with one decimal.
pub open spec fn ms_words(us: nat) -> Seq<char> {
    decimal(us / 1_000) + "."@ + decimal((us % 1_000) / 100)
}

/// Formats microseconds as milliseconds with one decimal, using integer arithmetic.
pub fn fmt_ms(us: u64) -> (s: String)
    ensures
        s@ == ms_words(us as nat),
{
    let mut s: String = join(decimal_of(us / 1_000).as_str(), ".");
    s.append(decimal_of((us % 1_000) / 100).as_str());
    s
}

// ---------------------------------------------------------------------------------------------
// Measuring
// ---------------------------------------------------------------------------------------------

/// What was measured so far.
pub struct Pulses {
    /// The widths of the pulses, in microseconds.
    widths_us: Vec<u64>,
    rising_at: Option<u64>,
    /// When the last pulse began: the gap before each pulse tells gestures apart. A pair of pulses
    /// a fraction of a second apart is one double-tap, two seconds apart two separate presses.
    last_pulse_ns: Option<u64>,
}

/// What was measured so far.
pub struct PulsesView {
    /// The widths of the pulses, in microseconds.
    pub widths_us: Seq<u64>,
    /// When the line last went up, if it has not come down since.
    pub rising_at: Option<u64>,
    /// When the last pulse began.
    pub last_pulse_ns: Option<u64>,
}

impl View for Pulses {
    type V = PulsesView;

    closed spec fn view(&self) -> PulsesView {
        PulsesView {
            widths_us: self.widths_us@,
            rising_at: self.rising_at,
            last_pulse_ns: self.last_pulse_ns,
        }
    }
}

/// The time from one timestamp to another, or 0.
pub open spec fn since(earlier: u64, later: u64) -> nat {
    if later >= earlier {
        (later - earlier) as nat
    } else {
        0
    }
}

fn elapsed(earlier: u64, later: u64) -> (d: u64)
    ensures
        d == since(earlier, later),
{
    if later >= earlier {
        later - earlier
    } else {
        0
    }
}

/// How long before it the last pulse began, in words.
pub open spec fn gap_words(last: Option<u64>, start: u64) -> Seq<char> {
    match last {
        None => Seq::empty(),
        Some(prev) => {
            let ms = since(prev, start) / 1_000_000;
            "   +"@ + decimal(ms / 1_000) + "."@ + padded((ms % 1_000) / 10, 2)
                + "s since the last"@
        },
    }
}

impl PulsesView {
    /// What is known after an edge.
    pub open spec fn after(self, way: Edge, at_ns: u64) -> PulsesView {
        match way {
            Edge::Rising => PulsesView { rising_at: Some(at_ns), ..self },
            Edge::Falling => match self.rising_at {
                None => self,
                Some(start) => PulsesView {
                    widths_us: self.widths_us.push((since(start, at_ns) / 1_000) as u64),
                    rising_at: None,
                    last_pulse_ns: Some(start),
                },
            },
        }
    }
}

impl Pulses {
    /// Nothing was measured yet.
    pub fn new() -> (p: Self)
        ensures
            p@ == (PulsesView { widths_us: Seq::empty(), rising_at: None, last_pulse_ns: None }),
    {
        Pulses { widths_us: Vec::new(), rising_at: None, last_pulse_ns: None }
    }

    /// The widths so far, in microseconds.
    pub fn widths(&self) -> (v: &Vec<u64>)
        ensures
            v@ == self@.widths_us,
    {
        &self.widths_us
    }

    /// Takes an edge of the line, and returns what is printed where it ends a pulse.
    pub fn on_edge(&mut self, way: Edge, at_ns: u64) -> (line: Option<String>)
        ensures
            final(self)@ == old(self)@.after(way, at_ns),
            match line {
                Some(s) => way == Edge::Falling && old(self)@.rising_at is Some && ({
                    let start = old(self)@.rising_at->0;
                    let us = since(start, at_ns) / 1_000;
                    s@ == "  pulse "@ + pad_left(decimal(final(self)@.widths_us.len()), 3) + ": "@
                        + pad_left(decimal(us), 7) + " us  ("@ + ms_words(us) + " ms)"@ + gap_words(
                        old(self)@.last_pulse_ns,
                        start,
                    )
                }),
                None => way == Edge::Rising || old(self)@.rising_at is None,
            },
    {
        match way {
            Edge::Rising => {
                self.rising_at = Some(at_ns);
                None
            },
            Edge::Falling => {
                let start: u64 = match self.rising_at {
                    Some(s) => s,
                    None => {
                        return None;
                    },
                };
                self.rising_at = None;
                let us: u64 = elapsed(start, at_ns) / 1_000;
                self.widths_us.push(us);
                let gap: String = match self.last_pulse_ns {
                    None => String::new(),
                    Some(prev) => {
                        let ms: u64 = elapsed(prev, start) / 1_000_000;
                        let mut g: String = join("   +", decimal_of(ms / 1_000).as_str());
                        g.append(".");
                        g.append(padded_of((ms % 1_000) / 10, 2).as_str());
                        g.append("s since the last");
                        g
                    },
                };
                self.last_pulse_ns = Some(start);
                let n: u64 = self.widths_us.len() as u64;
                let mut s: String = join(
                    "  pulse ",
                    right_aligned(decimal_of(n).as_str(), 3).as_str(),
                );
                s.append(": ");
                s.append(right_aligned(decimal_of(us).as_str(), 7).as_str());
                s.append(" us  (");
                s.append(fmt_ms(us).as_str());
                s.append(" ms)");
                s.append(gap.as_str());
                Some(s)
            },
        }
    }
}

// ---------------------------------------------------------------------------------------------
// The distribution
// ---------------------------------------------------------------------------------------------

/// Whether `s` is `v` in ascending order.
pub open spec fn is_sorted_of(s: Seq<u64>, v: Seq<u64>) -> bool {
    &&& s.to_multiset() == v.to_multiset()
    &&& forall|i: int, j: int| 0 <= i <= j < s.len() ==> s[i] <= s[j]
}

/// The numbers of `v` in ascending order.
pub fn sorted(v: &Vec<u64>) -> (s: Vec<u64>)
    ensures
        is_sorted_of(s@, v@),
{
    let mut out: Vec<u64> = Vec::new();
    let mut i: usize = 0;
    assert(v@.take(0) =~= out@);
    while i < v.len()
        invariant
            i <= v.len(),
            is_sorted_of(out@, v@.take(i as int)),
        decreases v.len() - i,
    {
        let w: u64 = v[i];
        let ghost before = out@;
        let mut p: usize = out.len();
        while p > 0 && out[p - 1] > w
            invariant
                p <= out.len(),
                out@ == before,
                forall|k: int| p <= k < out@.len() ==> out@[k] > w,
            decreases p,
        {
            p = p - 1;
        }
        out.insert(p, w);
        proof {
            broadcast use vstd::seq_lib::group_to_multiset_ensures;

            assert(v@.take(i + 1) =~= v@.take(i as int).push(w));
            assert(out@ =~= before.insert(p as int, w));
            assert forall|a: int, b: int| 0 <= a <= b < out@.len() implies out@[a] <= out@[b] by {
                let a0 = if a < p {
                    a
                } else {
                    a - 1
                };
                let b0 = if b < p {
                    b
                } else {
                    b - 1
                };
                if a != p && b != p {
                    assert(before[a0] <= before[b0]);
                } else if a == p && b > p {
                    assert(before[b0] > w);
                } else if b == p && a < p {
                    assert(before[a0] <= before[p - 1]);
                }
            }
        }
        i = i + 1;
    }
    assert(v@.take(i as int) =~= v@);
    out
}

/// How far apart two widths may be in one group, in microseconds.
pub const SPREAD_US: u64 = 5_000;

/// A group of widths that lie close together.
pub struct Group {
    /// How many there are.
    pub count: nat,
    /// The smallest.
    pub low: u64,
    /// The largest.
    pub high: u64,
    /// Their sum.
    pub total: nat,
}

/// The groups of widths in ascending order: a gap much larger than the local spread separates two
/// intended widths. Deliberately simple -- the point is to show the structure, not to decide
/// thresholds from a few samples.
pub open spec fn grouped(s: Seq<u64>) -> Seq<Group>
    decreases s.len(),
{
    if s.len() == 0 {
        Seq::empty()
    } else {
        let before = grouped(s.drop_last());
        let w = s.last();
        if before.len() > 0 && w <= before.last().high + SPREAD_US {
            let g = before.last();
            before.drop_last().push(
                Group { count: g.count + 1, low: g.low, high: w, total: g.total + w as nat },
            )
        } else {
            before.push(Group { count: 1, low: w, high: w, total: w as nat })
        }
    }
}

/// A group, as it is counted.
#[derive(Clone, Copy, Debug, PartialEq, Eq, Structural)]
struct Cluster {
    count: u64,
    low: u64,
    high: u64,
    total: u128,
}

spec fn group_of(c: Cluster) -> Group {
    Group { count: c.count as nat, low: c.low, high: c.high, total: c.total as nat }
}

spec fn groups_of(cs: Seq<Cluster>) -> Seq<Group> {
    cs.map_values(|c: Cluster| group_of(c))
}

spec fn counted(c: Cluster, n: int) -> bool {
    0 < c.count <= n && c.total <= c.count * u64::MAX
}

fn cluster(s: &Vec<u64>) -> (cs: Vec<Cluster>)
    ensures
        groups_of(cs@) == grouped(s@),
        forall|i: int| 0 <= i < cs@.len() ==> counted(#[trigger] cs@[i], s@.len() as int),
{
    let mut cs: Vec<Cluster> = Vec::new();
    let mut i: usize = 0;
    assert(groups_of(cs@) =~= grouped(s@.take(0)));
    while i < s.len()
        invariant
            i <= s.len(),
            groups_of(cs@) == grouped(s@.take(i as int)),
            forall|k: int| 0 <= k < cs@.len() ==> counted(#[trigger] cs@[k], i as int),
        decreases s.len() - i,
    {
        let w: u64 = s[i];
        let ghost before = cs@;
        assert(s@.take(i + 1).drop_last() =~= s@.take(i as int));
        assert(s@.take(i + 1).last() == w);
        let n: usize = cs.len();
        let joins: bool = n > 0 && (w <= cs[n - 1].high || w - cs[n - 1].high <= SPREAD_US);
        if joins {
            let c: Cluster = cs[n - 1];
            assert(counted(before[n - 1], i as int));
            assert(groups_of(before).last() == group_of(c));
            cs.pop();
            let more: Cluster = Cluster {
                count: c.count + 1,
                low: c.low,
                high: w,
                total: c.total + w as u128,
            };
            cs.push(more);
            assert(groups_of(cs@) =~= groups_of(before).drop_last().push(group_of(more)));
            assert forall|k: int| 0 <= k < cs@.len() implies counted(#[trigger] cs@[k], i + 1) by {
                if k < n - 1 {
                    assert(cs@[k] == before[k]);
                    assert(counted(before[k], i as int));
                }
            }
        } else {
            assert(n > 0 ==> groups_of(before).last() == group_of(before[n - 1]));
            let one: Cluster = Cluster { count: 1, low: w, high: w, total: w as u128 };
            cs.push(one);
            assert(groups_of(cs@) =~= groups_of(before).push(group_of(one)));
            assert forall|k: int| 0 <= k < cs@.len() implies counted(#[trigger] cs@[k], i + 1) by {
                if k < n {
                    assert(cs@[k] == before[k]);
                    assert(counted(before[k], i as int));
                }
            }
        }
        i = i + 1;
    }
    assert(s@.take(i as int) =~= s@);
    cs
}

/// The line of a group.
pub open spec fn group_line(g: Group) -> Seq<char> {
    "  "@ + pad_left(decimal(g.count), 3) + " pulse(s)  "@ + pad_left(decimal(g.low as nat), 7)
        + ".."@ + pad_right(decimal(g.high as nat), 7) + " us   mean "@ + pad_left(
        decimal(g.total / g.count),
        7,
    ) + " us  ("@ + ms_words(g.low as nat) + ".."@ + ms_words(g.high as nat) + " ms)\n"@
}

/// The lines of the groups.
pub open spec fn group_lines(gs: Seq<Group>) -> Seq<char>
    decreases gs.len(),
{
    if gs.len() == 0 {
        Seq::empty()
    } else {
        group_lines(gs.drop_last()) + group_line(gs.last())
    }
}

/// The line of the boundary between two groups: in the middle of the gap, with half of it as the
/// margin.
pub open spec fn boundary_line(a: Group, b: Group) -> Seq<char> {
    let gap = since(a.high, b.low);
    let boundary = a.high as nat + gap / 2;
    "  boundary at "@ + pad_left(decimal(boundary), 7) + " us ("@ + ms_words(boundary)
        + " ms), margin +/-"@ + ms_words(gap / 2) + " ms\n"@
}

/// The lines of the boundaries between neighbouring groups.
pub open spec fn boundary_lines(gs: Seq<Group>) -> Seq<char>
    decreases gs.len(),
{
    if gs.len() < 2 {
        Seq::empty()
    } else {
        boundary_lines(gs.drop_last()) + boundary_line(gs[gs.len() - 2], gs.last())
    }
}

/// What is printed of the widths in ascending order.
pub open spec fn report_words(s: Seq<u64>) -> Seq<char> {
    let gs = grouped(s);
    "\nDistribution ("@ + decimal(s.len()) + " pulses)\n-------------------------\n"@ + group_lines(
        gs,
    ) + "\nProposed thresholds\n-------------------\n"@ + (if gs.len() < 2 {
        "  Only one cluster. Press a wider variety of durations, or the MCU emits\n  a single pulse width and the action is encoded some other way.\n"@
    } else {
        boundary_lines(gs)
            + "\nRecord these in docs/protocol/one-button.md and promote ARGON-GPIO-BTN-WINDOWS\nfrom `inferred` to `observed`.\n"@
    })
}

fn group_text(c: Cluster) -> (s: String)
    requires
        c.count > 0,
        c.total <= c.count * u64::MAX,
    ensures
        s@ == group_line(group_of(c)),
{
    let mean: u128 = c.total / c.count as u128;
    assert(mean <= u64::MAX) by (nonlinear_arith)
        requires
            c.count > 0,
            c.total <= c.count * u64::MAX,
            mean == c.total as int / c.count as int,
    ;
    let mut s: String = join("  ", right_aligned(decimal_of(c.count).as_str(), 3).as_str());
    s.append(" pulse(s)  ");
    s.append(right_aligned(decimal_of(c.low).as_str(), 7).as_str());
    s.append("..");
    s.append(left_aligned(decimal_of(c.high).as_str(), 7).as_str());
    s.append(" us   mean ");
    s.append(right_aligned(decimal_of(mean as u64).as_str(), 7).as_str());
    s.append(" us  (");
    s.append(fmt_ms(c.low).as_str());
    s.append("..");
    s.append(fmt_ms(c.high).as_str());
    s.append(" ms)\n");
    s
}

fn boundary_text(a: Cluster, b: Cluster) -> (s: String)
    ensures
        s@ == boundary_line(group_of(a), group_of(b)),
{
    let gap: u64 = elapsed(a.high, b.low);
    let boundary: u64 = a.high + gap / 2;
    let mut s: String = join(
        "  boundary at ",
        right_aligned(decimal_of(boundary).as_str(), 7).as_str(),
    );
    s.append(" us (");
    s.append(fmt_ms(boundary).as_str());
    s.append(" ms), margin +/-");
    s.append(fmt_ms(gap / 2).as_str());
    s.append(" ms\n");
    s
}

/// Prints the distribution of the widths, and proposes thresholds with margins.
pub fn report(widths_us: &Vec<u64>) -> (s: String)
    ensures
        exists|sorted: Seq<u64>|
            #[trigger] is_sorted_of(sorted, widths_us@) && s@ == report_words(sorted),
{
    let ascending: Vec<u64> = sorted(widths_us);
    let cs: Vec<Cluster> = cluster(&ascending);
    let ghost gs = grouped(ascending@);
    assert(gs.len() == cs@.len()) by {
        assert(groups_of(cs@).len() == cs@.len());
    }
    let mut lines: String = String::new();
    let mut bounds: String = String::new();
    let mut i: usize = 0;
    assert(gs.take(0) =~= Seq::<Group>::empty());
    while i < cs.len()
        invariant
            i <= cs.len(),
            gs == groups_of(cs@),
            gs.len() == cs@.len(),
            forall|k: int|
                0 <= k < cs@.len() ==> counted(#[trigger] cs@[k], ascending@.len() as int),
            lines@ == group_lines(gs.take(i as int)),
            bounds@ == boundary_lines(gs.take(i as int)),
        decreases cs.len() - i,
    {
        assert(gs.take(i + 1).drop_last() =~= gs.take(i as int));
        assert(gs.take(i + 1).last() == group_of(cs@[i as int]));
        assert(counted(cs@[i as int], ascending@.len() as int));
        lines.append(group_text(cs[i]).as_str());
        if i > 0 {
            assert(gs.take(i + 1)[i - 1] == group_of(cs@[i - 1]));
            bounds.append(boundary_text(cs[i - 1], cs[i]).as_str());
        }
        i = i + 1;
    }
    assert(gs.take(i as int) =~= gs);
    let mut s: String = join(
        "\nDistribution (",
        decimal_of(ascending.len() as u64).as_str(),
    );
    s.append(" pulses)\n-------------------------\n");
    s.append(lines.as_str());
    s.append("\nProposed thresholds\n-------------------\n");
    if cs.len() < 2 {
        s.append(
            "  Only one cluster. Press a wider variety of durations, or the MCU emits\n  a single pulse width and the action is encoded some other way.\n",
        );
    } else {
        bounds.append(
            "\nRecord these in docs/protocol/one-button.md and promote ARGON-GPIO-BTN-WINDOWS\nfrom `inferred` to `observed`.\n",
        );
        s.append(bounds.as_str());
    }
    s
}

/// Every width is in one group: the counts of the groups add up to the number of widths.
pub proof fn law_every_width_is_in_a_group(s: Seq<u64>)
    ensures
        total_count(grouped(s)) == s.len(),
    decreases s.len(),
{
    if s.len() > 0 {
        let before = grouped(s.drop_last());
        law_every_width_is_in_a_group(s.drop_last());
        assert(grouped(s).drop_last() =~= if before.len() > 0 && s.last() <= before.last().high
            + SPREAD_US {
            before.drop_last()
        } else {
            before
        });
    }
}

/// The counts of the groups, added up.
pub open spec fn total_count(gs: Seq<Group>) -> nat
    decreases gs.len(),
{
    if gs.len() == 0 {
        0
    } else {
        total_count(gs.drop_last()) + gs.last().count
    }
}

/// Microseconds are told in whole milliseconds and tenths, rounded down.
pub proof fn law_milliseconds_are_told_to_a_tenth(us: u64, s: String, n: nat, d: nat)
    requires
        call_ensures(fmt_ms, (us,), s),
        d < 10,
        n * 1_000 + d * 100 <= us < n * 1_000 + d * 100 + 100,
    ensures
        s@ == decimal(n) + "."@ + decimal(d),
{
    assert(us as nat / 1_000 == n);
    assert((us as nat % 1_000) / 100 == d);
}

/// A pulse is measured from its rising to its falling edge, in microseconds, and is added to those
/// before it; it is printed when it ends.
pub proof fn law_a_pulse_is_added_when_it_ends(start: u64, end: u64)
    requires
        start <= end,
    ensures
        forall|p: &mut Pulses, line: Option<String>| #[trigger]
            call_ensures(Pulses::on_edge, (p, Edge::Rising, start), line) ==> line is None && final(
                p)@.rising_at == Some(start) && final(p)@.widths_us == p@.widths_us,
        forall|p: &mut Pulses, line: Option<String>| #[trigger]
            call_ensures(Pulses::on_edge, (p, Edge::Falling, end), line) && p@.rising_at == Some(
                start,
            ) ==> {
                &&& line is Some
                &&& final(p)@.widths_us.len() == p@.widths_us.len() + 1
                &&& final(p)@.widths_us.last() == (end - start) / 1_000
                &&& final(p)@.rising_at is None
                &&& final(p)@.last_pulse_ns == Some(start)
            },
        forall|p: &mut Pulses, line: Option<String>| #[trigger]
            call_ensures(Pulses::on_edge, (p, Edge::Falling, end), line) && p@.rising_at is None
                ==> line is None && final(p)@ == p@,
{
}

/// Neighbouring widths are in one group exactly where they are no more than five milliseconds apart:
/// the next width joins the last group there, and starts a new one otherwise.
pub proof fn law_widths_close_together_are_one_group(s: Seq<u64>, w: u64)
    requires
        s.len() > 0,
    ensures
        grouped(s).len() > 0,
        grouped(s).last().high == s.last(),
        w <= s.last() + 5_000 ==> grouped(s.push(w)).len() == grouped(s).len() && grouped(
            s.push(w),
        ).last() == (Group {
            count: grouped(s).last().count + 1,
            low: grouped(s).last().low,
            high: w,
            total: grouped(s).last().total + w as nat,
        }),
        w > s.last() + 5_000 ==> grouped(s.push(w)).len() == grouped(s).len() + 1 && grouped(
            s.push(w),
        ).last() == (Group { count: 1, low: w, high: w, total: w as nat }),
    decreases s.len(),
{
    assert(s.push(w).drop_last() =~= s);
    assert(s.push(w).last() == w);
    if s.len() > 1 {
        let t = s.drop_last();
        law_widths_close_together_are_one_group(t, s.last());
        assert(t.push(s.last()) =~= s);
    } else {
        assert(s.drop_last() =~= Seq::<u64>::empty());
        assert(grouped(s.drop_last()) =~= Seq::<Group>::empty());
    }
}

/// The boundary between two groups is in the middle of the gap between them.
pub proof fn law_the_boundary_is_in_the_middle(a: Group, b: Group, m: nat)
    requires
        a.high <= b.low,
        2 * m <= a.high + b.low < 2 * m + 2,
    ensures
        begins(boundary_line(a, b), "  boundary at "@ + pad_left(decimal(m), 7) + " us ("@),
{
    let gap = since(a.high, b.low);
    assert(a.high as nat + gap / 2 == m);
    let head = "  boundary at "@ + pad_left(decimal(m), 7) + " us ("@;
    assert(boundary_line(a, b).take(head.len() as int) =~= head);
}

/// A pulse that follows another is told with the time since that one began, to a hundredth of a second.
pub proof fn law_the_time_since_the_last_pulse_is_told(prev: u64, start: u64, s: nat, hundredths: nat, rest: nat)
    requires
        start == prev + s * 1_000_000_000 + hundredths * 10_000_000 + rest,
        hundredths < 100,
        rest < 10_000_000,
    ensures
        gap_words(Some(prev), start) == "   +"@ + decimal(s) + "."@ + padded(hundredths, 2)
            + "s since the last"@,
        gap_words(None, start).len() == 0,
{
    let ns = (start - prev) as nat;
    let ms = ns / 1_000_000;
    assert(ms == s * 1_000 + hundredths * 10 + rest / 1_000_000);
    assert(ms / 1_000 == s);
    assert((ms % 1_000) / 10 == hundredths);
}

/// Sorting keeps every width and puts none before a smaller one.
pub proof fn law_sorting_orders_what_is_there(v: &Vec<u64>, s: Vec<u64>, i: int, j: int)
    requires
        call_ensures(sorted, (v,), s),
        0 <= i <= j < s@.len(),
    ensures
        s@[i] <= s@[j],
        s@.to_multiset() == v@.to_multiset(),
{
}

/// The report holds the number of pulses, a line for each group, and a boundary between each two; with
/// one group there is none to propose, and that is said.
pub proof fn law_a_boundary_stands_between_two_groups(s: Seq<u64>, gs: Seq<Group>, g: Group)
    ensures
        begins(
            report_words(s),
            "\nDistribution ("@ + decimal(s.len()) + " pulses)\n-------------------------\n"@
                + group_lines(grouped(s)),
        ),
        grouped(s).len() >= 2 ==> ends(
            report_words(s),
            boundary_lines(grouped(s))
                + "\nRecord these in docs/protocol/one-button.md and promote ARGON-GPIO-BTN-WINDOWS\nfrom `inferred` to `observed`.\n"@,
        ),
        grouped(s).len() <= 1 ==> ends(
            report_words(s),
            "  Only one cluster. Press a wider variety of durations, or the MCU emits\n  a single pulse width and the action is encoded some other way.\n"@,
        ),
        gs.len() >= 1 ==> boundary_lines(gs.push(g)) == boundary_lines(gs) + boundary_line(
            gs.last(),
            g,
        ),
        gs.len() <= 1 ==> boundary_lines(gs).len() == 0,
{
    let h = "\nDistribution ("@ + decimal(s.len()) + " pulses)\n-------------------------\n"@
        + group_lines(grouped(s));
    assert(report_words(s).take(h.len() as int) =~= h);
    let one =
        "  Only one cluster. Press a wider variety of durations, or the MCU emits\n  a single pulse width and the action is encoded some other way.\n"@;
    let more = boundary_lines(grouped(s))
        + "\nRecord these in docs/protocol/one-button.md and promote ARGON-GPIO-BTN-WINDOWS\nfrom `inferred` to `observed`.\n"@;
    if grouped(s).len() >= 2 {
        assert(report_words(s).skip(report_words(s).len() - more.len()) =~= more);
    } else {
        assert(report_words(s).skip(report_words(s).len() - one.len()) =~= one);
    }
    assert(gs.push(g).drop_last() =~= gs);
}

} // verus!
