//! The status page on the case OLED.
//!
//! Two layers: `page` decides what the screen says, `draw` decides where it goes. What a status
//! file means is not decided here but in `status::interpret`, shared with every other display, so
//! two of them cannot disagree -- in particular about a stale file, which none may show as current.
//!
//! An OLED showing the same pixels for months wears those pixels unevenly, so the whole page moves
//! by up to two pixels on a slow cycle (`shift_at`).

use crate::device::celsius::{to_degrees, whole_degrees};
use crate::device::fan_control::FanReading;
use crate::device::oled::{drawn, Mark, MarkView, HEIGHT, WIDTH};
use crate::device::status::{
    interpret, is_stale, lemma_levels_differ, owned, LevelName, Reading, UpsStatus, STALE_AFTER,
};
use crate::text::{
    begins, decimal, decimal_of, is_digit, join, law_decimal_is_digits, lemma_padded,
    signed_decimal, signed_decimal_of, texts,
};
use crate::time::{Duration, SystemTime, MAX_NANOS, NANOS_PER_SEC};
use vstd::prelude::*;

verus! {

/// Largest burn-in offset, in pixels, in each direction.
pub const MAX_SHIFT: usize = 2;

/// How long the page stays at one offset before moving to the next, in seconds.
pub const SHIFT_PERIOD: u64 = 300;

/// Width available to content once the margin and the shift are allowed for.
pub const CONTENT_WIDTH: usize = 124;

/// Characters that fit on one line of `CONTENT_WIDTH`.
pub const LINE_CHARS: usize = 20;

/// Lines of text below the bar.
pub const MAX_LINES: usize = 4;

/// Everything the page is drawn from.
#[derive(Clone, Copy, Debug)]
pub struct PageInput<'a> {
    /// The status that is published, if there is one.
    pub status: Option<&'a UpsStatus>,
    /// When the page is being drawn.
    pub now: SystemTime,
    /// CPU temperature in tenths of a degree.
    pub cpu_decicelsius: Option<i32>,
    /// The kernel fan, if there is one.
    pub fan: Option<FanReading>,
}

/// What the screen says, before it becomes pixels.
#[derive(Clone, Debug, PartialEq, Eq)]
pub struct Page {
    /// Top left, e.g. `UPS 87%`.
    pub title: String,
    /// Top right, e.g. `MAINS`.
    pub state: String,
    /// The charge bar, when there is a charge that may be shown.
    pub bar: Option<u8>,
    /// Up to `MAX_LINES` lines below the bar.
    pub lines: Vec<String>,
}

/// What a `Page` says.
pub struct PageView {
    /// Top left.
    pub title: Seq<char>,
    /// Top right.
    pub state: Seq<char>,
    /// The charge bar.
    pub bar: Option<u8>,
    /// The lines below the bar.
    pub lines: Seq<Seq<char>>,
}

impl View for Page {
    type V = PageView;

    open spec fn view(&self) -> PageView {
        PageView {
            title: self.title@,
            state: self.state@,
            bar: self.bar,
            lines: texts(self.lines@),
        }
    }
}

/// The word for a level.
pub open spec fn level_word(level: Seq<char>) -> Seq<char> {
    if level == "on-mains"@ {
        "MAINS"@
    } else if level == "on-battery"@ {
        "BATTERY"@
    } else if level == "low"@ {
        "LOW"@
    } else if level == "critical"@ {
        "CRITICAL"@
    } else {
        "?"@
    }
}

/// The whole seconds of the age of a status.
pub open spec fn age_secs(s: UpsStatus, now: SystemTime) -> nat {
    (if now.since(s.updated) <= MAX_NANOS {
        now.since(s.updated)
    } else {
        MAX_NANOS as nat
    }) / (NANOS_PER_SEC as nat)
}

/// What the page says of the UPS. `clock` is the time of day of a pending poweroff.
pub open spec fn ups_page(status: Option<UpsStatus>, now: SystemTime, clock: Seq<char>) -> PageView {
    match status {
        None => PageView {
            title: "UPS"@,
            state: "NO DATA"@,
            bar: None,
            lines: seq!["No status from"@, "argond"@],
        },
        Some(s) => if is_stale(s, now) {
            // No percentage and no bar: the last number that was written is exactly the thing that
            // must not be shown once nobody is updating it.
            PageView {
                title: "UPS"@,
                state: "STALE"@,
                bar: None,
                lines: seq![
                    "No update for "@ + age_words(age_secs(s, now)),
                    "Battery NOT watched"@,
                ],
            }
        } else if s.percent is None || s.level@ == "unknown"@ {
            PageView {
                title: "UPS"@,
                state: "READ FAIL"@,
                bar: None,
                lines: seq!["Last UPS read failed"@],
            }
        } else if s.shutdown_at is Some {
            PageView {
                title: "UPS "@ + decimal((s.percent->0) as nat) + "%"@,
                state: "CRITICAL"@,
                bar: s.percent,
                lines: seq!["POWER OFF AT "@ + clock, "Plug in mains to"@, "cancel"@],
            }
        } else {
            PageView {
                title: "UPS "@ + decimal((s.percent->0) as nat) + "%"@,
                state: level_word(s.level@),
                bar: s.percent,
                lines: Seq::empty(),
            }
        },
    }
}

/// An age in the largest unit that keeps it short.
pub open spec fn age_words(s: nat) -> Seq<char> {
    if s < 120 {
        decimal(s) + "s"@
    } else if s < 7_200 {
        decimal(s / 60) + "min"@
    } else if s < 172_800 {
        decimal(s / 3_600) + "h"@
    } else {
        decimal(s / 86_400) + "d"@
    }
}

/// What is said of the CPU.
pub open spec fn cpu_words(dc: i32) -> Seq<char> {
    "CPU "@ + signed_decimal(whole_degrees(dc)) + "C"@
}

/// What is said of the fan.
pub open spec fn fan_words(f: FanReading) -> Seq<char> {
    if f.pwm == 0 && (f.rpm is None || f.rpm == Some(0u32)) {
        "FAN OFF"@
    } else {
        match f.rpm {
            Some(rpm) => "FAN "@ + decimal(rpm as nat),
            None => "FAN "@ + decimal((f.pwm * 100 / 255) as nat) + "%"@,
        }
    }
}

/// What is said of the machine, where anything is known of it.
pub open spec fn machine_words(cpu: Option<i32>, fan: Option<FanReading>) -> Option<Seq<char>> {
    match (cpu, fan) {
        (Some(c), Some(f)) => Some(cpu_words(c) + "  "@ + fan_words(f)),
        (Some(c), None) => Some(cpu_words(c)),
        (None, Some(f)) => Some(fan_words(f)),
        (None, None) => None,
    }
}

/// What the page says.
pub open spec fn page_of(
    status: Option<UpsStatus>,
    now: SystemTime,
    cpu: Option<i32>,
    fan: Option<FanReading>,
    clock: Seq<char>,
) -> PageView {
    let p = ups_page(status, now, clock);
    match machine_words(cpu, fan) {
        Some(line) => PageView { lines: p.lines.push(line), ..p },
        None => p,
    }
}

fn percent_title(percent: u8) -> (s: String)
    ensures
        s@ == "UPS "@ + decimal(percent as nat) + "%"@,
{
    let mut s: String = join("UPS ", decimal_of(percent as u64).as_str());
    s.append("%");
    s
}

/// Decides what the page says. `clock` is the time of day of the pending poweroff, where there is
/// one.
pub fn page<'a>(input: &PageInput<'a>, clock: &str) -> (p: Page)
    ensures
        p@ == page_of(
            owned(input.status),
            input.now,
            input.cpu_decicelsius,
            input.fan,
            clock@,
        ),
        p.lines.len() <= MAX_LINES,
{
    let mut p: Page = match interpret(input.status, input.now) {
        Reading::NoData => Page {
            title: "UPS".to_owned(),
            state: "NO DATA".to_owned(),
            bar: None,
            lines: vec!["No status from".to_owned(), "argond".to_owned()],
        },
        Reading::Stale { age } => Page {
            title: "UPS".to_owned(),
            state: "STALE".to_owned(),
            bar: None,
            lines: vec![
                join("No update for ", short_age(age).as_str()),
                "Battery NOT watched".to_owned(),
            ],
        },
        Reading::Failed => Page {
            title: "UPS".to_owned(),
            state: "READ FAIL".to_owned(),
            bar: None,
            lines: vec!["Last UPS read failed".to_owned()],
        },
        Reading::PowerOffPending { percent, at: _ } => Page {
            title: percent_title(percent),
            state: "CRITICAL".to_owned(),
            bar: Some(percent),
            lines: vec![
                join("POWER OFF AT ", clock),
                "Plug in mains to".to_owned(),
                "cancel".to_owned(),
            ],
        },
        Reading::Current { percent, level } => {
            let word: &str = match level {
                LevelName::OnMains => "MAINS",
                LevelName::OnBattery => "BATTERY",
                LevelName::Low => "LOW",
                LevelName::Critical => "CRITICAL",
                LevelName::Unrecognised(_) => "?",
            };
            proof {
                reveal_strlit("on-mains");
                reveal_strlit("on-battery");
                reveal_strlit("low");
                reveal_strlit("critical");
                assert("on-mains"@.len() == 8 && "on-battery"@.len() == 10 && "low"@.len() == 3
                    && "critical"@.len() == 8);
                assert("on-mains"@[0] == 'o' && "critical"@[0] == 'c');
            }
            Page {
                title: percent_title(percent),
                state: word.to_owned(),
                bar: Some(percent),
                lines: Vec::new(),
            }
        },
    };
    let ghost base = ups_page(owned(input.status), input.now, clock@);
    assert(texts(p.lines@) =~= base.lines);
    assert(p.title@ == base.title);
    assert(p.state@ == base.state);
    let ghost before = p.lines@;
    if let Some(line) = machine_line(input.cpu_decicelsius, input.fan) {
        p.lines.push(line);
        assert(texts(p.lines@) =~= texts(before).push(line@));
    }
    p
}

/// An age in the largest unit that keeps it short: `45s`, `12min`, `5h`, `3d`. A line on this panel
/// holds 20 characters.
pub fn short_age(age: Duration) -> (t: String)
    ensures
        t@ == age_words(age.secs()),
{
    let s: u64 = age.as_secs();
    if s < 120 {
        join(decimal_of(s).as_str(), "s")
    } else if s < 7_200 {
        join(decimal_of(s / 60).as_str(), "min")
    } else if s < 172_800 {
        join(decimal_of(s / 3_600).as_str(), "h")
    } else {
        join(decimal_of(s / 86_400).as_str(), "d")
    }
}

/// `CPU 45C  FAN OFF`, or whichever half is known.
fn machine_line(cpu: Option<i32>, fan: Option<FanReading>) -> (r: Option<String>)
    ensures
        match r {
            Some(s) => machine_words(cpu, fan) == Some(s@),
            None => machine_words(cpu, fan) is None,
        },
{
    let c: Option<String> = match cpu {
        Some(dc) => {
            let mut s: String = join("CPU ", signed_decimal_of(to_degrees(dc)).as_str());
            s.append("C");
            Some(s)
        },
        None => None,
    };
    let f: Option<String> = match fan {
        Some(f) => Some(fan_text(f)),
        None => None,
    };
    match (c, f) {
        (Some(c), Some(f)) => {
            let mut s: String = join(c.as_str(), "  ");
            s.append(f.as_str());
            Some(s)
        },
        (Some(c), None) => Some(c),
        (None, Some(f)) => Some(f),
        (None, None) => None,
    }
}

fn fan_text(f: FanReading) -> (s: String)
    ensures
        s@ == fan_words(f),
{
    let still: bool = match f.rpm {
        Some(rpm) => rpm == 0,
        None => true,
    };
    if still && f.pwm == 0 {
        return "FAN OFF".to_owned();
    }
    match f.rpm {
        Some(rpm) => join("FAN ", decimal_of(rpm as u64).as_str()),
        None => {
            let mut s: String = join("FAN ", decimal_of(f.pwm as u64 * 100 / 255).as_str());
            s.append("%");
            s
        },
    }
}

/// The offsets that the page moves through: the corners and edges of a 3x3 square.
pub open spec fn orbit(step: nat) -> (usize, usize) {
    let k = step % 8;
    if k == 0 {
        (0, 0)
    } else if k == 1 {
        (1, 0)
    } else if k == 2 {
        (2, 0)
    } else if k == 3 {
        (2, 1)
    } else if k == 4 {
        (2, 2)
    } else if k == 5 {
        (1, 2)
    } else if k == 6 {
        (0, 2)
    } else {
        (0, 1)
    }
}

/// The burn-in offset for a moment, as `(dx, dy)`: a slow orbit, one step per `SHIFT_PERIOD`, so
/// every offset gets equal time and no single edge position dominates.
pub fn shift_at(elapsed: Duration) -> (r: (usize, usize))
    ensures
        r == orbit(elapsed.secs() / (SHIFT_PERIOD as nat)),
{
    let k: u64 = elapsed.as_secs() / SHIFT_PERIOD % 8;
    if k == 0 {
        (0, 0)
    } else if k == 1 {
        (1, 0)
    } else if k == 2 {
        (2, 0)
    } else if k == 3 {
        (2, 1)
    } else if k == 4 {
        (2, 2)
    } else if k == 5 {
        (1, 2)
    } else if k == 6 {
        (0, 2)
    } else {
        (0, 1)
    }
}

/// The orbit stays within `MAX_SHIFT`, moves by one pixel at each step, and visits a different
/// position at each of eight steps.
pub proof fn law_the_orbit_visits_every_position(a: nat, b: nat)
    ensures
        orbit(a).0 <= MAX_SHIFT && orbit(a).1 <= MAX_SHIFT,
        orbit(a) == orbit(b) <==> a % 8 == b % 8,
        (orbit(a).0 == orbit(a + 1).0) != (orbit(a).1 == orbit(a + 1).1),
{
}

/// A line cut to what fits.
pub open spec fn clipped(s: Seq<char>) -> Seq<char> {
    if s.len() > LINE_CHARS {
        s.take(LINE_CHARS as int)
    } else {
        s
    }
}

/// Cuts a line to what fits, so an unexpectedly long value truncates visibly at the edge.
pub fn clip<'a>(s: &'a str) -> (r: &'a str)
    ensures
        r@ == clipped(s@),
{
    if s.unicode_len() > LINE_CHARS {
        let r: &str = s.substring_char(0, LINE_CHARS);
        assert(r@ =~= s@.take(LINE_CHARS as int));
        r
    } else {
        s
    }
}

/// An offset, within `MAX_SHIFT`, from the margin.
pub open spec fn margin(d: usize) -> int {
    1 + if d <= MAX_SHIFT {
        d as int
    } else {
        MAX_SHIFT as int
    }
}

/// The marks of the first `n` lines.
pub open spec fn line_marks(lines: Seq<Seq<char>>, x: int, y: int, n: int) -> Seq<MarkView>
    decreases n,
{
    if n <= 0 {
        Seq::empty()
    } else {
        line_marks(lines, x, y, n - 1).push(
            MarkView::Text(x, y + 22 + (n - 1) * 10, clipped(lines[n - 1])),
        )
    }
}

/// How many lines are drawn.
pub open spec fn shown(lines: Seq<Seq<char>>) -> int {
    if lines.len() <= MAX_LINES {
        lines.len() as int
    } else {
        MAX_LINES as int
    }
}

/// The marks of a page at an offset. `state_width` is the width of the state in pixels.
pub open spec fn marks_of(p: PageView, shift: (usize, usize), state_width: int) -> Seq<MarkView> {
    let x = margin(shift.0);
    let y = margin(shift.1);
    let state_x = x + if state_width <= CONTENT_WIDTH {
        CONTENT_WIDTH - state_width
    } else {
        0
    };
    seq![
        MarkView::Text(x, y, clipped(p.title)),
        MarkView::Text(state_x, y, clipped(p.state)),
    ] + (match p.bar {
        Some(pct) => seq![MarkView::Bar(x, y + 10, CONTENT_WIDTH as int, 9, pct as int)],
        None => seq![],
    }) + line_marks(p.lines, x, y, shown(p.lines))
}

/// What to draw for a page at a burn-in offset. `state_width` is how many pixels wide
/// `clip(&page.state)` is.
pub fn draw(page: &Page, shift: (usize, usize), state_width: usize) -> (v: Vec<Mark>)
    ensures
        drawn(v@) == marks_of(page@, shift, state_width as int),
{
    let x: usize = 1 + if shift.0 <= MAX_SHIFT {
        shift.0
    } else {
        MAX_SHIFT
    };
    let y: usize = 1 + if shift.1 <= MAX_SHIFT {
        shift.1
    } else {
        MAX_SHIFT
    };
    let state_x: usize = x + if state_width <= CONTENT_WIDTH {
        CONTENT_WIDTH - state_width
    } else {
        0
    };
    let mut v: Vec<Mark> = vec![
        Mark::Text { x, y, text: clip(page.title.as_str()).to_owned() },
        Mark::Text { x: state_x, y, text: clip(page.state.as_str()).to_owned() },
    ];
    if let Some(percent) = page.bar {
        v.push(Mark::Bar { x, y: y + 10, width: CONTENT_WIDTH, height: 9, percent });
    }
    let ghost head = drawn(v@);
    assert(head =~= seq![
        MarkView::Text(x as int, y as int, clipped(page.title@)),
        MarkView::Text(state_x as int, y as int, clipped(page.state@)),
    ] + (match page.bar {
        Some(pct) => seq![
            MarkView::Bar(x as int, y + 10, CONTENT_WIDTH as int, 9, pct as int),
        ],
        None => seq![],
    }));
    let n: usize = if page.lines.len() <= MAX_LINES {
        page.lines.len()
    } else {
        MAX_LINES
    };
    let mut i: usize = 0;
    assert(drawn(v@) =~= head + line_marks(texts(page.lines@), x as int, y as int, 0));
    while i < n
        invariant
            i <= n <= MAX_LINES,
            n <= page.lines.len(),
            1 <= x <= 3,
            1 <= y <= 3,
            drawn(v@) == head + line_marks(texts(page.lines@), x as int, y as int, i as int),
        decreases n - i,
    {
        let ghost before = v@;
        let m: Mark = Mark::Text {
            x,
            y: y + 22 + i * 10,
            text: clip(page.lines[i].as_str()).to_owned(),
        };
        v.push(m);
        i = i + 1;
        assert(drawn(v@) =~= drawn(before).push(m@));
        assert(drawn(v@) =~= head + line_marks(texts(page.lines@), x as int, y as int, i as int));
    }
    assert(texts(page.lines@).len() == page.lines@.len());
    v
}

/// A stale file is never shown as current: the page has no bar, and says the same whatever the
/// status says, but for its age.
pub proof fn law_a_stale_status_is_not_shown(
    a: UpsStatus,
    b: UpsStatus,
    now: SystemTime,
    cpu: Option<i32>,
    fan: Option<FanReading>,
    clock: Seq<char>,
)
    requires
        is_stale(a, now),
        a.updated == b.updated,
    ensures
        page_of(Some(a), now, cpu, fan, clock).bar is None,
        page_of(Some(a), now, cpu, fan, clock) == page_of(Some(b), now, cpu, fan, clock),
{
}

/// A failed reading has no bar either, whatever percentage was published last.
pub proof fn law_a_failed_reading_has_no_bar(
    s: UpsStatus,
    now: SystemTime,
    cpu: Option<i32>,
    fan: Option<FanReading>,
    clock: Seq<char>,
)
    requires
        s.level@ == "unknown"@,
    ensures
        page_of(Some(s), now, cpu, fan, clock).bar is None,
{
}

proof fn lemma_short_decimal(n: nat)
    ensures
        n < 1_000 ==> decimal(n).len() <= 3,
        n < 100_000 ==> decimal(n).len() <= 5,
{
    reveal_with_fuel(decimal, 5);
}

/// Every line that the page can produce fits the panel: with a time of day of up to seven
/// characters, a status not older than a hundred thousand days, a temperature below a thousand
/// degrees and a fan speed of up to five digits.
pub proof fn law_every_line_fits(
    status: Option<UpsStatus>,
    now: SystemTime,
    cpu: Option<i32>,
    fan: Option<FanReading>,
    clock: Seq<char>,
    i: int,
)
    requires
        clock.len() <= 7,
        status is Some ==> age_secs(status->0, now) < 8_640_000_000,
        cpu is Some ==> 0 <= cpu->0 < 10_000,
        fan is Some ==> ((fan->0).rpm is Some ==> (fan->0).rpm->0 < 100_000),
        0 <= i < page_of(status, now, cpu, fan, clock).lines.len(),
    ensures
        page_of(status, now, cpu, fan, clock).lines[i].len() <= LINE_CHARS,
        page_of(status, now, cpu, fan, clock).lines.len() <= MAX_LINES,
{
    reveal_strlit("No status from");
    reveal_strlit("argond");
    reveal_strlit("No update for ");
    reveal_strlit("Battery NOT watched");
    reveal_strlit("Last UPS read failed");
    reveal_strlit("POWER OFF AT ");
    reveal_strlit("Plug in mains to");
    reveal_strlit("cancel");
    reveal_strlit("CPU ");
    reveal_strlit("C");
    reveal_strlit("  ");
    reveal_strlit("FAN OFF");
    reveal_strlit("FAN ");
    reveal_strlit("%");
    reveal_strlit("s");
    reveal_strlit("min");
    reveal_strlit("h");
    reveal_strlit("d");
    if status is Some {
        let s = age_secs(status->0, now);
        lemma_short_decimal(s);
        lemma_short_decimal(s / 60);
        lemma_short_decimal(s / 3_600);
        lemma_short_decimal(s / 86_400);
        assert(s / 86_400 < 100_000);
        assert(age_words(s).len() <= 6);
    }
    if cpu is Some {
        lemma_short_decimal((cpu->0 / 10) as nat);
        assert(cpu_words(cpu->0).len() <= 8);
    }
    if fan is Some {
        lemma_short_decimal((((fan->0).pwm) * 100 / 255) as nat);
        if (fan->0).rpm is Some {
            lemma_short_decimal(((fan->0).rpm->0) as nat);
        }
        assert(fan_words(fan->0).len() <= 9);
    }
}

/// Whatever a page says, what is drawn stays inside the panel's margin: every text is at most
/// `LINE_CHARS` long, and every mark between the first and the last row and column.
pub proof fn law_nothing_is_drawn_outside_the_margin(
    p: PageView,
    shift: (usize, usize),
    state_width: int,
    i: int,
)
    requires
        0 <= state_width,
        0 <= i < marks_of(p, shift, state_width).len(),
    ensures
        match marks_of(p, shift, state_width)[i] {
            MarkView::Text(x, y, t) => 1 <= x && 1 <= y && y + 7 < HEIGHT && t.len() <= LINE_CHARS
                && (i != 1 ==> x + 6 * LINE_CHARS < WIDTH) && (i == 1 && state_width <= CONTENT_WIDTH
                ==> x + state_width < WIDTH),
            MarkView::Bar(x, y, w, h, _) => 1 <= x && 1 <= y && x + w < WIDTH && y + h < HEIGHT,
            MarkView::Rect(_, _, _, _) => false,
        },
{
    let x = margin(shift.0);
    let y = margin(shift.1);
    let head: int = 2 + if p.bar is Some {
        1int
    } else {
        0int
    };
    let n = shown(p.lines);
    lemma_line_marks(p.lines, x, y, n);
    if i >= head {
        assert(marks_of(p, shift, state_width)[i] == line_marks(p.lines, x, y, n)[i - head]);
    }
}

proof fn lemma_line_marks(lines: Seq<Seq<char>>, x: int, y: int, n: int)
    requires
        0 <= n,
    ensures
        line_marks(lines, x, y, n).len() == n,
        forall|k: int|
            0 <= k < n ==> #[trigger] line_marks(lines, x, y, n)[k] == MarkView::Text(
                x,
                y + 22 + k * 10,
                clipped(lines[k]),
            ),
    decreases n,
{
    if n > 0 {
        lemma_line_marks(lines, x, y, n - 1);
    }
}

/// No two of the words for a state are the same.
proof fn lemma_words_differ()
    ensures
        "MAINS"@.len() == 5,
        "BATTERY"@.len() == 7,
        "LOW"@.len() == 3,
        "CRITICAL"@.len() == 8,
        "?"@.len() == 1,
        "NO DATA"@.len() == 7,
        "STALE"@.len() == 5,
        "READ FAIL"@.len() == 9,
        "NO DATA"@[0] == 'N',
        "BATTERY"@[0] == 'B',
        "STALE"@[0] == 'S',
        "MAINS"@[0] == 'M',
{
    reveal_strlit("MAINS");
    reveal_strlit("BATTERY");
    reveal_strlit("LOW");
    reveal_strlit("CRITICAL");
    reveal_strlit("?");
    reveal_strlit("NO DATA");
    reveal_strlit("STALE");
    reveal_strlit("READ FAIL");
}

/// Whether a status may be shown as what it says: written within the last minute, with a charge, and
/// with a level that is known.
pub open spec fn may_be_shown(s: &UpsStatus, now: SystemTime) -> bool {
    now.ns() - s.updated.ns() <= 60 * 1_000_000_000 && s.percent is Some && s.level@ != "unknown"@
}

/// The panel says `MAINS` if and only if the machine is known to be on mains, with no poweroff
/// pending, and each other level has a word of its own. A pending poweroff reads as critical,
/// whatever the level.
pub proof fn law_the_panel_names_the_level<'a>(input: &PageInput<'a>, clock: &str, p: Page)
    requires
        call_ensures(page, (input, clock), p),
    ensures
        p.state@ == "MAINS"@ <==> input.status is Some && may_be_shown(
            input.status->0,
            input.now,
        ) && (input.status->0).shutdown_at is None && (input.status->0).level@ == "on-mains"@,
        p.state@ == "BATTERY"@ <==> input.status is Some && may_be_shown(
            input.status->0,
            input.now,
        ) && (input.status->0).shutdown_at is None && (input.status->0).level@ == "on-battery"@,
        p.state@ == "LOW"@ <==> input.status is Some && may_be_shown(input.status->0, input.now)
            && (input.status->0).shutdown_at is None && (input.status->0).level@ == "low"@,
        p.state@ == "CRITICAL"@ <==> input.status is Some && may_be_shown(
            input.status->0,
            input.now,
        ) && ((input.status->0).shutdown_at is Some || (input.status->0).level@ == "critical"@),
{
    lemma_words_differ();
    lemma_levels_differ();
}

/// The panel says so where nothing is known: that there is no status, that it is too old, or that
/// the last reading failed.
pub proof fn law_the_panel_says_what_is_missing<'a>(input: &PageInput<'a>, clock: &str, p: Page)
    requires
        call_ensures(page, (input, clock), p),
    ensures
        p.state@ == "NO DATA"@ <==> input.status is None,
        p.state@ == "STALE"@ <==> input.status is Some && input.now.ns() - (
        input.status->0).updated.ns() > 60 * 1_000_000_000,
        p.state@ == "READ FAIL"@ <==> input.status is Some && input.now.ns() - (
        input.status->0).updated.ns() <= 60 * 1_000_000_000 && ((input.status->0).percent is None
            || (input.status->0).level@ == "unknown"@),
{
    lemma_words_differ();
    lemma_levels_differ();
}

/// The charge is shown, in the title and as the bar, exactly where a status may be shown, and it is
/// the charge that was published.
pub proof fn law_the_panel_shows_the_charge<'a>(input: &PageInput<'a>, clock: &str, p: Page)
    requires
        call_ensures(page, (input, clock), p),
    ensures
        p.bar is Some <==> input.status is Some && may_be_shown(input.status->0, input.now),
        p.bar is Some ==> p.bar == (input.status->0).percent && p.title@ == "UPS "@ + decimal(
            (p.bar->0) as nat,
        ) + "%"@,
        p.bar is None ==> p.title@ == "UPS"@,
{
}

/// A pending poweroff is told with its time of day, and how to stop it, and so is a status that
/// nobody updates any more, with its age.
pub proof fn law_the_panel_tells_a_deadline<'a>(input: &PageInput<'a>, clock: &str, p: Page)
    requires
        call_ensures(page, (input, clock), p),
        input.status is Some,
    ensures
        may_be_shown(input.status->0, input.now) && (input.status->0).shutdown_at is Some ==> {
            &&& p.lines@.len() >= 3
            &&& p.lines@[0]@ == "POWER OFF AT "@ + clock@
            &&& p.lines@[1]@ == "Plug in mains to"@
            &&& p.lines@[2]@ == "cancel"@
        },
        input.now.ns() - (input.status->0).updated.ns() > 60 * 1_000_000_000 ==> {
            &&& p.lines@.len() >= 2
            &&& begins(p.lines@[0]@, "No update for "@)
            &&& p.lines@[1]@ == "Battery NOT watched"@
        },
{
    let base = ups_page(owned(input.status), input.now, clock@);
    assert(texts(p.lines@).len() == p.lines@.len());
    assert forall|i: int| 0 <= i < base.lines.len() implies #[trigger] p.lines@[i]@
        == base.lines[i] by {
        assert(p@.lines[i] == texts(p.lines@)[i]);
    }
    let head = "No update for "@;
    let age = age_words(age_secs(*input.status->0, input.now));
    assert((head + age).take(head.len() as int) =~= head);
}

/// The machine's own line comes last: the temperature of the CPU in whole degrees, then the fan, each
/// where it is known; and without either there is no such line.
pub proof fn law_the_panel_shows_the_machine<'a>(
    with: &PageInput<'a>,
    without: &PageInput<'a>,
    clock: &str,
    p: Page,
    q: Page,
)
    requires
        call_ensures(page, (with, clock), p),
        call_ensures(page, (without, clock), q),
        without.status == with.status,
        without.now == with.now,
        without.cpu_decicelsius is None,
        without.fan is None,
        with.cpu_decicelsius is Some,
        with.cpu_decicelsius->0 >= 0,
    ensures
        p.lines@.len() == q.lines@.len() + 1,
        with.fan is None ==> p.lines@.last()@ == "CPU "@ + decimal(
            ((with.cpu_decicelsius->0) as int / 10) as nat,
        ) + "C"@,
        with.fan matches Some(f) && f.pwm == 0 && f.rpm == Some(0u32) ==> p.lines@.last()@ == "CPU "@
            + decimal(((with.cpu_decicelsius->0) as int / 10) as nat) + "C"@ + "  "@ + "FAN OFF"@,
        with.fan matches Some(f) && f.rpm is Some && f.rpm->0 > 0 ==> p.lines@.last()@ == "CPU "@
            + decimal(((with.cpu_decicelsius->0) as int / 10) as nat) + "C"@ + "  "@ + ("FAN "@
            + decimal(((with.fan->0).rpm->0) as nat)),
{
    assert(texts(p.lines@).len() == p.lines@.len());
    assert(texts(q.lines@).len() == q.lines@.len());
    assert(texts(p.lines@).last() == p.lines@.last()@);
    let c = (with.cpu_decicelsius->0) as int / 10;
    assert(whole_degrees(with.cpu_decicelsius->0) == c);
}

/// A fan that is known to stand still is off, and any other is not.
pub proof fn law_a_fan_is_off_only_where_it_stands_still(f: FanReading)
    ensures
        fan_words(f) == "FAN OFF"@ <==> f.pwm == 0 && (f.rpm is None || f.rpm->0 == 0),
{
    reveal_strlit("FAN OFF");
    reveal_strlit("FAN ");
    reveal_strlit("%");
    assert("FAN OFF"@.len() == 7 && "FAN OFF"@[4] == 'O');
    if f.rpm is Some {
        let d = decimal((f.rpm->0) as nat);
        law_decimal_is_digits((f.rpm->0) as nat);
        assert(("FAN "@ + d)[4] == d[0]);
        assert(is_digit(d[0]));
    } else {
        let d = decimal((f.pwm * 100 / 255) as nat);
        law_decimal_is_digits((f.pwm * 100 / 255) as nat);
        assert(("FAN "@ + d + "%"@)[4] == d[0]);
        assert(is_digit(d[0]));
    }
}

/// An age is told in seconds up to two minutes, in minutes up to two hours, in hours up to two days
/// and in days from there, always rounded down.
pub proof fn law_an_age_is_told_in_its_unit(age: Duration, t: String, n: nat)
    requires
        call_ensures(short_age, (age,), t),
    ensures
        age.secs() < 120 ==> t@ == decimal(age.secs()) + "s"@,
        120 <= age.secs() < 7_200 && n * 60 <= age.secs() < n * 60 + 60 ==> t@ == decimal(n)
            + "min"@,
        7_200 <= age.secs() < 172_800 && n * 3_600 <= age.secs() < n * 3_600 + 3_600 ==> t@
            == decimal(n) + "h"@,
        172_800 <= age.secs() && n * 86_400 <= age.secs() < n * 86_400 + 86_400 ==> t@ == decimal(n)
            + "d"@,
{
}

/// The page keeps its place for five minutes at a time, and then moves by one pixel.
pub proof fn law_the_page_moves_every_five_minutes(
    a: Duration,
    b: Duration,
    here: (usize, usize),
    there: (usize, usize),
)
    requires
        call_ensures(shift_at, (a,), here),
        call_ensures(shift_at, (b,), there),
    ensures
        a.secs() / 300 == b.secs() / 300 ==> here == there,
        b.secs() / 300 == a.secs() / 300 + 1 ==> (here.0 == there.0) != (here.1 == there.1),
        here.0 <= 2 && here.1 <= 2,
{
    law_the_orbit_visits_every_position(a.secs() / 300, b.secs() / 300);
}

/// What is drawn is the page: its title at the left and its state at the right of the top row, the
/// bar below them where there is one, and then its lines from the top down, each cut to twenty
/// characters and all moved by the same offset.
pub proof fn law_the_whole_page_is_drawn(
    page: &Page,
    shift: (usize, usize),
    state_width: usize,
    v: Vec<Mark>,
    i: int,
)
    requires
        call_ensures(draw, (page, shift, state_width), v),
        shift.0 <= 2,
        shift.1 <= 2,
        state_width <= 124,
        page.title@.len() <= 20,
        page.state@.len() <= 20,
        0 <= i < page.lines@.len() <= 4,
    ensures
        v@[0]@ == MarkView::Text(1 + shift.0, 1 + shift.1, page.title@),
        v@[1]@ == MarkView::Text(1 + shift.0 + 124 - state_width, 1 + shift.1, page.state@),
        page.bar matches Some(pct) ==> v@[2]@ == MarkView::Bar(
            1 + shift.0,
            11 + shift.1,
            124,
            9,
            pct as int,
        ),
        v@.len() == page.lines@.len() + if page.bar is Some {
            3int
        } else {
            2int
        },
        v@[v@.len() - page.lines@.len() + i]@ == MarkView::Text(
            1 + shift.0,
            23 + shift.1 + i * 10,
            if page.lines@[i]@.len() <= 20 {
                page.lines@[i]@
            } else {
                page.lines@[i]@.take(20)
            },
        ),
{
    let p = page@;
    let x = margin(shift.0);
    let y = margin(shift.1);
    let n = shown(p.lines);
    assert(texts(page.lines@).len() == page.lines@.len());
    assert(texts(page.lines@)[i] == page.lines@[i]@);
    lemma_line_marks(p.lines, x, y, n);
    let all = marks_of(p, shift, state_width as int);
    assert(drawn(v@).len() == v@.len());
    assert(drawn(v@)[0] == v@[0]@);
    assert(drawn(v@)[1] == v@[1]@);
    let head: int = if p.bar is Some {
        3
    } else {
        2
    };
    assert(all.len() == head + n);
    assert(drawn(v@)[head + i] == v@[head + i]@);
    assert(all[head + i] == line_marks(p.lines, x, y, n)[i]);
    if p.bar is Some {
        assert(drawn(v@)[2] == v@[2]@);
    }
}

/// A line that is too long is cut at twenty characters, and a shorter one is left as it is.
pub proof fn law_a_line_is_cut_where_the_panel_ends(s: &str, r: &str)
    requires
        call_ensures(clip, (s,), r),
    ensures
        r@.len() <= 20,
        s@.len() <= 20 ==> r@ == s@,
        s@.len() > 20 ==> r@.len() == 20 && r@ == s@.take(r@.len() as int),
{
}

/// The page moves by at most two pixels from its margin of one, wherever it is asked to be.
pub proof fn law_the_page_moves_by_at_most_two_pixels(d: usize)
    ensures
        d <= 2 ==> margin(d) == 1 + d,
        d > 2 ==> margin(d) == 3,
{
}

} // verus!
