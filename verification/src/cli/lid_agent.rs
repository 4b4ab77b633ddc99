//! `argonctl lid-agent`: what closing a laptop lid does, carried out in the desktop session.
//!
//! The policy is `device::lid`. What it asks for is turned into actions here, and what was turned
//! off is remembered, to turn on exactly that again.

use crate::device::config::LidConfig;
use crate::device::lid::Effect;
use crate::device::status::{Notice, Urgency};
use crate::text::{
    chars_of, decimal, decimal_of, join, join_all, joined, lines, lines_of, padded, padded_of, same,
    texts, trim_end_matches, untrailed, views, words, words_of,
};
use crate::time::{Duration, NANOS_PER_SEC};
use vstd::prelude::*;

verus! {

/// The sound played with the shutdown alert.
pub const ALERT_SOUND: &'static str = "/usr/share/sounds/freedesktop/stereo/dialog-warning.oga";

/// The longest the loop waits before checking whether it has been asked to stop, in seconds.
pub const MAX_WAIT: u64 = 1;

/// What the agent does, in words.
pub open spec fn described(c: LidConfig) -> Seq<char> {
    let head = "action "@ + c.action@;
    if c.action@ == "shutdown"@ {
        head + ", "@ + decimal(c.shutdown_delay_s as nat) + " s after the alert"@
    } else {
        head + (if c.radios_off {
            ", radios off"@
        } else {
            ""@
        }) + (if c.cpu_throttle {
            ", CPU capped"@
        } else {
            ""@
        })
    }
}

/// What the agent does, in words.
pub fn describe(c: &LidConfig) -> (s: String)
    ensures
        s@ == described(*c),
{
    let mut s: String = join("action ", c.action.as_str());
    if same(c.action.as_str(), "shutdown") {
        s.append(", ");
        s.append(decimal_of(c.shutdown_delay_s).as_str());
        s.append(" s after the alert");
    } else {
        s.append(
            if c.radios_off {
                ", radios off"
            } else {
                ""
            },
        );
        s.append(
            if c.cpu_throttle {
                ", CPU capped"
            } else {
                ""
            },
        );
    }
    s
}

// ---------------------------------------------------------------------------------------------
// Whether there is a lid
// ---------------------------------------------------------------------------------------------

/// The value of a hexadecimal digit, if it is one.
pub open spec fn nibble(c: char) -> Option<nat> {
    let n = c as u32;
    if 48 <= n <= 57 {
        Some((n - 48) as nat)
    } else if 97 <= n <= 102 {
        Some((n - 87) as nat)
    } else if 65 <= n <= 70 {
        Some((n - 55) as nat)
    } else {
        None
    }
}

fn nibble_of(c: char) -> (r: Option<u64>)
    ensures
        match r {
            Some(d) => nibble(c) == Some(d as nat) && d < 16,
            None => nibble(c) is None,
        },
{
    let n: u32 = c as u32;
    if 48 <= n && n <= 57 {
        Some((n - 48) as u64)
    } else if 97 <= n && n <= 102 {
        Some((n - 87) as u64)
    } else if 65 <= n && n <= 70 {
        Some((n - 55) as u64)
    } else {
        None
    }
}

/// The value of hexadecimal digits, where all of them are.
pub open spec fn hex_value(s: Seq<char>) -> Option<nat>
    decreases s.len(),
{
    if s.len() == 0 {
        Some(0)
    } else {
        match (hex_value(s.drop_last()), nibble(s.last())) {
            (Some(v), Some(d)) => Some(v * 16 + d),
            _ => None,
        }
    }
}

/// The hexadecimal number of 64 bits that a text is, with or without a plus before it.
pub open spec fn hex_number(s: Seq<char>) -> Option<nat> {
    let digits = if s.len() > 0 && s[0] == '+' {
        s.skip(1)
    } else {
        s
    };
    match hex_value(digits) {
        Some(v) => if digits.len() > 0 && v <= u64::MAX {
            Some(v)
        } else {
            None
        },
        None => None,
    }
}

proof fn lemma_hex_prefix(s: Seq<char>, i: int)
    requires
        0 <= i <= s.len(),
    ensures
        hex_value(s) is Some ==> hex_value(s.take(i)) is Some && hex_value(s)->0 >= hex_value(
            s.take(i),
        )->0,
    decreases s.len() - i,
{
    if i < s.len() {
        lemma_hex_prefix(s, i + 1);
        assert(s.take(i + 1).drop_last() =~= s.take(i));
    } else {
        assert(s.take(i) =~= s);
    }
}

/// Reads a hexadecimal number of 64 bits.
pub fn parse_hex(s: &str) -> (r: Option<u64>)
    ensures
        match r {
            Some(n) => hex_number(s@) == Some(n as nat),
            None => hex_number(s@) is None,
        },
{
    let cs: Vec<char> = chars_of(s);
    let from: usize = if cs.len() > 0 && cs[0] == '+' {
        1
    } else {
        0
    };
    let ghost digits = if s@.len() > 0 && s@[0] == '+' {
        s@.skip(1)
    } else {
        s@
    };
    assert(digits =~= s@.skip(from as int));
    if cs.len() == from {
        return None;
    }
    let mut v: u64 = 0;
    let mut i: usize = from;
    assert(digits.take(0) =~= Seq::<char>::empty());
    while i < cs.len()
        invariant
            cs@ == s@,
            from <= i <= cs.len(),
            from <= 1,
            digits == s@.skip(from as int),
            digits == if s@.len() > 0 && s@[0] == '+' {
                s@.skip(1)
            } else {
                s@
            },
            hex_value(digits.take(i - from)) == Some(v as nat),
        decreases cs.len() - i,
    {
        let ghost next = digits.take(i + 1 - from);
        assert(next.drop_last() =~= digits.take(i - from));
        assert(next.last() == cs@[i as int]);
        proof {
            lemma_hex_prefix(digits, i + 1 - from);
        }
        match nibble_of(cs[i]) {
            None => {
                return None;
            },
            Some(d) => {
                if v > 0x0fff_ffff_ffff_ffff {
                    return None;
                }
                v = v * 16 + d;
            },
        }
        i = i + 1;
    }
    assert(digits.take(i - from) =~= digits);
    Some(v)
}

/// Whether the switch capabilities of an input device include a lid: bit 0 of the last word.
pub open spec fn has_lid_bit(capabilities: Seq<char>) -> bool {
    let ws = words(capabilities);
    ws.len() > 0 && hex_number(ws.last()) is Some && hex_number(ws.last())->0 % 2 == 1
}

/// Whether the switch capabilities of an input device include a lid.
pub fn is_lid_switch(capabilities: &str) -> (r: bool)
    ensures
        r == has_lid_bit(capabilities@),
{
    let ws: Vec<&str> = words_of(capabilities);
    assert(views(ws@).len() == ws@.len());
    if ws.len() == 0 {
        return false;
    }
    let last: &str = ws[ws.len() - 1];
    assert(words(capabilities@).last() == last@);
    match parse_hex(last) {
        Some(bits) => bits % 2 == 1,
        None => false,
    }
}

/// Whether one of the devices has the bit of a lid switch.
pub open spec fn some_lid_bit(capabilities: Seq<String>) -> bool {
    exists|i: int| 0 <= i < capabilities.len() && has_lid_bit((#[trigger] capabilities[i])@)
}

/// Whether any input device is a lid switch, given the switch capabilities of each.
pub fn has_lid_switch(capabilities: &Vec<String>) -> (r: bool)
    ensures
        r == exists|i: int| 0 <= i < capabilities@.len() && has_lid_bit((#[trigger] capabilities@[i])@),
        r == some_lid_bit(capabilities@),
{
    let mut i: usize = 0;
    while i < capabilities.len()
        invariant
            i <= capabilities.len(),
            forall|k: int| 0 <= k < i ==> !has_lid_bit((#[trigger] capabilities@[k])@),
        decreases capabilities.len() - i,
    {
        if is_lid_switch(capabilities[i].as_str()) {
            assert(has_lid_bit(capabilities@[i as int]@));
            return true;
        }
        i = i + 1;
    }
    false
}

// ---------------------------------------------------------------------------------------------
// The loop
// ---------------------------------------------------------------------------------------------

/// How long to wait for a change of the lid: until the next deadline, and never longer than
/// `MAX_WAIT`.
pub fn wait(deadline: Option<Duration>, elapsed: Duration) -> (d: Duration)
    ensures
        d.ns() <= MAX_WAIT * NANOS_PER_SEC,
        match deadline {
            None => d.ns() == MAX_WAIT * NANOS_PER_SEC,
            Some(at) => if at.ns() <= elapsed.ns() {
                d.ns() == 0
            } else if at.ns() - elapsed.ns() <= MAX_WAIT * NANOS_PER_SEC {
                d.ns() == at.ns() - elapsed.ns()
            } else {
                d.ns() == MAX_WAIT * NANOS_PER_SEC
            },
        },
{
    let longest: Duration = Duration::from_secs(MAX_WAIT);
    match deadline {
        None => longest,
        Some(at) => {
            let left: Duration = at.saturating_sub(elapsed);
            if left.as_nanos() <= longest.as_nanos() {
                left
            } else {
                longest
            }
        },
    }
}

/// So many units and so many parts of one, in decimal places, without the zeros at the end.
pub open spec fn units_words(whole: nat, parts: nat, places: nat, unit: Seq<char>) -> Seq<char> {
    decimal(whole) + (if parts == 0 {
        ""@
    } else {
        "."@ + untrailed(padded(parts, places), '0')
    }) + unit
}

fn units_text(whole: u64, parts: u64, places: usize, unit: &str) -> (s: String)
    ensures
        s@ == units_words(whole as nat, parts as nat, places as nat, unit@),
{
    let mut s: String = decimal_of(whole);
    proof {
        reveal_strlit("");
        assert(s@ + ""@ =~= s@);
    }
    if parts != 0 {
        s.append(".");
        s.append(trim_end_matches(padded_of(parts, places).as_str(), '0'));
        assert(s@ =~= decimal(whole as nat) + ("."@ + untrailed(
            padded(parts as nat, places as nat),
            '0',
        )));
    }
    s.append(unit);
    s
}

/// A span of nanoseconds, as it is logged: in the largest of seconds, milliseconds, microseconds
/// and nanoseconds that it holds one of, with every decimal place that counts.
pub open spec fn span_words(ns: nat) -> Seq<char> {
    if ns >= 1_000_000_000 {
        units_words(ns / 1_000_000_000, ns % 1_000_000_000, 9, "s"@)
    } else if ns >= 1_000_000 {
        units_words(ns / 1_000_000, ns % 1_000_000, 6, "ms"@)
    } else if ns >= 1_000 {
        units_words(ns / 1_000, ns % 1_000, 3, "\u{b5}s"@)
    } else {
        units_words(ns, 0, 0, "ns"@)
    }
}

/// A duration, as it is logged.
pub fn span_text(d: Duration) -> (s: String)
    ensures
        s@ == span_words(d.ns()),
{
    let ns: u128 = d.as_nanos();
    if ns >= 1_000_000_000 {
        units_text(d.as_secs(), (ns % 1_000_000_000) as u64, 9, "s")
    } else if ns >= 1_000_000 {
        units_text((ns / 1_000_000) as u64, (ns % 1_000_000) as u64, 6, "ms")
    } else if ns >= 1_000 {
        units_text((ns / 1_000) as u64, (ns % 1_000) as u64, 3, "\u{b5}s")
    } else {
        units_text(ns as u64, 0, 0, "ns")
    }
}

/// An effect, as it is logged.
pub open spec fn effect_words(e: Effect) -> Seq<char> {
    match e {
        Effect::ScreenOff => "ScreenOff"@,
        Effect::ScreenOn => "ScreenOn"@,
        Effect::RadiosOff => "RadiosOff"@,
        Effect::RadiosRestore => "RadiosRestore"@,
        Effect::CpuCap(true) => "CpuCap(true)"@,
        Effect::CpuCap(false) => "CpuCap(false)"@,
        Effect::ShutdownAlert(d) => "ShutdownAlert("@ + span_words(d.ns()) + ")"@,
        Effect::ShutdownCancelled => "ShutdownCancelled"@,
        Effect::PowerOff => "PowerOff"@,
    }
}

/// An effect, as it is logged.
pub fn effect_text(e: Effect) -> (s: String)
    ensures
        s@ == effect_words(e),
{
    match e {
        Effect::ScreenOff => "ScreenOff".to_owned(),
        Effect::ScreenOn => "ScreenOn".to_owned(),
        Effect::RadiosOff => "RadiosOff".to_owned(),
        Effect::RadiosRestore => "RadiosRestore".to_owned(),
        Effect::CpuCap(true) => "CpuCap(true)".to_owned(),
        Effect::CpuCap(false) => "CpuCap(false)".to_owned(),
        Effect::ShutdownAlert(d) => {
            let mut s: String = join("ShutdownAlert(", span_text(d).as_str());
            s.append(")");
            s
        },
        Effect::ShutdownCancelled => "ShutdownCancelled".to_owned(),
        Effect::PowerOff => "PowerOff".to_owned(),
    }
}

/// What the user is told when the lid was closed and the machine is about to power off.
pub fn alert_notice(delay: Duration) -> (n: Notice)
    ensures
        n.urgency == Urgency::Critical,
        n.text@ == "Lid closed: powering off in "@ + decimal(delay.secs())
            + " s. Open the lid to cancel."@,
{
    let mut text: String = join("Lid closed: powering off in ", decimal_of(delay.as_secs()).as_str());
    text.append(" s. Open the lid to cancel.");
    Notice { urgency: Urgency::Critical, text }
}

/// What the user is told when the lid was opened in time.
pub fn cancelled_notice() -> (n: Notice)
    ensures
        n.urgency == Urgency::Normal,
        n.text@ == "Lid opened: the poweroff is cancelled."@,
{
    Notice {
        urgency: Urgency::Normal,
        text: "Lid opened: the poweroff is cancelled.".to_owned(),
    }
}

// ---------------------------------------------------------------------------------------------
// The radios
// ---------------------------------------------------------------------------------------------

/// A radio.
#[derive(Clone, Copy, Debug, PartialEq, Eq, Structural)]
pub struct Radio {
    /// Its number.
    pub index: u32,
    /// Whether it is Wi-Fi or Bluetooth.
    pub ours: bool,
    /// Whether software has it off.
    pub soft_blocked: bool,
    /// Whether a switch has it off.
    pub hard_blocked: bool,
}

/// Whether a radio is turned off with the lid: Wi-Fi and Bluetooth, and only what is on. A radio
/// that the user had off stays off when the lid opens.
pub open spec fn turns_off(r: Radio) -> bool {
    r.ours && !r.soft_blocked && !r.hard_blocked
}

/// The numbers of the radios that are turned off, in order.
pub open spec fn turned_off(rs: Seq<Radio>) -> Seq<u32>
    decreases rs.len(),
{
    if rs.len() == 0 {
        Seq::empty()
    } else if turns_off(rs.last()) {
        turned_off(rs.drop_last()).push(rs.last().index)
    } else {
        turned_off(rs.drop_last())
    }
}

/// The numbers of the radios to turn off, in order.
pub fn to_block(radios: &Vec<Radio>) -> (v: Vec<u32>)
    ensures
        v@ == turned_off(radios@),
{
    let mut v: Vec<u32> = Vec::new();
    let mut i: usize = 0;
    assert(radios@.take(0) =~= Seq::<Radio>::empty());
    while i < radios.len()
        invariant
            i <= radios.len(),
            v@ == turned_off(radios@.take(i as int)),
        decreases radios.len() - i,
    {
        assert(radios@.take(i + 1).drop_last() =~= radios@.take(i as int));
        let r: Radio = radios[i];
        if r.ours && !r.soft_blocked && !r.hard_blocked {
            v.push(r.index);
        }
        i = i + 1;
    }
    assert(radios@.take(i as int) =~= radios@);
    v
}

/// Which radios this agent turned off, to turn on exactly those.
pub struct Blocked {
    indices: Vec<u32>,
}

impl View for Blocked {
    type V = Seq<u32>;

    closed spec fn view(&self) -> Seq<u32> {
        self.indices@
    }
}

impl Blocked {
    /// None yet.
    pub fn new() -> (b: Self)
        ensures
            b@ == Seq::<u32>::empty(),
    {
        Blocked { indices: Vec::new() }
    }

    /// This one was turned off.
    pub fn blocked(&mut self, index: u32)
        ensures
            final(self)@ == old(self)@.push(index),
    {
        self.indices.push(index);
    }

    /// Those to turn on again. They are forgotten.
    pub fn restore(&mut self) -> (v: Vec<u32>)
        ensures
            v@ == old(self)@,
            final(self)@ == Seq::<u32>::empty(),
    {
        let mut v: Vec<u32> = Vec::new();
        let mut i: usize = 0;
        while i < self.indices.len()
            invariant
                i <= self.indices.len(),
                self.indices@ == old(self)@,
                v@ == old(self)@.take(i as int),
            decreases self.indices.len() - i,
        {
            v.push(self.indices[i]);
            assert(old(self)@.take(i + 1) =~= old(self)@.take(i as int).push(v@.last()));
            i = i + 1;
        }
        assert(old(self)@.take(i as int) =~= old(self)@);
        self.indices = Vec::new();
        v
    }
}

/// The failures of turning radios on, in words.
pub open spec fn failure_words(failed: Seq<(u32, String)>) -> Seq<Seq<char>> {
    failed.map_values(|f: (u32, String)| "rfkill"@ + decimal(f.0 as nat) + ": "@ + f.1@)
}

/// What became of turning the radios on: the ones that failed, and why.
pub fn restored(failed: &Vec<(u32, String)>) -> (r: Result<(), String>)
    ensures
        match r {
            Ok(()) => failed@.len() == 0,
            Err(e) => failed@.len() > 0 && e@ == joined(failure_words(failed@), "; "@),
        },
{
    if failed.len() == 0 {
        return Ok(());
    }
    let mut out: Vec<String> = Vec::new();
    let mut i: usize = 0;
    assert(texts(out@) =~= failure_words(failed@).take(0));
    while i < failed.len()
        invariant
            i <= failed.len(),
            texts(out@) == failure_words(failed@).take(i as int),
        decreases failed.len() - i,
    {
        let ghost before = out@;
        let mut w: String = join("rfkill", decimal_of(failed[i].0 as u64).as_str());
        w.append(": ");
        w.append(failed[i].1.as_str());
        out.push(w);
        assert(texts(out@) =~= texts(before).push(w@));
        assert(failure_words(failed@).take(i + 1) =~= failure_words(failed@).take(i as int).push(
            failure_words(failed@)[i as int],
        ));
        i = i + 1;
    }
    assert(failure_words(failed@).take(i as int) =~= failure_words(failed@));
    Err(join_all(&out, "; "))
}

/// A radio that was off, by software or by a switch, is never turned off, so never turned on either.
pub proof fn law_only_radios_that_were_on_are_turned_off(rs: Seq<Radio>, index: u32)
    requires
        turned_off(rs).contains(index),
    ensures
        exists|i: int| 0 <= i < rs.len() && #[trigger] turns_off(rs[i]) && rs[i].index == index,
    decreases rs.len(),
{
    if rs.len() > 0 {
        let before = turned_off(rs.drop_last());
        if turns_off(rs.last()) && rs.last().index == index {
            assert(turns_off(rs[rs.len() - 1]));
        } else {
            let k = choose|k: int| 0 <= k < turned_off(rs).len() && turned_off(rs)[k] == index;
            assert(before.contains(index)) by {
                if turns_off(rs.last()) {
                    assert(k < before.len());
                    assert(before[k] == index);
                }
            }
            law_only_radios_that_were_on_are_turned_off(rs.drop_last(), index);
            let i = choose|i: int|
                0 <= i < rs.drop_last().len() && #[trigger] turns_off(rs.drop_last()[i])
                    && rs.drop_last()[i].index == index;
            assert(turns_off(rs[i]));
        }
    }
}

// ---------------------------------------------------------------------------------------------
// The screens
// ---------------------------------------------------------------------------------------------

/// The first words of lines, where they have one.
pub open spec fn first_words(ls: Seq<Seq<char>>) -> Seq<Seq<char>>
    decreases ls.len(),
{
    if ls.len() == 0 {
        Seq::empty()
    } else if words(ls.last()).len() > 0 {
        first_words(ls.drop_last()).push(words(ls.last())[0])
    } else {
        first_words(ls.drop_last())
    }
}

/// The outputs that the compositor lists: the first word of each line. It is an error where there
/// are none.
pub fn outputs(listing: &str) -> (r: Result<Vec<String>, &'static str>)
    ensures
        match r {
            Ok(v) => v@.len() > 0 && texts(v@) == first_words(lines(listing@)),
            Err(e) => first_words(lines(listing@)).len() == 0 && e@ == "wlopm lists no outputs"@,
        },
{
    let ls: Vec<&str> = lines_of(listing);
    let ghost all = lines(listing@);
    assert(views(ls@).len() == ls@.len());
    let mut out: Vec<String> = Vec::new();
    let mut i: usize = 0;
    assert(all.take(0) =~= Seq::<Seq<char>>::empty());
    assert(texts(out@) =~= first_words(all.take(0)));
    while i < ls.len()
        invariant
            i <= ls.len(),
            views(ls@) == all,
            ls@.len() == all.len(),
            texts(out@) == first_words(all.take(i as int)),
        decreases ls.len() - i,
    {
        let ghost before = out@;
        assert(all.take(i + 1).drop_last() =~= all.take(i as int));
        assert(all.take(i + 1).last() == ls@[i as int]@);
        let ws: Vec<&str> = words_of(ls[i]);
        assert(views(ws@).len() == ws@.len());
        if ws.len() > 0 {
            assert(words(ls@[i as int]@)[0] == ws@[0]@);
            let name: String = ws[0].to_owned();
            out.push(name);
            assert(texts(out@) =~= texts(before).push(name@));
        }
        i = i + 1;
    }
    assert(all.take(i as int) =~= all);
    assert(texts(out@).len() == out@.len());
    if out.len() == 0 {
        Err("wlopm lists no outputs")
    } else {
        Ok(out)
    }
}

/// The radios that are turned off are exactly Wi-Fi and Bluetooth that are on: none that is off, by
/// software or by a switch, and none of another kind.
pub proof fn law_exactly_the_radios_that_are_on_are_turned_off(radios: &Vec<Radio>, v: Vec<u32>, i: int)
    requires
        call_ensures(to_block, (radios,), v),
        0 <= i < radios@.len(),
    ensures
        radios@[i].ours && !radios@[i].soft_blocked && !radios@[i].hard_blocked ==> v@.contains(
            radios@[i].index,
        ),
        (forall|k: int|
            0 <= k < radios@.len() && (#[trigger] radios@[k]).index == radios@[i].index ==> k == i)
            && v@.contains(radios@[i].index) ==> radios@[i].ours && !radios@[i].soft_blocked
            && !radios@[i].hard_blocked,
{
    lemma_turned_off(radios@, i);
    if v@.contains(radios@[i].index) {
        law_only_radios_that_were_on_are_turned_off(radios@, radios@[i].index);
        let k = choose|k: int|
            0 <= k < radios@.len() && #[trigger] turns_off(radios@[k]) && radios@[k].index
                == radios@[i].index;
    }
}

proof fn lemma_turned_off(rs: Seq<Radio>, i: int)
    requires
        0 <= i < rs.len(),
    ensures
        rs[i].ours && !rs[i].soft_blocked && !rs[i].hard_blocked ==> turned_off(rs).contains(
            rs[i].index,
        ),
    decreases rs.len(),
{
    if rs[i].ours && !rs[i].soft_blocked && !rs[i].hard_blocked {
        let all = turned_off(rs);
        let some = turned_off(rs.drop_last());
        if i == rs.len() - 1 {
            assert(all[all.len() - 1] == rs[i].index);
        } else {
            lemma_turned_off(rs.drop_last(), i);
            let k = choose|k: int| 0 <= k < some.len() && some[k] == rs[i].index;
            assert(all[k] == rs[i].index);
        }
    }
}

/// The radios that are turned on again are those that this agent turned off, each once.
pub proof fn law_what_was_turned_off_is_turned_on(index: u32)
    ensures
        forall|b: &mut Blocked, u: ()| #[trigger]
            call_ensures(Blocked::blocked, (b, index), u) ==> final(b)@ == b@.push(index),
        forall|b: &mut Blocked, v: Vec<u32>| #[trigger]
            call_ensures(Blocked::restore, (b,), v) ==> v@ == b@ && final(b)@.len() == 0,
{
}

/// A device has a lid exactly where the last word of its switch capabilities is an odd hexadecimal
/// number.
pub proof fn law_a_lid_is_the_lowest_bit(s: &str, r: Option<u64>, d: nat, c: char, t: Seq<char>)
    requires
        call_ensures(parse_hex, (s,), r),
        s@ == t.push(c),
        t.len() > 0 ==> t[0] != '+',
        t.len() < 15,
        hex_value(t) is Some,
        d < 16,
        d < 10 ==> c as u32 == 48 + d,
        d >= 10 ==> c as u32 == 87 + d,
    ensures
        r is Some,
        r->0 == hex_value(t)->0 * 16 + d,
        hex_value(Seq::<char>::empty()) == Some(0nat),
        (r->0) % 2 == d % 2,
{
    assert(s@.drop_last() =~= t);
    assert(s@.last() == c);
    assert(s@[0] == if t.len() > 0 {
        t[0]
    } else {
        c
    });
    lemma_hex_bound(t);
    let v = hex_value(t)->0;
    assert(v * 16 + d <= u64::MAX);
    assert((v * 16 + d) % 2 == d % 2) by {
        assert(v * 16 + d == 2 * (v * 8) + d);
    }
}

proof fn lemma_hex_bound(s: Seq<char>)
    requires
        s.len() < 15,
    ensures
        hex_value(s) is Some ==> hex_value(s)->0 < 0x1000_0000_0000_0000,
    decreases s.len(),
{
    lemma_hex_bound_at(s, 14);
}

proof fn lemma_hex_bound_at(s: Seq<char>, n: nat)
    requires
        s.len() <= n,
    ensures
        hex_value(s) is Some ==> hex_value(s)->0 < vstd::arithmetic::power::pow(16, n),
        vstd::arithmetic::power::pow(16, 14) <= 0x1000_0000_0000_0000,
    decreases n,
{
    assert(vstd::arithmetic::power::pow(16, 14) <= 0x1000_0000_0000_0000) by {
        reveal_with_fuel(vstd::arithmetic::power::pow, 15);
    }
    reveal_with_fuel(vstd::arithmetic::power::pow, 2);
    if n == 0 {
        assert(vstd::arithmetic::power::pow(16, 0) == 1);
    } else if s.len() == 0 {
        lemma_hex_bound_at(s, (n - 1) as nat);
    } else {
        lemma_hex_bound_at(s.drop_last(), (n - 1) as nat);
        assert(vstd::arithmetic::power::pow(16, n) == 16 * vstd::arithmetic::power::pow(
            16,
            (n - 1) as nat,
        ));
    }
}

/// A wait ends at the next deadline, and after a second at the latest; one that is over is not waited
/// for.
pub proof fn law_a_wait_ends_at_the_deadline(at: Duration, elapsed: Duration, d: Duration, none: Duration)
    requires
        call_ensures(wait, (Some(at), elapsed), d),
        call_ensures(wait, (None::<Duration>, elapsed), none),
    ensures
        none.ns() == 1_000_000_000,
        d.ns() <= 1_000_000_000,
        at.ns() <= elapsed.ns() ==> d.ns() == 0,
        elapsed.ns() <= at.ns() <= elapsed.ns() + 1_000_000_000 ==> elapsed.ns() + d.ns() == at.ns(),
        at.ns() > elapsed.ns() + 1_000_000_000 ==> d.ns() == 1_000_000_000,
{
}

/// The alert is critical and says how long there is to open the lid; that it was opened in time is
/// not.
pub proof fn law_the_alert_says_how_long(delay: Duration, n: Notice, c: Notice)
    requires
        call_ensures(alert_notice, (delay,), n),
        call_ensures(cancelled_notice, (), c),
    ensures
        n.urgency == Urgency::Critical,
        n.text@ == "Lid closed: powering off in "@ + decimal(delay.ns() / 1_000_000_000)
            + " s. Open the lid to cancel."@,
        c.urgency == Urgency::Normal,
{
}

/// An agent is described by what it does: the delay of a shutdown, or what is turned down.
pub proof fn law_an_agent_is_described_by_what_it_does(c: &LidConfig, s: String)
    requires
        call_ensures(describe, (c,), s),
    ensures
        c.action@ == "shutdown"@ ==> s@ == "action "@ + c.action@ + ", "@ + decimal(
            c.shutdown_delay_s as nat,
        ) + " s after the alert"@,
        c.action@ != "shutdown"@ && c.radios_off && c.cpu_throttle ==> s@ == "action "@ + c.action@
            + ", radios off"@ + ", CPU capped"@,
        c.action@ != "shutdown"@ && !c.radios_off && !c.cpu_throttle ==> s@ == "action "@ + c.action@,
{
    reveal_strlit("");
    assert("action "@ + c.action@ + ""@ + ""@ =~= "action "@ + c.action@);
}

/// The screens are the first words of the lines that list them, and it is an error where there are
/// none.
pub proof fn law_a_line_lists_a_screen(listing: &str, r: Result<Vec<String>, &'static str>, i: int)
    requires
        call_ensures(outputs, (listing,), r),
        0 <= i < lines(listing@).len(),
        words(lines(listing@)[i]).len() > 0,
    ensures
        r matches Ok(v) && texts(v@).contains(words(lines(listing@)[i])[0]),
{
    lemma_first_words(lines(listing@), i);
}

proof fn lemma_first_words(ls: Seq<Seq<char>>, i: int)
    requires
        0 <= i < ls.len(),
        words(ls[i]).len() > 0,
    ensures
        first_words(ls).contains(words(ls[i])[0]),
        first_words(ls).len() > 0,
    decreases ls.len(),
{
    let all = first_words(ls);
    let some = first_words(ls.drop_last());
    if i == ls.len() - 1 {
        assert(all[all.len() - 1] == words(ls[i])[0]);
    } else {
        lemma_first_words(ls.drop_last(), i);
        let k = choose|k: int| 0 <= k < some.len() && some[k] == words(ls[i])[0];
        assert(all[k] == words(ls[i])[0]);
    }
}

/// Each effect is logged under its own name.
pub proof fn law_effects_are_told_apart(e: Effect, s: String)
    requires
        call_ensures(effect_text, (e,), s),
    ensures
        s@ == "ScreenOff"@ <==> e == Effect::ScreenOff,
        s@ == "ScreenOn"@ <==> e == Effect::ScreenOn,
        s@ == "RadiosOff"@ <==> e == Effect::RadiosOff,
        s@ == "RadiosRestore"@ <==> e == Effect::RadiosRestore,
        s@ == "CpuCap(true)"@ <==> e == Effect::CpuCap(true),
        s@ == "CpuCap(false)"@ <==> e == Effect::CpuCap(false),
        s@ == "ShutdownCancelled"@ <==> e == Effect::ShutdownCancelled,
        s@ == "PowerOff"@ <==> e == Effect::PowerOff,
{
    reveal_strlit("ScreenOff");
    reveal_strlit("ScreenOn");
    reveal_strlit("RadiosOff");
    reveal_strlit("RadiosRestore");
    reveal_strlit("CpuCap(true)");
    reveal_strlit("CpuCap(false)");
    reveal_strlit("ShutdownAlert(");
    reveal_strlit("ShutdownCancelled");
    reveal_strlit("PowerOff");
    assert("ScreenOff"@.len() == 9 && "ScreenOff"@[0] == 'S');
    assert("ScreenOn"@.len() == 8 && "ScreenOn"@[0] == 'S');
    assert("RadiosOff"@.len() == 9 && "RadiosOff"@[0] == 'R');
    assert("RadiosRestore"@.len() == 13 && "RadiosRestore"@[0] == 'R');
    assert("CpuCap(true)"@.len() == 12 && "CpuCap(false)"@.len() == 13);
    assert("CpuCap(false)"@[0] == 'C');
    assert("ShutdownCancelled"@.len() == 17 && "ShutdownCancelled"@[8] == 'C');
    assert("PowerOff"@.len() == 8 && "PowerOff"@[0] == 'P');
    assert("ShutdownAlert("@[8] == 'A' && "ShutdownAlert("@.len() == 14);
    assert(e is ShutdownAlert ==> s@[8] == 'A' && s@[0] == 'S' && s@.len() >= 14);
}

/// A machine has a lid switch exactly where one of its devices is one.
pub proof fn law_one_lid_switch_is_enough(v: &Vec<String>, r: bool, one: &str, yes: bool, i: int)
    requires
        call_ensures(has_lid_switch, (v,), r),
        call_ensures(is_lid_switch, (one,), yes),
        0 <= i < v@.len(),
        v@[i]@ == one@,
    ensures
        yes ==> r,
        r && v@.len() == 1 ==> yes,
{
    assert(yes == has_lid_bit(v@[i]@));
    if r {
        let k = choose|k: int| 0 <= k < v@.len() && has_lid_bit((#[trigger] v@[k])@);
        assert(v@.len() == 1 ==> k == i);
    }
}

/// A span is told in the largest unit that it fills, with what is over as decimals of that unit.
pub proof fn law_a_span_is_told_in_its_unit(d: Duration, s: String, n: nat)
    requires
        call_ensures(span_text, (d,), s),
    ensures
        d.ns() == n * 1_000_000_000 && n > 0 ==> s@ == decimal(n) + ""@ + "s"@,
        d.ns() == n * 1_000_000 && 0 < n < 1_000 ==> s@ == decimal(n) + ""@ + "ms"@,
        d.ns() == n * 1_000 && 0 < n < 1_000 ==> s@ == decimal(n) + ""@ + "\u{b5}s"@,
        d.ns() == n && n < 1_000 ==> s@ == decimal(n) + ""@ + "ns"@,
        d.ns() > 1_000_000_000 && d.ns() % 1_000_000_000 != 0 ==> s@ == decimal(
            d.ns() / 1_000_000_000,
        ) + ("."@ + untrailed(padded(d.ns() % 1_000_000_000, 9), '0')) + "s"@,
        1_000_000 < d.ns() < 1_000_000_000 && d.ns() % 1_000_000 != 0 ==> s@ == decimal(
            d.ns() / 1_000_000,
        ) + ("."@ + untrailed(padded(d.ns() % 1_000_000, 6), '0')) + "ms"@,
        1_000 < d.ns() < 1_000_000 && d.ns() % 1_000 != 0 ==> s@ == decimal(d.ns() / 1_000) + ("."@
            + untrailed(padded(d.ns() % 1_000, 3), '0')) + "\u{b5}s"@,
{
    assert((n * 1_000_000_000) / 1_000_000_000 == n && (n * 1_000_000_000) % 1_000_000_000 == 0);
    assert((n * 1_000_000) / 1_000_000 == n && (n * 1_000_000) % 1_000_000 == 0);
    assert((n * 1_000) / 1_000 == n && (n * 1_000) % 1_000 == 0);
}

/// Restoring the radios is a success exactly where none failed, and otherwise each that did is named
/// with why.
pub proof fn law_each_radio_that_failed_is_named(
    failed: &Vec<(u32, String)>,
    r: Result<(), String>,
    n: u32,
    why: String,
)
    requires
        call_ensures(restored, (failed,), r),
    ensures
        r is Ok <==> failed@.len() == 0,
        failed@ == seq![(n, why)] ==> r is Err && (r->Err_0)@ == "rfkill"@ + decimal(n as nat) + ": "@
            + why@,
        failed@.len() > 1 ==> (r->Err_0)@ == joined(failure_words(failed@.drop_last()), "; "@) + "; "@
            + ("rfkill"@ + decimal(failed@.last().0 as nat) + ": "@ + failed@.last().1@),
{
    let ws = failure_words(failed@);
    if failed@.len() > 0 {
        assert(ws.last() == "rfkill"@ + decimal(failed@.last().0 as nat) + ": "@ + failed@.last().1@);
        assert(ws.drop_last() =~= failure_words(failed@.drop_last()));
    }
    if failed@ == seq![(n, why)] {
        assert(ws[0] == "rfkill"@ + decimal(failed@[0].0 as nat) + ": "@ + failed@[0].1@);
    }
}

/// Outputs are listed exactly where there is one, and none is an error.
pub proof fn law_no_outputs_is_an_error(listing: &str, r: Result<Vec<String>, &'static str>)
    requires
        call_ensures(outputs, (listing,), r),
    ensures
        r is Ok ==> (r->Ok_0)@.len() > 0,
        r is Err <==> first_words(lines(listing@)).len() == 0,
        r is Err ==> (r->Err_0)@ == "wlopm lists no outputs"@,
{
    if r is Ok {
        assert(texts((r->Ok_0)@).len() == (r->Ok_0)@.len());
    }
}

/// A hexadecimal number has at least one digit, after a plus sign or without one; each further digit
/// counts the number before it sixteen times.
pub proof fn law_a_hexadecimal_number_has_a_digit(s: &str, r: Option<u64>, c: char, n: nat, t: Seq<char>)
    requires
        call_ensures(parse_hex, (s,), r),
        hex_value(t) == Some(n),
        t.len() > 0,
        t[0] != '+',
    ensures
        s@.len() == 0 ==> r is None,
        s@ == "+"@ ==> r is None,
        s@ == t && n > u64::MAX ==> r is None,
        s@ == t && n <= u64::MAX ==> r is Some && r->0 == n,
        '0' as u32 <= c as u32 <= '9' as u32 ==> hex_value(t.push(c)) == Some(
            (n * 16 + (c as u32 - '0' as u32)) as nat,
        ),
        'a' as u32 <= c as u32 <= 'f' as u32 ==> hex_value(t.push(c)) == Some(
            (n * 16 + 10 + (c as u32 - 'a' as u32)) as nat,
        ),
        'A' as u32 <= c as u32 <= 'F' as u32 ==> hex_value(t.push(c)) == Some(
            (n * 16 + 10 + (c as u32 - 'A' as u32)) as nat,
        ),
        'g' as u32 <= c as u32 <= 'z' as u32 ==> hex_value(t.push(c)) is None,
{
    reveal_strlit("+");
    assert(t.push(c).drop_last() =~= t);
    if s@ == "+"@ {
        assert(s@.skip(1).len() == 0);
    }
}

} // verus!
