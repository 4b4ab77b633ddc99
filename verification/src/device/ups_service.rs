//! One UPS monitoring cycle: read, decide, act, publish.

use crate::device::power::Action;
use crate::device::status::{lemma_levels_differ, level_name, name_of, Level, UpsStatus};
use crate::device::ups::Poll;
use crate::text::{same, texts};
use crate::time::SystemTime;
use vstd::prelude::*;

verus! {

/// The names of the vendor units that contend for the UPS.
///
/// One holds the serial port. The other does not touch the port, but runs its own shutdown logic,
/// so leaving it running would mean two programs scheduling and cancelling shutdowns.
pub open spec fn ups_vendor_units() -> Seq<Seq<char>> {
    seq!["argonupsrtcd.service"@, "argononeupsd.service"@]
}

/// The names of the vendor units responsible for the ONE UP's battery (and its lid). Reading
/// alongside is safe; acting on the battery alongside is not.
pub open spec fn oneup_vendor_units() -> Seq<Seq<char>> {
    seq!["argononeupd.service"@]
}

/// Those of `active` that are among `units`, in order.
pub open spec fn among(units: Seq<Seq<char>>, active: Seq<Seq<char>>) -> Seq<Seq<char>>
    decreases active.len(),
{
    if active.len() == 0 {
        Seq::empty()
    } else if units.contains(active.last()) {
        among(units, active.drop_last()).push(active.last())
    } else {
        among(units, active.drop_last())
    }
}

/// The vendor units that contend for the UPS.
pub fn ups_units() -> (v: Vec<&'static str>)
    ensures
        crate::text::views(v@) == ups_vendor_units(),
{
    let v: Vec<&'static str> = vec!["argonupsrtcd.service", "argononeupsd.service"];
    assert(crate::text::views(v@) =~= ups_vendor_units());
    v
}

/// The vendor units responsible for the ONE UP's battery.
pub fn oneup_units() -> (v: Vec<&'static str>)
    ensures
        crate::text::views(v@) == oneup_vendor_units(),
{
    let v: Vec<&'static str> = vec!["argononeupd.service"];
    assert(crate::text::views(v@) =~= oneup_vendor_units());
    v
}

fn is_among(units: &Vec<&'static str>, unit: &str) -> (r: bool)
    ensures
        r == crate::text::views(units@).contains(unit@),
{
    let mut i: usize = 0;
    while i < units.len()
        invariant
            i <= units.len(),
            forall|j: int| 0 <= j < i ==> crate::text::views(units@)[j] != unit@,
        decreases units.len() - i,
    {
        if same(units[i], unit) {
            assert(crate::text::views(units@)[i as int] == unit@);
            return true;
        }
        i = i + 1;
    }
    false
}

fn contention_among(units: &Vec<&'static str>, active_units: &[String]) -> (r: Vec<String>)
    ensures
        texts(r@) == among(crate::text::views(units@), texts(active_units@)),
{
    let mut out: Vec<String> = Vec::new();
    let mut i: usize = 0;
    let ghost us = crate::text::views(units@);
    assert(texts(active_units@).take(0) =~= Seq::<Seq<char>>::empty());
    assert(texts(out@) =~= among(us, texts(active_units@).take(0)));
    while i < active_units.len()
        invariant
            i <= active_units.len(),
            us == crate::text::views(units@),
            texts(out@) == among(us, texts(active_units@).take(i as int)),
        decreases active_units.len() - i,
    {
        let ghost before = out@;
        assert(texts(active_units@).take(i + 1).drop_last() =~= texts(active_units@).take(i as int));
        assert(texts(active_units@).take(i + 1).last() == active_units@[i as int]@);
        if is_among(units, active_units[i].as_str()) {
            out.push(active_units[i].clone());
            assert(texts(out@) =~= texts(before).push(active_units@[i as int]@));
        }
        i = i + 1;
    }
    assert(texts(active_units@).take(i as int) =~= texts(active_units@));
    out
}

/// Whether a list of units has this one.
pub fn has_unit(units: &[String], unit: &str) -> (r: bool)
    ensures
        r == texts(units@).contains(unit@),
{
    let mut i: usize = 0;
    while i < units.len()
        invariant
            i <= units.len(),
            forall|j: int| 0 <= j < i ==> texts(units@)[j] != unit@,
        decreases units.len() - i,
    {
        if same(units[i].as_str(), unit) {
            assert(texts(units@)[i as int] == unit@);
            return true;
        }
        i = i + 1;
    }
    false
}

/// Which of the given active units contend for the UPS.
pub fn contention(active_units: &[String]) -> (r: Vec<String>)
    ensures
        texts(r@) == among(ups_vendor_units(), texts(active_units@)),
{
    contention_among(&ups_units(), active_units)
}

/// Which of the given active units contend for the ONE UP's battery.
pub fn oneup_contention(active_units: &[String]) -> (r: Vec<String>)
    ensures
        texts(r@) == among(oneup_vendor_units(), texts(active_units@)),
{
    contention_among(&oneup_units(), active_units)
}

/// The outcome of one cycle.
#[derive(Clone, Debug)]
pub struct Cycle {
    /// What was read and decided.
    pub poll: Poll,
    /// What the coordinator did about it.
    pub action: Action,
    /// The status to publish.
    pub status: UpsStatus,
}

/// The cycle of a poll, of what the coordinator did about its decision, and of the poweroff that
/// is pending after that.
pub fn step(poll: Poll, action: Action, scheduled_at: Option<SystemTime>, now: SystemTime) -> (c: Cycle)
    ensures
        c.poll == poll,
        c.action == action,
        c.status.updated == now,
        c.status.level@ == name_of(poll.decision.level),
        c.status.percent == match poll.battery {
            Some(b) => Some(b.percent),
            None => None,
        },
        c.status.shutdown_at == scheduled_at,
{
    let status: UpsStatus = UpsStatus {
        updated: now,
        level: level_name(poll.decision.level).to_owned(),
        percent: match poll.battery {
            Some(b) => Some(b.percent),
            None => None,
        },
        shutdown_at: scheduled_at,
    };
    Cycle { poll, action, status }
}

/// What contends is active, and is one of the vendor's units; a unit that is neither is never
/// named.
pub proof fn law_only_active_vendor_units_contend(
    units: Seq<Seq<char>>,
    active: Seq<Seq<char>>,
    unit: Seq<char>,
)
    ensures
        among(units, active).contains(unit) <==> units.contains(unit) && active.contains(unit),
    decreases active.len(),
{
    if active.len() > 0 {
        let rest = active.drop_last();
        let last = active.last();
        law_only_active_vendor_units_contend(units, rest, unit);
        let all = among(units, active);
        let some = among(units, rest);
        if active.contains(unit) && unit != last {
            let i = choose|i: int| 0 <= i < active.len() && active[i] == unit;
            assert(rest[i] == unit);
        }
        if rest.contains(unit) {
            let i = choose|i: int| 0 <= i < rest.len() && rest[i] == unit;
            assert(active[i] == unit);
        }
        assert(active[active.len() - 1] == last);
        if units.contains(last) {
            assert(all[all.len() - 1] == last);
            if some.contains(unit) {
                let i = choose|i: int| 0 <= i < some.len() && some[i] == unit;
                assert(all[i] == unit);
            }
            if all.contains(unit) && unit != last {
                let i = choose|i: int| 0 <= i < all.len() && all[i] == unit;
                assert(some[i] == unit);
            }
        }
    }
}

/// The UPS is contended for by exactly those active units that are one of the vendor's two daemons,
/// and the ONE UP's battery by exactly those that are the vendor's one.
pub proof fn law_the_vendors_daemons_contend(
    active_units: &[String],
    ups: Vec<String>,
    oneup: Vec<String>,
    unit: Seq<char>,
)
    requires
        call_ensures(contention, (active_units,), ups),
        call_ensures(oneup_contention, (active_units,), oneup),
    ensures
        texts(ups@).contains(unit) <==> texts(active_units@).contains(unit) && (unit
            == "argonupsrtcd.service"@ || unit == "argononeupsd.service"@),
        texts(oneup@).contains(unit) <==> texts(active_units@).contains(unit) && unit
            == "argononeupd.service"@,
{
    law_only_active_vendor_units_contend(ups_vendor_units(), texts(active_units@), unit);
    law_only_active_vendor_units_contend(oneup_vendor_units(), texts(active_units@), unit);
    let us = ups_vendor_units();
    assert(us[0] == "argonupsrtcd.service"@ && us[1] == "argononeupsd.service"@);
    assert(us.contains("argonupsrtcd.service"@) && us.contains("argononeupsd.service"@));
    let os = oneup_vendor_units();
    assert(os[0] == "argononeupd.service"@);
    assert(os.contains("argononeupd.service"@));
}

/// What is published of a cycle is the reading, the level that was decided and the poweroff that is
/// pending, dated now: nothing is kept from an earlier one.
pub proof fn law_a_cycle_publishes_what_was_read(
    poll: Poll,
    action: Action,
    scheduled_at: Option<SystemTime>,
    now: SystemTime,
    c: Cycle,
)
    requires
        call_ensures(step, (poll, action, scheduled_at, now), c),
    ensures
        c.status.updated == now,
        c.status.shutdown_at == scheduled_at,
        c.status.percent is Some <==> poll.battery is Some,
        poll.battery is Some ==> c.status.percent == Some((poll.battery->0).percent),
        c.status.level@ == "on-mains"@ <==> poll.decision.level == Level::OnMains,
        c.status.level@ == "on-battery"@ <==> poll.decision.level == Level::OnBattery,
        c.status.level@ == "low"@ <==> poll.decision.level == Level::Low,
        c.status.level@ == "critical"@ <==> poll.decision.level == Level::Critical,
        c.status.level@ == "unknown"@ <==> poll.decision.level == Level::Unknown,
        c.poll == poll,
        c.action == action,
{
    lemma_levels_differ();
}

} // verus!
