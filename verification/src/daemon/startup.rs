//! Deciding whether it is safe to start, and in what mode.

use crate::device::config::{requested, requested_mode, Config};
use crate::device::mode::Mode;
use crate::device::ups_service::among;
use crate::text::{join, join_all, joined, same, texts};
use vstd::prelude::*;

verus! {

/// What drives this machine's fan, decided once at startup from what actually answers.
#[derive(Clone, Copy, Debug, PartialEq, Eq, Structural)]
pub enum FanPlan {
    /// An Argon MCU acknowledged its address: the fan is ours to drive.
    Mcu,
    /// No MCU, but the kernel drives the fan. Reported, never driven: taking it over would mean
    /// disabling the thermal zone and its critical trip.
    KernelReportOnly,
    /// Neither.
    NoFan,
}

/// Decides the fan plan.
pub fn fan_plan(mcu_answers: bool, kernel_fan: bool) -> (p: FanPlan)
    ensures
        p == if mcu_answers {
            FanPlan::Mcu
        } else if kernel_fan {
            FanPlan::KernelReportOnly
        } else {
            FanPlan::NoFan
        },
{
    if mcu_answers {
        FanPlan::Mcu
    } else if kernel_fan {
        FanPlan::KernelReportOnly
    } else {
        FanPlan::NoFan
    }
}

/// What is logged of the fan plan.
pub fn fan_plan_line(plan: FanPlan) -> (s: &'static str)
    ensures
        s@ == match plan {
            FanPlan::Mcu => "argond: fan: Argon MCU at 0x1a"@,
            FanPlan::KernelReportOnly => "argond: fan: no Argon MCU; the kernel's pwm-fan drives it, reported only"@,
            FanPlan::NoFan => "argond: fan: no Argon MCU and no kernel fan; nothing to drive"@,
        },
{
    match plan {
        FanPlan::Mcu => "argond: fan: Argon MCU at 0x1a",
        FanPlan::KernelReportOnly => "argond: fan: no Argon MCU; the kernel's pwm-fan drives it, reported only",
        FanPlan::NoFan => "argond: fan: no Argon MCU and no kernel fan; nothing to drive",
    }
}

/// The vendor unit that drives the Argon MCU, and so contends with us for it. Only this one: the
/// vendor's UPS daemons contend for the UPS, which the UPS thread looks at for itself.
pub const MCU_VENDOR_UNIT: &'static str = "argononed.service";

/// Why the daemon declined to take control.
#[derive(Clone, Debug, PartialEq, Eq)]
pub enum Refusal {
    /// Another program already owns the hardware.
    Contended {
        /// The units found active.
        units: Vec<String>,
    },
}

impl Refusal {
    /// The refusal in words.
    pub open spec fn words(self) -> Seq<char> {
        match self {
            Refusal::Contended { units } => joined(texts(units@), ", "@)
                + " is running and drives the Argon MCU this daemon would drive.\n\nTwo writers on one MCU corrupt each other's state, so argond leaves the fan alone while it runs. Stop it to let argond drive the fan:\n\n    sudo systemctl disable --now "@
                + joined(texts(units@), " "@),
        }
    }

    /// The refusal in words.
    pub fn message(&self) -> (s: String)
        ensures
            s@ == self.words(),
    {
        match self {
            Refusal::Contended { units } => {
                let mut s: String = join_all(units, ", ");
                s.append(
                    " is running and drives the Argon MCU this daemon would drive.\n\nTwo writers on one MCU corrupt each other's state, so argond leaves the fan alone while it runs. Stop it to let argond drive the fan:\n\n    sudo systemctl disable --now ",
                );
                s.append(join_all(units, " ").as_str());
                s
            },
        }
    }
}

/// What the daemon decided to do at startup.
#[derive(Clone, Debug, PartialEq, Eq)]
pub struct Startup {
    /// What drives the fan.
    pub fan: FanPlan,
    /// The mode actually adopted.
    pub mode: Mode,
    /// The mode requested by configuration.
    pub requested: Mode,
    /// Why the requested mode was not adopted, if it was not.
    pub refusal: Option<Refusal>,
}

impl Startup {
    /// Whether the daemon fell back to a safer mode than configured.
    pub fn degraded(&self) -> (r: bool)
        ensures
            r == self.refusal is Some,
    {
        self.refusal.is_some()
    }

    /// What is logged of the mode.
    pub fn mode_line(&self) -> (s: String)
        ensures
            s@ == "argond: mode "@ + self.mode.name() + " (configured "@ + self.requested.name()
                + ")"@ + (if self.refusal is Some {
                ", degraded"@
            } else {
                ""@
            }),
    {
        let mut s: String = join("argond: mode ", self.mode.as_str());
        s.append(" (configured ");
        s.append(self.requested.as_str());
        s.append(")");
        s.append(
            if self.degraded() {
                ", degraded"
            } else {
                ""
            },
        );
        s
    }
}

/// The units, among those active, that contend for the MCU.
pub open spec fn mcu_contention(active: Seq<Seq<char>>) -> Seq<Seq<char>> {
    among(seq![MCU_VENDOR_UNIT@], active)
}

fn contending(active_units: &[String]) -> (r: Vec<String>)
    ensures
        texts(r@) == mcu_contention(texts(active_units@)),
{
    let mut out: Vec<String> = Vec::new();
    let mut i: usize = 0;
    let ghost one = seq![MCU_VENDOR_UNIT@];
    assert(texts(active_units@).take(0) =~= Seq::<Seq<char>>::empty());
    assert(texts(out@) =~= among(one, texts(active_units@).take(0)));
    while i < active_units.len()
        invariant
            i <= active_units.len(),
            one == seq![MCU_VENDOR_UNIT@],
            texts(out@) == among(one, texts(active_units@).take(i as int)),
        decreases active_units.len() - i,
    {
        let ghost before = out@;
        assert(texts(active_units@).take(i + 1).drop_last() =~= texts(active_units@).take(i as int));
        assert(texts(active_units@).take(i + 1).last() == active_units@[i as int]@);
        assert(one[0] == MCU_VENDOR_UNIT@);
        if same(active_units[i].as_str(), MCU_VENDOR_UNIT) {
            out.push(active_units[i].clone());
            assert(texts(out@) =~= texts(before).push(active_units@[i as int]@));
        }
        i = i + 1;
    }
    assert(texts(active_units@).take(i as int) =~= texts(active_units@));
    out
}

/// Whether the daemon declines to drive the fan as configured.
pub open spec fn declines(requested: Mode, active: Seq<Seq<char>>, fan: FanPlan) -> bool {
    fan == FanPlan::Mcu && requested.writes() && mcu_contention(active).len() > 0
}

/// The mode that is adopted.
pub open spec fn adopted_mode(requested: Mode, active: Seq<Seq<char>>, fan: FanPlan) -> Mode {
    if declines(requested, active, fan) {
        Mode::ReadOnly
    } else {
        requested
    }
}

/// Decides the fan subsystem's mode from configuration, the fan plan, and what else is running.
///
/// A contended MCU degrades to read-only rather than refusing to start: the daemon is genuinely
/// useful without driving the fan. Contention only exists when there is an MCU to contend for.
pub fn decide(config: &Config, active_units: &[String], fan: FanPlan) -> (s: Startup)
    ensures
        s.fan == fan,
        s.requested == requested_mode(*config),
        s.mode == adopted_mode(s.requested, texts(active_units@), fan),
        match s.refusal {
            Some(Refusal::Contended { units }) => declines(
                s.requested,
                texts(active_units@),
                fan,
            ) && texts(units@) == mcu_contention(texts(active_units@)),
            None => !declines(s.requested, texts(active_units@), fan),
        },
{
    let requested: Mode = requested(config);
    let contended: Vec<String> = contending(active_units);
    assert(texts(contended@).len() == contended@.len());
    if !matches!(fan, FanPlan::Mcu) || matches!(requested, Mode::ReadOnly) || contended.len() == 0 {
        return Startup { fan, mode: requested, requested, refusal: None };
    }
    Startup {
        fan,
        mode: Mode::ReadOnly,
        requested,
        refusal: Some(Refusal::Contended { units: contended }),
    }
}

/// The daemon never takes more than it was configured for, and never writes to an MCU that the
/// vendor's daemon drives.
pub proof fn law_contention_never_writes(requested: Mode, active: Seq<Seq<char>>, fan: FanPlan)
    ensures
        ({
            let mode = adopted_mode(requested, active, fan);
            &&& mode == requested || mode == Mode::ReadOnly
            &&& fan == FanPlan::Mcu && active.contains(MCU_VENDOR_UNIT@) ==> !mode.writes()
        }),
{
    crate::device::ups_service::law_only_active_vendor_units_contend(
        seq![MCU_VENDOR_UNIT@],
        active,
        MCU_VENDOR_UNIT@,
    );
    assert(seq![MCU_VENDOR_UNIT@][0] == MCU_VENDOR_UNIT@);
}

/// A fresh install changes nothing on any device: whatever runs and whatever drives the fan, nothing
/// is written, no poweroff is carried out, the display stays dark and the button is left alone.
pub proof fn law_a_fresh_install_changes_nothing(
    c: Config,
    active: Seq<Seq<char>>,
    fan: FanPlan,
    contended: Seq<Seq<char>>,
)
    requires
        c.is_default_but_for_policy(),
    ensures
        !adopted_mode(requested_mode(c), active, fan).writes(),
        !crate::daemon::ups::enforces(requested_mode(c), contended),
        !c.oled.enabled,
        !c.button.is_armed(),
{
    crate::device::mode::law_mode_of_its_name(Mode::ReadOnly);
    reveal_strlit("none");
    reveal_strlit("shutdown");
    assert("none"@.len() == 4 && "shutdown"@.len() == 8);
}

/// Without an MCU there is nothing to contend for: the configured mode is adopted, whatever runs.
pub proof fn law_no_mcu_no_contention(requested: Mode, active: Seq<Seq<char>>, fan: FanPlan)
    requires
        fan != FanPlan::Mcu,
    ensures
        adopted_mode(requested, active, fan) == requested,
{
}

/// The state of a vendor unit.
#[derive(Clone, Copy, Debug, PartialEq, Eq, Structural)]
pub enum UnitState {
    /// It is running.
    Active,
    /// It is not.
    Inactive,
    /// Its state could not be read.
    Unknown,
}

/// The names of the units that must be assumed to be running.
pub open spec fn assumed(units: Seq<(String, UnitState)>) -> Seq<Seq<char>>
    decreases units.len(),
{
    if units.len() == 0 {
        Seq::empty()
    } else if units.last().1 != UnitState::Inactive {
        assumed(units.drop_last()).push(units.last().0@)
    } else {
        assumed(units.drop_last())
    }
}

/// The vendor units that must be assumed to be running on this machine.
///
/// Those whose state could not be read at all are among them. Not being able to ask is not evidence
/// that the vendor daemon is absent, and this list gates both fan writes and the UPS poweroff -- so
/// it fails closed, towards read-only and dry run.
pub fn active_vendor_units(units: &Vec<(String, UnitState)>) -> (r: Vec<String>)
    ensures
        texts(r@) == assumed(units@),
{
    let mut out: Vec<String> = Vec::new();
    let mut i: usize = 0;
    assert(units@.take(0) =~= Seq::<(String, UnitState)>::empty());
    assert(texts(out@) =~= assumed(units@.take(0)));
    while i < units.len()
        invariant
            i <= units.len(),
            texts(out@) == assumed(units@.take(i as int)),
        decreases units.len() - i,
    {
        let ghost before = out@;
        let unit: &(String, UnitState) = &units[i];
        assert(units@.take(i + 1).drop_last() =~= units@.take(i as int));
        if !matches!(unit.1, UnitState::Inactive) {
            out.push(unit.0.as_str().to_owned());
            assert(texts(out@) =~= texts(before).push(unit.0@));
        }
        i = i + 1;
    }
    assert(units@.take(i as int) =~= units@);
    out
}

/// What is logged of a unit whose state could not be read.
pub fn unknown_unit_line(unit: &str) -> (s: String)
    ensures
        s@ == "argond: cannot tell whether "@ + unit@ + " is running; assuming it is"@,
{
    let mut s: String = join("argond: cannot tell whether ", unit);
    s.append(" is running; assuming it is");
    s
}

/// The fan is ours exactly where the MCU answers, and only reported where it does not and the kernel
/// drives one.
pub proof fn law_an_mcu_that_answers_is_ours(mcu: bool, kernel: bool, p: FanPlan)
    requires
        call_ensures(fan_plan, (mcu, kernel), p),
    ensures
        p == FanPlan::Mcu <==> mcu,
        p == FanPlan::KernelReportOnly <==> !mcu && kernel,
        p == FanPlan::NoFan <==> !mcu && !kernel,
{
}

/// The configured mode is adopted, unless it would write to an MCU while the vendor's fan daemon runs:
/// then, and only then, the daemon degrades to read-only and says who is in the way.
pub proof fn law_the_configured_mode_is_adopted_unless_contended(
    config: &Config,
    active_units: &[String],
    fan: FanPlan,
    s: Startup,
    degraded: bool,
)
    requires
        call_ensures(decide, (config, active_units, fan), s),
        call_ensures(Startup::degraded, (&s,), degraded),
    ensures
        s.requested == Mode::Full <==> config.mode@ == "full"@,
        s.requested == Mode::Managed <==> config.mode@ == "managed"@,
        degraded <==> fan == FanPlan::Mcu && s.requested != Mode::ReadOnly && texts(
            active_units@,
        ).contains("argononed.service"@),
        degraded ==> s.mode == Mode::ReadOnly,
        !degraded ==> s.mode == s.requested,
        s.fan == fan,
{
    let active = texts(active_units@);
    let unit = "argononed.service"@;
    crate::device::ups_service::law_only_active_vendor_units_contend(
        seq![MCU_VENDOR_UNIT@],
        active,
        unit,
    );
    assert(seq![MCU_VENDOR_UNIT@][0] == unit);
    let c = mcu_contention(active);
    if c.len() > 0 {
        crate::device::ups_service::law_only_active_vendor_units_contend(
            seq![MCU_VENDOR_UNIT@],
            active,
            c[0],
        );
        assert(c.contains(c[0]));
        assert(seq![MCU_VENDOR_UNIT@].contains(c[0]));
        assert(c[0] == unit);
    }
    reveal_strlit("read-only");
    reveal_strlit("managed");
    reveal_strlit("full");
    assert("read-only"@.len() == 9 && "managed"@.len() == 7 && "full"@.len() == 4);
}

/// A unit counts as running unless it is known not to be.
pub proof fn law_a_unit_counts_as_running_unless_it_is_known_not_to(
    units: &Vec<(String, UnitState)>,
    r: Vec<String>,
    i: int,
)
    requires
        call_ensures(active_vendor_units, (units,), r),
        0 <= i < units@.len(),
        units@[i].1 != UnitState::Inactive,
    ensures
        texts(r@).contains(units@[i].0@),
{
    lemma_assumed(units@, i);
}

proof fn lemma_assumed(units: Seq<(String, UnitState)>, i: int)
    requires
        0 <= i < units.len(),
        units[i].1 != UnitState::Inactive,
    ensures
        assumed(units).contains(units[i].0@),
    decreases units.len(),
{
    let all = assumed(units);
    let some = assumed(units.drop_last());
    if i == units.len() - 1 {
        assert(all.last() == units[i].0@);
        assert(all[all.len() - 1] == units[i].0@);
    } else {
        lemma_assumed(units.drop_last(), i);
        let k = choose|k: int| 0 <= k < some.len() && some[k] == units[i].0@;
        assert(all[k] == units[i].0@);
    }
}

/// A unit that is known not to run does not count as running.
pub proof fn law_a_unit_that_does_not_run_is_not_assumed_to(
    units: &Vec<(String, UnitState)>,
    r: Vec<String>,
    name: Seq<char>,
)
    requires
        call_ensures(active_vendor_units, (units,), r),
        forall|i: int|
            0 <= i < units@.len() && (#[trigger] units@[i]).0@ == name ==> units@[i].1
                == UnitState::Inactive,
    ensures
        !texts(r@).contains(name),
{
    lemma_not_assumed(units@, name);
}

proof fn lemma_not_assumed(units: Seq<(String, UnitState)>, name: Seq<char>)
    requires
        forall|i: int|
            0 <= i < units.len() && (#[trigger] units[i]).0@ == name ==> units[i].1
                == UnitState::Inactive,
    ensures
        !assumed(units).contains(name),
    decreases units.len(),
{
    if units.len() > 0 {
        let rest = units.drop_last();
        assert forall|i: int| 0 <= i < rest.len() && (#[trigger] rest[i]).0@ == name implies rest[i].1
            == UnitState::Inactive by {
            assert(rest[i] == units[i]);
        }
        lemma_not_assumed(rest, name);
        let all = assumed(units);
        let some = assumed(rest);
        assert(units[units.len() - 1] == units.last());
        if all.contains(name) {
            let k = choose|k: int| 0 <= k < all.len() && all[k] == name;
            if k < some.len() {
                assert(some[k] == name);
            }
        }
    }
}

/// What drives the fan is logged as what it is.
pub proof fn law_the_fans_driver_is_logged(
    a: &'static str,
    b: &'static str,
    c: &'static str,
)
    requires
        call_ensures(fan_plan_line, (FanPlan::Mcu,), a),
        call_ensures(fan_plan_line, (FanPlan::KernelReportOnly,), b),
        call_ensures(fan_plan_line, (FanPlan::NoFan,), c),
    ensures
        a@ == "argond: fan: Argon MCU at 0x1a"@,
        b@ == "argond: fan: no Argon MCU; the kernel's pwm-fan drives it, reported only"@,
        c@ == "argond: fan: no Argon MCU and no kernel fan; nothing to drive"@,
{
}

} // verus!
