//! The Argon PWR UPS: which commands may reach it, what its replies mean, and what a poll makes of
//! them.

use crate::device::mcu::Error;
use crate::device::power::Advice;
use crate::device::status::Level;
use crate::text::{hex_list, hex_list_of, join};
use vstd::prelude::*;

verus! {

/// How long one request may take, start to finish, in seconds.
pub const REQUEST_DEADLINE: u64 = 2;

/// A command of the UPS.
#[derive(Clone, Copy, Debug, PartialEq, Eq, Structural)]
pub enum Command {
    /// Battery percentage and power source.
    BatteryStatus,
    /// The charge current, raw.
    ChargeCurrent,
    /// The firmware version.
    FirmwareVersion,
    /// The clock.
    GetRtc,
    /// The wake schedule.
    GetWake,
    /// Sets the clock.
    SetRtc,
    /// Sets the wake schedule.
    SetWake,
    /// Resets the battery meter.
    ResetMeter,
    /// Acknowledges.
    Acknowledge,
}

impl Command {
    /// Whether it is one of the five queries without side effects.
    pub open spec fn queries(self) -> bool {
        self is BatteryStatus || self is ChargeCurrent || self is FirmwareVersion || self is GetRtc
            || self is GetWake
    }

    /// Its name.
    pub open spec fn word(self) -> Seq<char> {
        match self {
            Command::BatteryStatus => "BatteryStatus"@,
            Command::ChargeCurrent => "ChargeCurrent"@,
            Command::FirmwareVersion => "FirmwareVersion"@,
            Command::GetRtc => "GetRtc"@,
            Command::GetWake => "GetWake"@,
            Command::SetRtc => "SetRtc"@,
            Command::SetWake => "SetWake"@,
            Command::ResetMeter => "ResetMeter"@,
            Command::Acknowledge => "Acknowledge"@,
        }
    }

    /// Its name.
    pub fn name(self) -> (s: &'static str)
        ensures
            s@ == self.word(),
    {
        match self {
            Command::BatteryStatus => "BatteryStatus",
            Command::ChargeCurrent => "ChargeCurrent",
            Command::FirmwareVersion => "FirmwareVersion",
            Command::GetRtc => "GetRtc",
            Command::GetWake => "GetWake",
            Command::SetRtc => "SetRtc",
            Command::SetWake => "SetWake",
            Command::ResetMeter => "ResetMeter",
            Command::Acknowledge => "Acknowledge",
        }
    }
}

/// Whether `e` refuses `cmd`, for `reason`.
pub open spec fn refuses(e: Error, cmd: Command, reason: Seq<char>) -> bool {
    e matches Error::WriteBlocked { what, reason: r } && what@ == "ups command "@ + cmd.word()
        && r@ == reason
}

fn refusal(cmd: Command, reason: &str) -> (e: Error)
    ensures
        refuses(e, cmd, reason@),
{
    Error::WriteBlocked { what: join("ups command ", cmd.name()), reason: reason.to_owned() }
}

/// A link that passes only side-effect-free queries: what read-only mode means for the UPS.
///
/// Allows exactly the five queries confirmed on hardware; refuses setting the clock, setting a wake
/// schedule, resetting the battery meter, and acknowledging.
pub struct QueryOnly<L>(pub L);

impl QueryOnly<()> {
    /// Whether a command is a side-effect-free query.
    pub fn is_query(cmd: Command) -> (r: bool)
        ensures
            r == cmd.queries(),
    {
        matches!(
            cmd,
            Command::BatteryStatus | Command::ChargeCurrent | Command::FirmwareVersion
                | Command::GetRtc | Command::GetWake
        )
    }
}

impl<L> QueryOnly<L> {
    /// Lets a command through to the link behind, or refuses it.
    pub fn passes(&self, cmd: Command) -> (r: Result<(), Error>)
        ensures
            match r {
                Ok(()) => cmd.queries(),
                Err(e) => !cmd.queries() && refuses(
                    e,
                    cmd,
                    "only side-effect-free queries are allowed on this link"@,
                ),
            },
    {
        if QueryOnly::is_query(cmd) {
            Ok(())
        } else {
            Err(refusal(cmd, "only side-effect-free queries are allowed on this link"))
        }
    }
}

/// Which writes a `Gate` lets through, beyond queries.
#[derive(Clone, Copy, Debug, PartialEq, Eq, Structural)]
pub struct Writes {
    /// Setting the clock.
    pub clock: bool,
    /// Setting the wake schedule.
    pub wake: bool,
}

impl Default for Writes {
    fn default() -> (w: Self)
        ensures
            w == (Writes { clock: false, wake: false }),
    {
        Writes { clock: false, wake: false }
    }
}

impl Writes {
    /// Whether a command is let through.
    pub open spec fn permit(self, cmd: Command) -> bool {
        cmd.queries() || (self.clock && cmd is SetRtc) || (self.wake && cmd is SetWake)
    }
}

/// Queries, plus -- when allowed -- setting the clock and the wake schedule. Nothing else.
///
/// Only writes whose semantics have been observed on hardware can be let through. The meter reset
/// and the acknowledgement stay refused however it is built. Which writes are allowed is decided
/// once, when it is made.
pub struct Gate<L> {
    inner: L,
    writes: Writes,
}

impl<L> Gate<L> {
    /// The link behind it.
    pub closed spec fn link(self) -> L {
        self.inner
    }

    /// The writes it lets through.
    pub closed spec fn permitted(self) -> Writes {
        self.writes
    }

    /// Side-effect-free queries only: the same as `QueryOnly`.
    pub fn queries_only(inner: L) -> (g: Self)
        ensures
            g.link() == inner,
            g.permitted() == (Writes { clock: false, wake: false }),
    {
        Gate::with_writes(inner, Writes { clock: false, wake: false })
    }

    /// Queries, and setting the clock.
    pub fn with_clock_writes(inner: L) -> (g: Self)
        ensures
            g.link() == inner,
            g.permitted() == (Writes { clock: true, wake: false }),
    {
        Gate::with_writes(inner, Writes { clock: true, wake: false })
    }

    /// Queries, and exactly the writes given.
    pub fn with_writes(inner: L, writes: Writes) -> (g: Self)
        ensures
            g.link() == inner,
            g.permitted() == writes,
    {
        Gate { inner, writes }
    }

    /// The link behind it.
    pub fn inner(&self) -> (l: &L)
        ensures
            *l == self.link(),
    {
        &self.inner
    }

    /// Whether this gate lets `cmd` through.
    pub fn allows(&self, cmd: Command) -> (r: bool)
        ensures
            r == self.permitted().permit(cmd),
    {
        QueryOnly::is_query(cmd) || (self.writes.clock && matches!(cmd, Command::SetRtc)) || (
        self.writes.wake && matches!(cmd, Command::SetWake))
    }

    /// Lets a command through to the link behind, or refuses it.
    pub fn passes(&self, cmd: Command) -> (r: Result<(), Error>)
        ensures
            match r {
                Ok(()) => self.permitted().permit(cmd),
                Err(e) => !self.permitted().permit(cmd) && refuses(
                    e,
                    cmd,
                    "not permitted by this link's gate"@,
                ),
            },
    {
        if self.allows(cmd) {
            Ok(())
        } else {
            Err(refusal(cmd, "not permitted by this link's gate"))
        }
    }
}

/// However a gate is built, the meter reset and the acknowledgement are refused, and every query
/// passes.
pub proof fn law_no_gate_passes_what_was_never_observed(w: Writes, cmd: Command)
    ensures
        cmd is ResetMeter || cmd is Acknowledge ==> !w.permit(cmd),
        cmd.queries() ==> w.permit(cmd),
        w.permit(cmd) ==> cmd.queries() || cmd is SetRtc || cmd is SetWake,
{
}

/// A gate without writes passes exactly what the query-only link does.
pub proof fn law_a_gate_without_writes_is_query_only(cmd: Command)
    ensures
        (Writes { clock: false, wake: false }).permit(cmd) == cmd.queries(),
{
}

/// Whether `e` says that `what` was looked for and `got` was there.
pub open spec fn parse_error(e: Error, what: Seq<char>, got: Seq<char>) -> bool {
    e matches Error::Parse { what: w, got: g } && w@ == what && g@ == got
}

/// The firmware version in a reply.
pub fn firmware(payload: &[u8]) -> (r: Result<u8, Error>)
    ensures
        match r {
            Ok(v) => payload@ == seq![v],
            Err(e) => payload@.len() != 1 && parse_error(
                e,
                "a firmware version"@,
                hex_list(payload@),
            ),
        },
{
    if payload.len() == 1 {
        assert(payload@ =~= seq![payload@[0]]);
        Ok(payload[0])
    } else {
        Err(
            Error::Parse {
                what: "a firmware version".to_owned(),
                got: hex_list_of(payload),
            },
        )
    }
}

/// The charge current in a reply, raw: two bytes, the high one first. Its unit is unknown.
pub fn charge_current_raw(payload: &[u8]) -> (r: Result<u16, Error>)
    ensures
        match r {
            Ok(v) => payload@.len() == 2 && v == payload@[0] * 256 + payload@[1],
            Err(e) => payload@.len() != 2 && parse_error(
                e,
                "a charge current"@,
                hex_list(payload@),
            ),
        },
{
    if payload.len() == 2 {
        Ok(payload[0] as u16 * 256 + payload[1] as u16)
    } else {
        Err(Error::Parse { what: "a charge current".to_owned(), got: hex_list_of(payload) })
    }
}

/// Takes the reply to setting the clock: an empty one. A reply carrying a payload is not what was
/// observed, so it is reported rather than accepted.
pub fn clock_was_set(payload: &[u8]) -> (r: Result<(), Error>)
    ensures
        match r {
            Ok(()) => payload@.len() == 0,
            Err(e) => payload@.len() > 0 && parse_error(
                e,
                "the reply to a clock set (expected an empty payload)"@,
                hex_list(payload@),
            ),
        },
{
    if payload.len() == 0 {
        Ok(())
    } else {
        Err(
            Error::Parse {
                what: "the reply to a clock set (expected an empty payload)".to_owned(),
                got: hex_list_of(payload),
            },
        )
    }
}

/// Takes the reply to setting the wake schedule: an empty one.
pub fn wake_was_set(payload: &[u8]) -> (r: Result<(), Error>)
    ensures
        match r {
            Ok(()) => payload@.len() == 0,
            Err(e) => payload@.len() > 0 && parse_error(
                e,
                "the reply to a wake set (expected an empty payload)"@,
                hex_list(payload@),
            ),
        },
{
    if payload.len() == 0 {
        Ok(())
    } else {
        Err(
            Error::Parse {
                what: "the reply to a wake set (expected an empty payload)".to_owned(),
                got: hex_list_of(payload),
            },
        )
    }
}

/// Where the power comes from.
#[derive(Clone, Copy, Debug, PartialEq, Eq, Structural)]
pub enum PowerSource {
    /// The mains.
    Mains,
    /// The battery.
    Battery,
}

/// A reading of the battery.
#[derive(Clone, Copy, Debug, PartialEq, Eq, Structural)]
pub struct BatteryStatus {
    /// Charge, percent.
    pub percent: u8,
    /// Where the power comes from.
    pub source: PowerSource,
}

/// What the battery policy made of a reading.
#[derive(Clone, Copy, Debug, PartialEq, Eq, Structural)]
pub struct Decision {
    /// The level.
    pub level: Level,
    /// What it advises.
    pub advice: Advice,
}

/// One monitoring poll.
#[derive(Clone, Debug)]
pub struct Poll {
    /// The battery reading, if it succeeded.
    pub battery: Option<BatteryStatus>,
    /// Why the reading failed, if it did.
    pub error: Option<Error>,
    /// What the policy made of it.
    pub decision: Decision,
    /// Consecutive failed polls, including this one.
    pub consecutive_failures: u32,
}

/// Counts the failures of successive polls, and hands the battery policy what it may see.
pub struct Watch {
    failures: u32,
}

impl Watch {
    /// Consecutive failed polls so far.
    pub closed spec fn failed(self) -> u32 {
        self.failures
    }

    /// No poll has failed yet.
    pub fn new() -> (w: Self)
        ensures
            w.failed() == 0,
    {
        Watch { failures: 0 }
    }

    /// What the battery policy is shown of a reading: the reading, or nothing where it failed. A
    /// failed read is an unknown, which the policy never turns into shutdown advice.
    pub fn observation(reading: &Result<BatteryStatus, Error>) -> (o: Option<BatteryStatus>)
        ensures
            o == match *reading {
                Ok(b) => Some(b),
                Err(_) => None,
            },
    {
        match reading {
            Ok(b) => Some(*b),
            Err(_) => None,
        }
    }

    /// The poll of a reading and of the decision that the policy made on its observation. Losing
    /// the link is a condition to report, not a reason to stop monitoring.
    pub fn observe(
        &mut self,
        reading: Result<BatteryStatus, Error>,
        decision: Decision,
    ) -> (p: Poll)
        ensures
            p.decision == decision,
            p.consecutive_failures == final(self).failed(),
            match reading {
                Ok(b) => p.battery == Some(b) && p.error is None && final(self).failed() == 0,
                Err(e) => p.battery is None && p.error == Some(e) && final(self).failed()
                    == crate::device::fan::one_more(old(self).failed()),
            },
    {
        match reading {
            Ok(b) => {
                self.failures = 0;
                Poll { battery: Some(b), error: None, decision, consecutive_failures: 0 }
            },
            Err(e) => {
                self.failures = if self.failures == u32::MAX {
                    self.failures
                } else {
                    self.failures + 1
                };
                Poll {
                    battery: None,
                    error: Some(e),
                    decision,
                    consecutive_failures: self.failures,
                }
            },
        }
    }
}

/// What reaches the UPS through a gate: the five queries always, setting the clock and the wake
/// schedule exactly where each was permitted, and nothing else ever. A refusal names the command.
pub proof fn law_a_gate_passes_what_it_was_made_for<L>(
    gate: &Gate<L>,
    cmd: Command,
    r: Result<(), Error>,
    b: bool,
)
    requires
        call_ensures(Gate::<L>::passes, (gate, cmd), r),
        call_ensures(Gate::<L>::allows, (gate, cmd), b),
    ensures
        r is Ok <==> b,
        cmd is BatteryStatus || cmd is ChargeCurrent || cmd is FirmwareVersion || cmd is GetRtc
            || cmd is GetWake ==> b,
        cmd is SetRtc ==> b == gate.permitted().clock,
        cmd is SetWake ==> b == gate.permitted().wake,
        cmd is ResetMeter || cmd is Acknowledge ==> !b,
        r matches Err(e) ==> e is WriteBlocked,
{
}

/// A link for queries passes the five queries and refuses the four commands that change something.
pub proof fn law_a_query_link_changes_nothing<L>(link: &QueryOnly<L>, cmd: Command, r: Result<(), Error>)
    requires
        call_ensures(QueryOnly::<L>::passes, (link, cmd), r),
    ensures
        r is Err <==> cmd is SetRtc || cmd is SetWake || cmd is ResetMeter || cmd is Acknowledge,
{
}

/// No two commands have the same name.
pub proof fn law_commands_are_told_apart(cmd: Command, s: &'static str)
    requires
        call_ensures(Command::name, (cmd,), s),
    ensures
        s@ == "BatteryStatus"@ <==> cmd is BatteryStatus,
        s@ == "ChargeCurrent"@ <==> cmd is ChargeCurrent,
        s@ == "FirmwareVersion"@ <==> cmd is FirmwareVersion,
        s@ == "GetRtc"@ <==> cmd is GetRtc,
        s@ == "GetWake"@ <==> cmd is GetWake,
        s@ == "SetRtc"@ <==> cmd is SetRtc,
        s@ == "SetWake"@ <==> cmd is SetWake,
        s@ == "ResetMeter"@ <==> cmd is ResetMeter,
        s@ == "Acknowledge"@ <==> cmd is Acknowledge,
{
    reveal_strlit("BatteryStatus");
    reveal_strlit("ChargeCurrent");
    reveal_strlit("FirmwareVersion");
    reveal_strlit("GetRtc");
    reveal_strlit("GetWake");
    reveal_strlit("SetRtc");
    reveal_strlit("SetWake");
    reveal_strlit("ResetMeter");
    reveal_strlit("Acknowledge");
    assert("BatteryStatus"@.len() == 13 && "BatteryStatus"@[0] == 'B');
    assert("ChargeCurrent"@.len() == 13 && "ChargeCurrent"@[0] == 'C');
    assert("FirmwareVersion"@.len() == 15);
    assert("GetRtc"@.len() == 6 && "GetRtc"@[0] == 'G');
    assert("GetWake"@.len() == 7 && "GetWake"@[0] == 'G');
    assert("SetRtc"@.len() == 6 && "SetRtc"@[0] == 'S');
    assert("SetWake"@.len() == 7 && "SetWake"@[0] == 'S');
    assert("ResetMeter"@.len() == 10);
    assert("Acknowledge"@.len() == 11);
}

/// A reply is taken exactly where it has the length that was observed: one byte for the firmware, two
/// for the charge current, the high one first, and none where something was set.
pub proof fn law_a_reply_has_its_length(
    payload: &[u8],
    version: Result<u8, Error>,
    current: Result<u16, Error>,
    clock: Result<(), Error>,
    wake: Result<(), Error>,
)
    requires
        call_ensures(firmware, (payload,), version),
        call_ensures(charge_current_raw, (payload,), current),
        call_ensures(clock_was_set, (payload,), clock),
        call_ensures(wake_was_set, (payload,), wake),
    ensures
        version is Ok <==> payload@.len() == 1,
        version matches Ok(v) ==> v == payload@[0],
        current is Ok <==> payload@.len() == 2,
        current matches Ok(v) ==> v / 256 == payload@[0] && v % 256 == payload@[1],
        clock is Ok <==> payload@.len() == 0,
        wake is Ok <==> payload@.len() == 0,
{
}

/// A poll that succeeds starts the count of failures over, one that fails adds one to it, and the
/// policy sees the reading of the first and nothing of the second. What it decided is handed on.
pub proof fn law_a_poll_is_its_reading(
    b: BatteryStatus,
    e: Error,
    decision: Decision,
    good: &Result<BatteryStatus, Error>,
    seen: Option<BatteryStatus>,
)
    requires
        call_ensures(Watch::observation, (good,), seen),
    ensures
        seen is Some <==> *good is Ok,
        *good matches Ok(g) ==> seen == Some(g),
        forall|w: &mut Watch, p: Poll| #[trigger]
            call_ensures(Watch::observe, (w, Ok::<BatteryStatus, Error>(b), decision), p) ==> {
                &&& p.battery == Some(b)
                &&& p.error is None
                &&& p.decision == decision
                &&& p.consecutive_failures == 0
                &&& final(w).failed() == 0
            },
        forall|w: &mut Watch, p: Poll| #[trigger]
            call_ensures(Watch::observe, (w, Err::<BatteryStatus, Error>(e), decision), p) ==> {
                &&& p.battery is None
                &&& p.error == Some(e)
                &&& p.decision == decision
                &&& p.consecutive_failures == final(w).failed()
                &&& w.failed() < u32::MAX ==> final(w).failed() == w.failed() + 1
            },
{
}

/// A wake was set exactly where the reply is empty, and no poll has failed before the first.
pub proof fn law_an_empty_reply_sets_a_wake(payload: &[u8], r: Result<(), Error>, w: Watch)
    requires
        call_ensures(wake_was_set, (payload,), r),
        call_ensures(Watch::new, (), w),
    ensures
        r is Ok <==> payload@.len() == 0,
        w.failed() == 0,
{
}

} // verus!
