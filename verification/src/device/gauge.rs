//! The Argon ONE UP's battery, through its Cellwise CW2217 fuel gauge. Reads only.

use crate::device::mcu::Error;
use crate::device::ups::{parse_error, BatteryStatus, Decision, Poll, PowerSource, Watch};
use crate::text::{decimal, decimal_of, hex, hex_of, join};
use vstd::prelude::*;

verus! {

/// What the `VERSION` register of a CW2217 reads.
pub const VERSION_VALUE: u8 = 0xa0;

/// Which way charge is moving.
#[derive(Clone, Copy, Debug, PartialEq, Eq, Structural)]
pub enum Flow {
    /// Into the battery.
    Charging,
    /// Out of the battery.
    Discharging,
    /// Neither.
    Idle,
}

/// One reading of the gauge.
#[derive(Clone, Copy, Debug, PartialEq, Eq, Structural)]
pub struct Reading {
    /// Charge, whole percent, 0-100.
    pub percent: u8,
    /// Cell voltage, microvolts.
    pub vcell_uv: u32,
    /// The current register, raw. Positive is charging; not in amperes.
    pub current: i16,
    /// Which way charge is moving.
    pub flow: Flow,
}

impl Reading {
    /// What the battery policy needs from it, given where the power comes from.
    pub fn battery(&self, source: PowerSource) -> (b: BatteryStatus)
        ensures
            b == (BatteryStatus { percent: self.percent, source }),
    {
        BatteryStatus { percent: self.percent, source }
    }
}

/// Wear figures, read on request rather than every poll.
#[derive(Clone, Copy, Debug, PartialEq, Eq, Structural)]
pub struct Health {
    /// Charge cycles the gauge has counted.
    pub cycles: u16,
    /// State of health, percent.
    pub soh: u8,
}

/// The wear figures in what was read: two bytes of cycles, the high one first, and one of health.
pub fn health(cycles: [u8; 2], soh: u8) -> (h: Health)
    ensures
        h.cycles == cycles@[0] * 256 + cycles@[1],
        h.soh == soh,
{
    Health { cycles: cycles[0] as u16 * 256 + cycles[1] as u16, soh }
}

/// Confirms what is there before trusting it: whatever does not read as a CW2217's version is not
/// the chip this was written for.
pub fn identify(version: u8) -> (r: Result<(), Error>)
    ensures
        match r {
            Ok(()) => version == VERSION_VALUE,
            Err(e) => version != VERSION_VALUE && parse_error(
                e,
                "a CW2217 VERSION register (expected 0xa0)"@,
                "0x"@ + hex(version),
            ),
        },
{
    if version != VERSION_VALUE {
        Err(
            Error::Parse {
                what: "a CW2217 VERSION register (expected 0xa0)".to_owned(),
                got: join("0x", hex_of(version).as_str()),
            },
        )
    } else {
        Ok(())
    }
}

/// Lets a read of `count` bytes at `register` through to the bus where it is `permitted`, or
/// refuses it before it reaches the bus.
pub fn pass_read(register: u8, count: usize, permitted: bool) -> (r: Result<(), Error>)
    ensures
        match r {
            Ok(()) => permitted,
            Err(e) => !permitted && (e matches Error::WriteBlocked { what, reason } && what@
                == "cw2217 read of "@ + decimal(count as nat) + " byte(s) at 0x"@ + hex(register)
                && reason@
                == "not one of the documented read-only registers this driver may read"@),
        },
{
    if permitted {
        Ok(())
    } else {
        let mut what: String = join("cw2217 read of ", decimal_of(count as u64).as_str());
        what.append(" byte(s) at 0x");
        what.append(hex_of(register).as_str());
        Err(
            Error::WriteBlocked {
                what,
                reason: "not one of the documented read-only registers this driver may read".to_owned(),
            },
        )
    }
}

/// Polls the gauge and feeds the battery policy.
pub struct GaugeMonitor {
    watch: Watch,
    last: Option<Reading>,
}

impl GaugeMonitor {
    /// The last reading, with the detail the policy does not use; `None` where it failed.
    pub closed spec fn latest(self) -> Option<Reading> {
        self.last
    }

    /// Consecutive failed polls so far.
    pub closed spec fn failed(self) -> u32 {
        self.watch.failed()
    }

    /// Creates a monitor.
    pub fn new() -> (m: Self)
        ensures
            m.latest() is None,
            m.failed() == 0,
    {
        GaugeMonitor { watch: Watch::new(), last: None }
    }

    /// The last reading, or `None` where it failed: a stale one is never kept as the last.
    pub fn last(&self) -> (r: Option<Reading>)
        ensures
            r == self.latest(),
    {
        self.last
    }

    /// The poll of a reading, with where the power comes from, and of the decision that the policy
    /// made on it.
    pub fn poll(
        &mut self,
        reading: Result<(Reading, PowerSource), Error>,
        decision: Decision,
    ) -> (p: Poll)
        ensures
            p.decision == decision,
            p.consecutive_failures == final(self).failed(),
            match reading {
                Ok((r, source)) => final(self).latest() == Some(r) && p.battery == Some(
                    BatteryStatus { percent: r.percent, source },
                ) && p.error is None && final(self).failed() == 0,
                Err(e) => final(self).latest() is None && p.battery is None && p.error == Some(e)
                    && final(self).failed() == crate::device::fan::one_more(old(self).failed()),
            },
    {
        match reading {
            Ok((r, source)) => {
                self.last = Some(r);
                self.watch.observe(Ok(r.battery(source)), decision)
            },
            Err(e) => {
                self.last = None;
                self.watch.observe(Err(e), decision)
            },
        }
    }
}

/// Only a chip that reads as a CW2217 is taken for one.
pub proof fn law_only_the_right_chip_is_read(version: u8, r: Result<(), Error>)
    requires
        call_ensures(identify, (version,), r),
    ensures
        r is Ok <==> version == 0xa0,
{
}

/// A read that is not permitted never reaches the bus, and one that is does.
pub proof fn law_only_permitted_reads_pass(
    register: u8,
    count: usize,
    permitted: bool,
    r: Result<(), Error>,
)
    requires
        call_ensures(pass_read, (register, count, permitted), r),
    ensures
        r is Ok <==> permitted,
        r matches Err(e) ==> e is WriteBlocked,
{
}

/// The wear figures are what was read: the high byte of the cycles first.
pub proof fn law_wear_is_what_was_read(cycles: [u8; 2], soh: u8, h: Health)
    requires
        call_ensures(health, (cycles, soh), h),
    ensures
        h.cycles / 256 == cycles@[0],
        h.cycles % 256 == cycles@[1],
        h.soh == soh,
{
}

/// The policy sees the charge of the reading and the source it was given; a reading that failed is
/// kept neither as a battery nor as the last one.
pub proof fn law_a_gauge_poll_is_its_reading(
    reading: Reading,
    source: PowerSource,
    e: Error,
    decision: Decision,
)
    ensures
        forall|m: &mut GaugeMonitor, p: Poll| #[trigger]
            call_ensures(
                GaugeMonitor::poll,
                (m, Ok::<(Reading, PowerSource), Error>((reading, source)), decision),
                p,
            ) ==> {
                &&& p.battery is Some
                &&& (p.battery->0).percent == reading.percent
                &&& (p.battery->0).source == source
                &&& p.decision == decision
                &&& p.consecutive_failures == 0
                &&& final(m).latest() == Some(reading)
            },
        forall|m: &mut GaugeMonitor, p: Poll| #[trigger]
            call_ensures(
                GaugeMonitor::poll,
                (m, Err::<(Reading, PowerSource), Error>(e), decision),
                p,
            ) ==> {
                &&& p.battery is None
                &&& p.error == Some(e)
                &&& p.decision == decision
                &&& final(m).latest() is None
                &&& m.failed() < u32::MAX ==> p.consecutive_failures == m.failed() + 1
            },
{
}

} // verus!
