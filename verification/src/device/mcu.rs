//! The Argon ONE-family MCU: fan, power mode, power cut.

use crate::device::mode::FanDuty;
use crate::text::same;
use vstd::prelude::*;

verus! {

/// Documented I2C address.
pub const ADDR: u8 = 0x1a;

/// The opcode that enters the firmware bootloader. It is never written.
pub const BOOTLOADER: u8 = 0xbb;

/// Which protocol the MCU speaks.
///
/// There is no safe way to detect this: a register read places the register number on the bus as
/// a write, so probing register `0x80` on legacy firmware sets the fan to full. The dialect is
/// configuration, never detection, and defaults to `Legacy`.
#[derive(Clone, Copy, Debug, PartialEq, Eq, Structural)]
pub enum Dialect {
    /// One byte: the duty.
    Legacy,
    /// Register `0x80` holds the duty: `[0x80, duty]` sets it.
    Register,
}

impl Default for Dialect {
    fn default() -> (d: Self)
        ensures
            d == Dialect::Legacy,
    {
        Dialect::Legacy
    }
}

impl Dialect {
    /// The dialect of a configuration value.
    pub open spec fn named(value: Seq<char>) -> Option<Dialect> {
        if value == "legacy"@ {
            Some(Dialect::Legacy)
        } else if value == "register"@ {
            Some(Dialect::Register)
        } else {
            None
        }
    }

    /// The dialect a configuration value names, or `None` for anything else -- including
    /// `"auto"`, which does not exist because there is nothing safe to detect with.
    pub fn from_config(value: &str) -> (d: Option<Self>)
        ensures
            d == Dialect::named(value@),
    {
        if same(value, "legacy") {
            Some(Dialect::Legacy)
        } else if same(value, "register") {
            Some(Dialect::Register)
        } else {
            None
        }
    }
}

/// There is no automatic dialect.
pub proof fn law_no_automatic_dialect()
    ensures
        Dialect::named("auto"@) is None,
{
    reveal_strlit("auto");
    reveal_strlit("legacy");
    reveal_strlit("register");
    assert("auto"@.len() == 4 && "legacy"@.len() == 6 && "register"@.len() == 8);
}

/// Power-on behaviour.
#[derive(Clone, Copy, Debug, PartialEq, Eq, Structural)]
pub enum PowerMode {
    /// A button press is required to power on after shutdown or power loss.
    RequiresButton,
    /// Power flows to the Pi without a button press.
    AlwaysOn,
}

/// Why a device did not take what was written to it.
#[derive(Clone, Debug, PartialEq, Eq)]
pub enum Error {
    /// The transport does not permit this write.
    WriteBlocked {
        /// What was to be written, and where.
        what: String,
        /// Why it was not.
        reason: String,
    },
    /// The transport declined for now: too soon after the write before it.
    RateLimited,
    /// What was read is not what it should be.
    Parse {
        /// What was looked for.
        what: String,
        /// What was there.
        got: String,
    },
    /// Anything else, in words.
    Other(String),
}

/// The bytes that set a duty, in a dialect.
pub open spec fn fan_bytes(dialect: Dialect, duty: FanDuty) -> Seq<u8> {
    match dialect {
        Dialect::Legacy => seq![duty.value()],
        Dialect::Register => seq![0x80u8, duty.value()],
    }
}

/// The bytes that select a power-on behaviour.
pub open spec fn power_mode_bytes(mode: PowerMode) -> Seq<u8> {
    match mode {
        PowerMode::RequiresButton => seq![0xfdu8],
        PowerMode::AlwaysOn => seq![0xfeu8],
    }
}

/// The bytes that arm the power cut.
pub open spec fn power_cut_bytes() -> Seq<u8> {
    seq![0xffu8]
}

/// The MCU: what it is told, and what it was told last.
pub struct Mcu {
    dialect: Dialect,
    shadow_duty: Option<FanDuty>,
}

impl Mcu {
    /// The protocol it speaks.
    pub closed spec fn dialect(self) -> Dialect {
        self.dialect
    }

    /// The duty last written, if any.
    pub closed spec fn shadow(self) -> Option<FanDuty> {
        self.shadow_duty
    }

    /// An MCU that speaks `dialect` and was told nothing yet.
    pub fn new(dialect: Dialect) -> (m: Self)
        ensures
            m.dialect() == dialect,
            m.shadow() is None,
    {
        Mcu { dialect, shadow_duty: None }
    }

    /// The duty last written, if any. What was last sent is what it is: the legacy protocol
    /// cannot report its duty, and reading it in the register protocol is hazardous.
    pub fn duty(&self) -> (d: Option<FanDuty>)
        ensures
            d == self.shadow(),
    {
        self.shadow_duty
    }

    /// The bytes to write to the MCU's address to set the fan duty.
    pub fn fan_frame(&self, duty: FanDuty) -> (bytes: Vec<u8>)
        ensures
            bytes@ == fan_bytes(self.dialect(), duty),
    {
        let b: u8 = duty.as_mcu_byte();
        let bytes: Vec<u8> = match self.dialect {
            Dialect::Legacy => vec![b],
            Dialect::Register => vec![0x80u8, b],
        };
        assert(bytes@ =~= fan_bytes(self.dialect(), duty));
        bytes
    }

    /// Takes what became of writing `fan_frame(duty)`: a duty that reached the device is
    /// remembered, and a failure is handed on with nothing changed.
    pub fn set_fan(&mut self, duty: FanDuty, written: Result<(), Error>) -> (r: Result<(), Error>)
        ensures
            r == written,
            final(self).dialect() == old(self).dialect(),
            final(self).shadow() == if written is Ok {
                Some(duty)
            } else {
                old(self).shadow()
            },
    {
        if written.is_ok() {
            self.shadow_duty = Some(duty);
        }
        written
    }

    /// The bytes to write to select the power-on behaviour.
    pub fn power_mode_frame(&self, mode: PowerMode) -> (bytes: Vec<u8>)
        ensures
            bytes@ == power_mode_bytes(mode),
    {
        let bytes: Vec<u8> = match mode {
            PowerMode::RequiresButton => vec![0xfdu8],
            PowerMode::AlwaysOn => vec![0xfeu8],
        };
        assert(bytes@ =~= power_mode_bytes(mode));
        bytes
    }

    /// The bytes to write to arm the power cut. Destructive: combined with common bootloader
    /// settings this can produce a machine that halts and cannot be woken from the case button.
    pub fn power_cut_frame(&self) -> (bytes: Vec<u8>)
        ensures
            bytes@ == power_cut_bytes(),
    {
        let bytes: Vec<u8> = vec![0xffu8];
        assert(bytes@ =~= power_cut_bytes());
        bytes
    }

    /// Always fails: the exit sequence of the bootloader is unknown, and a failed flash can leave
    /// the device unrecoverable.
    pub fn enter_bootloader(&self) -> (r: Result<(), Error>)
        ensures
            r matches Err(Error::WriteBlocked { what, reason }) && what@ == "i2c 0x1a <- bb"@
                && reason@
                == "argon-utils never enters the MCU bootloader: the exit sequence is unknown and a failed flash can be unrecoverable"@,
    {
        Err(
            Error::WriteBlocked {
                what: "i2c 0x1a <- bb".to_owned(),
                reason: "argon-utils never enters the MCU bootloader: the exit sequence is unknown and a failed flash can be unrecoverable".to_owned(),
            },
        )
    }
}

/// Nothing that this module writes enters the bootloader: neither a duty, whichever the dialect,
/// nor a power mode, nor the power cut starts with its opcode.
pub proof fn law_bootloader_is_never_written(dialect: Dialect, duty: FanDuty, mode: PowerMode)
    requires
        duty.value() <= 100,
    ensures
        fan_bytes(dialect, duty)[0] != BOOTLOADER,
        power_mode_bytes(mode)[0] != BOOTLOADER,
        power_cut_bytes()[0] != BOOTLOADER,
{
}

/// A duty in the legacy dialect is a percentage, never a command of either dialect.
pub proof fn law_a_legacy_duty_is_no_command(duty: FanDuty)
    requires
        duty.value() <= 100,
    ensures
        fan_bytes(Dialect::Legacy, duty) == seq![duty.value()],
        fan_bytes(Dialect::Legacy, duty)[0] < 0x80,
{
}

/// The two dialects are named, and nothing else is one.
pub proof fn law_dialects_are_named(value: &str, d: Option<Dialect>)
    requires
        call_ensures(Dialect::from_config, (value,), d),
    ensures
        d == Some(Dialect::Legacy) <==> value@ == "legacy"@,
        d == Some(Dialect::Register) <==> value@ == "register"@,
{
    reveal_strlit("legacy");
    reveal_strlit("register");
    assert("legacy"@.len() == 6 && "register"@.len() == 8);
}

/// The last byte that sets a duty is the duty; the legacy dialect has no other, and the register
/// dialect writes it to register 0x80. So two duties never look the same on the bus.
pub proof fn law_a_duty_goes_out_as_it_is(mcu: &Mcu, duty: FanDuty, bytes: Vec<u8>)
    requires
        call_ensures(Mcu::fan_frame, (mcu, duty), bytes),
    ensures
        bytes@.last() == duty.value(),
        mcu.dialect() == Dialect::Legacy <==> bytes@.len() == 1,
        mcu.dialect() == Dialect::Register <==> bytes@.len() == 2 && bytes@[0] == 0x80,
{
}

/// The power modes and the power cut have the bytes that are documented, each its own.
pub proof fn law_power_bytes_are_told_apart(
    mcu: &Mcu,
    mode: PowerMode,
    bytes: Vec<u8>,
    cut: Vec<u8>,
)
    requires
        call_ensures(Mcu::power_mode_frame, (mcu, mode), bytes),
        call_ensures(Mcu::power_cut_frame, (mcu,), cut),
    ensures
        bytes@ == seq![0xfdu8] <==> mode == PowerMode::RequiresButton,
        bytes@ == seq![0xfeu8] <==> mode == PowerMode::AlwaysOn,
        cut@ == seq![0xffu8],
        bytes@.len() == 1,
{
    assert(seq![0xfdu8][0] == 0xfd && seq![0xfeu8][0] == 0xfe);
}

/// What the MCU is taken to have is the last duty that reached it: a write that failed changes
/// nothing, and its failure is handed on.
pub proof fn law_only_a_duty_that_arrived_is_remembered(duty: FanDuty, e: Error)
    ensures
        forall|m: &mut Mcu, r: Result<(), Error>| #[trigger]
            call_ensures(Mcu::set_fan, (m, duty, Ok::<(), Error>(())), r) ==> r is Ok && final(m).shadow() == Some(duty) && final(m).dialect() == m.dialect(),
        forall|m: &mut Mcu, r: Result<(), Error>| #[trigger]
            call_ensures(Mcu::set_fan, (m, duty, Err::<(), Error>(e)), r) ==> r == Err::<
                (),
                Error,
            >(e) && final(m).shadow() == m.shadow() && final(m).dialect() == m.dialect(),
{
}

/// The bootloader is never entered, whatever the MCU.
pub proof fn law_entering_the_bootloader_is_refused(mcu: &Mcu, r: Result<(), Error>)
    requires
        call_ensures(Mcu::enter_bootloader, (mcu,), r),
    ensures
        r matches Err(Error::WriteBlocked { .. }),
{
}

} // verus!
