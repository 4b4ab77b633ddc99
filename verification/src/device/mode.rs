//! How much may be done to the hardware, and how fast a fan may be told to turn.

use crate::text::same;
use vstd::prelude::*;

verus! {

/// How much the daemon may do to the hardware.
#[derive(Clone, Copy, Debug, PartialEq, Eq, Structural)]
pub enum Mode {
    /// Nothing is written to any device.
    ReadOnly,
    /// Devices may be written.
    Managed,
    /// Devices may be written, and the machine powered off.
    Full,
}

impl Mode {
    /// Its name in the configuration.
    pub open spec fn name(self) -> Seq<char> {
        match self {
            Mode::ReadOnly => "read-only"@,
            Mode::Managed => "managed"@,
            Mode::Full => "full"@,
        }
    }

    /// The mode of a name, where it is one.
    pub open spec fn named(name: Seq<char>) -> Option<Mode> {
        if name == "read-only"@ {
            Some(Mode::ReadOnly)
        } else if name == "managed"@ {
            Some(Mode::Managed)
        } else if name == "full"@ {
            Some(Mode::Full)
        } else {
            None
        }
    }

    /// The mode that `name` names.
    pub fn parse(name: &str) -> (m: Option<Mode>)
        ensures
            m == Mode::named(name@),
    {
        if same(name, "read-only") {
            Some(Mode::ReadOnly)
        } else if same(name, "managed") {
            Some(Mode::Managed)
        } else if same(name, "full") {
            Some(Mode::Full)
        } else {
            None
        }
    }

    /// Its name in the configuration.
    pub fn as_str(self) -> (s: &'static str)
        ensures
            s@ == self.name(),
    {
        match self {
            Mode::ReadOnly => "read-only",
            Mode::Managed => "managed",
            Mode::Full => "full",
        }
    }

    /// Whether devices may be written.
    pub open spec fn writes(self) -> bool {
        self != Mode::ReadOnly
    }

    /// Whether devices may be written.
    pub fn allows_writes(self) -> (r: bool)
        ensures
            r == self.writes(),
    {
        !matches!(self, Mode::ReadOnly)
    }

    /// Whether what cannot be undone may be done: a poweroff, a power cut, setting a clock.
    pub fn allows_destructive(self) -> (r: bool)
        ensures
            r == (self == Mode::Full),
    {
        matches!(self, Mode::Full)
    }
}

/// Each mode is found again under its own name.
pub proof fn law_mode_of_its_name(m: Mode)
    ensures
        Mode::named(m.name()) == Some(m),
{
    reveal_strlit("read-only");
    reveal_strlit("managed");
    reveal_strlit("full");
    assert("read-only"@.len() == 9 && "managed"@.len() == 7 && "full"@.len() == 4);
}

/// A fan duty in percent, from 0 to 100.
#[derive(Clone, Copy, Debug, PartialEq, Eq, Structural)]
pub struct FanDuty {
    percent: u8,
}

impl FanDuty {
    #[verifier::type_invariant]
    spec fn in_range(self) -> bool {
        self.percent <= 100
    }

    /// The percentage.
    pub closed spec fn value(self) -> u8 {
        self.percent
    }

    /// A duty of `percent`, or `None` above 100.
    pub fn new(percent: u8) -> (d: Option<FanDuty>)
        ensures
            match d {
                Some(d) => percent <= 100 && d.value() == percent,
                None => percent > 100,
            },
    {
        if percent <= 100 {
            Some(FanDuty { percent })
        } else {
            None
        }
    }

    /// A duty of `percent`.
    pub fn of(percent: u8) -> (d: FanDuty)
        requires
            percent <= 100,
        ensures
            d.value() == percent,
    {
        FanDuty { percent }
    }

    /// The percentage.
    pub fn percent(self) -> (p: u8)
        ensures
            p == self.value(),
            p <= 100,
    {
        proof {
            use_type_invariant(&self);
        }
        self.percent
    }

    /// The byte that tells the MCU this duty: the percentage itself, which is never a command.
    pub fn as_mcu_byte(self) -> (b: u8)
        ensures
            b == self.value(),
            b <= 100,
    {
        self.percent()
    }

    /// Whether the two are the same duty.
    pub fn equals(self, other: FanDuty) -> (r: bool)
        ensures
            r == (self == other),
            r == (self.value() == other.value()),
    {
        self.percent == other.percent
    }
}

/// Each mode has its own name and is read from it, and nothing else is a mode.
pub proof fn law_modes_are_told_apart(m: Mode, s: &'static str, name: &str, r: Option<Mode>)
    requires
        call_ensures(Mode::as_str, (m,), s),
        call_ensures(Mode::parse, (name,), r),
    ensures
        s@ == "read-only"@ <==> m == Mode::ReadOnly,
        s@ == "managed"@ <==> m == Mode::Managed,
        s@ == "full"@ <==> m == Mode::Full,
        r == Some(m) <==> name@ == s@,
{
    reveal_strlit("read-only");
    reveal_strlit("managed");
    reveal_strlit("full");
    assert("read-only"@.len() == 9 && "managed"@.len() == 7 && "full"@.len() == 4);
}

/// Only read-only mode keeps devices from being written, and only full mode lets anything be done
/// that cannot be undone.
pub proof fn law_what_each_mode_allows(m: Mode, writes: bool, destructive: bool)
    requires
        call_ensures(Mode::allows_writes, (m,), writes),
        call_ensures(Mode::allows_destructive, (m,), destructive),
    ensures
        writes <==> m == Mode::Managed || m == Mode::Full,
        destructive <==> m == Mode::Full,
{
}

/// A duty is a percentage, up to a hundred, and is told to the MCU as that.
pub proof fn law_a_duty_is_its_percentage(percent: u8, d: Option<FanDuty>, p: u8, b: u8)
    requires
        call_ensures(FanDuty::new, (percent,), d),
        d is Some ==> call_ensures(FanDuty::percent, (d->0,), p) && call_ensures(
            FanDuty::as_mcu_byte,
            (d->0,),
            b,
        ),
    ensures
        d is Some <==> percent <= 100,
        d is Some ==> p == percent && b == percent,
{
}

} // verus!
