//! `argonctl doctor`: read-only machine inspection. What was found is handed in; what is said of it
//! is decided here.

use crate::device::fan_control::{CoolingDevice, FanReading};
use crate::text::{
    begins, chars_of, decimal, decimal_of, ends, hex, hex_of, holds, join, joined, left_aligned, pad_left, pad_right,
    repeat, right_aligned, run_of, same, stands_at, starts_with, texts,
};
use vstd::prelude::*;

verus! {

/// What is known of the machine.
#[derive(Clone, Debug, PartialEq, Eq)]
pub struct Platform {
    /// Its model.
    pub model: String,
    /// Its revision, where it has one.
    pub revision: Option<String>,
    /// Its generation, in a word.
    pub generation: String,
    /// Whether it is a Raspberry Pi at all.
    pub is_pi: bool,
    /// The kernel.
    pub kernel: String,
    /// The operating system.
    pub os: String,
    /// The architecture.
    pub arch: String,
}

/// An I2C bus.
#[derive(Clone, Debug, PartialEq, Eq)]
pub struct I2cBus {
    /// Its device.
    pub dev: String,
    /// Its name.
    pub name: String,
    /// The addresses that a kernel driver has claimed, and the drivers.
    pub bound: Vec<(u8, String)>,
}

/// A GPIO chip.
#[derive(Clone, Debug, PartialEq, Eq)]
pub struct GpioChip {
    /// Its device.
    pub path: String,
    /// Its label.
    pub label: String,
    /// How many lines it has.
    pub lines: u32,
}

/// A line of the header.
#[derive(Clone, Debug, PartialEq, Eq)]
pub struct GpioLine {
    /// Its offset.
    pub offset: u32,
    /// Its name.
    pub name: String,
    /// Whether it is an output.
    pub is_output: bool,
    /// Who holds it, if anybody does.
    pub consumer: Option<String>,
}

/// A USB device.
#[derive(Clone, Debug, PartialEq, Eq)]
pub struct UsbDevice {
    /// What the kernel calls it.
    pub kernel: String,
    /// Its vendor.
    pub vid: String,
    /// Its product number.
    pub pid: String,
    /// What it calls itself.
    pub product: Option<String>,
    /// Its serial number.
    pub serial: Option<String>,
    /// The controller that it hangs on.
    pub controller: Option<String>,
    /// Its device nodes.
    pub nodes: Vec<String>,
}

/// A unit of the vendor's.
#[derive(Clone, Debug, PartialEq, Eq)]
pub struct Unit {
    /// Its name.
    pub unit: String,
    /// Its state, in a word.
    pub state: String,
    /// What it owns, in words.
    pub owns: String,
    /// Whether it is running.
    pub active: bool,
}

// ---------------------------------------------------------------------------------------------
// Sections
// ---------------------------------------------------------------------------------------------

/// The title of a section, underlined.
pub open spec fn section_words(title: Seq<char>) -> Seq<char> {
    "\n"@ + title + "\n"@ + run_of('-', title.len()) + "\n"@
}

/// The title of a section, underlined.
fn section(title: &str) -> (s: String)
    ensures
        s@ == section_words(title@),
{
    let mut s: String = join("\n", title);
    s.append("\n");
    s.append(repeat('-', title.unicode_len()).as_str());
    s.append("\n");
    s
}

/// A line of a table: a key in twelve columns, and a value.
pub open spec fn pair(k: Seq<char>, v: Seq<char>) -> Seq<char> {
    "  "@ + pad_right(k, 12) + " "@ + v + "\n"@
}

fn add_pair(s: &mut String, k: &str, v: &str)
    ensures
        final(s)@ == old(s)@ + pair(k@, v@),
{
    let mut line: String = join("  ", left_aligned(k, 12).as_str());
    line.append(" ");
    line.append(v);
    line.append("\n");
    s.append(line.as_str());
}

/// A text that may be missing.
pub open spec fn or_else(v: Option<String>, otherwise: Seq<char>) -> Seq<char> {
    match v {
        Some(s) => s@,
        None => otherwise,
    }
}

fn text_or<'a>(v: &'a Option<String>, otherwise: &'a str) -> (s: &'a str)
    ensures
        s@ == or_else(*v, otherwise@),
{
    match v {
        Some(s) => s.as_str(),
        None => otherwise,
    }
}

/// What is printed of the machine, and what is warned of.
pub fn report_platform(p: &Platform) -> (r: (String, Option<&'static str>))
    ensures
        r.0@ == section_words("Platform"@) + pair("model"@, p.model@) + pair(
            "revision"@,
            or_else(p.revision, "unknown"@),
        ) + pair("generation"@, p.generation@) + pair("kernel"@, p.kernel@) + pair(
            "os"@,
            p.os@ + " ("@ + p.arch@ + ")"@,
        ),
        match r.1 {
            Some(w) => !p.is_pi && w@
                == "this does not look like a Raspberry Pi; nothing here will apply"@,
            None => p.is_pi,
        },
{
    let mut s: String = section("Platform");
    add_pair(&mut s, "model", p.model.as_str());
    add_pair(&mut s, "revision", text_or(&p.revision, "unknown"));
    add_pair(&mut s, "generation", p.generation.as_str());
    add_pair(&mut s, "kernel", p.kernel.as_str());
    let mut os: String = join(p.os.as_str(), " (");
    os.append(p.arch.as_str());
    os.append(")");
    add_pair(&mut s, "os", os.as_str());
    (
        s,
        if p.is_pi {
            None
        } else {
            Some("this does not look like a Raspberry Pi; nothing here will apply")
        },
    )
}

/// The lines of claimed addresses.
pub open spec fn bound_lines(bound: Seq<(u8, String)>) -> Seq<char>
    decreases bound.len(),
{
    if bound.len() == 0 {
        Seq::empty()
    } else {
        bound_lines(bound.drop_last()) + "      0x"@ + hex(bound.last().0)
            + " claimed by kernel driver `"@ + bound.last().1@ + "` (will not be probed)\n"@
    }
}

fn bound_text(bound: &Vec<(u8, String)>) -> (s: String)
    ensures
        s@ == bound_lines(bound@),
{
    let mut s: String = String::new();
    let mut i: usize = 0;
    assert(bound@.take(0) =~= Seq::<(u8, String)>::empty());
    while i < bound.len()
        invariant
            i <= bound.len(),
            s@ == bound_lines(bound@.take(i as int)),
        decreases bound.len() - i,
    {
        assert(bound@.take(i + 1).drop_last() =~= bound@.take(i as int));
        s.append("      0x");
        s.append(hex_of(bound[i].0).as_str());
        s.append(" claimed by kernel driver `");
        s.append(bound[i].1.as_str());
        s.append("` (will not be probed)\n");
        i = i + 1;
    }
    assert(bound@.take(i as int) =~= bound@);
    s
}

/// The lines of the buses.
pub open spec fn bus_lines(buses: Seq<I2cBus>) -> Seq<char>
    decreases buses.len(),
{
    if buses.len() == 0 {
        Seq::empty()
    } else {
        bus_lines(buses.drop_last()) + "  "@ + buses.last().dev@ + " — "@ + buses.last().name@
            + "\n"@ + bound_lines(buses.last().bound@)
    }
}

/// What is printed of the I2C buses, and what is warned of.
pub fn report_i2c(buses: &Vec<I2cBus>) -> (r: (String, Option<&'static str>))
    ensures
        r.0@ == section_words("I2C buses"@) + (if buses@.len() == 0 {
            "  none — is `dtparam=i2c_arm=on` set in config.txt?\n"@
        } else {
            bus_lines(buses@)
        })
            + "\n  Not probed. A register read would put the register number on the bus as a write\n  first, which legacy MCU firmware reads as a fan duty. See docs/design/adr/0002.\n"@,
        match r.1 {
            Some(w) => buses@.len() == 0 && w@
                == "no I2C buses found; fan and OLED control are impossible"@,
            None => buses@.len() > 0,
        },
{
    let mut s: String = section("I2C buses");
    let mut lines: String = String::new();
    if buses.len() == 0 {
        lines.append("  none — is `dtparam=i2c_arm=on` set in config.txt?\n");
    } else {
        let mut i: usize = 0;
        assert(buses@.take(0) =~= Seq::<I2cBus>::empty());
        while i < buses.len()
            invariant
                i <= buses.len(),
                lines@ == bus_lines(buses@.take(i as int)),
            decreases buses.len() - i,
        {
            assert(buses@.take(i + 1).drop_last() =~= buses@.take(i as int));
            lines.append("  ");
            lines.append(buses[i].dev.as_str());
            lines.append(" — ");
            lines.append(buses[i].name.as_str());
            lines.append("\n");
            lines.append(bound_text(&buses[i].bound).as_str());
            i = i + 1;
        }
        assert(buses@.take(i as int) =~= buses@);
    }
    s.append(lines.as_str());
    s.append(
        "\n  Not probed. A register read would put the register number on the bus as a write\n  first, which legacy MCU firmware reads as a fan duty. See docs/design/adr/0002.\n",
    );
    (
        s,
        if buses.len() == 0 {
            Some("no I2C buses found; fan and OLED control are impossible")
        } else {
            None
        },
    )
}

/// What a line of the header is for.
pub open spec fn purpose_of(offset: u32) -> Seq<char> {
    if offset == 4 {
        "power button pulses from the MCU"@
    } else if offset == 17 {
        "power button (MCU side)"@
    } else if offset == 22 {
        "IR transmit"@
    } else if offset == 23 {
        "IR receive"@
    } else if offset == 27 {
        "lid switch (ONE UP only)"@
    } else {
        ""@
    }
}

/// The lines of the header that Argon hardware uses.
pub fn lines_of_interest() -> (v: Vec<u32>)
    ensures
        v@ == seq![4u32, 17, 22, 23, 27],
{
    let v: Vec<u32> = vec![4, 17, 22, 23, 27];
    assert(v@ =~= seq![4u32, 17, 22, 23, 27]);
    v
}

fn purpose(offset: u32) -> (s: &'static str)
    ensures
        s@ == purpose_of(offset),
{
    if offset == 4 {
        "power button pulses from the MCU"
    } else if offset == 17 {
        "power button (MCU side)"
    } else if offset == 22 {
        "IR transmit"
    } else if offset == 23 {
        "IR receive"
    } else if offset == 27 {
        "lid switch (ONE UP only)"
    } else {
        ""
    }
}

/// The lines of the chips.
pub open spec fn chip_lines(chips: Seq<GpioChip>) -> Seq<char>
    decreases chips.len(),
{
    if chips.len() == 0 {
        Seq::empty()
    } else {
        chip_lines(chips.drop_last()) + "  "@ + chips.last().path@ + " — label `"@
            + chips.last().label@ + "`, "@ + decimal(chips.last().lines as nat) + " lines\n"@
    }
}

/// Who holds a line, in words.
pub open spec fn held_words(consumer: Option<String>) -> Seq<char> {
    match consumer {
        Some(c) => "held by `"@ + c@ + "`"@,
        None => "unheld"@,
    }
}

/// The lines of the header.
pub open spec fn header_lines(lines: Seq<GpioLine>) -> Seq<char>
    decreases lines.len(),
{
    if lines.len() == 0 {
        Seq::empty()
    } else {
        let l = lines.last();
        header_lines(lines.drop_last()) + "    line "@ + pad_left(decimal(l.offset as nat), 2)
            + " "@ + pad_right(l.name@, 8) + " "@ + pad_right(
            if l.is_output {
                "out"@
            } else {
                "in"@
            },
            6,
        ) + " "@ + pad_right(held_words(l.consumer), 22) + " "@ + purpose_of(l.offset) + "\n"@
    }
}

fn header_text(lines: &Vec<GpioLine>) -> (s: String)
    ensures
        s@ == header_lines(lines@),
{
    let mut s: String = String::new();
    let mut i: usize = 0;
    assert(lines@.take(0) =~= Seq::<GpioLine>::empty());
    while i < lines.len()
        invariant
            i <= lines.len(),
            s@ == header_lines(lines@.take(i as int)),
        decreases lines.len() - i,
    {
        assert(lines@.take(i + 1).drop_last() =~= lines@.take(i as int));
        let l: &GpioLine = &lines[i];
        let held: String = match &l.consumer {
            Some(c) => {
                let mut h: String = join("held by `", c.as_str());
                h.append("`");
                h
            },
            None => "unheld".to_owned(),
        };
        s.append("    line ");
        s.append(right_aligned(decimal_of(l.offset as u64).as_str(), 2).as_str());
        s.append(" ");
        s.append(left_aligned(l.name.as_str(), 8).as_str());
        s.append(" ");
        s.append(
            left_aligned(
                if l.is_output {
                    "out"
                } else {
                    "in"
                },
                6,
            ).as_str(),
        );
        s.append(" ");
        s.append(left_aligned(held.as_str(), 22).as_str());
        s.append(" ");
        s.append(purpose(l.offset));
        s.append("\n");
        i = i + 1;
    }
    assert(lines@.take(i as int) =~= lines@);
    s
}

/// Whether the line of the button is there, and nobody holds it.
pub open spec fn button_unheld(lines: Seq<GpioLine>) -> bool {
    exists|i: int|
        0 <= i < lines.len() && (#[trigger] lines[i]).offset == 4 && lines[i].consumer is None
}

fn is_button_unheld(lines: &Vec<GpioLine>) -> (r: bool)
    ensures
        r == button_unheld(lines@),
{
    let mut i: usize = 0;
    while i < lines.len()
        invariant
            i <= lines.len(),
            forall|k: int|
                0 <= k < i ==> !((#[trigger] lines@[k]).offset == 4 && lines@[k].consumer is None),
        decreases lines.len() - i,
    {
        if lines[i].offset == 4 && lines[i].consumer.is_none() {
            assert(lines@[i as int].offset == 4);
            return true;
        }
        i = i + 1;
    }
    false
}

/// What is printed of the lines of the header and the power button.
pub open spec fn header_words(
    header: Option<(Seq<char>, Seq<GpioLine>)>,
    power_button: Option<Seq<char>>,
) -> Seq<char> {
    match header {
        None => Seq::empty(),
        Some((label, lines)) => "\n  Header lines on `"@ + label + "`:\n"@ + header_lines(lines) + (
        match power_button {
            Some(dev) => "\n  Power button: the Raspberry Pi's own button ("@ + dev
                + "), handled by the OS.\n  No Argon MCU is involved, so line 4 being unheld is expected here.\n  Careful: on the Pi desktop a second press while the shutdown dialog is open runs\n  `shutdown -h now`, and a logind inhibitor does not prevent it.\n"@,
            None => Seq::empty(),
        }),
    }
}

/// What is warned of.
pub open spec fn gpio_warning(
    header: Option<(Seq<char>, Seq<GpioLine>)>,
    power_button: Option<Seq<char>>,
) -> Option<Seq<char>> {
    match header {
        None => Some("could not identify the header GPIO chip"@),
        Some((_, lines)) => if power_button is None && button_unheld(lines) {
            Some(
                "line 4 has no consumer. On Pi 4-era Argon cases that is where the MCU signals button presses, so nothing would be handling them"@,
            )
        } else {
            None
        },
    }
}

/// A label and the lines of the header, with a text in place of a string.
pub open spec fn header_view(header: Option<(&str, &Vec<GpioLine>)>) -> Option<
    (Seq<char>, Seq<GpioLine>),
> {
    match header {
        Some((label, lines)) => Some((label@, lines@)),
        None => None,
    }
}

/// An optional text.
pub open spec fn some_text(t: Option<&str>) -> Option<Seq<char>> {
    match t {
        Some(s) => Some(s@),
        None => None,
    }
}

/// What is printed of the GPIO chips and the header's lines, and what is warned of. `header` is the
/// label of the header's chip and the lines of interest on it; `power_button` the Pi's own button,
/// where it has one. With one, nobody holding the line of the case button is expected.
pub fn report_gpio(
    chips: &Vec<GpioChip>,
    header: Option<(&str, &Vec<GpioLine>)>,
    power_button: Option<&str>,
) -> (r: (String, Option<&'static str>))
    ensures
        r.0@ == section_words("GPIO"@) + (if chips@.len() == 0 {
            "  no gpiochips found\n"@
        } else {
            chip_lines(chips@)
        }) + header_words(header_view(header), some_text(power_button)),
        match r.1 {
            Some(w) => gpio_warning(header_view(header), some_text(power_button)) == Some(w@),
            None => gpio_warning(header_view(header), some_text(power_button)) is None,
        },
{
    let mut s: String = section("GPIO");
    let mut lines: String = String::new();
    if chips.len() == 0 {
        lines.append("  no gpiochips found\n");
    } else {
        let mut i: usize = 0;
        assert(chips@.take(0) =~= Seq::<GpioChip>::empty());
        while i < chips.len()
            invariant
                i <= chips.len(),
                lines@ == chip_lines(chips@.take(i as int)),
            decreases chips.len() - i,
        {
            assert(chips@.take(i + 1).drop_last() =~= chips@.take(i as int));
            lines.append("  ");
            lines.append(chips[i].path.as_str());
            lines.append(" — label `");
            lines.append(chips[i].label.as_str());
            lines.append("`, ");
            lines.append(decimal_of(chips[i].lines as u64).as_str());
            lines.append(" lines\n");
            i = i + 1;
        }
        assert(chips@.take(i as int) =~= chips@);
    }
    s.append(lines.as_str());
    match header {
        None => {
            assert(s@ =~= s@ + header_words(None, some_text(power_button)));
            (s, Some("could not identify the header GPIO chip"))
        },
        Some((label, header_rows)) => {
            let mut h: String = join("\n  Header lines on `", label);
            h.append("`:\n");
            h.append(header_text(header_rows).as_str());
            let button: String = match power_button {
                Some(dev) => {
                    let mut b: String = join(
                        "\n  Power button: the Raspberry Pi's own button (",
                        dev,
                    );
                    b.append(
                        "), handled by the OS.\n  No Argon MCU is involved, so line 4 being unheld is expected here.\n  Careful: on the Pi desktop a second press while the shutdown dialog is open runs\n  `shutdown -h now`, and a logind inhibitor does not prevent it.\n",
                    );
                    b
                },
                None => String::new(),
            };
            h.append(button.as_str());
            s.append(h.as_str());
            (
                s,
                if power_button.is_none() && is_button_unheld(header_rows) {
                    Some(
                        "line 4 has no consumer. On Pi 4-era Argon cases that is where the MCU signals button presses, so nothing would be handling them",
                    )
                } else {
                    None
                },
            )
        },
    }
}

/// A kernel fan, as it was read.
#[derive(Clone, Debug, PartialEq, Eq)]
pub struct PwmFan {
    /// Where it is.
    pub path: String,
    /// Its duty and speed, and whether it is turning; nothing where its state could not be read.
    pub reading: Option<(FanReading, bool)>,
}

/// What is printed of the state of a fan.
pub open spec fn fan_words(reading: Option<(FanReading, bool)>) -> Seq<char> {
    match reading {
        Some((r, turning)) => "  pwm "@ + decimal(r.pwm as nat) + " / 255, "@ + (match r.rpm {
            Some(v) => decimal(v as nat) + " rpm"@,
            None => "no tachometer"@,
        }) + "\n"@ + (if turning {
            "  the fan is currently turning\n"@
        } else {
            ""@
        }),
        None => "  (could not read its state)\n"@,
    }
}

fn fan_text(reading: Option<(FanReading, bool)>) -> (s: String)
    ensures
        s@ == fan_words(reading),
{
    match reading {
        Some((r, turning)) => {
            let speed: String = match r.rpm {
                Some(v) => join(decimal_of(v as u64).as_str(), " rpm"),
                None => "no tachometer".to_owned(),
            };
            let mut s: String = join("  pwm ", decimal_of(r.pwm as u64).as_str());
            s.append(" / 255, ");
            s.append(speed.as_str());
            s.append("\n");
            s.append(
                if turning {
                    "  the fan is currently turning\n"
                } else {
                    ""
                },
            );
            s
        },
        None => "  (could not read its state)\n".to_owned(),
    }
}

/// Whether a cooling device is a fan.
pub open spec fn is_fan(c: CoolingDevice) -> bool {
    crate::text::holds(c.kind@, "fan"@)
}

/// The lines of the fans among cooling devices.
pub open spec fn cooling_lines(cooling: Seq<CoolingDevice>) -> Seq<char>
    decreases cooling.len(),
{
    if cooling.len() == 0 {
        Seq::empty()
    } else if is_fan(cooling.last()) {
        let c = cooling.last();
        cooling_lines(cooling.drop_last()) + "  thermal governor: "@ + c.kind@ + " at state "@
            + decimal(c.state as nat) + "/"@ + decimal(c.max_state as nat) + "\n"@
    } else {
        cooling_lines(cooling.drop_last())
    }
}

/// What is printed of who drives the fan, and what is warned of: where there is a kernel fan and a
/// fan among the cooling devices, the kernel drives it.
pub fn report_fan(fan: Option<&PwmFan>, cooling: &Vec<CoolingDevice>) -> (r: (
    String,
    Option<&'static str>,
))
    ensures
        r.0@ == section_words("Fan"@) + (match fan {
            None => "  no kernel PWM fan found\n  If this case has a fan, it is driven some other way -- on Pi 4-era cases\n  that is the Argon MCU over I2C.\n"@,
            Some(f) => "  kernel PWM fan at "@ + f.path@ + "\n"@ + fan_words(f.reading)
                + cooling_lines(cooling@),
        }),
        match r.1 {
            Some(w) => fan is Some && (exists|i: int|
                0 <= i < cooling@.len() && is_fan(#[trigger] cooling@[i])) && w@
                == "the kernel thermal governor is driving this fan. argon-utils does not control it, and nothing needs to be at I2C 0x1a for the fan to work"@,
            None => fan is None || forall|i: int|
                0 <= i < cooling@.len() ==> !is_fan(#[trigger] cooling@[i]),
        },
{
    let mut s: String = section("Fan");
    match fan {
        None => {
            s.append(
                "  no kernel PWM fan found\n  If this case has a fan, it is driven some other way -- on Pi 4-era cases\n  that is the Argon MCU over I2C.\n",
            );
            (s, None)
        },
        Some(f) => {
            let mut lines: String = String::new();
            let mut any: bool = false;
            let mut i: usize = 0;
            assert(cooling@.take(0) =~= Seq::<CoolingDevice>::empty());
            while i < cooling.len()
                invariant
                    i <= cooling.len(),
                    lines@ == cooling_lines(cooling@.take(i as int)),
                    any == exists|k: int| 0 <= k < i && is_fan(#[trigger] cooling@[k]),
                decreases cooling.len() - i,
            {
                assert(cooling@.take(i + 1).drop_last() =~= cooling@.take(i as int));
                let c: &CoolingDevice = &cooling[i];
                if crate::text::contains(c.kind.as_str(), "fan") {
                    assert(is_fan(cooling@[i as int]));
                    any = true;
                    lines.append("  thermal governor: ");
                    lines.append(c.kind.as_str());
                    lines.append(" at state ");
                    lines.append(decimal_of(c.state as u64).as_str());
                    lines.append("/");
                    lines.append(decimal_of(c.max_state as u64).as_str());
                    lines.append("\n");
                }
                i = i + 1;
            }
            assert(cooling@.take(i as int) =~= cooling@);
            let mut body: String = join("  kernel PWM fan at ", f.path.as_str());
            body.append("\n");
            body.append(fan_text(f.reading).as_str());
            body.append(lines.as_str());
            s.append(body.as_str());
            (
                s,
                if any {
                    Some(
                        "the kernel thermal governor is driving this fan. argon-utils does not control it, and nothing needs to be at I2C 0x1a for the fan to work",
                    )
                } else {
                    None
                },
            )
        },
    }
}

// ---------------------------------------------------------------------------------------------
// USB, and other software
// ---------------------------------------------------------------------------------------------

/// What a device is to us, in words.
pub open spec fn role_words(
    kernel: Seq<char>,
    ups: Option<Seq<char>>,
    zigbee: Option<Seq<char>>,
) -> Seq<char> {
    if ups == Some(kernel) {
        "  <- Argon PWR UPS"@
    } else if zigbee == Some(kernel) {
        "  <- Argon Industria Zigbee (CC2652P)"@
    } else {
        ""@
    }
}

/// Where a device is.
pub open spec fn place_words(controller: Option<String>, internal: Seq<char>) -> Seq<char> {
    match controller {
        Some(c) => if c@ == internal {
            "internal"@
        } else {
            "external"@
        },
        None => "?"@,
    }
}

/// The lines of device nodes.
pub open spec fn node_lines(nodes: Seq<String>) -> Seq<char>
    decreases nodes.len(),
{
    if nodes.len() == 0 {
        Seq::empty()
    } else {
        node_lines(nodes.drop_last()) + "      "@ + nodes.last()@ + "\n"@
    }
}

/// The lines of USB devices.
pub open spec fn usb_lines(
    usb: Seq<UsbDevice>,
    ups: Option<Seq<char>>,
    zigbee: Option<Seq<char>>,
    internal: Seq<char>,
) -> Seq<char>
    decreases usb.len(),
{
    if usb.len() == 0 {
        Seq::empty()
    } else {
        let d = usb.last();
        usb_lines(usb.drop_last(), ups, zigbee, internal) + "  "@ + pad_right(d.kernel@, 8) + " "@
            + d.vid@ + ":"@ + d.pid@ + "  "@ + pad_right(place_words(d.controller, internal), 8)
            + " "@ + or_else(d.product, "-"@) + role_words(d.kernel@, ups, zigbee) + "\n"@
            + node_lines(d.nodes@)
    }
}

fn node_text(nodes: &Vec<String>) -> (s: String)
    ensures
        s@ == node_lines(nodes@),
{
    let mut s: String = String::new();
    let mut i: usize = 0;
    assert(nodes@.take(0) =~= Seq::<String>::empty());
    while i < nodes.len()
        invariant
            i <= nodes.len(),
            s@ == node_lines(nodes@.take(i as int)),
        decreases nodes.len() - i,
    {
        assert(nodes@.take(i + 1).drop_last() =~= nodes@.take(i as int));
        s.append("      ");
        s.append(nodes[i].as_str());
        s.append("\n");
        i = i + 1;
    }
    assert(nodes@.take(i as int) =~= nodes@);
    s
}

/// What is printed of the USB devices. `ups` and `zigbee` are what the kernel calls those two, where
/// they are there, and `internal` the controller of the case's own hub.
pub fn report_usb(
    usb: &Vec<UsbDevice>,
    ups: Option<&str>,
    zigbee: Option<&str>,
    internal: &str,
) -> (s: String)
    ensures
        s@ == section_words("USB devices"@) + usb_lines(
            usb@,
            some_text(ups),
            some_text(zigbee),
            internal@,
        ) + (if ups is None {
            "\n  No Argon UPS found.\n"@
        } else {
            ""@
        }) + (if zigbee is None && usb@.len() > 0 {
            "  No Argon Zigbee module found on the internal header.\n"@
        } else {
            ""@
        }),
{
    let mut lines: String = String::new();
    let mut i: usize = 0;
    assert(usb@.take(0) =~= Seq::<UsbDevice>::empty());
    while i < usb.len()
        invariant
            i <= usb.len(),
            lines@ == usb_lines(
                usb@.take(i as int),
                some_text(ups),
                some_text(zigbee),
                internal@,
            ),
        decreases usb.len() - i,
    {
        assert(usb@.take(i + 1).drop_last() =~= usb@.take(i as int));
        let d: &UsbDevice = &usb[i];
        let is_ups: bool = match ups {
            Some(k) => same(d.kernel.as_str(), k),
            None => false,
        };
        let is_zigbee: bool = match zigbee {
            Some(k) => same(d.kernel.as_str(), k),
            None => false,
        };
        let role: &str = if is_ups {
            "  <- Argon PWR UPS"
        } else if is_zigbee {
            "  <- Argon Industria Zigbee (CC2652P)"
        } else {
            ""
        };
        let place: &str = match &d.controller {
            Some(c) => if same(c.as_str(), internal) {
                "internal"
            } else {
                "external"
            },
            None => "?",
        };
        lines.append("  ");
        lines.append(left_aligned(d.kernel.as_str(), 8).as_str());
        lines.append(" ");
        lines.append(d.vid.as_str());
        lines.append(":");
        lines.append(d.pid.as_str());
        lines.append("  ");
        lines.append(left_aligned(place, 8).as_str());
        lines.append(" ");
        lines.append(text_or(&d.product, "-"));
        lines.append(role);
        lines.append("\n");
        lines.append(node_text(&d.nodes).as_str());
        i = i + 1;
    }
    assert(usb@.take(i as int) =~= usb@);
    let mut s: String = section("USB devices");
    s.append(lines.as_str());
    s.append(
        if ups.is_none() {
            "\n  No Argon UPS found.\n"
        } else {
            ""
        },
    );
    s.append(
        if zigbee.is_none() && usb.len() > 0 {
            "  No Argon Zigbee module found on the internal header.\n"
        } else {
            ""
        },
    );
    s
}

/// Whether the name of a device node is that of a serial port.
pub fn is_tty(name: &str) -> (r: bool)
    ensures
        r == (crate::text::begins(name@, "ttyUSB"@) || crate::text::begins(name@, "ttyACM"@)),
{
    starts_with(name, "ttyUSB") || starts_with(name, "ttyACM")
}

/// A serial port of the UPS, and the processes that hold it.
#[derive(Clone, Debug, PartialEq, Eq)]
pub struct HeldPort {
    /// The port.
    pub node: String,
    /// The processes that were seen to hold it.
    pub owners: Vec<(u32, String)>,
}

/// The lines of the vendor's units.
pub open spec fn unit_lines(units: Seq<Unit>) -> Seq<char>
    decreases units.len(),
{
    if units.len() == 0 {
        Seq::empty()
    } else {
        let u = units.last();
        unit_lines(units.drop_last()) + "  "@ + (if u.active {
            "ACTIVE"@
        } else {
            "      "@
        }) + "  "@ + pad_right(u.unit@, 26) + " "@ + pad_right(u.state@, 14) + " "@ + u.owns@
            + "\n"@
    }
}

/// The lines of the owners of a port.
pub open spec fn owner_lines(node: Seq<char>, owners: Seq<(u32, String)>) -> Seq<char>
    decreases owners.len(),
{
    if owners.len() == 0 {
        Seq::empty()
    } else {
        owner_lines(node, owners.drop_last()) + "\n  "@ + node + " — held by pid "@ + decimal(
            owners.last().0 as nat,
        ) + " ("@ + owners.last().1@ + ")\n"@
    }
}

/// The lines of the ports.
pub open spec fn port_lines(ports: Seq<HeldPort>, sees_all: bool) -> Seq<char>
    decreases ports.len(),
{
    if ports.len() == 0 {
        Seq::empty()
    } else {
        let p = ports.last();
        port_lines(ports.drop_last(), sees_all) + (if p.owners@.len() == 0 {
            "\n  "@ + p.node@ + " — "@ + (if sees_all {
                "free"@
            } else {
                "no owner visible (not privileged — inconclusive)"@
            }) + "\n"@
        } else {
            owner_lines(p.node@, p.owners@)
        })
    }
}

/// Whether anything else uses the hardware.
pub open spec fn is_contended(units: Seq<Unit>, ports: Seq<HeldPort>) -> bool {
    ||| exists|i: int| 0 <= i < units.len() && (#[trigger] units[i]).active
    ||| exists|i: int| 0 <= i < ports.len() && (#[trigger] ports[i]).owners@.len() > 0
}

fn owner_text(node: &str, owners: &Vec<(u32, String)>) -> (s: String)
    ensures
        s@ == owner_lines(node@, owners@),
{
    let mut s: String = String::new();
    let mut i: usize = 0;
    assert(owners@.take(0) =~= Seq::<(u32, String)>::empty());
    while i < owners.len()
        invariant
            i <= owners.len(),
            s@ == owner_lines(node@, owners@.take(i as int)),
        decreases owners.len() - i,
    {
        assert(owners@.take(i + 1).drop_last() =~= owners@.take(i as int));
        s.append("\n  ");
        s.append(node);
        s.append(" — held by pid ");
        s.append(decimal_of(owners[i].0 as u64).as_str());
        s.append(" (");
        s.append(owners[i].1.as_str());
        s.append(")\n");
        i = i + 1;
    }
    assert(owners@.take(i as int) =~= owners@);
    s
}

/// What is printed of other software that uses the hardware, and whether any does. `ports` are the
/// serial ports of the UPS, and `sees_all` whether every process could be seen.
pub fn report_contention(
    units: &Vec<Unit>,
    ports: &Vec<HeldPort>,
    sees_all: bool,
) -> (r: (String, bool))
    ensures
        r.0@ == section_words("Other software using this hardware"@) + unit_lines(units@)
            + port_lines(ports@, sees_all),
        r.1 == is_contended(units@, ports@),
{
    let mut contended: bool = false;
    let mut us: String = String::new();
    let mut i: usize = 0;
    assert(units@.take(0) =~= Seq::<Unit>::empty());
    while i < units.len()
        invariant
            i <= units.len(),
            us@ == unit_lines(units@.take(i as int)),
            contended == exists|k: int| 0 <= k < i && (#[trigger] units@[k]).active,
        decreases units.len() - i,
    {
        assert(units@.take(i + 1).drop_last() =~= units@.take(i as int));
        let u: &Unit = &units[i];
        us.append("  ");
        us.append(
            if u.active {
                "ACTIVE"
            } else {
                "      "
            },
        );
        us.append("  ");
        us.append(left_aligned(u.unit.as_str(), 26).as_str());
        us.append(" ");
        us.append(left_aligned(u.state.as_str(), 14).as_str());
        us.append(" ");
        us.append(u.owns.as_str());
        us.append("\n");
        if u.active {
            assert(units@[i as int].active);
            contended = true;
        }
        i = i + 1;
    }
    assert(units@.take(i as int) =~= units@);
    let ghost by_units = contended;
    let mut ps: String = String::new();
    let mut k: usize = 0;
    assert(ports@.take(0) =~= Seq::<HeldPort>::empty());
    while k < ports.len()
        invariant
            k <= ports.len(),
            ps@ == port_lines(ports@.take(k as int), sees_all),
            contended == (by_units || exists|j: int|
                0 <= j < k && (#[trigger] ports@[j]).owners@.len() > 0),
        decreases ports.len() - k,
    {
        assert(ports@.take(k + 1).drop_last() =~= ports@.take(k as int));
        let p: &HeldPort = &ports[k];
        let line: String = if p.owners.len() == 0 {
            let mut l: String = join("\n  ", p.node.as_str());
            l.append(" — ");
            l.append(
                if sees_all {
                    "free"
                } else {
                    "no owner visible (not privileged — inconclusive)"
                },
            );
            l.append("\n");
            l
        } else {
            assert(ports@[k as int].owners@.len() > 0);
            contended = true;
            owner_text(p.node.as_str(), &p.owners)
        };
        ps.append(line.as_str());
        k = k + 1;
    }
    assert(ports@.take(k as int) =~= ports@);
    let mut s: String = section("Other software using this hardware");
    s.append(us.as_str());
    s.append(ps.as_str());
    (s, contended)
}

/// The vendor's configuration files, and what each is for.
pub open spec fn vendor_files() -> Seq<(Seq<char>, Seq<char>)> {
    seq![
        ("/etc/argononed.conf"@, "CPU fan curve"@),
        ("/etc/argononed-hdd.conf"@, "HDD fan curve (EON)"@),
        ("/etc/argoneonoled.conf"@, "OLED display"@),
        ("/etc/argonunits.conf"@, "temperature units"@),
        ("/etc/argonupsrtc.conf"@, "UPS RTC schedules"@),
        ("/etc/argonupsbattery.conf"@, "UPS battery meter"@),
    ]
}

/// The vendor's configuration files, and what each is for.
pub fn vendor_configs() -> (v: Vec<(&'static str, &'static str)>)
    ensures
        v@.len() == vendor_files().len(),
        forall|i: int|
            0 <= i < v@.len() ==> ((#[trigger] v@[i]).0@, v@[i].1@) == vendor_files()[i],
{
    vec![
        ("/etc/argononed.conf", "CPU fan curve"),
        ("/etc/argononed-hdd.conf", "HDD fan curve (EON)"),
        ("/etc/argoneonoled.conf", "OLED display"),
        ("/etc/argonunits.conf", "temperature units"),
        ("/etc/argonupsrtc.conf", "UPS RTC schedules"),
        ("/etc/argonupsbattery.conf", "UPS battery meter"),
    ]
}

/// The lines of the first `n` configuration files, as far as they are there.
pub open spec fn vendor_lines(present: Seq<bool>, n: int) -> Seq<char>
    decreases n,
{
    if n <= 0 {
        Seq::empty()
    } else if n <= present.len() && present[n - 1] {
        vendor_lines(present, n - 1) + "  "@ + pad_right(vendor_files()[n - 1].0, 32) + " "@
            + vendor_files()[n - 1].1 + "\n"@
    } else {
        vendor_lines(present, n - 1)
    }
}

/// Whether one of the configuration files is there.
pub open spec fn some_there(present: Seq<bool>) -> bool {
    exists|i: int| 0 <= i < vendor_files().len() && i < present.len() && #[trigger] present[i]
}

/// What is printed of the vendor's configuration. `present` says of each file whether it is there.
pub fn report_vendor_config(present: &Vec<bool>) -> (s: String)
    ensures
        s@ == section_words("Vendor configuration present"@) + (if exists|i: int|
            0 <= i < vendor_files().len() && i < present@.len() && #[trigger] present@[i] {
            vendor_lines(present@, vendor_files().len() as int)
        } else {
            "  none\n"@
        }),
        s@ == section_words("Vendor configuration present"@) + (if some_there(present@) {
            vendor_lines(present@, vendor_files().len() as int)
        } else {
            "  none\n"@
        }),
{
    let files: Vec<(&'static str, &'static str)> = vendor_configs();
    let mut lines: String = String::new();
    let mut any: bool = false;
    let mut i: usize = 0;
    while i < files.len()
        invariant
            i <= files.len(),
            files@.len() == vendor_files().len(),
            forall|k: int|
                0 <= k < files@.len() ==> ((#[trigger] files@[k]).0@, files@[k].1@)
                    == vendor_files()[k],
            lines@ == vendor_lines(present@, i as int),
            any == exists|k: int| 0 <= k < i && k < present@.len() && #[trigger] present@[k],
        decreases files.len() - i,
    {
        if i < present.len() && present[i] {
            assert(present@[i as int]);
            assert((files@[i as int].0@, files@[i as int].1@) == vendor_files()[i as int]);
            any = true;
            lines.append("  ");
            lines.append(left_aligned(files[i].0, 32).as_str());
            lines.append(" ");
            lines.append(files[i].1);
            lines.append("\n");
        }
        i = i + 1;
    }
    let mut s: String = section("Vendor configuration present");
    s.append(
        if any {
            lines.as_str()
        } else {
            "  none\n"
        },
    );
    s
}

/// The lines of warnings.
pub open spec fn warning_lines(ws: Seq<Seq<char>>) -> Seq<char>
    decreases ws.len(),
{
    if ws.len() == 0 {
        Seq::empty()
    } else {
        warning_lines(ws.drop_last()) + "  warning: "@ + ws.last() + "\n"@
    }
}

/// What is printed at the end.
pub fn report_summary(contended: bool, warnings: &Vec<String>) -> (s: String)
    ensures
        s@ == section_words("Summary"@) + (if contended {
            "  The vendor software is currently driving this hardware. That is expected and\n  fine — this report changed nothing. argon-utils will refuse to take control\n  until you run an explicit takeover.\n"@
        } else {
            ""@
        }) + warning_lines(texts(warnings@)) + (if warnings@.len() == 0 && !contended {
            "  Nothing contending for the hardware.\n"@
        } else {
            ""@
        }),
{
    let ghost all = texts(warnings@);
    let mut lines: String = String::new();
    let mut i: usize = 0;
    assert(all.take(0) =~= Seq::<Seq<char>>::empty());
    while i < warnings.len()
        invariant
            i <= warnings.len(),
            all == texts(warnings@),
            lines@ == warning_lines(all.take(i as int)),
        decreases warnings.len() - i,
    {
        assert(all.take(i + 1).drop_last() =~= all.take(i as int));
        assert(all.take(i + 1).last() == warnings@[i as int]@);
        lines.append("  warning: ");
        lines.append(warnings[i].as_str());
        lines.append("\n");
        i = i + 1;
    }
    assert(all.take(i as int) =~= all);
    let mut s: String = section("Summary");
    s.append(
        if contended {
            "  The vendor software is currently driving this hardware. That is expected and\n  fine — this report changed nothing. argon-utils will refuse to take control\n  until you run an explicit takeover.\n"
        } else {
            ""
        },
    );
    s.append(lines.as_str());
    s.append(
        if warnings.len() == 0 && !contended {
            "  Nothing contending for the hardware.\n"
        } else {
            ""
        },
    );
    s
}

// ---------------------------------------------------------------------------------------------
// JSON
// ---------------------------------------------------------------------------------------------

/// A character inside quotes: a backslash before a backslash and before a quote.
pub open spec fn escaped_char(c: char) -> Seq<char> {
    if c == '\\' {
        seq!['\\', '\\']
    } else if c == '"' {
        seq!['\\', '"']
    } else {
        seq![c]
    }
}

/// A text inside quotes.
pub open spec fn escaped(s: Seq<char>) -> Seq<char>
    decreases s.len(),
{
    if s.len() == 0 {
        Seq::empty()
    } else {
        escaped(s.drop_last()) + escaped_char(s.last())
    }
}

/// A text inside quotes.
pub fn esc(s: &str) -> (r: String)
    ensures
        r@ == escaped(s@),
{
    let cs: Vec<char> = chars_of(s);
    let mut out: String = String::new();
    let mut i: usize = 0;
    assert(s@.take(0) =~= Seq::<char>::empty());
    while i < cs.len()
        invariant
            i <= cs.len(),
            cs@ == s@,
            out@ == escaped(s@.take(i as int)),
        decreases cs.len() - i,
    {
        assert(s@.take(i + 1).drop_last() =~= s@.take(i as int));
        let ghost before = out@;
        let c: char = cs[i];
        if c == '\\' || c == '"' {
            out.push('\\');
            out.push(c);
        } else {
            out.push(c);
        }
        assert(out@ =~= before + escaped_char(c));
        i = i + 1;
    }
    assert(s@.take(i as int) =~= s@);
    out
}

/// The separator behind an element: a comma, but for the last one.
pub open spec fn comma(i: int, len: int) -> Seq<char> {
    if i + 1 == len {
        "\n"@
    } else {
        ",\n"@
    }
}

fn comma_text(i: usize, len: usize) -> (s: &'static str)
    requires
        i < len,
    ensures
        s@ == comma(i as int, len as int),
{
    if i + 1 == len {
        "\n"
    } else {
        ",\n"
    }
}

/// The first `n` buses in JSON.
pub open spec fn bus_json(buses: Seq<I2cBus>, n: int) -> Seq<char>
    decreases n,
{
    if n <= 0 {
        Seq::empty()
    } else {
        let b = buses[n - 1];
        bus_json(buses, n - 1) + "    { \"dev\": \""@ + b.dev@ + "\", \"name\": \""@ + escaped(
            b.name@,
        ) + "\" }"@ + comma(n - 1, buses.len() as int)
    }
}

/// The first `n` chips in JSON.
pub open spec fn chip_json(chips: Seq<GpioChip>, n: int) -> Seq<char>
    decreases n,
{
    if n <= 0 {
        Seq::empty()
    } else {
        let c = chips[n - 1];
        chip_json(chips, n - 1) + "    { \"path\": \""@ + c.path@ + "\", \"label\": \""@ + escaped(
            c.label@,
        ) + "\", \"lines\": "@ + decimal(c.lines as nat) + " }"@ + comma(
            n - 1,
            chips.len() as int,
        )
    }
}

/// Texts in quotes.
pub open spec fn quoted_words(v: Seq<String>) -> Seq<Seq<char>> {
    v.map_values(|s: String| "\""@ + s@ + "\""@)
}

/// The first `n` USB devices in JSON.
pub open spec fn usb_json(usb: Seq<UsbDevice>, n: int) -> Seq<char>
    decreases n,
{
    if n <= 0 {
        Seq::empty()
    } else {
        let d = usb[n - 1];
        usb_json(usb, n - 1) + "    { \"kernel\": \""@ + escaped(d.kernel@) + "\", \"vid\": \""@
            + escaped(d.vid@) + "\", \"pid\": \""@ + escaped(d.pid@) + "\", \"product\": \""@
            + escaped(or_else(d.product, ""@)) + "\", \"serial\": \""@ + escaped(
            or_else(d.serial, ""@),
        ) + "\", \"controller\": \""@ + escaped(or_else(d.controller, ""@)) + "\", \"nodes\": ["@
            + joined(quoted_words(d.nodes@), ", "@) + "] }"@ + comma(n - 1, usb.len() as int)
    }
}

/// A truth value in JSON.
pub open spec fn truth(b: bool) -> Seq<char> {
    if b {
        "true"@
    } else {
        "false"@
    }
}

/// The first `n` units in JSON.
pub open spec fn unit_json(units: Seq<Unit>, n: int) -> Seq<char>
    decreases n,
{
    if n <= 0 {
        Seq::empty()
    } else {
        let u = units[n - 1];
        unit_json(units, n - 1) + "    { \"unit\": \""@ + escaped(u.unit@) + "\", \"state\": \""@
            + escaped(u.state@) + "\", \"active\": "@ + truth(u.active) + " }"@ + comma(
            n - 1,
            units.len() as int,
        )
    }
}

/// The machine in JSON.
pub open spec fn platform_json(p: Platform) -> Seq<char> {
    "  \"platform\": {\n    \"model\": \""@ + escaped(p.model@) + "\",\n    \"revision\": \""@
        + escaped(or_else(p.revision, ""@)) + "\",\n    \"generation\": \""@ + p.generation@
        + "\",\n    \"kernel\": \""@ + escaped(p.kernel@) + "\",\n    \"os\": \""@ + escaped(p.os@)
        + "\",\n    \"arch\": \""@ + escaped(p.arch@) + "\"\n  },\n"@
}

fn platform_text(p: &Platform) -> (s: String)
    ensures
        s@ == platform_json(*p),
{
    let mut s: String = join(
        "  \"platform\": {\n    \"model\": \"",
        esc(p.model.as_str()).as_str(),
    );
    s.append("\",\n    \"revision\": \"");
    s.append(esc(text_or(&p.revision, "")).as_str());
    s.append("\",\n    \"generation\": \"");
    s.append(p.generation.as_str());
    s.append("\",\n    \"kernel\": \"");
    s.append(esc(p.kernel.as_str()).as_str());
    s.append("\",\n    \"os\": \"");
    s.append(esc(p.os.as_str()).as_str());
    s.append("\",\n    \"arch\": \"");
    s.append(esc(p.arch.as_str()).as_str());
    s.append("\"\n  },\n");
    s
}

fn bus_text(buses: &Vec<I2cBus>) -> (s: String)
    ensures
        s@ == bus_json(buses@, buses@.len() as int),
{
    let mut s: String = String::new();
    let mut i: usize = 0;
    while i < buses.len()
        invariant
            i <= buses.len(),
            s@ == bus_json(buses@, i as int),
        decreases buses.len() - i,
    {
        s.append("    { \"dev\": \"");
        s.append(buses[i].dev.as_str());
        s.append("\", \"name\": \"");
        s.append(esc(buses[i].name.as_str()).as_str());
        s.append("\" }");
        s.append(comma_text(i, buses.len()));
        i = i + 1;
    }
    s
}

fn chip_text(chips: &Vec<GpioChip>) -> (s: String)
    ensures
        s@ == chip_json(chips@, chips@.len() as int),
{
    let mut s: String = String::new();
    let mut i: usize = 0;
    while i < chips.len()
        invariant
            i <= chips.len(),
            s@ == chip_json(chips@, i as int),
        decreases chips.len() - i,
    {
        s.append("    { \"path\": \"");
        s.append(chips[i].path.as_str());
        s.append("\", \"label\": \"");
        s.append(esc(chips[i].label.as_str()).as_str());
        s.append("\", \"lines\": ");
        s.append(decimal_of(chips[i].lines as u64).as_str());
        s.append(" }");
        s.append(comma_text(i, chips.len()));
        i = i + 1;
    }
    s
}

fn quoted_list(v: &Vec<String>) -> (s: String)
    ensures
        s@ == joined(quoted_words(v@), ", "@),
{
    let mut out: Vec<String> = Vec::new();
    let mut i: usize = 0;
    assert(texts(out@) =~= quoted_words(v@).take(0));
    while i < v.len()
        invariant
            i <= v.len(),
            texts(out@) == quoted_words(v@).take(i as int),
        decreases v.len() - i,
    {
        let ghost before = out@;
        let mut w: String = join("\"", v[i].as_str());
        w.append("\"");
        out.push(w);
        assert(texts(out@) =~= texts(before).push(w@));
        assert(quoted_words(v@).take(i + 1) =~= quoted_words(v@).take(i as int).push(
            quoted_words(v@)[i as int],
        ));
        i = i + 1;
    }
    assert(quoted_words(v@).take(i as int) =~= quoted_words(v@));
    crate::text::join_all(&out, ", ")
}

fn usb_text(usb: &Vec<UsbDevice>) -> (s: String)
    ensures
        s@ == usb_json(usb@, usb@.len() as int),
{
    let mut s: String = String::new();
    let mut i: usize = 0;
    while i < usb.len()
        invariant
            i <= usb.len(),
            s@ == usb_json(usb@, i as int),
        decreases usb.len() - i,
    {
        let d: &UsbDevice = &usb[i];
        s.append("    { \"kernel\": \"");
        s.append(esc(d.kernel.as_str()).as_str());
        s.append("\", \"vid\": \"");
        s.append(esc(d.vid.as_str()).as_str());
        s.append("\", \"pid\": \"");
        s.append(esc(d.pid.as_str()).as_str());
        s.append("\", \"product\": \"");
        s.append(esc(text_or(&d.product, "")).as_str());
        s.append("\", \"serial\": \"");
        s.append(esc(text_or(&d.serial, "")).as_str());
        s.append("\", \"controller\": \"");
        s.append(esc(text_or(&d.controller, "")).as_str());
        s.append("\", \"nodes\": [");
        s.append(quoted_list(&d.nodes).as_str());
        s.append("] }");
        s.append(comma_text(i, usb.len()));
        i = i + 1;
    }
    s
}

fn unit_text(units: &Vec<Unit>) -> (s: String)
    ensures
        s@ == unit_json(units@, units@.len() as int),
{
    let mut s: String = String::new();
    let mut i: usize = 0;
    while i < units.len()
        invariant
            i <= units.len(),
            s@ == unit_json(units@, i as int),
        decreases units.len() - i,
    {
        s.append("    { \"unit\": \"");
        s.append(esc(units[i].unit.as_str()).as_str());
        s.append("\", \"state\": \"");
        s.append(esc(units[i].state.as_str()).as_str());
        s.append("\", \"active\": ");
        s.append(
            if units[i].active {
                "true"
            } else {
                "false"
            },
        );
        s.append(" }");
        s.append(comma_text(i, units.len()));
        i = i + 1;
    }
    s
}

/// The whole report in JSON, as text.
pub fn json(
    p: &Platform,
    buses: &Vec<I2cBus>,
    chips: &Vec<GpioChip>,
    usb: &Vec<UsbDevice>,
    units: &Vec<Unit>,
) -> (s: String)
    ensures
        s@ == "{\n"@ + platform_json(*p) + "  \"i2c\": [\n"@ + bus_json(
            buses@,
            buses@.len() as int,
        ) + "  ],\n  \"gpiochips\": [\n"@ + chip_json(chips@, chips@.len() as int)
            + "  ],\n  \"usb\": [\n"@ + usb_json(usb@, usb@.len() as int)
            + "  ],\n  \"vendor_units\": [\n"@ + unit_json(units@, units@.len() as int)
            + "  ]\n}\n"@,
{
    let mut s: String = join("{\n", platform_text(p).as_str());
    s.append("  \"i2c\": [\n");
    s.append(bus_text(buses).as_str());
    s.append("  ],\n  \"gpiochips\": [\n");
    s.append(chip_text(chips).as_str());
    s.append("  ],\n  \"usb\": [\n");
    s.append(usb_text(usb).as_str());
    s.append("  ],\n  \"vendor_units\": [\n");
    s.append(unit_text(units).as_str());
    s.append("  ]\n}\n");
    s
}

/// A text inside quotes holds no quote that ends it: every quote has a backslash before it.
pub proof fn law_no_quote_is_bare(s: Seq<char>, i: int)
    requires
        0 <= i < escaped(s).len(),
        escaped(s)[i] == '"',
    ensures
        i > 0,
        escaped(s)[i - 1] == '\\',
    decreases s.len(),
{
    let head = escaped(s.drop_last());
    let tail = escaped_char(s.last());
    if i < head.len() {
        assert(escaped(s)[i] == head[i]);
        law_no_quote_is_bare(s.drop_last(), i);
        assert(escaped(s)[i - 1] == head[i - 1]);
    } else {
        assert(escaped(s)[i] == tail[i - head.len()]);
        assert(escaped(s)[i - 1] == tail[i - head.len() - 1]);
    }
}

/// A machine that is no Raspberry Pi is warned of, and no other; what is printed of it is what is known
/// of it.
pub proof fn law_the_machine_is_reported(p: &Platform, r: (String, Option<&'static str>))
    requires
        call_ensures(report_platform, (p,), r),
    ensures
        r.1 is None <==> p.is_pi,
        r.0@ == "\n"@ + "Platform"@ + "\n"@ + run_of('-', 8) + "\n"@ + ("  "@ + pad_right(
            "model"@,
            12,
        ) + " "@ + p.model@ + "\n"@) + ("  "@ + pad_right("revision"@, 12) + " "@ + (
        if p.revision is Some {
            (p.revision->0)@
        } else {
            "unknown"@
        }) + "\n"@) + ("  "@ + pad_right("generation"@, 12) + " "@ + p.generation@ + "\n"@) + ("  "@
            + pad_right("kernel"@, 12) + " "@ + p.kernel@ + "\n"@) + ("  "@ + pad_right("os"@, 12)
            + " "@ + (p.os@ + " ("@ + p.arch@ + ")"@) + "\n"@),
{
    reveal_strlit("Platform");
    assert("Platform"@.len() == 8);
}

/// That there is no bus is warned of, and only that.
pub proof fn law_no_bus_is_warned_of(buses: &Vec<I2cBus>, r: (String, Option<&'static str>))
    requires
        call_ensures(report_i2c, (buses,), r),
    ensures
        r.1 is Some <==> buses@.len() == 0,
        buses@.len() == 0 ==> holds(
            r.0@,
            "  none — is `dtparam=i2c_arm=on` set in config.txt?\n"@,
        ),
        buses@.len() > 0 ==> holds(r.0@, bus_lines(buses@)),
{
    let head = section_words("I2C buses"@);
    let part = if buses@.len() == 0 {
        "  none — is `dtparam=i2c_arm=on` set in config.txt?\n"@
    } else {
        bus_lines(buses@)
    };
    assert(r.0@.subrange(head.len() as int, (head.len() + part.len()) as int) =~= part);
    assert(stands_at(r.0@, part, head.len() as int));
}

/// Each bus, each claimed address, each chip, each header line, each fan, each unit, each owner and each
/// warning gets a line of its own behind those before it, with its own values.
pub proof fn law_each_thing_gets_its_line(
    buses: Seq<I2cBus>,
    b: I2cBus,
    bound: Seq<(u8, String)>,
    a: (u8, String),
    chips: Seq<GpioChip>,
    c: GpioChip,
    units: Seq<Unit>,
    u: Unit,
    node: Seq<char>,
    owners: Seq<(u32, String)>,
    o: (u32, String),
    warnings: Seq<Seq<char>>,
    w: Seq<char>,
    nodes: Seq<String>,
    n: String,
)
    ensures
        bus_lines(buses.push(b)) == bus_lines(buses) + "  "@ + b.dev@ + " — "@ + b.name@ + "\n"@
            + bound_lines(b.bound@),
        bound_lines(bound.push(a)) == bound_lines(bound) + "      0x"@ + hex(a.0)
            + " claimed by kernel driver `"@ + a.1@ + "` (will not be probed)\n"@,
        chip_lines(chips.push(c)) == chip_lines(chips) + "  "@ + c.path@ + " — label `"@ + c.label@
            + "`, "@ + decimal(c.lines as nat) + " lines\n"@,
        u.active ==> unit_lines(units.push(u)) == unit_lines(units) + "  "@ + "ACTIVE"@ + "  "@
            + pad_right(u.unit@, 26) + " "@ + pad_right(u.state@, 14) + " "@ + u.owns@ + "\n"@,
        !u.active ==> unit_lines(units.push(u)) == unit_lines(units) + "  "@ + "      "@ + "  "@
            + pad_right(u.unit@, 26) + " "@ + pad_right(u.state@, 14) + " "@ + u.owns@ + "\n"@,
        owner_lines(node, owners.push(o)) == owner_lines(node, owners) + "\n  "@ + node
            + " — held by pid "@ + decimal(o.0 as nat) + " ("@ + o.1@ + ")\n"@,
        warning_lines(warnings.push(w)) == warning_lines(warnings) + "  warning: "@ + w + "\n"@,
        node_lines(nodes.push(n)) == node_lines(nodes) + "      "@ + n@ + "\n"@,
{
    assert(buses.push(b).drop_last() =~= buses);
    assert(bound.push(a).drop_last() =~= bound);
    assert(chips.push(c).drop_last() =~= chips);
    assert(units.push(u).drop_last() =~= units);
    assert(owners.push(o).drop_last() =~= owners);
    assert(warnings.push(w).drop_last() =~= warnings);
    assert(nodes.push(n).drop_last() =~= nodes);
}

/// A header line is printed with its direction, who holds it, and what Argon hardware uses it for.
pub proof fn law_a_header_line_is_printed_with_its_use(lines: Seq<GpioLine>, l: GpioLine)
    ensures
        ({
            let direction = if l.is_output {
                "out"@
            } else {
                "in"@
            };
            let held = if l.consumer is Some {
                "held by `"@ + (l.consumer->0)@ + "`"@
            } else {
                "unheld"@
            };
            let row = header_lines(lines) + "    line "@ + pad_left(decimal(l.offset as nat), 2)
                + " "@ + pad_right(l.name@, 8) + " "@ + pad_right(direction, 6) + " "@ + pad_right(
                held,
                22,
            ) + " "@;
            let all = header_lines(lines.push(l));
            &&& l.offset == 4 ==> all == row + "power button pulses from the MCU"@ + "\n"@
            &&& l.offset == 17 ==> all == row + "power button (MCU side)"@ + "\n"@
            &&& l.offset == 22 ==> all == row + "IR transmit"@ + "\n"@
            &&& l.offset == 23 ==> all == row + "IR receive"@ + "\n"@
            &&& l.offset == 27 ==> all == row + "lid switch (ONE UP only)"@ + "\n"@
        }),
{
    assert(lines.push(l).drop_last() =~= lines);
}

/// A button line that nobody holds is warned of exactly where the Pi has no button of its own, and a
/// header that is not found always.
pub proof fn law_an_unheld_button_is_warned_of(
    chips: &Vec<GpioChip>,
    label: &str,
    lines: &Vec<GpioLine>,
    button: Option<&str>,
    none: (String, Option<&'static str>),
    some: (String, Option<&'static str>),
)
    requires
        call_ensures(report_gpio, (chips, None::<(&str, &Vec<GpioLine>)>, button), none),
        call_ensures(report_gpio, (chips, Some((label, lines)), button), some),
    ensures
        none.1 is Some && (none.1->0)@ == "could not identify the header GPIO chip"@,
        some.1 is Some <==> button is None && exists|i: int|
            0 <= i < lines@.len() && (#[trigger] lines@[i]).offset == 4
                && lines@[i].consumer is None,
        button is Some ==> holds(
            some.0@,
            "\n  Power button: the Raspberry Pi's own button ("@ + (button->0)@,
        ),
        holds(some.0@, "\n  Header lines on `"@ + label@ + "`:\n"@ + header_lines(lines@)),
{
    let h = "\n  Header lines on `"@ + label@ + "`:\n"@ + header_lines(lines@);
    let tail = header_words(
        Some((label@, lines@)),
        match button {
            Some(s) => Some(s@),
            None => None,
        },
    );
    let at = some.0@.len() - tail.len();
    assert(some.0@.subrange(at, at + h.len()) =~= h);
    assert(stands_at(some.0@, h, at));
    if button is Some {
        let p = "\n  Power button: the Raspberry Pi's own button ("@ + (button->0)@;
        assert(some.0@.subrange(at + h.len(), at + h.len() + p.len()) =~= p);
        assert(stands_at(some.0@, p, at + h.len()));
    }
}

/// The kernel is said to drive the fan exactly where there is a kernel fan and a fan among the cooling
/// devices.
pub proof fn law_the_kernel_drives_its_fan(
    fan: &PwmFan,
    cooling: &Vec<CoolingDevice>,
    none: (String, Option<&'static str>),
    some: (String, Option<&'static str>),
)
    requires
        call_ensures(report_fan, (None::<&PwmFan>, cooling), none),
        call_ensures(report_fan, (Some(fan), cooling), some),
    ensures
        none.1 is None,
        some.1 is Some <==> exists|i: int|
            0 <= i < cooling@.len() && holds((#[trigger] cooling@[i]).kind@, "fan"@),
        begins(
            some.0@,
            "\n"@ + "Fan"@ + "\n"@ + run_of('-', 3) + "\n"@ + "  kernel PWM fan at "@ + fan.path@
                + "\n"@,
        ),
{
    reveal_strlit("Fan");
    let h = "\n"@ + "Fan"@ + "\n"@ + run_of('-', 3) + "\n"@ + "  kernel PWM fan at "@ + fan.path@
        + "\n"@;
    assert(section_words("Fan"@) == "\n"@ + "Fan"@ + "\n"@ + run_of('-', 3) + "\n"@);
    assert(some.0@.take(h.len() as int) =~= h);
    if some.1 is Some {
        let i = choose|i: int| 0 <= i < cooling@.len() && is_fan(#[trigger] cooling@[i]);
        assert(holds(cooling@[i].kind@, "fan"@));
    }
    if exists|i: int| 0 <= i < cooling@.len() && holds((#[trigger] cooling@[i]).kind@, "fan"@) {
        let i = choose|i: int|
            0 <= i < cooling@.len() && holds((#[trigger] cooling@[i]).kind@, "fan"@);
        assert(is_fan(cooling@[i]));
    }
}

/// A fan is shown with its duty and its speed, and as turning exactly where it is.
pub proof fn law_a_fan_is_shown_as_it_was_read(r: FanReading)
    ensures
        r.rpm is Some ==> fan_words(Some((r, true))) == "  pwm "@ + decimal(r.pwm as nat)
            + " / 255, "@ + (decimal((r.rpm->0) as nat) + " rpm"@) + "\n"@
            + "  the fan is currently turning\n"@,
        r.rpm is Some ==> fan_words(Some((r, false))) == "  pwm "@ + decimal(r.pwm as nat)
            + " / 255, "@ + (decimal((r.rpm->0) as nat) + " rpm"@) + "\n"@,
        r.rpm is None ==> fan_words(Some((r, false))) == "  pwm "@ + decimal(r.pwm as nat)
            + " / 255, "@ + "no tachometer"@ + "\n"@,
        fan_words(None) == "  (could not read its state)\n"@,
{
    reveal_strlit("");
    assert(forall|s: Seq<char>| s + ""@ =~= #[trigger] (s + Seq::<char>::empty()));
    let a = "  pwm "@ + decimal(r.pwm as nat) + " / 255, "@;
    if r.rpm is Some {
        let b = a + (decimal((r.rpm->0) as nat) + " rpm"@) + "\n"@;
        assert(b + ""@ =~= b);
    } else {
        let b = a + "no tachometer"@ + "\n"@;
        assert(b + ""@ =~= b);
    }
}

/// The hardware is contended exactly where a vendor's unit is active or a port is held, and the summary
/// is quiet exactly where nothing is contended and nothing is warned of.
pub proof fn law_contention_is_a_unit_or_an_owner(
    units: &Vec<Unit>,
    ports: &Vec<HeldPort>,
    sees_all: bool,
    r: (String, bool),
    warnings: &Vec<String>,
    s: String,
)
    requires
        call_ensures(report_contention, (units, ports, sees_all), r),
        call_ensures(report_summary, (r.1, warnings), s),
    ensures
        r.1 <==> (exists|i: int| 0 <= i < units@.len() && (#[trigger] units@[i]).active) || (exists|
            i: int,
        |
            0 <= i < ports@.len() && (#[trigger] ports@[i]).owners@.len() > 0),
        !r.1 && warnings@.len() == 0 ==> ends(s@, "  Nothing contending for the hardware.\n"@),
        r.1 ==> holds(s@, "  The vendor software is currently driving this hardware."@),
        warnings@.len() > 0 ==> ends(s@, "  warning: "@ + warnings@.last()@ + "\n"@),
{
    let quiet = "  Nothing contending for the hardware.\n"@;
    reveal_strlit("");
    if !r.1 && warnings@.len() == 0 {
        assert(s@.skip(s@.len() - quiet.len()) =~= quiet);
    }
    let part = "  The vendor software is currently driving this hardware."@;
    let all =
        "  The vendor software is currently driving this hardware. That is expected and\n  fine — this report changed nothing. argon-utils will refuse to take control\n  until you run an explicit takeover.\n"@;
    reveal_strlit("  The vendor software is currently driving this hardware.");
    reveal_strlit(
        "  The vendor software is currently driving this hardware. That is expected and\n  fine — this report changed nothing. argon-utils will refuse to take control\n  until you run an explicit takeover.\n",
    );
    if r.1 {
        let at = section_words("Summary"@).len() as int;
        assert(all.take(part.len() as int) =~= part);
        assert(s@.subrange(at, at + all.len()) =~= all);
        assert(s@.subrange(at, at + part.len()) =~= part);
        assert(stands_at(s@, part, at));
    }
    if warnings@.len() > 0 {
        let ws = texts(warnings@);
        assert(ws.last() == warnings@.last()@);
        let e = "  warning: "@ + warnings@.last()@ + "\n"@;
        assert(s@.skip(s@.len() - e.len()) =~= e);
    }
}

/// A port that nobody was seen to hold is free where everybody could be seen, and undecided otherwise.
pub proof fn law_a_port_is_free_only_where_all_is_seen(ports: Seq<HeldPort>, p: HeldPort)
    ensures
        p.owners@.len() == 0 ==> port_lines(ports.push(p), true) == port_lines(ports, true) + ("\n  "@
            + p.node@ + " — "@ + "free"@ + "\n"@),
        p.owners@.len() == 0 ==> port_lines(ports.push(p), false) == port_lines(ports, false) + (
        "\n  "@ + p.node@ + " — "@ + "no owner visible (not privileged — inconclusive)"@ + "\n"@),
        p.owners@.len() > 0 ==> forall|sees_all: bool| #[trigger]
            port_lines(ports.push(p), sees_all) == port_lines(ports, sees_all) + owner_lines(
                p.node@,
                p.owners@,
            ),
{
    assert(ports.push(p).drop_last() =~= ports);
}

/// A device is named as what it is to us, and as internal exactly on the internal controller.
pub proof fn law_a_device_is_named_as_what_it_is(
    kernel: Seq<char>,
    ups: Option<Seq<char>>,
    zigbee: Option<Seq<char>>,
    controller: String,
    internal: Seq<char>,
)
    ensures
        ups == Some(kernel) ==> role_words(kernel, ups, zigbee) == "  <- Argon PWR UPS"@,
        ups != Some(kernel) && zigbee == Some(kernel) ==> role_words(kernel, ups, zigbee)
            == "  <- Argon Industria Zigbee (CC2652P)"@,
        ups != Some(kernel) && zigbee != Some(kernel) ==> role_words(kernel, ups, zigbee).len() == 0,
        controller@ == internal ==> place_words(Some(controller), internal) == "internal"@,
        controller@ != internal ==> place_words(Some(controller), internal) == "external"@,
        place_words(None, internal) == "?"@,
{
    reveal_strlit("");
}

/// A vendor's file is listed exactly where it is there, under its path and with what it is for.
pub proof fn law_a_vendors_file_is_listed_where_it_is_there(
    v: &Vec<bool>,
    s: String,
    present: Seq<bool>,
)
    requires
        call_ensures(report_vendor_config, (v,), s),
        v@ == present,
        present.len() == 6,
    ensures
        vendor_lines(present, 0).len() == 0,
        forall|i: int|
            0 <= i < 6 && !#[trigger] present[i] ==> vendor_lines(present, i + 1) == vendor_lines(
                present,
                i,
            ),
        present[0] ==> vendor_lines(present, 1) == vendor_lines(present, 0) + "  "@ + pad_right(
            "/etc/argononed.conf"@,
            32,
        ) + " "@ + "CPU fan curve"@ + "\n"@,
        present[1] ==> vendor_lines(present, 2) == vendor_lines(present, 1) + "  "@ + pad_right(
            "/etc/argononed-hdd.conf"@,
            32,
        ) + " "@ + "HDD fan curve (EON)"@ + "\n"@,
        present[2] ==> vendor_lines(present, 3) == vendor_lines(present, 2) + "  "@ + pad_right(
            "/etc/argoneonoled.conf"@,
            32,
        ) + " "@ + "OLED display"@ + "\n"@,
        present[3] ==> vendor_lines(present, 4) == vendor_lines(present, 3) + "  "@ + pad_right(
            "/etc/argonunits.conf"@,
            32,
        ) + " "@ + "temperature units"@ + "\n"@,
        present[4] ==> vendor_lines(present, 5) == vendor_lines(present, 4) + "  "@ + pad_right(
            "/etc/argonupsrtc.conf"@,
            32,
        ) + " "@ + "UPS RTC schedules"@ + "\n"@,
        present[5] ==> vendor_lines(present, 6) == vendor_lines(present, 5) + "  "@ + pad_right(
            "/etc/argonupsbattery.conf"@,
            32,
        ) + " "@ + "UPS battery meter"@ + "\n"@,
        present[0] || present[1] || present[2] || present[3] || present[4] || present[5] ==> ends(
            s@,
            vendor_lines(present, 6),
        ),
        !(present[0] || present[1] || present[2] || present[3] || present[4] || present[5]) ==> ends(
            s@,
            "  none\n"@,
        ),
{
    let any = present[0] || present[1] || present[2] || present[3] || present[4] || present[5];
    assert(vendor_files().len() == 6);
    if any {
        let k: int = if present[0] {
            0
        } else if present[1] {
            1
        } else if present[2] {
            2
        } else if present[3] {
            3
        } else if present[4] {
            4
        } else {
            5
        };
        assert(v@[k]);
    } else if exists|i: int| 0 <= i < vendor_files().len() && i < v@.len() && #[trigger] v@[i] {
        let i = choose|i: int|
            0 <= i < vendor_files().len() && i < v@.len() && #[trigger] v@[i];
        assert(i == 0 || i == 1 || i == 2 || i == 3 || i == 4 || i == 5);
    }
    let tail = if any {
        vendor_lines(present, 6)
    } else {
        "  none\n"@
    };
    assert(some_there(v@) == any);
    assert(s@ == section_words("Vendor configuration present"@) + tail);
    assert(s@.skip(s@.len() - tail.len()) =~= tail);
}

/// Inside quotes a backslash stands before every quote and backslash, and before nothing else.
pub proof fn law_only_quotes_and_backslashes_are_escaped(s: &str, t: &str, c: char, a: String, b: String)
    requires
        call_ensures(esc, (s,), a),
        call_ensures(esc, (t,), b),
        t@ == s@.push(c),
    ensures
        s@.len() == 0 ==> a@.len() == 0,
        c == '"' ==> b@ == a@.push('\\').push('"'),
        c == '\\' ==> b@ == a@.push('\\').push('\\'),
        c != '"' && c != '\\' ==> b@ == a@.push(c),
{
    assert(t@.drop_last() =~= s@);
    assert(b@ == a@ + escaped_char(c));
    assert(a@ + seq!['\\', '"'] =~= a@.push('\\').push('"'));
    assert(a@ + seq!['\\', '\\'] =~= a@.push('\\').push('\\'));
    assert(a@ + seq![c] =~= a@.push(c));
}

/// In JSON each element of a list is followed by a comma but the last one, and each holds its own
/// values.
pub proof fn law_the_lists_in_json_hold_their_elements(
    buses: Seq<I2cBus>,
    chips: Seq<GpioChip>,
    units: Seq<Unit>,
    usb: Seq<UsbDevice>,
    n: int,
)
    requires
        0 < n <= buses.len(),
        buses.len() == chips.len() == units.len() == usb.len(),
    ensures
        ({
            let end = if n == buses.len() {
                "\n"@
            } else {
                ",\n"@
            };
            let c = chips[n - 1];
            let u = units[n - 1];
            let d = usb[n - 1];
            &&& bus_json(buses, n) == bus_json(buses, n - 1) + "    { \"dev\": \""@
                + buses[n - 1].dev@ + "\", \"name\": \""@ + escaped(buses[n - 1].name@) + "\" }"@
                + end
            &&& chip_json(chips, n) == chip_json(chips, n - 1) + "    { \"path\": \""@ + c.path@
                + "\", \"label\": \""@ + escaped(c.label@) + "\", \"lines\": "@ + decimal(
                c.lines as nat,
            ) + " }"@ + end
            &&& u.active ==> unit_json(units, n) == unit_json(units, n - 1) + "    { \"unit\": \""@
                + escaped(u.unit@) + "\", \"state\": \""@ + escaped(u.state@) + "\", \"active\": "@
                + "true"@ + " }"@ + end
            &&& !u.active ==> unit_json(units, n) == unit_json(units, n - 1) + "    { \"unit\": \""@
                + escaped(u.unit@) + "\", \"state\": \""@ + escaped(u.state@) + "\", \"active\": "@
                + "false"@ + " }"@ + end
            &&& d.product is Some && d.serial is Some && d.controller is Some ==> usb_json(usb, n)
                == usb_json(usb, n - 1) + "    { \"kernel\": \""@ + escaped(d.kernel@)
                + "\", \"vid\": \""@ + escaped(d.vid@) + "\", \"pid\": \""@ + escaped(d.pid@)
                + "\", \"product\": \""@ + escaped((d.product->0)@) + "\", \"serial\": \""@
                + escaped((d.serial->0)@) + "\", \"controller\": \""@ + escaped(
                (d.controller->0)@,
            ) + "\", \"nodes\": ["@ + joined(quoted_words(d.nodes@), ", "@) + "] }"@ + end
        }),
{
}

/// A device is printed with its numbers, its place, its product and what it is to us; that there is no
/// UPS is said, and that there is no Zigbee module where devices were seen at all.
pub proof fn law_the_devices_are_printed(
    usb: &Vec<UsbDevice>,
    ups: Option<&str>,
    zigbee: Option<&str>,
    internal: &str,
    s: String,
)
    requires
        call_ensures(report_usb, (usb, ups, zigbee, internal), s),
    ensures
        zigbee is None && usb@.len() > 0 ==> ends(
            s@,
            "  No Argon Zigbee module found on the internal header.\n"@,
        ),
        ups is None && (zigbee is Some || usb@.len() == 0) ==> ends(
            s@,
            "\n  No Argon UPS found.\n"@,
        ),
        ups is None && zigbee is None && usb@.len() > 0 ==> ends(
            s@,
            "\n  No Argon UPS found.\n"@
                + "  No Argon Zigbee module found on the internal header.\n"@,
        ),
        ups is Some && (zigbee is Some || usb@.len() == 0) ==> ends(
            s@,
            usb_lines(usb@, some_text(ups), some_text(zigbee), internal@),
        ),
{
    reveal_strlit("");
    let z = "  No Argon Zigbee module found on the internal header.\n"@;
    let u = "\n  No Argon UPS found.\n"@;
    let lines = usb_lines(usb@, some_text(ups), some_text(zigbee), internal@);
    if usb@.len() > 0 {
        assert(usb@.last() == usb@[usb@.len() - 1]);
    }
    if zigbee is None && usb@.len() > 0 {
        assert(s@.skip(s@.len() - z.len()) =~= z);
        if ups is None {
            assert(s@.skip(s@.len() - (u + z).len()) =~= u + z);
        }
    } else if ups is None {
        assert(s@.skip(s@.len() - u.len()) =~= u);
    } else {
        assert(s@.skip(s@.len() - lines.len()) =~= lines);
    }
}

/// Each device gets a line with what the kernel calls it, its numbers, its place, its product and what
/// it is to us, and its nodes below.
pub proof fn law_each_device_gets_its_line(
    usb: Seq<UsbDevice>,
    d: UsbDevice,
    ups: Option<Seq<char>>,
    zigbee: Option<Seq<char>>,
    internal: Seq<char>,
)
    ensures
        d.product is Some ==> usb_lines(usb.push(d), ups, zigbee, internal) == usb_lines(
            usb,
            ups,
            zigbee,
            internal,
        ) + "  "@ + pad_right(d.kernel@, 8) + " "@ + d.vid@ + ":"@ + d.pid@ + "  "@ + pad_right(
            place_words(d.controller, internal),
            8,
        ) + " "@ + (d.product->0)@ + role_words(d.kernel@, ups, zigbee) + "\n"@ + node_lines(d.nodes@),
{
    assert(usb.push(d).drop_last() =~= usb);
}

/// The whole report in JSON is the machine and the four lists, each under its name.
pub proof fn law_the_report_holds_its_parts(
    p: &Platform,
    buses: &Vec<I2cBus>,
    chips: &Vec<GpioChip>,
    usb: &Vec<UsbDevice>,
    units: &Vec<Unit>,
    s: String,
)
    requires
        call_ensures(json, (p, buses, chips, usb, units), s),
        p.revision is Some,
    ensures
        ({
            let head = "{\n"@ + ("  \"platform\": {\n    \"model\": \""@ + escaped(p.model@)
                + "\",\n    \"revision\": \""@ + escaped((p.revision->0)@)
                + "\",\n    \"generation\": \""@ + p.generation@ + "\",\n    \"kernel\": \""@
                + escaped(p.kernel@) + "\",\n    \"os\": \""@ + escaped(p.os@)
                + "\",\n    \"arch\": \""@ + escaped(p.arch@) + "\"\n  },\n"@);
            s@ == head + "  \"i2c\": [\n"@ + bus_json(buses@, buses@.len() as int)
                + "  ],\n  \"gpiochips\": [\n"@ + chip_json(chips@, chips@.len() as int)
                + "  ],\n  \"usb\": [\n"@ + usb_json(usb@, usb@.len() as int)
                + "  ],\n  \"vendor_units\": [\n"@ + unit_json(units@, units@.len() as int)
                + "  ]\n}\n"@
        }),
{
}

/// The lines that are looked at are those that Argon hardware uses: the two of the button, the two of
/// IR and the lid.
pub proof fn law_the_lines_that_argon_uses_are_looked_at(v: Vec<u32>, n: u32)
    requires
        call_ensures(lines_of_interest, (), v),
    ensures
        v@.contains(n) <==> n == 4 || n == 17 || n == 22 || n == 23 || n == 27,
{
    assert(v@[0] == 4 && v@[1] == 17 && v@[2] == 22 && v@[3] == 23 && v@[4] == 27);
}

} // verus!
