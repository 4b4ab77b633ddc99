//! `argonctl setup`: is this machine configured for the Argon hardware it has?
//!
//! Every finding here has a remedy, and a remedy is only useful if it is the precise line to run.
//! What is "required" depends on the case, so the checks are derived from what the machine
//! actually has, not from a fixed list.

use crate::device::boot_config::{
    active, active_prefix, board_sections, is_active, is_active_prefix, sections_for,
};
use crate::json::{members, no_members, put, text_or_null, trees, Json, Member, Tree};
use crate::text::{
    contains, decimal, decimal_of, holds, join, join_all, joined, left_aligned, lower, pad_right,
    repeat, run_of, same, texts, to_lower, views,
};
use vstd::prelude::*;

verus! {

/// How a check came out.
#[derive(Clone, Copy, Debug, PartialEq, Eq, Structural)]
pub enum State {
    /// Configured, present, or otherwise fine.
    Fine,
    /// Needed here, and not configured.
    Missing,
    /// Optional, not configured. Not a fault.
    Optional,
    /// Does not apply to this machine.
    NotApplicable,
}

impl State {
    /// Its mark, of fixed width.
    pub open spec fn sign(self) -> Seq<char> {
        match self {
            State::Fine => "ok     "@,
            State::Missing => "MISSING"@,
            State::Optional => "--     "@,
            State::NotApplicable => "n/a    "@,
        }
    }

    /// Its name.
    pub open spec fn word(self) -> Seq<char> {
        match self {
            State::Fine => "ok"@,
            State::Missing => "missing"@,
            State::Optional => "optional"@,
            State::NotApplicable => "not-applicable"@,
        }
    }

    /// Fixed width, so the columns line up whatever the mix of states.
    pub fn mark(self) -> (s: &'static str)
        ensures
            s@ == self.sign(),
    {
        match self {
            State::Fine => "ok     ",
            State::Missing => "MISSING",
            State::Optional => "--     ",
            State::NotApplicable => "n/a    ",
        }
    }

    /// Its name in JSON.
    pub fn name(self) -> (s: &'static str)
        ensures
            s@ == self.word(),
    {
        match self {
            State::Fine => "ok",
            State::Missing => "missing",
            State::Optional => "optional",
            State::NotApplicable => "not-applicable",
        }
    }
}

/// Every mark has the same width.
pub proof fn law_marks_line_up(a: State, b: State)
    ensures
        a.sign().len() == b.sign().len(),
{
    reveal_strlit("ok     ");
    reveal_strlit("MISSING");
    reveal_strlit("--     ");
    reveal_strlit("n/a    ");
}

/// One thing that was checked.
#[derive(Clone, Debug)]
pub struct Check {
    /// What was checked, in a few words.
    pub name: String,
    /// How it came out.
    pub state: State,
    /// What was found, said plainly.
    pub detail: String,
    /// The exact command that fixes it, when something needs fixing.
    pub fix: Option<String>,
}

/// What a `Check` says.
pub struct Finding {
    /// What was checked.
    pub name: Seq<char>,
    /// How it came out.
    pub state: State,
    /// What was found.
    pub detail: Seq<char>,
    /// The command that fixes it.
    pub fix: Option<Seq<char>>,
}

/// A finding without a remedy.
pub open spec fn plain(name: Seq<char>, state: State, detail: Seq<char>) -> Finding {
    Finding { name, state, detail, fix: None }
}

/// A finding with its remedy.
pub open spec fn fixed(name: Seq<char>, state: State, detail: Seq<char>, fix: Seq<char>) -> Finding {
    Finding { name, state, detail, fix: Some(fix) }
}

impl View for Check {
    type V = Finding;

    open spec fn view(&self) -> Finding {
        Finding {
            name: self.name@,
            state: self.state,
            detail: self.detail@,
            fix: match self.fix {
                Some(s) => Some(s@),
                None => None,
            },
        }
    }
}

impl Check {
    fn new(name: &str, state: State, detail: &str) -> (c: Self)
        ensures
            c@ == plain(name@, state, detail@),
    {
        Check { name: name.to_owned(), state, detail: detail.to_owned(), fix: None }
    }

    fn with_fix(self, fix: &str) -> (c: Self)
        ensures
            c@ == fixed(self@.name, self@.state, self@.detail, fix@),
    {
        Check { name: self.name, state: self.state, detail: self.detail, fix: Some(fix.to_owned()) }
    }
}

/// What a list of checks says.
pub open spec fn findings(cs: Seq<Check>) -> Seq<Finding> {
    cs.map_values(|c: Check| c@)
}

/// What the machine looks like, as plain data.
#[derive(Clone, Debug)]
pub struct Facts {
    /// Device-tree model string.
    pub model: String,
    /// Contents of `config.txt`, if it could be read.
    pub config_txt: Option<String>,
    /// Where that file is.
    pub config_path: String,
    /// Whether the 40-pin header I2C bus exists.
    pub header_bus: bool,
    /// Whether something acknowledges the MCU address. `None`: not attempted.
    pub mcu_answers: Option<bool>,
    /// Whether something acknowledges the OLED address.
    pub oled_answers: Option<bool>,
    /// Whether something acknowledges the ONE UP fuel gauge's address.
    pub gauge_answers: Option<bool>,
    /// Whether the PWR UPS is on USB.
    pub ups_present: bool,
    /// Whether an IR receiver device exists now.
    pub lirc: bool,
    /// The login user's groups.
    pub groups: Vec<String>,
    /// The package's version, if installed.
    pub package: Option<String>,
    /// Whether `ir-ctl` is available.
    pub ir_ctl: bool,
    /// Whether the packaged udev rules are installed.
    pub udev_rules: bool,
    /// Whether `argond` is running.
    pub argond_active: bool,
    /// Vendor units that are present, with whether each is active.
    pub vendor_units: Vec<(String, bool)>,
    /// Whether the vendor's files are unpacked in `/etc/argon`.
    pub vendor_files: bool,
}

impl Default for Facts {
    fn default() -> (f: Self)
        ensures
            f.model@.len() == 0,
            f.config_txt is None,
            f.config_path@.len() == 0,
            !f.header_bus,
            f.mcu_answers is None,
            f.oled_answers is None,
            f.gauge_answers is None,
            !f.ups_present,
            !f.lirc,
            f.groups@.len() == 0,
            f.package is None,
            !f.ir_ctl,
            !f.udev_rules,
            !f.argond_active,
            f.vendor_units@.len() == 0,
            !f.vendor_files,
    {
        Facts {
            model: String::new(),
            config_txt: None,
            config_path: String::new(),
            header_bus: false,
            mcu_answers: None,
            oled_answers: None,
            gauge_answers: None,
            ups_present: false,
            lirc: false,
            groups: Vec::new(),
            package: None,
            ir_ctl: false,
            udev_rules: false,
            argond_active: false,
            vendor_units: Vec::new(),
            vendor_files: false,
        }
    }
}

impl Facts {
    /// Whether this looks like an Argon ONE UP.
    pub open spec fn one_up(self) -> bool {
        self.gauge_answers == Some(true) || holds(lower(self.model@), "compute module 5"@)
    }

    /// Whether the board is a Pi 5.
    pub open spec fn pi5(self) -> bool {
        holds(lower(self.model@), "pi 5"@) || holds(lower(self.model@), "compute module 5"@)
    }

    /// The `config.txt` filter sections in force on this board.
    fn sections(&self) -> (r: Vec<&'static str>)
        ensures
            views(r@) == board_sections(self.model@),
    {
        sections_for(self.model.as_str())
    }

    /// Whether this looks like an Argon ONE UP: the CM5 laptop, identified by its fuel gauge.
    fn is_one_up(&self) -> (r: bool)
        ensures
            r == self.one_up(),
    {
        matches!(self.gauge_answers, Some(true)) || contains(
            to_lower(self.model.as_str()).as_str(),
            "compute module 5",
        )
    }

    /// Whether a Pi 4-era case with a microcontroller is present.
    fn has_mcu(&self) -> (r: bool)
        ensures
            r == (self.mcu_answers == Some(true)),
    {
        matches!(self.mcu_answers, Some(true))
    }

    /// Whether the board is a Pi 5, where the case button and fan are the Pi's own.
    fn is_pi5(&self) -> (r: bool)
        ensures
            r == self.pi5(),
    {
        let m: String = to_lower(self.model.as_str());
        contains(m.as_str(), "pi 5") || contains(m.as_str(), "compute module 5")
    }
}

/// A named group of checks.
#[derive(Clone, Debug)]
pub struct Section {
    /// Heading.
    pub name: &'static str,
    /// What was checked under it.
    pub checks: Vec<Check>,
}

/// What a list of sections says.
pub open spec fn outline(ss: Seq<Section>) -> Seq<(Seq<char>, Seq<Finding>)> {
    ss.map_values(|s: Section| (s.name@, findings(s.checks@)))
}

/// What a machine needs and what it is missing.
pub open spec fn reviewed(f: Facts) -> Seq<(Seq<char>, Seq<Finding>)> {
    seq![
        ("Boot configuration"@, boot_findings(f)),
        ("Software"@, software_findings(f)),
        ("Access"@, access_findings(f)),
        ("Services"@, service_findings(f)),
    ]
}

/// Works out what this machine needs and what it is missing.
pub fn review(f: &Facts) -> (r: Vec<Section>)
    ensures
        outline(r@) == reviewed(*f),
{
    let boot: Section = Section { name: "Boot configuration", checks: boot_checks(f) };
    let software: Section = Section { name: "Software", checks: software_checks(f) };
    let access: Section = Section { name: "Access", checks: access_checks(f) };
    let services: Section = Section { name: "Services", checks: service_checks(f) };
    let r: Vec<Section> = vec![boot, software, access, services];
    assert(outline(r@) =~= reviewed(*f));
    r
}

// ---------------------------------------------------------------------------------------------
// Boot configuration
// ---------------------------------------------------------------------------------------------

/// The header I2C bus: every Argon device but the UPS sits on it.
pub open spec fn i2c_finding(f: Facts, text: Seq<char>) -> Finding {
    let needed = f.mcu_answers == Some(true) || f.one_up() || f.oled_answers == Some(true);
    let set = active(text, "dtparam"@, "i2c_arm=on"@, board_sections(f.model@));
    if f.header_bus {
        plain("header I2C bus"@, State::Fine, "/dev/i2c-1 is present"@)
    } else if set {
        fixed(
            "header I2C bus"@,
            State::Missing,
            "config.txt enables it, but no /dev/i2c-1 — a reboot is pending"@,
            "sudo reboot"@,
        )
    } else if needed {
        fixed(
            "header I2C bus"@,
            State::Missing,
            "no /dev/i2c-1, and dtparam=i2c_arm=on is not set"@,
            "echo 'dtparam=i2c_arm=on' | sudo tee -a "@ + f.config_path@ + " && sudo reboot"@,
        )
    } else {
        fixed(
            "header I2C bus"@,
            State::Optional,
            "not enabled; nothing here needs it yet"@,
            "echo 'dtparam=i2c_arm=on' | sudo tee -a "@ + f.config_path@,
        )
    }
}

/// The internal USB hub, which carries the PWR UPS and the Zigbee module on a ONE V5.
pub open spec fn hub_finding(f: Facts, text: Seq<char>) -> Finding {
    if f.ups_present {
        plain("internal USB hub"@, State::Fine, "the UPS is enumerated, so the hub is live"@)
    } else if active_prefix(text, "dtoverlay"@, "dwc2"@, board_sections(f.model@)) {
        plain("internal USB hub"@, State::Fine, "dtoverlay=dwc2 is set"@)
    } else if f.pi5() {
        fixed(
            "internal USB hub"@,
            State::Optional,
            "dtoverlay=dwc2,dr_mode=host is not set; the case's internal header (UPS, Zigbee) stays dark without it"@,
            "echo 'dtoverlay=dwc2,dr_mode=host' | sudo tee -a "@ + f.config_path@,
        )
    } else {
        plain("internal USB hub"@, State::NotApplicable, "not a Pi 5 case"@)
    }
}

/// IR: a Pi 4-era case has a receiver on BCM 23. The V5 demonstrably has none.
pub open spec fn ir_finding(f: Facts, text: Seq<char>) -> Finding {
    let set = active_prefix(text, "dtoverlay"@, "gpio-ir"@, board_sections(f.model@));
    let tee = "echo 'dtoverlay=gpio-ir,gpio_pin=23' | sudo tee -a "@ + f.config_path@;
    if set && f.lirc {
        plain("IR receiver"@, State::Fine, "gpio-ir is configured and bound"@)
    } else if set {
        fixed(
            "IR receiver"@,
            State::Missing,
            "gpio-ir is in config.txt but no /dev/lirc0 — a reboot is pending"@,
            "sudo reboot"@,
        )
    } else if f.lirc {
        fixed(
            "IR receiver"@,
            State::Missing,
            "bound now, but not in config.txt: it will be gone after a reboot"@,
            tee,
        )
    } else if f.pi5() {
        fixed(
            "IR receiver"@,
            State::Optional,
            "not configured. The ONE V5 has no receiver wired (T6); other Pi 5 cases are              unmeasured, so this is worth trying only if your case has an IR window"@,
            tee + " && sudo reboot"@,
        )
    } else {
        fixed(
            "IR receiver"@,
            State::Optional,
            "not configured; Pi 4-era cases have a receiver on BCM 23"@,
            tee + " && sudo reboot"@,
        )
    }
}

/// The ONE UP's lid, which is not a lid switch at all without the overlay.
pub open spec fn lid_finding(f: Facts, text: Seq<char>) -> Finding {
    if !f.one_up() {
        plain("ONE UP lid switch"@, State::NotApplicable, "not a ONE UP"@)
    } else if active_prefix(text, "dtoverlay"@, "argon-oneup-lid"@, board_sections(f.model@)) {
        plain("ONE UP lid switch"@, State::Fine, "the lid overlay is configured"@)
    } else {
        fixed(
            "ONE UP lid switch"@,
            State::Optional,
            "the lid is not a lid switch without the overlay"@,
            "sudo /usr/libexec/argon-utils/oneup-takeover"@,
        )
    }
}

/// What is found of the boot configuration.
pub open spec fn boot_findings(f: Facts) -> Seq<Finding> {
    match f.config_txt {
        None => seq![plain("config.txt"@, State::Missing, "cannot read "@ + f.config_path@)],
        Some(text) => seq![
            i2c_finding(f, text@),
            hub_finding(f, text@),
            ir_finding(f, text@),
            lid_finding(f, text@),
        ],
    }
}

fn boot_checks(f: &Facts) -> (r: Vec<Check>)
    ensures
        findings(r@) == boot_findings(*f),
{
    let sections: Vec<&'static str> = f.sections();
    match &f.config_txt {
        None => {
            let r: Vec<Check> = vec![
                Check::new(
                    "config.txt",
                    State::Missing,
                    join("cannot read ", f.config_path.as_str()).as_str(),
                ),
            ];
            assert(findings(r@) =~= boot_findings(*f));
            r
        },
        Some(text) => {
            // The header I2C bus: every Argon device but the UPS sits on it.
            let i2c_needed: bool = f.has_mcu() || f.is_one_up() || matches!(f.oled_answers, Some(true));
            let i2c_set: bool = is_active(
                text.as_str(),
                "dtparam",
                "i2c_arm=on",
                sections.as_slice(),
            );
            let tee: String = join(
                "echo 'dtparam=i2c_arm=on' | sudo tee -a ",
                f.config_path.as_str(),
            );
            let i2c: Check = if f.header_bus {
                Check::new("header I2C bus", State::Fine, "/dev/i2c-1 is present")
            } else if i2c_set {
                Check::new(
                    "header I2C bus",
                    State::Missing,
                    "config.txt enables it, but no /dev/i2c-1 — a reboot is pending",
                ).with_fix("sudo reboot")
            } else if i2c_needed {
                Check::new(
                    "header I2C bus",
                    State::Missing,
                    "no /dev/i2c-1, and dtparam=i2c_arm=on is not set",
                ).with_fix(join(tee.as_str(), " && sudo reboot").as_str())
            } else {
                Check::new(
                    "header I2C bus",
                    State::Optional,
                    "not enabled; nothing here needs it yet",
                ).with_fix(tee.as_str())
            };

            // The internal USB hub carries the PWR UPS and the Zigbee module on a ONE V5.
            let dwc2: bool = is_active_prefix(
                text.as_str(),
                "dtoverlay",
                "dwc2",
                sections.as_slice(),
            );
            let hub: Check = if f.ups_present {
                Check::new(
                    "internal USB hub",
                    State::Fine,
                    "the UPS is enumerated, so the hub is live",
                )
            } else if dwc2 {
                Check::new("internal USB hub", State::Fine, "dtoverlay=dwc2 is set")
            } else if f.is_pi5() {
                Check::new(
                    "internal USB hub",
                    State::Optional,
                    "dtoverlay=dwc2,dr_mode=host is not set; the case's internal header (UPS, Zigbee) stays dark without it",
                ).with_fix(
                    join(
                        "echo 'dtoverlay=dwc2,dr_mode=host' | sudo tee -a ",
                        f.config_path.as_str(),
                    ).as_str(),
                )
            } else {
                Check::new("internal USB hub", State::NotApplicable, "not a Pi 5 case")
            };

            let ir: Check = ir_check(f, text.as_str(), sections.as_slice());
            let lid: Check = lid_check(f, text.as_str(), sections.as_slice());
            let r: Vec<Check> = vec![i2c, hub, ir, lid];
            assert(findings(r@) =~= boot_findings(*f));
            r
        },
    }
}

fn ir_check(f: &Facts, text: &str, sections: &[&str]) -> (c: Check)
    requires
        views(sections@) == board_sections(f.model@),
    ensures
        c@ == ir_finding(*f, text@),
{
    let ir_set: bool = is_active_prefix(text, "dtoverlay", "gpio-ir", sections);
    let tee: String = join(
        "echo 'dtoverlay=gpio-ir,gpio_pin=23' | sudo tee -a ",
        f.config_path.as_str(),
    );
    let tee_and_reboot: String = join(tee.as_str(), " && sudo reboot");
    if ir_set && f.lirc {
        Check::new("IR receiver", State::Fine, "gpio-ir is configured and bound")
    } else if ir_set {
        Check::new(
            "IR receiver",
            State::Missing,
            "gpio-ir is in config.txt but no /dev/lirc0 — a reboot is pending",
        ).with_fix("sudo reboot")
    } else if f.lirc {
        Check::new(
            "IR receiver",
            State::Missing,
            "bound now, but not in config.txt: it will be gone after a reboot",
        ).with_fix(tee.as_str())
    } else if f.is_pi5() {
        // Careful with the claim: the ONE V5 was measured, not every Pi 5 enclosure.
        Check::new(
            "IR receiver",
            State::Optional,
            "not configured. The ONE V5 has no receiver wired (T6); other Pi 5 cases are              unmeasured, so this is worth trying only if your case has an IR window",
        ).with_fix(tee_and_reboot.as_str())
    } else {
        Check::new(
            "IR receiver",
            State::Optional,
            "not configured; Pi 4-era cases have a receiver on BCM 23",
        ).with_fix(tee_and_reboot.as_str())
    }
}

fn lid_check(f: &Facts, text: &str, sections: &[&str]) -> (c: Check)
    requires
        views(sections@) == board_sections(f.model@),
    ensures
        c@ == lid_finding(*f, text@),
{
    if !f.is_one_up() {
        Check::new("ONE UP lid switch", State::NotApplicable, "not a ONE UP")
    } else if is_active_prefix(text, "dtoverlay", "argon-oneup-lid", sections) {
        Check::new("ONE UP lid switch", State::Fine, "the lid overlay is configured")
    } else {
        Check::new(
            "ONE UP lid switch",
            State::Optional,
            "the lid is not a lid switch without the overlay",
        ).with_fix("sudo /usr/libexec/argon-utils/oneup-takeover")
    }
}

// ---------------------------------------------------------------------------------------------
// Software
// ---------------------------------------------------------------------------------------------

/// What is found of the software.
pub open spec fn software_findings(f: Facts) -> Seq<Finding> {
    seq![
        match f.package {
            Some(v) => plain("argon-utils package"@, State::Fine, "version "@ + v@),
            None => fixed(
                "argon-utils package"@,
                State::Optional,
                "not installed; running from a build tree is fine for testing, but the daemon, udev rules and polkit action come with the package"@,
                "dpkg-buildpackage -b -us -uc && sudo apt install ../argon-utils_*.deb"@,
            ),
        },
        if f.ir_ctl {
            plain("ir-ctl (v4l-utils)"@, State::Fine, "available"@)
        } else if f.lirc || !f.pi5() {
            fixed(
                "ir-ctl (v4l-utils)"@,
                State::Optional,
                "not installed; it is how raw IR is captured and decoded"@,
                "sudo apt install v4l-utils"@,
            )
        } else {
            plain("ir-ctl (v4l-utils)"@, State::NotApplicable, "no IR here"@)
        },
        if f.vendor_files {
            plain(
                "vendor software"@,
                State::Optional,
                "/etc/argon is present. argon-utils does not need it, and the package retires the vendor's UPS daemons on install, recording what it disabled"@,
            )
        } else {
            plain("vendor software"@, State::Fine, "not installed"@)
        },
    ]
}

fn software_checks(f: &Facts) -> (r: Vec<Check>)
    ensures
        findings(r@) == software_findings(*f),
{
    let package: Check = match &f.package {
        Some(v) => Check::new("argon-utils package", State::Fine, join("version ", v.as_str()).as_str()),
        None => Check::new(
            "argon-utils package",
            State::Optional,
            "not installed; running from a build tree is fine for testing, but the daemon, udev rules and polkit action come with the package",
        ).with_fix("dpkg-buildpackage -b -us -uc && sudo apt install ../argon-utils_*.deb"),
    };

    // ir-ctl is only worth having where IR exists.
    let ir_relevant: bool = f.lirc || !f.is_pi5();
    let ir_ctl: Check = if f.ir_ctl {
        Check::new("ir-ctl (v4l-utils)", State::Fine, "available")
    } else if ir_relevant {
        Check::new(
            "ir-ctl (v4l-utils)",
            State::Optional,
            "not installed; it is how raw IR is captured and decoded",
        ).with_fix("sudo apt install v4l-utils")
    } else {
        Check::new("ir-ctl (v4l-utils)", State::NotApplicable, "no IR here")
    };

    let vendor: Check = if f.vendor_files {
        Check::new(
            "vendor software",
            State::Optional,
            "/etc/argon is present. argon-utils does not need it, and the package retires the vendor's UPS daemons on install, recording what it disabled",
        )
    } else {
        Check::new("vendor software", State::Fine, "not installed")
    };

    let r: Vec<Check> = vec![package, ir_ctl, vendor];
    assert(findings(r@) =~= software_findings(*f));
    r
}

// ---------------------------------------------------------------------------------------------
// Access
// ---------------------------------------------------------------------------------------------

/// Whether a list of groups has this one.
pub open spec fn has_group(groups: Seq<String>, group: Seq<char>) -> bool {
    exists|i: int| 0 <= i < groups.len() && (#[trigger] groups[i])@ == group
}

/// What is found of the membership in a group.
pub open spec fn group_finding(
    f: Facts,
    group: Seq<char>,
    what: Seq<char>,
    needed: bool,
) -> Finding {
    let name = "group `"@ + group + "`"@;
    if has_group(f.groups@, group) {
        plain(name, State::Fine, "you are a member"@)
    } else if needed {
        fixed(
            name,
            State::Optional,
            "not a member; needed for "@ + what + " without sudo"@,
            "sudo adduser $USER "@ + group + "   # then log in again"@,
        )
    } else {
        plain(name, State::NotApplicable, "not needed here"@)
    }
}

/// What is found of the access to the devices.
pub open spec fn access_findings(f: Facts) -> Seq<Finding> {
    seq![
        group_finding(f, "i2c"@, "reading the MCU, OLED or fuel gauge by hand"@, f.header_bus),
        group_finding(f, "gpio"@, "watching the button and lid lines"@, true),
        group_finding(f, "video"@, "reading /dev/lirc0 for IR"@, f.lirc),
        plain(
            "group `argon`"@,
            State::Fine,
            "do not join it: it owns the UPS port and hidraw node so that exactly one process does. `argonctl ups` asks the daemon over D-Bus instead"@,
        ),
        if f.udev_rules {
            plain("udev rules"@, State::Fine, "installed"@)
        } else if f.ups_present {
            fixed(
                "udev rules"@,
                State::Missing,
                "a UPS is present but the rules are not installed, so its nodes stay root-only"@,
                "sudo apt install ../argon-utils_*.deb"@,
            )
        } else {
            plain("udev rules"@, State::NotApplicable, "no UPS present"@)
        },
    ]
}

fn is_member(groups: &Vec<String>, group: &str) -> (r: bool)
    ensures
        r == has_group(groups@, group@),
{
    let mut i: usize = 0;
    while i < groups.len()
        invariant
            i <= groups.len(),
            forall|j: int| 0 <= j < i ==> (#[trigger] groups@[j])@ != group@,
        decreases groups.len() - i,
    {
        if same(groups[i].as_str(), group) {
            return true;
        }
        i = i + 1;
    }
    false
}

fn group_check(f: &Facts, group: &str, what: &str, needed: bool) -> (c: Check)
    ensures
        c@ == group_finding(*f, group@, what@, needed),
{
    let mut name: String = join("group `", group);
    name.append("`");
    if is_member(&f.groups, group) {
        Check::new(name.as_str(), State::Fine, "you are a member")
    } else if needed {
        let mut detail: String = join("not a member; needed for ", what);
        detail.append(" without sudo");
        let mut fix: String = join("sudo adduser $USER ", group);
        fix.append("   # then log in again");
        Check::new(name.as_str(), State::Optional, detail.as_str()).with_fix(fix.as_str())
    } else {
        Check::new(name.as_str(), State::NotApplicable, "not needed here")
    }
}

fn access_checks(f: &Facts) -> (r: Vec<Check>)
    ensures
        findings(r@) == access_findings(*f),
{
    let i2c: Check = group_check(
        f,
        "i2c",
        "reading the MCU, OLED or fuel gauge by hand",
        f.header_bus,
    );
    let gpio: Check = group_check(f, "gpio", "watching the button and lid lines", true);
    let video: Check = group_check(f, "video", "reading /dev/lirc0 for IR", f.lirc);

    // Deliberately not a recommendation: the argon group owns a link with no arbitration.
    let argon: Check = Check::new(
        "group `argon`",
        State::Fine,
        "do not join it: it owns the UPS port and hidraw node so that exactly one process does. `argonctl ups` asks the daemon over D-Bus instead",
    );

    let udev: Check = if f.udev_rules {
        Check::new("udev rules", State::Fine, "installed")
    } else if f.ups_present {
        Check::new(
            "udev rules",
            State::Missing,
            "a UPS is present but the rules are not installed, so its nodes stay root-only",
        ).with_fix("sudo apt install ../argon-utils_*.deb")
    } else {
        Check::new("udev rules", State::NotApplicable, "no UPS present")
    };

    let r: Vec<Check> = vec![i2c, gpio, video, argon, udev];
    assert(findings(r@) =~= access_findings(*f));
    r
}

// ---------------------------------------------------------------------------------------------
// Services
// ---------------------------------------------------------------------------------------------

/// The names of the units that are active.
pub open spec fn active_units(units: Seq<(String, bool)>) -> Seq<Seq<char>>
    decreases units.len(),
{
    if units.len() == 0 {
        Seq::empty()
    } else if units.last().1 {
        active_units(units.drop_last()).push(units.last().0@)
    } else {
        active_units(units.drop_last())
    }
}

/// What is found of the services.
pub open spec fn service_findings(f: Facts) -> Seq<Finding> {
    let contending = active_units(f.vendor_units@);
    seq![
        if f.argond_active {
            plain("argond"@, State::Fine, "running"@)
        } else if f.package is Some {
            fixed(
                "argond"@,
                State::Missing,
                "installed but not running"@,
                "sudo systemctl start argond && journalctl -u argond -n 20 --no-pager"@,
            )
        } else {
            plain("argond"@, State::NotApplicable, "the package is not installed"@)
        },
        if contending.len() == 0 {
            plain("vendor daemons"@, State::Fine, "none active"@)
        } else {
            fixed(
                "vendor daemons"@,
                State::Missing,
                "active: "@ + joined(contending, ", "@)
                    + ". Two readers on the UPS serial port corrupt each other's frames"@,
                "sudo systemctl stop "@ + joined(contending, " "@),
            )
        },
    ]
}

fn service_checks(f: &Facts) -> (r: Vec<Check>)
    ensures
        findings(r@) == service_findings(*f),
{
    let argond: Check = if f.argond_active {
        Check::new("argond", State::Fine, "running")
    } else if f.package.is_some() {
        Check::new("argond", State::Missing, "installed but not running").with_fix(
            "sudo systemctl start argond && journalctl -u argond -n 20 --no-pager",
        )
    } else {
        Check::new("argond", State::NotApplicable, "the package is not installed")
    };

    let mut contending: Vec<String> = Vec::new();
    let mut i: usize = 0;
    assert(f.vendor_units@.take(0) =~= Seq::<(String, bool)>::empty());
    assert(texts(contending@) =~= active_units(f.vendor_units@.take(0)));
    while i < f.vendor_units.len()
        invariant
            i <= f.vendor_units.len(),
            texts(contending@) == active_units(f.vendor_units@.take(i as int)),
        decreases f.vendor_units.len() - i,
    {
        let ghost before = contending@;
        let unit: &(String, bool) = &f.vendor_units[i];
        assert(f.vendor_units@.take(i + 1).drop_last() =~= f.vendor_units@.take(i as int));
        if unit.1 {
            contending.push(unit.0.as_str().to_owned());
            assert(texts(contending@) =~= texts(before).push(unit.0@));
        }
        i = i + 1;
    }
    assert(f.vendor_units@.take(i as int) =~= f.vendor_units@);
    assert(texts(contending@).len() == contending@.len());
    let vendor: Check = if contending.len() == 0 {
        Check::new("vendor daemons", State::Fine, "none active")
    } else {
        let mut detail: String = join("active: ", join_all(&contending, ", ").as_str());
        detail.append(". Two readers on the UPS serial port corrupt each other's frames");
        let fix: String = join("sudo systemctl stop ", join_all(&contending, " ").as_str());
        Check::new("vendor daemons", State::Missing, detail.as_str()).with_fix(fix.as_str())
    };

    let r: Vec<Check> = vec![argond, vendor];
    assert(findings(r@) =~= service_findings(*f));
    r
}

// ---------------------------------------------------------------------------------------------
// Printing
// ---------------------------------------------------------------------------------------------

/// How many of the findings are missing something.
pub open spec fn missing_among(fs: Seq<Finding>) -> nat
    decreases fs.len(),
{
    if fs.len() == 0 {
        0
    } else if fs.last().state == State::Missing {
        missing_among(fs.drop_last()) + 1
    } else {
        missing_among(fs.drop_last())
    }
}

/// How many of the findings, over all sections, are missing something.
pub open spec fn missing_in(ss: Seq<(Seq<char>, Seq<Finding>)>) -> nat
    decreases ss.len(),
{
    if ss.len() == 0 {
        0
    } else {
        missing_in(ss.drop_last()) + missing_among(ss.last().1)
    }
}

/// The lines that one finding is printed as.
pub open spec fn finding_text(f: Finding) -> Seq<char> {
    let line = "  ["@ + f.state.sign() + "] "@ + pad_right(f.name, 22) + " "@ + f.detail + "\n"@;
    match f.fix {
        Some(fix) => line + "       -> "@ + fix + "\n"@,
        None => line,
    }
}

/// The lines that a list of findings is printed as.
pub open spec fn findings_text(fs: Seq<Finding>) -> Seq<char>
    decreases fs.len(),
{
    if fs.len() == 0 {
        Seq::empty()
    } else {
        findings_text(fs.drop_last()) + finding_text(fs.last())
    }
}

/// The lines that a list of sections is printed as: a heading, underlined, and the findings.
pub open spec fn sections_text(ss: Seq<(Seq<char>, Seq<Finding>)>) -> Seq<char>
    decreases ss.len(),
{
    if ss.len() == 0 {
        Seq::empty()
    } else {
        sections_text(ss.drop_last()) + (ss.last().0 + "\n"@ + run_of('-', ss.last().0.len())
            + "\n"@ + findings_text(ss.last().1) + "\n"@)
    }
}

/// All that is printed.
pub open spec fn report_text(model: Seq<char>, ss: Seq<(Seq<char>, Seq<Finding>)>) -> Seq<char> {
    let body = "Setup check for "@ + model + "\n\n"@ + sections_text(ss);
    if missing_in(ss) == 0 {
        body + "Nothing missing. Lines marked -- are optional extras.\n"@
    } else {
        body + decimal(missing_in(ss)) + " thing(s) need attention, with the command beside each.\n"@
    }
}

fn check_text(c: &Check) -> (s: String)
    ensures
        s@ == finding_text(c@),
{
    let mut s: String = join("  [", c.state.mark());
    s.append("] ");
    s.append(left_aligned(c.name.as_str(), 22).as_str());
    s.append(" ");
    s.append(c.detail.as_str());
    s.append("\n");
    if let Some(fix) = &c.fix {
        s.append("       -> ");
        s.append(fix.as_str());
        s.append("\n");
    }
    s
}

fn checks_text(cs: &Vec<Check>) -> (s: String)
    ensures
        s@ == findings_text(findings(cs@)),
{
    let mut s: String = String::new();
    let mut i: usize = 0;
    assert(findings(cs@).take(0) =~= Seq::<Finding>::empty());
    while i < cs.len()
        invariant
            i <= cs.len(),
            s@ == findings_text(findings(cs@).take(i as int)),
        decreases cs.len() - i,
    {
        assert(findings(cs@).take(i + 1).drop_last() =~= findings(cs@).take(i as int));
        s.append(check_text(&cs[i]).as_str());
        i = i + 1;
    }
    assert(findings(cs@).take(i as int) =~= findings(cs@));
    s
}

/// How many of the checks are missing something.
fn missing_checks(cs: &Vec<Check>) -> (n: usize)
    ensures
        n == missing_among(findings(cs@)),
        n <= cs.len(),
{
    let mut n: usize = 0;
    let mut i: usize = 0;
    assert(findings(cs@).take(0) =~= Seq::<Finding>::empty());
    while i < cs.len()
        invariant
            i <= cs.len(),
            n <= i,
            n == missing_among(findings(cs@).take(i as int)),
        decreases cs.len() - i,
    {
        assert(findings(cs@).take(i + 1).drop_last() =~= findings(cs@).take(i as int));
        assert(findings(cs@).take(i + 1).last() == cs@[i as int]@);
        if cs[i].state == State::Missing {
            n = n + 1;
        }
        i = i + 1;
    }
    assert(findings(cs@).take(i as int) =~= findings(cs@));
    n
}

/// How many checks, over all sections, are missing something, where the number fits.
fn missing(sections: &Vec<Section>) -> (n: u64)
    requires
        missing_in(outline(sections@)) <= u64::MAX,
    ensures
        n == missing_in(outline(sections@)),
{
    let mut n: u64 = 0;
    let mut i: usize = 0;
    assert(outline(sections@).take(0) =~= Seq::<(Seq<char>, Seq<Finding>)>::empty());
    while i < sections.len()
        invariant
            i <= sections.len(),
            n == missing_in(outline(sections@).take(i as int)),
            missing_in(outline(sections@)) <= u64::MAX,
        decreases sections.len() - i,
    {
        assert(outline(sections@).take(i + 1).drop_last() =~= outline(sections@).take(i as int));
        assert(outline(sections@).take(i + 1).last() == (
            sections@[i as int].name@,
            findings(sections@[i as int].checks@),
        ));
        proof {
            lemma_missing_grows(outline(sections@), i + 1);
        }
        n = n + missing_checks(&sections[i].checks) as u64;
        i = i + 1;
    }
    assert(outline(sections@).take(i as int) =~= outline(sections@));
    n
}

proof fn lemma_missing_grows(ss: Seq<(Seq<char>, Seq<Finding>)>, k: int)
    requires
        0 <= k <= ss.len(),
    ensures
        missing_in(ss.take(k)) <= missing_in(ss),
    decreases ss.len() - k,
{
    if k < ss.len() {
        lemma_missing_grows(ss, k + 1);
        assert(ss.take(k + 1).drop_last() =~= ss.take(k));
    } else {
        assert(ss.take(k) =~= ss);
    }
}

/// The checks, as they are printed.
fn report(model: &str, sections: &Vec<Section>) -> (s: String)
    requires
        missing_in(outline(sections@)) <= u64::MAX,
    ensures
        s@ == report_text(model@, outline(sections@)),
{
    let mut body: String = String::new();
    let mut i: usize = 0;
    assert(outline(sections@).take(0) =~= Seq::<(Seq<char>, Seq<Finding>)>::empty());
    while i < sections.len()
        invariant
            i <= sections.len(),
            body@ == sections_text(outline(sections@).take(i as int)),
        decreases sections.len() - i,
    {
        let section: &Section = &sections[i];
        assert(outline(sections@).take(i + 1).drop_last() =~= outline(sections@).take(i as int));
        let mut part: String = join(section.name, "\n");
        part.append(repeat('-', section.name.unicode_len()).as_str());
        part.append("\n");
        part.append(checks_text(&section.checks).as_str());
        part.append("\n");
        body.append(part.as_str());
        i = i + 1;
    }
    assert(outline(sections@).take(i as int) =~= outline(sections@));
    let mut s: String = join("Setup check for ", model);
    s.append("\n\n");
    s.append(body.as_str());
    let n: u64 = missing(sections);
    if n == 0 {
        s.append("Nothing missing. Lines marked -- are optional extras.\n");
    } else {
        s.append(decimal_of(n).as_str());
        s.append(" thing(s) need attention, with the command beside each.\n");
    }
    s
}

/// What is said of a finding in JSON.
pub open spec fn finding_tree(f: Finding) -> Tree {
    Tree::Object(
        seq![
            ("name"@, Tree::Text(f.name)),
            ("state"@, Tree::Text(f.state.word())),
            ("detail"@, Tree::Text(f.detail)),
            (
                "fix"@,
                match f.fix {
                    Some(s) => Tree::Text(s),
                    None => Tree::Null,
                },
            ),
        ],
    )
}

/// What is said of a section in JSON.
pub open spec fn section_tree(s: (Seq<char>, Seq<Finding>)) -> Tree {
    Tree::Object(
        seq![
            ("section"@, Tree::Text(s.0)),
            ("checks"@, Tree::List(s.1.map_values(|f: Finding| finding_tree(f)))),
        ],
    )
}

/// What is said of all of it in JSON.
pub open spec fn review_tree(model: Seq<char>, ss: Seq<(Seq<char>, Seq<Finding>)>) -> Tree {
    Tree::Object(
        seq![
            ("model"@, Tree::Text(model)),
            ("missing"@, Tree::Number(missing_in(ss) as int)),
            (
                "sections"@,
                Tree::List(ss.map_values(|s: (Seq<char>, Seq<Finding>)| section_tree(s))),
            ),
        ],
    )
}

fn check_json(c: &Check) -> (j: Json)
    ensures
        j.tree() == finding_tree(c@),
{
    let mut v: Vec<Member> = no_members();
    put(&mut v, "name", Json::text(c.name.as_str()));
    put(&mut v, "state", Json::text(c.state.name()));
    put(&mut v, "detail", Json::text(c.detail.as_str()));
    put(&mut v, "fix", Json::text_or_null(&c.fix));
    assert(members(v@) =~= finding_tree(c@)->Object_0);
    Json::object(v)
}

fn section_json(s: &Section) -> (j: Json)
    ensures
        j.tree() == section_tree((s.name@, findings(s.checks@))),
{
    let mut list: Vec<Json> = Vec::new();
    let mut i: usize = 0;
    while i < s.checks.len()
        invariant
            i <= s.checks.len(),
            trees(list@) == findings(s.checks@).take(i as int).map_values(
                |f: Finding| finding_tree(f),
            ),
        decreases s.checks.len() - i,
    {
        let ghost before = list@;
        let j: Json = check_json(&s.checks[i]);
        list.push(j);
        i = i + 1;
        assert(trees(list@) =~= trees(before).push(j.tree()));
        assert(findings(s.checks@).take(i as int).map_values(|f: Finding| finding_tree(f))
            =~= findings(s.checks@).take(i - 1).map_values(|f: Finding| finding_tree(f)).push(
            finding_tree(s.checks@[i - 1]@),
        ));
    }
    assert(findings(s.checks@).take(i as int) =~= findings(s.checks@));
    let mut v: Vec<Member> = no_members();
    put(&mut v, "section", Json::text(s.name));
    put(&mut v, "checks", Json::list(list));
    assert(members(v@) =~= section_tree((s.name@, findings(s.checks@)))->Object_0);
    Json::object(v)
}

/// The checks in JSON.
fn json(facts: &Facts, sections: &Vec<Section>) -> (j: Json)
    requires
        missing_in(outline(sections@)) <= u64::MAX,
    ensures
        j.tree() == review_tree(facts.model@, outline(sections@)),
{
    let mut list: Vec<Json> = Vec::new();
    let mut i: usize = 0;
    let ghost each = |s: (Seq<char>, Seq<Finding>)| section_tree(s);
    while i < sections.len()
        invariant
            i <= sections.len(),
            each == (|s: (Seq<char>, Seq<Finding>)| section_tree(s)),
            trees(list@) == outline(sections@).take(i as int).map_values(each),
        decreases sections.len() - i,
    {
        let ghost before = list@;
        let j: Json = section_json(&sections[i]);
        list.push(j);
        i = i + 1;
        assert(trees(list@) =~= trees(before).push(j.tree()));
        assert(outline(sections@).take(i as int).map_values(each) =~= outline(sections@).take(
            i - 1,
        ).map_values(each).push(j.tree()));
    }
    assert(outline(sections@).take(i as int) =~= outline(sections@));
    let mut v: Vec<Member> = no_members();
    put(&mut v, "model", Json::text(facts.model.as_str()));
    put(&mut v, "missing", Json::number(missing(sections)));
    put(&mut v, "sections", Json::list(list));
    assert(members(v@) =~= review_tree(facts.model@, outline(sections@))->Object_0);
    Json::object(v)
}

proof fn lemma_missing_bound(fs: Seq<Finding>)
    ensures
        missing_among(fs) <= fs.len(),
    decreases fs.len(),
{
    if fs.len() > 0 {
        lemma_missing_bound(fs.drop_last());
    }
}

proof fn lemma_review_is_short(f: Facts)
    ensures
        missing_in(reviewed(f)) <= 14,
{
    let r = reviewed(f);
    assert(r.drop_last().drop_last().drop_last().drop_last() =~= Seq::<
        (Seq<char>, Seq<Finding>),
    >::empty());
    reveal_with_fuel(missing_in, 5);
    lemma_missing_bound(boot_findings(f));
    lemma_missing_bound(software_findings(f));
    lemma_missing_bound(access_findings(f));
    lemma_missing_bound(service_findings(f));
}

/// What `argonctl setup` prints of a machine.
pub fn setup_text(facts: &Facts) -> (s: String)
    ensures
        s@ == report_text(facts.model@, reviewed(*facts)),
{
    let sections: Vec<Section> = review(facts);
    proof {
        lemma_review_is_short(*facts);
    }
    report(facts.model.as_str(), &sections)
}

/// What `argonctl setup --json` says of a machine.
pub fn setup_json(facts: &Facts) -> (j: Json)
    ensures
        j.tree() == review_tree(facts.model@, reviewed(*facts)),
{
    let sections: Vec<Section> = review(facts);
    proof {
        lemma_review_is_short(*facts);
    }
    json(facts, &sections)
}

/// Joining the group `argon` is never the advice: its own check offers no command, and no command
/// of the access checks adds a user to it.
pub proof fn law_joining_argon_is_never_advised(f: Facts, i: int)
    requires
        0 <= i < access_findings(f).len(),
    ensures
        access_findings(f)[3].name == "group `argon`"@,
        access_findings(f)[3].fix is None,
        access_findings(f)[i].fix is Some ==> !crate::text::begins(
            access_findings(f)[i].fix->0,
            "sudo adduser $USER argon"@,
        ),
{
    let p = "sudo adduser $USER argon"@;
    reveal_strlit("sudo adduser $USER argon");
    reveal_strlit("sudo adduser $USER ");
    reveal_strlit("i2c");
    reveal_strlit("gpio");
    reveal_strlit("video");
    reveal_strlit("sudo apt install ../argon-utils_*.deb");
    if access_findings(f)[i].fix is Some {
        let x = access_findings(f)[i].fix->0;
        if crate::text::begins(x, p) {
            assert(x.take(p.len() as int)[19] == x[19]);
            assert(x.take(p.len() as int)[6] == x[6]);
            assert(p[19] == 'a');
            assert(p[6] == 'd');
            if i < 3 {
                assert(x[19] == 'i' || x[19] == 'g' || x[19] == 'v');
            } else {
                assert(x[6] == 'p');
            }
        }
    }
}

/// A `config.txt` that cannot be read is one clear failure, not four guesses.
pub proof fn law_unreadable_config_is_one_failure(f: Facts)
    requires
        f.config_txt is None,
    ensures
        boot_findings(f).len() == 1,
        boot_findings(f)[0].state == State::Missing,
{
}

/// Whatever is missing in the boot configuration, with the file readable, comes with the command
/// that mends it.
pub proof fn law_missing_boot_setting_has_a_fix(f: Facts, i: int)
    requires
        f.config_txt is Some,
        0 <= i < boot_findings(f).len(),
        boot_findings(f)[i].state == State::Missing,
    ensures
        boot_findings(f)[i].fix is Some,
{
}

proof fn lemma_review_by_section(f: Facts, r: Seq<Section>)
    requires
        outline(r) == reviewed(f),
    ensures
        r.len() == 4,
        r[0].name@ == "Boot configuration"@ && findings(r[0].checks@) == boot_findings(f),
        r[1].name@ == "Software"@ && findings(r[1].checks@) == software_findings(f),
        r[2].name@ == "Access"@ && findings(r[2].checks@) == access_findings(f),
        r[3].name@ == "Services"@ && findings(r[3].checks@) == service_findings(f),
        forall|s: int, i: int|
            #![trigger r[s].checks@[i]]
            0 <= s < 4 && 0 <= i < r[s].checks@.len() ==> r[s].checks@[i]@ == findings(
                r[s].checks@,
            )[i],
        forall|s: int| 0 <= s < 4 ==> (#[trigger] r[s]).checks@.len() == findings(r[s].checks@).len(),
{
    assert(outline(r).len() == r.len());
    assert(outline(r)[0] == (r[0].name@, findings(r[0].checks@)));
    assert(outline(r)[1] == (r[1].name@, findings(r[1].checks@)));
    assert(outline(r)[2] == (r[2].name@, findings(r[2].checks@)));
    assert(outline(r)[3] == (r[3].name@, findings(r[3].checks@)));
}

/// The bus on the header is fine where it is there; where it is not, it is missing if `config.txt` asks
/// for it or a device here sits on it, and optional otherwise.
pub proof fn law_the_bus_is_missing_where_something_needs_it(f: &Facts, r: Vec<Section>)
    requires
        call_ensures(review, (f,), r),
        f.config_txt is Some,
    ensures
        ({
            let c = r@[0].checks@[0];
            let asked = active(
                (f.config_txt->0)@,
                "dtparam"@,
                "i2c_arm=on"@,
                board_sections(f.model@),
            );
            let needed = f.mcu_answers == Some(true) || f.oled_answers == Some(true)
                || f.gauge_answers == Some(true) || holds(lower(f.model@), "compute module 5"@);
            &&& c.name@ == "header I2C bus"@
            &&& c.state == State::Fine <==> f.header_bus
            &&& c.state == State::Missing <==> !f.header_bus && (asked || needed)
            &&& c.state == State::Optional <==> !f.header_bus && !asked && !needed
            &&& c.fix is None <==> f.header_bus
            &&& !f.header_bus && asked ==> (c.fix->0)@ == "sudo reboot"@
            &&& !f.header_bus && !asked && needed ==> (c.fix->0)@
                == "echo 'dtparam=i2c_arm=on' | sudo tee -a "@ + f.config_path@ + " && sudo reboot"@
            &&& !f.header_bus && !asked && !needed ==> (c.fix->0)@
                == "echo 'dtparam=i2c_arm=on' | sudo tee -a "@ + f.config_path@
        }),
{
    lemma_review_by_section(*f, r@);
    let c = r@[0].checks@[0];
    assert(c@ == i2c_finding(*f, (f.config_txt->0)@));
}

/// The internal hub is fine where the UPS is seen or the overlay is set, optional on a Pi 5 otherwise,
/// and no matter on another board.
pub proof fn law_the_hub_matters_on_a_pi_5(f: &Facts, r: Vec<Section>)
    requires
        call_ensures(review, (f,), r),
        f.config_txt is Some,
    ensures
        ({
            let c = r@[0].checks@[1];
            let up = f.ups_present || active_prefix(
                (f.config_txt->0)@,
                "dtoverlay"@,
                "dwc2"@,
                board_sections(f.model@),
            );
            let pi5 = holds(lower(f.model@), "pi 5"@) || holds(
                lower(f.model@),
                "compute module 5"@,
            );
            &&& c.name@ == "internal USB hub"@
            &&& c.state == State::Fine <==> up
            &&& c.state == State::Optional <==> !up && pi5
            &&& c.state == State::NotApplicable <==> !up && !pi5
            &&& !up && pi5 ==> c.fix is Some && (c.fix->0)@
                == "echo 'dtoverlay=dwc2,dr_mode=host' | sudo tee -a "@ + f.config_path@
        }),
{
    lemma_review_by_section(*f, r@);
    let c = r@[0].checks@[1];
    assert(c@ == hub_finding(*f, (f.config_txt->0)@));
}

/// The receiver is fine where it is configured and bound, missing where it is only one of the two, and
/// optional where it is neither.
pub proof fn law_a_receiver_is_configured_and_bound(f: &Facts, r: Vec<Section>)
    requires
        call_ensures(review, (f,), r),
        f.config_txt is Some,
    ensures
        ({
            let c = r@[0].checks@[2];
            let set = active_prefix(
                (f.config_txt->0)@,
                "dtoverlay"@,
                "gpio-ir"@,
                board_sections(f.model@),
            );
            &&& c.name@ == "IR receiver"@
            &&& c.state == State::Fine <==> set && f.lirc
            &&& c.state == State::Missing <==> set != f.lirc
            &&& c.state == State::Optional <==> !set && !f.lirc
            &&& set && !f.lirc ==> c.fix is Some && (c.fix->0)@ == "sudo reboot"@
            &&& !set && f.lirc ==> c.fix is Some && (c.fix->0)@
                == "echo 'dtoverlay=gpio-ir,gpio_pin=23' | sudo tee -a "@ + f.config_path@
            &&& !set && !f.lirc ==> c.fix is Some && (c.fix->0)@
                == "echo 'dtoverlay=gpio-ir,gpio_pin=23' | sudo tee -a "@ + f.config_path@
                + " && sudo reboot"@
        }),
{
    lemma_review_by_section(*f, r@);
    let c = r@[0].checks@[2];
    assert(c@ == ir_finding(*f, (f.config_txt->0)@));
}

/// The lid switch matters on a ONE UP only, where it is fine with the overlay and optional without.
pub proof fn law_the_lid_matters_on_a_one_up(f: &Facts, r: Vec<Section>)
    requires
        call_ensures(review, (f,), r),
        f.config_txt is Some,
    ensures
        ({
            let c = r@[0].checks@[3];
            let one_up = f.gauge_answers == Some(true) || holds(
                lower(f.model@),
                "compute module 5"@,
            );
            let set = active_prefix(
                (f.config_txt->0)@,
                "dtoverlay"@,
                "argon-oneup-lid"@,
                board_sections(f.model@),
            );
            &&& r@[0].checks@.len() == 4
            &&& c.name@ == "ONE UP lid switch"@
            &&& c.state == State::NotApplicable <==> !one_up
            &&& c.state == State::Fine <==> one_up && set
            &&& c.state == State::Optional <==> one_up && !set
            &&& one_up && !set ==> c.fix is Some && (c.fix->0)@
                == "sudo /usr/libexec/argon-utils/oneup-takeover"@
        }),
{
    lemma_review_by_section(*f, r@);
    let c = r@[0].checks@[3];
    assert(c@ == lid_finding(*f, (f.config_txt->0)@));
}

/// The software is checked as it is: the package, the IR tool where there can be IR, and the vendor's
/// files, which are never a fault.
pub proof fn law_the_software_is_checked_as_it_is(f: &Facts, r: Vec<Section>)
    requires
        call_ensures(review, (f,), r),
    ensures
        ({
            let package = r@[1].checks@[0];
            let tool = r@[1].checks@[1];
            let vendor = r@[1].checks@[2];
            let pi5 = holds(lower(f.model@), "pi 5"@) || holds(
                lower(f.model@),
                "compute module 5"@,
            );
            &&& r@[1].checks@.len() == 3
            &&& f.package is Some ==> package.state == State::Fine && package.detail@
                == "version "@ + (f.package->0)@
            &&& f.package is None ==> package.state == State::Optional && package.fix is Some
            &&& tool.state == State::Fine <==> f.ir_ctl
            &&& tool.state == State::Optional <==> !f.ir_ctl && (f.lirc || !pi5)
            &&& tool.state == State::NotApplicable <==> !f.ir_ctl && !f.lirc && pi5
            &&& tool.state == State::Optional ==> tool.fix is Some && (tool.fix->0)@
                == "sudo apt install v4l-utils"@
            &&& vendor.state == State::Optional <==> f.vendor_files
            &&& vendor.state == State::Fine <==> !f.vendor_files
        }),
{
    lemma_review_by_section(*f, r@);
    let c = software_findings(*f);
    assert(r@[1].checks@[0]@ == c[0]);
    assert(r@[1].checks@[1]@ == c[1]);
    assert(r@[1].checks@[2]@ == c[2]);
}

/// A group that one is in is fine, one that is needed for what is here comes with the command to join
/// it, and the rules for the UPS are missing exactly where there is a UPS and no rules.
pub proof fn law_access_is_checked_for_what_is_here(f: &Facts, r: Vec<Section>)
    requires
        call_ensures(review, (f,), r),
    ensures
        ({
            let i2c = r@[2].checks@[0];
            let gpio = r@[2].checks@[1];
            let video = r@[2].checks@[2];
            let udev = r@[2].checks@[4];
            &&& r@[2].checks@.len() == 5
            &&& i2c.state == State::Fine <==> (exists|i: int|
                0 <= i < f.groups@.len() && (#[trigger] f.groups@[i])@ == "i2c"@)
            &&& gpio.state == State::Fine <==> (exists|i: int|
                0 <= i < f.groups@.len() && (#[trigger] f.groups@[i])@ == "gpio"@)
            &&& video.state == State::Fine <==> (exists|i: int|
                0 <= i < f.groups@.len() && (#[trigger] f.groups@[i])@ == "video"@)
            &&& i2c.state == State::Optional ==> f.header_bus && i2c.fix is Some && (i2c.fix->0)@
                == "sudo adduser $USER "@ + "i2c"@ + "   # then log in again"@
            &&& i2c.state == State::NotApplicable ==> !f.header_bus
            &&& gpio.state != State::Fine ==> gpio.state == State::Optional && gpio.fix is Some
                && (gpio.fix->0)@ == "sudo adduser $USER "@ + "gpio"@ + "   # then log in again"@
            &&& video.state == State::Optional ==> f.lirc && video.fix is Some && (video.fix->0)@
                == "sudo adduser $USER "@ + "video"@ + "   # then log in again"@
            &&& video.state == State::NotApplicable ==> !f.lirc
            &&& i2c.state != State::Missing && video.state != State::Missing
            &&& r@[2].checks@[3].state == State::Fine
            &&& udev.state == State::Fine <==> f.udev_rules
            &&& udev.state == State::Missing <==> !f.udev_rules && f.ups_present
            &&& udev.state == State::NotApplicable <==> !f.udev_rules && !f.ups_present
        }),
{
    lemma_review_by_section(*f, r@);
    let c = access_findings(*f);
    assert(r@[2].checks@[0]@ == c[0]);
    assert(r@[2].checks@[1]@ == c[1]);
    assert(r@[2].checks@[2]@ == c[2]);
    assert(r@[2].checks@[3]@ == c[3]);
    assert(r@[2].checks@[4]@ == c[4]);
}

/// The daemon is missing where it is installed and does not run, and a vendor's daemon that runs is one
/// thing to mend, by a command that stops every one of them.
pub proof fn law_a_vendor_daemon_that_runs_is_to_be_stopped(f: &Facts, r: Vec<Section>)
    requires
        call_ensures(review, (f,), r),
    ensures
        ({
            let argond = r@[3].checks@[0];
            let vendor = r@[3].checks@[1];
            &&& r@[3].checks@.len() == 2
            &&& argond.state == State::Fine <==> f.argond_active
            &&& argond.state == State::Missing <==> !f.argond_active && f.package is Some
            &&& argond.state == State::NotApplicable <==> !f.argond_active && f.package is None
            &&& vendor.state == State::Missing <==> (exists|i: int|
                0 <= i < f.vendor_units@.len() && (#[trigger] f.vendor_units@[i]).1)
            &&& vendor.state != State::Missing ==> vendor.state == State::Fine
            &&& vendor.state == State::Missing ==> vendor.fix is Some && crate::text::begins(
                (vendor.fix->0)@,
                "sudo systemctl stop "@,
            )
            &&& forall|i: int|
                0 <= i < f.vendor_units@.len() && (#[trigger] f.vendor_units@[i]).1
                    ==> vendor.fix is Some && holds((vendor.fix->0)@, f.vendor_units@[i].0@) && holds(
                    vendor.detail@,
                    f.vendor_units@[i].0@,
                )
        }),
{
    lemma_review_by_section(*f, r@);
    let c = service_findings(*f);
    assert(r@[3].checks@[0]@ == c[0]);
    let vendor = r@[3].checks@[1];
    assert(vendor@ == c[1]);
    let units = f.vendor_units@;
    let names = active_units(units);
    lemma_active_units(units);
    if names.len() > 0 {
        let stop = "sudo systemctl stop "@;
        assert((vendor.fix->0)@.take(stop.len() as int) =~= stop);
        assert(names.contains(names[0]));
    }
    assert forall|i: int| 0 <= i < units.len() && (#[trigger] units[i]).1 implies vendor.fix is Some
        && holds((vendor.fix->0)@, units[i].0@) && holds(vendor.detail@, units[i].0@) by {
        let n = units[i].0@;
        assert(names.contains(n));
        lemma_a_part_is_held(names, " "@, n, "sudo systemctl stop "@, Seq::empty());
        lemma_a_part_is_held(
            names,
            ", "@,
            n,
            "active: "@,
            ". Two readers on the UPS serial port corrupt each other's frames"@,
        );
        assert("sudo systemctl stop "@ + joined(names, " "@) + Seq::empty()
            =~= "sudo systemctl stop "@ + joined(names, " "@));
    }
}

proof fn lemma_active_units(units: Seq<(String, bool)>)
    ensures
        forall|i: int|
            0 <= i < units.len() && (#[trigger] units[i]).1 ==> active_units(units).contains(
                units[i].0@,
            ),
        forall|n: Seq<char>| #[trigger]
            active_units(units).contains(n) ==> exists|i: int|
                0 <= i < units.len() && (#[trigger] units[i]).1 && units[i].0@ == n,
    decreases units.len(),
{
    if units.len() > 0 {
        let before = units.drop_last();
        let names = active_units(before);
        let all = active_units(units);
        lemma_active_units(before);
        if units.last().1 {
            assert(all == names.push(units.last().0@));
            assert(all.last() == units.last().0@);
            assert forall|n: Seq<char>| names.contains(n) implies #[trigger] all.contains(n) by {
                assert(all[names.index_of(n)] == n);
            }
        }
        assert forall|i: int| 0 <= i < units.len() && (#[trigger] units[i]).1 implies all.contains(
            units[i].0@,
        ) by {
            if i < units.len() - 1 {
                assert(before[i] == units[i]);
            }
        }
        assert forall|n: Seq<char>| #[trigger] all.contains(n) implies exists|i: int|
            0 <= i < units.len() && (#[trigger] units[i]).1 && units[i].0@ == n by {
            if names.contains(n) {
                let i = choose|i: int|
                    0 <= i < before.len() && (#[trigger] before[i]).1 && before[i].0@ == n;
                assert(units[i] == before[i]);
            } else {
                let j = all.index_of(n);
                assert(j == all.len() - 1) by {
                    if j < names.len() {
                        assert(names[j] == n);
                    }
                }
                assert(units[units.len() - 1].1);
            }
        }
    }
}

proof fn lemma_a_part_is_held(
    parts: Seq<Seq<char>>,
    sep: Seq<char>,
    part: Seq<char>,
    before: Seq<char>,
    after: Seq<char>,
)
    requires
        parts.contains(part),
    ensures
        holds(before + joined(parts, sep) + after, part),
    decreases parts.len(),
{
    let all = before + joined(parts, sep) + after;
    let i = parts.index_of(part);
    if parts.len() == 1 {
        assert(all.subrange(before.len() as int, (before.len() + part.len()) as int) =~= part);
        assert(crate::text::stands_at(all, part, before.len() as int));
    } else if i == parts.len() - 1 {
        let at = before.len() + joined(parts.drop_last(), sep).len() + sep.len();
        assert(all.subrange(at as int, (at + part.len()) as int) =~= part);
        assert(crate::text::stands_at(all, part, at as int));
    } else {
        assert(parts.drop_last()[i] == part);
        lemma_a_part_is_held(parts.drop_last(), sep, part, before, sep + parts.last() + after);
        assert(before + joined(parts.drop_last(), sep) + (sep + parts.last() + after) =~= all);
    }
}

/// Where nothing is missing, that is said, and otherwise how many things are; in JSON the same number
/// stands beside the sections, in their order.
pub proof fn law_what_is_missing_is_counted(
    f: &Facts,
    r: Vec<Section>,
    s: String,
    j: Json,
)
    requires
        call_ensures(review, (f,), r),
        call_ensures(setup_text, (f,), s),
        call_ensures(setup_json, (f,), j),
    ensures
        ({
            let none = forall|a: int, i: int|
                #![trigger r@[a].checks@[i]]
                0 <= a < r@.len() && 0 <= i < r@[a].checks@.len() ==> r@[a].checks@[i].state
                    != State::Missing;
            &&& crate::text::begins(s@, "Setup check for "@ + f.model@ + "\n\n"@)
            &&& none ==> crate::text::ends(
                s@,
                "Nothing missing. Lines marked -- are optional extras.\n"@,
            )
            &&& !none ==> crate::text::ends(
                s@,
                " thing(s) need attention, with the command beside each.\n"@,
            )
            &&& j.tree() is Object
            &&& (j.tree()->Object_0)[0] == ("model"@, Tree::Text(f.model@))
            &&& (j.tree()->Object_0)[1].0 == "missing"@
            &&& none <==> (j.tree()->Object_0)[1].1 == Tree::Number(0)
            &&& (j.tree()->Object_0)[2].0 == "sections"@
            &&& (j.tree()->Object_0)[2].1 is List
            &&& ((j.tree()->Object_0)[2].1->List_0).len() == 4
        }),
{
    lemma_review_by_section(*f, r@);
    let ss = reviewed(*f);
    assert(ss.drop_last().drop_last().drop_last().drop_last() =~= Seq::<
        (Seq<char>, Seq<Finding>),
    >::empty());
    reveal_with_fuel(missing_in, 5);
    lemma_missing_is_some(boot_findings(*f));
    lemma_missing_is_some(software_findings(*f));
    lemma_missing_is_some(access_findings(*f));
    lemma_missing_is_some(service_findings(*f));
    assert(ss[0].1 == boot_findings(*f) && ss[1].1 == software_findings(*f));
    assert(ss[2].1 == access_findings(*f) && ss[3].1 == service_findings(*f));
    let none = forall|a: int, i: int|
        #![trigger r@[a].checks@[i]]
        0 <= a < r@.len() && 0 <= i < r@[a].checks@.len() ==> r@[a].checks@[i].state
            != State::Missing;
    if none {
        assert forall|a: int, i: int| 0 <= a < 4 && 0 <= i < ss[a].1.len() implies (#[trigger] ss[a].1[i]).state
            != State::Missing by {
            assert(ss[a].1 == findings(r@[a].checks@));
            assert(r@[a].checks@[i].state != State::Missing);
        }
        assert(missing_among(ss[0].1) == 0);
        assert(missing_among(ss[1].1) == 0);
        assert(missing_among(ss[2].1) == 0);
        assert(missing_among(ss[3].1) == 0);
        assert(missing_in(ss) == 0);
    } else {
        let (a, i) = choose|a: int, i: int|
            #![trigger r@[a].checks@[i]]
            0 <= a < r@.len() && 0 <= i < r@[a].checks@.len() && r@[a].checks@[i].state
                == State::Missing;
        assert(ss[a].1 == findings(r@[a].checks@));
        assert(ss[a].1[i].state == State::Missing);
        assert(missing_among(ss[a].1) > 0);
        assert(missing_in(ss) > 0);
    }
    let h = "Setup check for "@ + f.model@ + "\n\n"@;
    assert(s@.take(h.len() as int) =~= h);
    let yes = "Nothing missing. Lines marked -- are optional extras.\n"@;
    let no = " thing(s) need attention, with the command beside each.\n"@;
    if missing_in(ss) == 0 {
        assert(s@.skip(s@.len() - yes.len()) =~= yes);
    } else {
        assert(s@.skip(s@.len() - no.len()) =~= no);
    }
}

proof fn lemma_missing_is_some(fs: Seq<Finding>)
    ensures
        missing_among(fs) == 0 <==> forall|i: int|
            0 <= i < fs.len() ==> (#[trigger] fs[i]).state != State::Missing,
    decreases fs.len(),
{
    if fs.len() > 0 {
        lemma_missing_is_some(fs.drop_last());
        assert(fs.last() == fs[fs.len() - 1]);
        if missing_among(fs) == 0 {
            assert forall|i: int| 0 <= i < fs.len() implies (#[trigger] fs[i]).state
                != State::Missing by {
                if i < fs.len() - 1 {
                    assert(fs.drop_last()[i] == fs[i]);
                }
            }
        } else if forall|i: int| 0 <= i < fs.len() ==> (#[trigger] fs[i]).state != State::Missing {
            assert forall|i: int| 0 <= i < fs.drop_last().len() implies (#[trigger] fs.drop_last()[i]).state
                != State::Missing by {
                assert(fs.drop_last()[i] == fs[i]);
            }
        }
    }
}

/// The marks and names of the four states are their own.
pub proof fn law_each_state_has_its_mark(a: State, b: State, m: &'static str, n: &'static str)
    requires
        call_ensures(State::mark, (a,), m),
        call_ensures(State::name, (a,), n),
    ensures
        a == State::Fine ==> m@ == "ok     "@ && n@ == "ok"@,
        a == State::Missing ==> m@ == "MISSING"@ && n@ == "missing"@,
        a == State::Optional ==> m@ == "--     "@ && n@ == "optional"@,
        a == State::NotApplicable ==> m@ == "n/a    "@ && n@ == "not-applicable"@,
{
}

/// Each check is printed in a line with its mark, its name and what was found, the command that mends
/// it below.
pub proof fn law_a_check_is_printed_with_its_remedy(f: Finding)
    ensures
        f.state == State::Missing && f.fix is Some ==> finding_text(f) == "  ["@ + "MISSING"@ + "] "@
            + pad_right(f.name, 22) + " "@ + f.detail + "\n"@ + "       -> "@ + f.fix->0 + "\n"@,
        f.state == State::Optional && f.fix is Some ==> finding_text(f) == "  ["@ + "--     "@ + "] "@
            + pad_right(f.name, 22) + " "@ + f.detail + "\n"@ + "       -> "@ + f.fix->0 + "\n"@,
        f.state == State::Fine && f.fix is None ==> finding_text(f) == "  ["@ + "ok     "@ + "] "@
            + pad_right(f.name, 22) + " "@ + f.detail + "\n"@,
        f.state == State::NotApplicable && f.fix is None ==> finding_text(f) == "  ["@ + "n/a    "@
            + "] "@ + pad_right(f.name, 22) + " "@ + f.detail + "\n"@,
{
}

/// Every check stands in JSON under its section, with its name, its state, what was found and the
/// command that mends it, or null.
pub proof fn law_every_check_stands_under_its_section(
    f: &Facts,
    r: Vec<Section>,
    j: Json,
    a: int,
    i: int,
)
    requires
        call_ensures(review, (f,), r),
        call_ensures(setup_json, (f,), j),
        0 <= a < r@.len(),
        0 <= i < r@[a].checks@.len(),
    ensures
        ({
            let c = r@[a].checks@[i];
            let section = ((j.tree()->Object_0)[2].1->List_0)[a];
            let m = ((section->Object_0)[1].1->List_0)[i];
            &&& section is Object && (section->Object_0).len() == 2
            &&& (section->Object_0)[0] == ("section"@, Tree::Text(r@[a].name@))
            &&& (section->Object_0)[1].0 == "checks"@ && (section->Object_0)[1].1 is List
            &&& ((section->Object_0)[1].1->List_0).len() == r@[a].checks@.len()
            &&& m is Object && (m->Object_0).len() == 4
            &&& (m->Object_0)[0] == ("name"@, Tree::Text(c.name@))
            &&& (m->Object_0)[1].0 == "state"@
            &&& c.state == State::Fine ==> (m->Object_0)[1].1 == Tree::Text("ok"@)
            &&& c.state == State::Missing ==> (m->Object_0)[1].1 == Tree::Text("missing"@)
            &&& c.state == State::Optional ==> (m->Object_0)[1].1 == Tree::Text("optional"@)
            &&& c.state == State::NotApplicable ==> (m->Object_0)[1].1 == Tree::Text(
                "not-applicable"@,
            )
            &&& (m->Object_0)[2] == ("detail"@, Tree::Text(c.detail@))
            &&& c.fix is Some ==> (m->Object_0)[3] == ("fix"@, Tree::Text((c.fix->0)@))
            &&& c.fix is None ==> (m->Object_0)[3] == ("fix"@, Tree::Null)
        }),
{
    lemma_review_by_section(*f, r@);
    let ss = outline(r@);
    assert(ss[a] == (r@[a].name@, findings(r@[a].checks@)));
    let each = |s: (Seq<char>, Seq<Finding>)| section_tree(s);
    let section = ((j.tree()->Object_0)[2].1->List_0)[a];
    assert(section == section_tree(ss[a]));
    assert(((section->Object_0)[1].1->List_0)[i] == finding_tree(ss[a].1[i]));
    assert(ss[a].1[i] == r@[a].checks@[i]@);
}

} // verus!
