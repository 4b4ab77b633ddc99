//! Configuration: what it holds, its defaults, and which settings make sense.

use crate::device::mcu::Dialect;
use crate::device::mode::{FanDuty, Mode};
use crate::text::{debug_of, debug_text, decimal, decimal_of, lines, lines_of, same, trim, trimmed, views};
use crate::time::{Duration, NANOS_PER_SEC};
use vstd::prelude::*;

verus! {

/// The default location of the configuration file.
pub const DEFAULT_PATH: &'static str = "/etc/argon-utils/config.toml";

/// Upper bound on the fan poll interval, which is also the watchdog ping period.
pub const MAX_FAN_POLL_INTERVAL_S: u64 = 15;

/// The upper bound on the lid's `shutdown_delay_s`. Past a minute the laptop is in a bag, warming.
pub const MAX_SHUTDOWN_DELAY_S: u64 = 60;

/// The whole configuration.
#[derive(Clone, Debug, PartialEq, Eq)]
pub struct Config {
    /// How much the daemon may do to the hardware.
    pub mode: String,
    /// Fan control.
    pub fan: FanConfig,
    /// MCU addressing.
    pub mcu: McuConfig,
    /// UPS monitoring.
    pub ups: UpsConfig,
    /// Metrics export.
    pub telemetry: TelemetryConfig,
    /// The case OLED.
    pub oled: OledConfig,
    /// What closing a laptop lid does (the Argon ONE UP).
    pub lid: LidConfig,
    /// What a press of the case button does.
    pub button: ButtonConfig,
}

/// What a press of the case button does.
///
/// Off by default: a fresh install acts on nothing, and on a ONE V1 any brush of the button sends
/// a pulse.
#[derive(Clone, Debug, PartialEq, Eq)]
pub struct ButtonConfig {
    /// `none`: the button is left alone. `shutdown`: a press schedules an announced poweroff a
    /// minute out, and a second press cancels it. Acts only in mode `full`.
    pub action: String,
}

impl Default for ButtonConfig {
    fn default() -> (c: Self)
        ensures
            c.action@ == "none"@,
    {
        ButtonConfig { action: "none".to_owned() }
    }
}

impl ButtonConfig {
    /// Whether presses are acted on at all.
    pub open spec fn is_armed(self) -> bool {
        self.action@ == "shutdown"@
    }

    /// Whether presses are acted on at all.
    pub fn armed(&self) -> (r: bool)
        ensures
            r == self.is_armed(),
    {
        same(self.action.as_str(), "shutdown")
    }
}

/// What closing the lid does.
#[derive(Clone, Debug, PartialEq, Eq)]
pub struct LidConfig {
    /// `power-save`: save power while closed, undone when opened. `shutdown`: alert, then power
    /// off after `shutdown_delay_s` unless the lid is opened first.
    pub action: String,
    /// With `power-save`: Wi-Fi and Bluetooth off while closed, restored as they were.
    pub radios_off: bool,
    /// With `power-save`: the CPU capped at its lowest frequency while closed.
    pub cpu_throttle: bool,
    /// With `shutdown`: seconds from the alert to the poweroff.
    pub shutdown_delay_s: u64,
}

impl Default for LidConfig {
    fn default() -> (c: Self)
        ensures
            c.action@ == "power-save"@,
            !c.radios_off,
            !c.cpu_throttle,
            c.shutdown_delay_s == 1,
    {
        LidConfig {
            action: "power-save".to_owned(),
            radios_off: false,
            cpu_throttle: false,
            shutdown_delay_s: 1,
        }
    }
}

impl LidConfig {
    /// What is wrong with these settings, if anything.
    pub open spec fn complaint(self) -> Option<Complaint> {
        if self.action@ != "power-save"@ && self.action@ != "shutdown"@ {
            Some(bad("lid.action"@, self.action@, "power-save or shutdown"@))
        } else if self.shutdown_delay_s > MAX_SHUTDOWN_DELAY_S {
            Some(
                bad(
                    "lid.shutdown_delay_s"@,
                    decimal(self.shutdown_delay_s as nat),
                    "0 to 60 seconds"@,
                ),
            )
        } else {
            None
        }
    }

    fn validate(&self) -> (r: Result<(), ConfigError>)
        ensures
            match r {
                Ok(()) => self.complaint() is None,
                Err(e) => self.complaint() == Some(e@),
            },
    {
        if !same(self.action.as_str(), "power-save") && !same(self.action.as_str(), "shutdown") {
            return Err(
                ConfigError::BadValue {
                    key: "lid.action",
                    got: self.action.clone(),
                    expected: "power-save or shutdown",
                },
            );
        }
        if self.shutdown_delay_s > MAX_SHUTDOWN_DELAY_S {
            return Err(
                ConfigError::BadValue {
                    key: "lid.shutdown_delay_s",
                    got: decimal_of(self.shutdown_delay_s),
                    expected: "0 to 60 seconds",
                },
            );
        }
        Ok(())
    }
}

/// The case OLED status page.
#[derive(Clone, Debug, PartialEq, Eq)]
pub struct OledConfig {
    /// Whether the OLED is drawn on at all. Off by default: it is a write to hardware.
    pub enabled: bool,
    /// The panel is mounted upside down.
    pub flip: bool,
    /// Brightness, 0-255. Lower than the controller's power-on default of 127.
    pub contrast: u8,
    /// Seconds between redraws.
    pub refresh_s: u64,
}

impl Default for OledConfig {
    fn default() -> (c: Self)
        ensures
            !c.enabled,
            !c.flip,
            c.contrast == 64,
            c.refresh_s == 5,
    {
        OledConfig { enabled: false, flip: false, contrast: 64, refresh_s: 5 }
    }
}

/// Metrics export.
#[derive(Clone, Debug, PartialEq, Eq)]
pub struct TelemetryConfig {
    /// Whether to serve Prometheus metrics.
    pub enabled: bool,
    /// Address to listen on. Loopback by default: the endpoint has no authentication.
    pub listen: String,
}

impl Default for TelemetryConfig {
    fn default() -> (c: Self)
        ensures
            !c.enabled,
            c.listen@ == "127.0.0.1:9843"@,
    {
        TelemetryConfig { enabled: false, listen: "127.0.0.1:9843".to_owned() }
    }
}

/// One curve point in configuration form.
#[derive(Clone, Copy, Debug, PartialEq, Eq, Structural)]
pub struct CurveEntry {
    /// Temperature threshold in whole degrees Celsius.
    pub temp_c: i32,
    /// Duty as a percentage.
    pub duty: u8,
}

/// Fan control settings.
#[derive(Clone, Debug, PartialEq, Eq)]
pub struct FanConfig {
    /// Curve points, as `{ temp_c, duty }`.
    pub curve: Vec<CurveEntry>,
    /// How far the temperature must fall below a threshold before duty steps down.
    pub hysteresis_c: i32,
    /// Floor applied to any non-zero duty.
    pub min_duty: u8,
    /// Duty restored when the daemon stops.
    pub safe_duty: u8,
    /// At or above this temperature, a stopping daemon restores full duty instead.
    pub hot_threshold_c: i32,
    /// Whether the fan may be stopped entirely.
    pub allow_stop: bool,
    /// Seconds between temperature readings.
    pub poll_interval_s: u64,
    /// Minimum milliseconds between writes to the MCU.
    pub min_write_interval_ms: u64,
}

impl Default for FanConfig {
    fn default() -> (c: Self)
        ensures
            c.curve@ == seq![
                (CurveEntry { temp_c: 55, duty: 30 }),
                (CurveEntry { temp_c: 60, duty: 55 }),
                (CurveEntry { temp_c: 65, duty: 100 }),
            ],
            c.hysteresis_c == 3,
            c.min_duty == 10,
            c.safe_duty == 55,
            c.hot_threshold_c == 75,
            !c.allow_stop,
            c.poll_interval_s == 5,
            c.min_write_interval_ms == 500,
    {
        FanConfig {
            curve: vec![
                CurveEntry { temp_c: 55, duty: 30 },
                CurveEntry { temp_c: 60, duty: 55 },
                CurveEntry { temp_c: 65, duty: 100 },
            ],
            hysteresis_c: 3,
            min_duty: 10,
            safe_duty: 55,
            hot_threshold_c: 75,
            allow_stop: false,
            poll_interval_s: 5,
            min_write_interval_ms: 500,
        }
    }
}

/// MCU addressing.
#[derive(Clone, Debug, PartialEq, Eq)]
pub struct McuConfig {
    /// Which protocol to speak. There is deliberately no `"auto"`.
    pub dialect: String,
    /// I2C bus device path, or `auto` to discover it.
    pub bus: String,
}

impl McuConfig {
    /// The configured dialect. Anything unrecognised is refused when the configuration is loaded;
    /// the fallback is legacy only so this cannot fail, and legacy is the safe one.
    pub fn dialect(&self) -> (d: Dialect)
        ensures
            d == match Dialect::named(self.dialect@) {
                Some(d) => d,
                None => Dialect::Legacy,
            },
    {
        match Dialect::from_config(self.dialect.as_str()) {
            Some(d) => d,
            None => Dialect::Legacy,
        }
    }
}

impl Default for McuConfig {
    fn default() -> (c: Self)
        ensures
            c.dialect@ == "legacy"@,
            c.bus@ == "auto"@,
    {
        McuConfig { dialect: "legacy".to_owned(), bus: "auto".to_owned() }
    }
}

/// When a battery is low, when it is critical, and how sure one has to be of it.
#[derive(Clone, Copy, Debug, PartialEq, Eq, Structural)]
pub struct PolicyConfig {
    /// At or below this percentage on battery, the level is "low".
    pub low_percent: u8,
    /// At or below this percentage on battery, the level becomes "critical" once confirmed.
    pub critical_percent: u8,
    /// How far a reading must rise above a threshold, still on battery, to step back up.
    pub recover_margin: u8,
    /// Consecutive critical readings required before "critical".
    pub confirmations: u8,
    /// No shutdown is advised until the machine has been up this long.
    pub min_uptime: Duration,
}

/// Why a battery policy makes no sense.
#[derive(Clone, Copy, Debug, PartialEq, Eq, Structural)]
pub enum PolicyError {
    /// The critical percentage is not below the low one.
    CriticalNotBelowLow,
    /// A percentage is above 100.
    OutOfRange,
    /// No confirmation at all is asked for.
    NoConfirmations,
    /// The margin is 0.
    NoMargin,
}

/// UPS monitoring.
#[derive(Clone, Debug, PartialEq, Eq)]
pub struct UpsConfig {
    /// Where telemetry comes from: `serial` (the PWR UPS), `oneup` (the ONE UP's fuel gauge),
    /// `hid`, or `none`.
    pub source: String,
    /// Port path, or `auto`.
    pub port: String,
    /// Seconds between polls.
    pub poll_interval_s: u64,
    /// At or below this percentage on battery, the level is "low".
    pub low_percent: u8,
    /// At or below this percentage on battery, the level becomes "critical" once confirmed.
    pub critical_percent: u8,
    /// How far a reading must rise above a threshold, still on battery, to step back up.
    pub recover_margin: u8,
    /// Consecutive critical readings required before "critical".
    pub confirmations: u8,
    /// No shutdown is advised until the machine has been up this many seconds.
    pub min_uptime_s: u64,
    /// Minutes between the battery going critical and the poweroff. Mains returning inside this
    /// window cancels it.
    pub shutdown_delay_min: u64,
    /// Where the daemon publishes UPS status for the desktop agent.
    pub state_file: String,
    /// Keep the UPS clock set from the system clock.
    pub sync_clock: bool,
}

impl UpsConfig {
    /// The settings of a fresh install, with the thresholds of the battery policy `p`.
    pub fn with_policy(p: PolicyConfig) -> (c: Self)
        ensures
            c.source@ == "serial"@,
            c.port@ == "auto"@,
            c.poll_interval_s == 10,
            c.low_percent == p.low_percent,
            c.critical_percent == p.critical_percent,
            c.recover_margin == p.recover_margin,
            c.confirmations == p.confirmations,
            c.min_uptime_s == p.min_uptime.secs(),
            c.shutdown_delay_min == 2,
            c.state_file@ == "/run/argon-utils/ups.state"@,
            c.sync_clock,
    {
        UpsConfig {
            source: "serial".to_owned(),
            port: "auto".to_owned(),
            poll_interval_s: 10,
            low_percent: p.low_percent,
            critical_percent: p.critical_percent,
            recover_margin: p.recover_margin,
            confirmations: p.confirmations,
            min_uptime_s: p.min_uptime.as_secs(),
            shutdown_delay_min: 2,
            state_file: "/run/argon-utils/ups.state".to_owned(),
            sync_clock: true,
        }
    }

    /// The battery policy these settings describe.
    pub fn policy(&self) -> (p: PolicyConfig)
        ensures
            p.low_percent == self.low_percent,
            p.critical_percent == self.critical_percent,
            p.recover_margin == self.recover_margin,
            p.confirmations == self.confirmations,
            p.min_uptime.ns() == self.min_uptime_s * NANOS_PER_SEC,
    {
        PolicyConfig {
            low_percent: self.low_percent,
            critical_percent: self.critical_percent,
            recover_margin: self.recover_margin,
            confirmations: self.confirmations,
            min_uptime: Duration::from_secs(self.min_uptime_s),
        }
    }
}

/// Why a configuration was rejected.
#[derive(Clone, Debug, PartialEq, Eq)]
pub enum ConfigError {
    /// The file could not be read.
    Io(String),
    /// The TOML was malformed, or contained an unknown key.
    Toml(String),
    /// A setting had an unusable value.
    BadValue {
        /// Which key.
        key: &'static str,
        /// What was written.
        got: String,
        /// What was expected.
        expected: &'static str,
    },
    /// The fan curve was invalid.
    Curve(String),
}

/// What a `ConfigError` says, as text.
pub enum Complaint {
    /// The file could not be read.
    Io(Seq<char>),
    /// The TOML was malformed, or contained an unknown key.
    Toml(Seq<char>),
    /// A setting had an unusable value.
    BadValue {
        /// Which key.
        key: Seq<char>,
        /// What was written.
        got: Seq<char>,
        /// What was expected.
        expected: Seq<char>,
    },
    /// The fan curve was invalid.
    Curve(Seq<char>),
}

/// The complaint about one value.
pub open spec fn bad(key: Seq<char>, got: Seq<char>, expected: Seq<char>) -> Complaint {
    Complaint::BadValue { key, got, expected }
}

impl View for ConfigError {
    type V = Complaint;

    open spec fn view(&self) -> Complaint {
        match self {
            ConfigError::Io(e) => Complaint::Io(e@),
            ConfigError::Toml(e) => Complaint::Toml(e@),
            ConfigError::BadValue { key, got, expected } => bad(key@, got@, expected@),
            ConfigError::Curve(e) => Complaint::Curve(e@),
        }
    }
}

impl ConfigError {
    /// The error in words.
    pub open spec fn words(self) -> Seq<char> {
        match self {
            ConfigError::Io(e) => e@,
            ConfigError::Toml(e) => e@,
            ConfigError::BadValue { key, got, expected } => key@ + ": "@ + debug_text(got@)
                + " is not valid; expected "@ + expected@,
            ConfigError::Curve(e) => "fan curve: "@ + e@,
        }
    }

    /// The error in words.
    pub fn message(&self) -> (s: String)
        ensures
            s@ == self.words(),
    {
        match self {
            ConfigError::Io(e) => e.as_str().to_owned(),
            ConfigError::Toml(e) => e.as_str().to_owned(),
            ConfigError::BadValue { key, got, expected } => {
                let mut s: String = (*key).to_owned();
                s.append(": ");
                s.append(debug_of(got.as_str()).as_str());
                s.append(" is not valid; expected ");
                s.append(expected);
                s
            },
            ConfigError::Curve(e) => {
                let mut s: String = "fan curve: ".to_owned();
                s.append(e.as_str());
                s
            },
        }
    }
}

/// What a rejected battery policy needed instead.
pub open spec fn expectation(e: PolicyError) -> Seq<char> {
    match e {
        PolicyError::CriticalNotBelowLow => "critical_percent below low_percent"@,
        PolicyError::OutOfRange => "percentages within 0..=100"@,
        PolicyError::NoConfirmations => "confirmations of at least 1; 0 would act on a single reading"@,
        PolicyError::NoMargin => "recover_margin of at least 1; 0 lets a reading flap"@,
    }
}

/// What a rejected battery policy needed instead, for the error message.
pub fn policy_expectation(e: PolicyError) -> (s: &'static str)
    ensures
        s@ == expectation(e),
{
    match e {
        PolicyError::CriticalNotBelowLow => "critical_percent below low_percent",
        PolicyError::OutOfRange => "percentages within 0..=100",
        PolicyError::NoConfirmations => "confirmations of at least 1; 0 would act on a single reading",
        PolicyError::NoMargin => "recover_margin of at least 1; 0 lets a reading flap",
    }
}

/// The first duty of a curve that is above 100 percent, if there is one.
pub open spec fn first_bad_duty(curve: Seq<CurveEntry>) -> Option<u8>
    decreases curve.len(),
{
    if curve.len() == 0 {
        None
    } else if curve[0].duty > 100 {
        Some(curve[0].duty)
    } else {
        first_bad_duty(curve.skip(1))
    }
}

/// What is wrong with a fan curve: a duty out of range, or what the curve itself was rejected for.
pub open spec fn curve_complaint(curve: Seq<CurveEntry>, rejected: Option<Seq<char>>) -> Option<Complaint> {
    match first_bad_duty(curve) {
        Some(d) => Some(bad("fan.curve.duty"@, decimal(d as nat), "0..=100"@)),
        None => match rejected {
            Some(e) => Some(Complaint::Curve(e)),
            None => None,
        },
    }
}

/// A curve point: from this temperature on, in whole degrees, this duty.
#[derive(Clone, Copy, Debug, PartialEq, Eq, Structural)]
pub struct CurvePoint {
    /// Temperature threshold in whole degrees Celsius.
    pub celsius: i32,
    /// The duty.
    pub duty: FanDuty,
}

/// What a text error says, where there is one.
pub open spec fn text_of(e: Option<String>) -> Option<Seq<char>> {
    match e {
        Some(s) => Some(s@),
        None => None,
    }
}

/// The sections of a configuration file, in file order.
pub open spec fn sections() -> Seq<Seq<char>> {
    seq!["fan"@, "mcu"@, "ups"@, "oled"@, "telemetry"@, "lid"@, "button"@]
}

/// Whether a line is the header of a section.
pub open spec fn is_header(line: Seq<char>, section: Seq<char>) -> bool {
    trimmed(line) == "["@ + section + "]"@
}

/// Whether a text has a line that is the header of a section.
pub open spec fn has_section(text: Seq<char>, section: Seq<char>) -> bool {
    exists|i: int| 0 <= i < lines(text).len() && is_header(#[trigger] lines(text)[i], section)
}

/// The sections, from `from` on, that a text lacks.
pub open spec fn absent_sections(text: Seq<char>, from: int) -> Seq<Seq<char>>
    decreases sections().len() - from,
{
    if from < 0 || from >= sections().len() {
        Seq::empty()
    } else if has_section(text, sections()[from]) {
        absent_sections(text, from + 1)
    } else {
        seq![sections()[from]] + absent_sections(text, from + 1)
    }
}

/// Whether `text` has the header of `section`.
fn section_present(text: &str, section: &str) -> (r: bool)
    ensures
        r == has_section(text@, section@),
{
    let ls: Vec<&str> = lines_of(text);
    let mut header: String = "[".to_owned();
    header.append(section);
    header.append("]");
    let mut i: usize = 0;
    while i < ls.len()
        invariant
            i <= ls.len(),
            views(ls@) == lines(text@),
            header@ == "["@ + section@ + "]"@,
            forall|j: int| 0 <= j < i ==> !is_header(#[trigger] lines(text@)[j], section@),
        decreases ls.len() - i,
    {
        assert(views(ls@)[i as int] == ls@[i as int]@);
        if same(trim(ls[i]), header.as_str()) {
            assert(is_header(lines(text@)[i as int], section@));
            return true;
        }
        i = i + 1;
    }
    false
}

impl Config {
    /// The configuration of a fresh install, with the thresholds of the battery policy `p`.
    pub fn with_policy(p: PolicyConfig) -> (c: Self)
        ensures
            c.mode@ == "read-only"@,
            c.is_default_but_for_policy(),
            c.ups.low_percent == p.low_percent,
            c.ups.critical_percent == p.critical_percent,
            c.ups.recover_margin == p.recover_margin,
            c.ups.confirmations == p.confirmations,
            c.ups.min_uptime_s == p.min_uptime.secs(),
    {
        Config {
            mode: Mode::ReadOnly.as_str().to_owned(),
            fan: FanConfig::default(),
            mcu: McuConfig::default(),
            ups: UpsConfig::with_policy(p),
            telemetry: TelemetryConfig::default(),
            oled: OledConfig::default(),
            lid: LidConfig::default(),
            button: ButtonConfig::default(),
        }
    }

    /// Whether every setting but the thresholds of the battery policy is that of a fresh install.
    pub open spec fn is_default_but_for_policy(self) -> bool {
        &&& self.mode@ == "read-only"@
        &&& self.fan.curve@ == seq![
            (CurveEntry { temp_c: 55, duty: 30 }),
            (CurveEntry { temp_c: 60, duty: 55 }),
            (CurveEntry { temp_c: 65, duty: 100 }),
        ]
        &&& self.fan.hysteresis_c == 3
        &&& self.fan.min_duty == 10
        &&& self.fan.safe_duty == 55
        &&& self.fan.hot_threshold_c == 75
        &&& !self.fan.allow_stop
        &&& self.fan.poll_interval_s == 5
        &&& self.fan.min_write_interval_ms == 500
        &&& self.mcu.dialect@ == "legacy"@
        &&& self.mcu.bus@ == "auto"@
        &&& self.ups.source@ == "serial"@
        &&& self.ups.port@ == "auto"@
        &&& self.ups.poll_interval_s == 10
        &&& self.ups.shutdown_delay_min == 2
        &&& self.ups.state_file@ == "/run/argon-utils/ups.state"@
        &&& self.ups.sync_clock
        &&& !self.telemetry.enabled
        &&& self.telemetry.listen@ == "127.0.0.1:9843"@
        &&& !self.oled.enabled
        &&& !self.oled.flip
        &&& self.oled.contrast == 64
        &&& self.oled.refresh_s == 5
        &&& self.lid.action@ == "power-save"@
        &&& !self.lid.radios_off
        &&& !self.lid.cpu_throttle
        &&& self.lid.shutdown_delay_s == 1
        &&& self.button.action@ == "none"@
    }

    /// The sections that the file does not have, in file order.
    ///
    /// A missing section is silently the defaults, which after an upgrade is a trap: a config kept
    /// from an older version has no `[oled]`, and the display then stays off with nothing said
    /// about why.
    pub fn missing_sections(text: &str) -> (r: Vec<&'static str>)
        ensures
            views(r@) == absent_sections(text@, 0),
    {
        let all: Vec<&'static str> = vec!["fan", "mcu", "ups", "oled", "telemetry", "lid", "button"];
        assert(views(all@) =~= sections());
        let mut out: Vec<&'static str> = Vec::new();
        let mut i: usize = 0;
        assert(views(out@) + absent_sections(text@, 0) =~= absent_sections(text@, 0));
        while i < all.len()
            invariant
                i <= all.len(),
                views(all@) == sections(),
                all.len() == 7,
                views(out@) + absent_sections(text@, i as int) == absent_sections(text@, 0),
            decreases all.len() - i,
        {
            let ghost before = out@;
            assert(views(all@)[i as int] == all@[i as int]@);
            if !section_present(text, all[i]) {
                out.push(all[i]);
                assert(views(out@) =~= views(before).push(all@[i as int]@));
                assert(views(out@) + absent_sections(text@, i + 1) =~= views(before)
                    + absent_sections(text@, i as int));
            }
            i = i + 1;
        }
        assert(views(out@) =~= views(out@) + absent_sections(text@, i as int));
        out
    }

    /// The operating mode.
    pub fn mode(&self) -> (r: Result<Mode, ConfigError>)
        ensures
            match r {
                Ok(m) => Mode::named(self.mode@) == Some(m),
                Err(e) => Mode::named(self.mode@) is None && e@ == bad(
                    "mode"@,
                    self.mode@,
                    "read-only, managed or full"@,
                ),
            },
    {
        match Mode::parse(self.mode.as_str()) {
            Some(m) => Ok(m),
            None => Err(
                ConfigError::BadValue {
                    key: "mode",
                    got: self.mode.clone(),
                    expected: "read-only, managed or full",
                },
            ),
        }
    }

    /// The points of the fan curve, or the first duty that is out of range.
    pub fn fan_curve(&self) -> (r: Result<Vec<CurvePoint>, ConfigError>)
        ensures
            match r {
                Ok(points) => {
                    &&& first_bad_duty(self.fan.curve@) is None
                    &&& points@.len() == self.fan.curve@.len()
                    &&& forall|i: int|
                        0 <= i < points@.len() ==> (#[trigger] points@[i]).celsius
                            == self.fan.curve@[i].temp_c && points@[i].duty.value()
                            == self.fan.curve@[i].duty
                },
                Err(e) => curve_complaint(self.fan.curve@, None) == Some(e@),
            },
    {
        let curve: &Vec<CurveEntry> = &self.fan.curve;
        let mut points: Vec<CurvePoint> = Vec::new();
        let mut i: usize = 0;
        assert(curve@.skip(0) =~= curve@);
        while i < curve.len()
            invariant
                i <= curve.len(),
                curve@ == self.fan.curve@,
                points@.len() == i,
                first_bad_duty(curve@) == first_bad_duty(curve@.skip(i as int)),
                forall|j: int|
                    0 <= j < i ==> (#[trigger] points@[j]).celsius == curve@[j].temp_c
                        && points@[j].duty.value() == curve@[j].duty,
            decreases curve.len() - i,
        {
            let e: CurveEntry = curve[i];
            assert(curve@.skip(i as int)[0] == e);
            assert(curve@.skip(i as int).skip(1) =~= curve@.skip(i + 1));
            match FanDuty::new(e.duty) {
                Some(duty) => {
                    points.push(CurvePoint { celsius: e.temp_c, duty });
                },
                None => {
                    return Err(
                        ConfigError::BadValue {
                            key: "fan.curve.duty",
                            got: decimal_of(e.duty as u64),
                            expected: "0..=100",
                        },
                    );
                },
            }
            i = i + 1;
        }
        assert(curve@.skip(i as int) =~= Seq::<CurveEntry>::empty());
        Ok(points)
    }

    /// How often to read the temperature.
    pub fn fan_poll_interval(&self) -> (d: Duration)
        ensures
            d.ns() == self.fan.poll_interval_s * NANOS_PER_SEC,
    {
        Duration::from_secs(self.fan.poll_interval_s)
    }

    /// Minimum interval between MCU writes.
    pub fn min_write_interval(&self) -> (d: Duration)
        ensures
            d.ns() == self.fan.min_write_interval_ms * 1_000_000,
    {
        Duration::from_millis(self.fan.min_write_interval_ms)
    }

    /// What the battery policy's settings say, for the error message.
    pub open spec fn policy_words(self) -> Seq<char> {
        "low_percent="@ + decimal(self.ups.low_percent as nat) + ", critical_percent="@ + decimal(
            self.ups.critical_percent as nat,
        ) + ", recover_margin="@ + decimal(self.ups.recover_margin as nat) + ", confirmations="@
            + decimal(self.ups.confirmations as nat)
    }

    /// The first thing that is wrong with the settings, in the order in which they are looked at,
    /// given what the fan curve and the battery policy were rejected for and whether the listen
    /// address is one.
    pub open spec fn complaint(
        self,
        curve: Option<Seq<char>>,
        policy: Option<PolicyError>,
        listen_is_address: bool,
    ) -> Option<Complaint> {
        if Mode::named(self.mode@) is None {
            Some(bad("mode"@, self.mode@, "read-only, managed or full"@))
        } else if curve_complaint(self.fan.curve@, curve) is Some {
            curve_complaint(self.fan.curve@, curve)
        } else if self.lid.complaint() is Some {
            self.lid.complaint()
        } else if self.button.action@ != "none"@ && self.button.action@ != "shutdown"@ {
            Some(bad("button.action"@, self.button.action@, "none or shutdown"@))
        } else if self.oled.refresh_s == 0 {
            Some(
                bad(
                    "oled.refresh_s"@,
                    "0"@,
                    "at least 1 second; zero is a busy loop on a shared I2C bus"@,
                ),
            )
        } else if Dialect::named(self.mcu.dialect@) is None {
            Some(
                bad(
                    "mcu.dialect"@,
                    self.mcu.dialect@,
                    if self.mcu.dialect@ == "auto"@ {
                        "legacy or register (there is no auto: detection is unsafe, see ADR-0002)"@
                    } else {
                        "legacy (the ONE V1 and the default) or register (the ONE V3)"@
                    },
                ),
            )
        } else if policy is Some {
            Some(bad("ups"@, self.policy_words(), expectation(policy->0)))
        } else if !(1 <= self.ups.shutdown_delay_min <= 30) {
            Some(
                bad(
                    "ups.shutdown_delay_min"@,
                    decimal(self.ups.shutdown_delay_min as nat),
                    "1 to 30 minutes: 0 would be immediate, and a long delay spends the battery the shutdown exists to protect"@,
                ),
            )
        } else if self.ups.source@ != "serial"@ && self.ups.source@ != "oneup"@ && self.ups.source@
            != "hid"@ && self.ups.source@ != "none"@ {
            Some(bad("ups.source"@, self.ups.source@, "serial, oneup, hid or none"@))
        } else if self.fan.safe_duty == 0 {
            Some(
                bad(
                    "fan.safe_duty"@,
                    "0"@,
                    "a duty that actually spins the fan; 0 would make the safety fallback a stopped fan"@,
                ),
            )
        } else if self.telemetry.enabled && !listen_is_address {
            Some(
                bad(
                    "telemetry.listen"@,
                    self.telemetry.listen@,
                    "an address and port, e.g. 127.0.0.1:9843"@,
                ),
            )
        } else if self.fan.poll_interval_s == 0 {
            Some(bad("fan.poll_interval_s"@, "0"@, "at least 1 second; zero is a busy loop"@))
        } else if self.fan.poll_interval_s >= MAX_FAN_POLL_INTERVAL_S {
            Some(
                bad(
                    "fan.poll_interval_s"@,
                    decimal(self.fan.poll_interval_s as nat),
                    "below 15 seconds: it is also the systemd watchdog ping period                            (WatchdogSec=30 in the shipped unit)"@,
                ),
            )
        } else {
            None
        }
    }

    /// Checks settings that parsing alone cannot. `curve` is what the curve was rejected for where
    /// every duty is in range, `policy` what `self.ups.policy()` was rejected for, and
    /// `listen_is_address` whether `telemetry.listen` is an address and a port.
    pub fn validate(
        &self,
        curve: Option<String>,
        policy: Option<PolicyError>,
        listen_is_address: bool,
    ) -> (r: Result<(), ConfigError>)
        ensures
            match r {
                Ok(()) => self.complaint(text_of(curve), policy, listen_is_address) is None,
                Err(e) => self.complaint(text_of(curve), policy, listen_is_address) == Some(e@),
            },
    {
        if let Err(e) = self.mode() {
            return Err(e);
        }
        if let Err(e) = self.fan_curve() {
            return Err(e);
        }
        if let Some(e) = curve {
            return Err(ConfigError::Curve(e));
        }
        if let Err(e) = self.lid.validate() {
            return Err(e);
        }
        if !same(self.button.action.as_str(), "none") && !same(
            self.button.action.as_str(),
            "shutdown",
        ) {
            return Err(
                ConfigError::BadValue {
                    key: "button.action",
                    got: self.button.action.clone(),
                    expected: "none or shutdown",
                },
            );
        }
        if self.oled.refresh_s == 0 {
            return Err(
                ConfigError::BadValue {
                    key: "oled.refresh_s",
                    got: "0".to_owned(),
                    expected: "at least 1 second; zero is a busy loop on a shared I2C bus",
                },
            );
        }
        if Dialect::from_config(self.mcu.dialect.as_str()).is_none() {
            // An operator writing "auto" has a specific wrong idea worth correcting.
            let expected: &'static str = if same(self.mcu.dialect.as_str(), "auto") {
                "legacy or register (there is no auto: detection is unsafe, see ADR-0002)"
            } else {
                "legacy (the ONE V1 and the default) or register (the ONE V3)"
            };
            return Err(
                ConfigError::BadValue {
                    key: "mcu.dialect",
                    got: self.mcu.dialect.clone(),
                    expected,
                },
            );
        }
        if let Some(e) = policy {
            let mut got: String = "low_percent=".to_owned();
            got.append(decimal_of(self.ups.low_percent as u64).as_str());
            got.append(", critical_percent=");
            got.append(decimal_of(self.ups.critical_percent as u64).as_str());
            got.append(", recover_margin=");
            got.append(decimal_of(self.ups.recover_margin as u64).as_str());
            got.append(", confirmations=");
            got.append(decimal_of(self.ups.confirmations as u64).as_str());
            return Err(
                ConfigError::BadValue { key: "ups", got, expected: policy_expectation(e) },
            );
        }
        if self.ups.shutdown_delay_min < 1 || self.ups.shutdown_delay_min > 30 {
            return Err(
                ConfigError::BadValue {
                    key: "ups.shutdown_delay_min",
                    got: decimal_of(self.ups.shutdown_delay_min),
                    expected: "1 to 30 minutes: 0 would be immediate, and a long delay spends the battery the shutdown exists to protect",
                },
            );
        }
        let source: &str = self.ups.source.as_str();
        if !same(source, "serial") && !same(source, "oneup") && !same(source, "hid") && !same(
            source,
            "none",
        ) {
            return Err(
                ConfigError::BadValue {
                    key: "ups.source",
                    got: self.ups.source.clone(),
                    expected: "serial, oneup, hid or none",
                },
            );
        }
        if self.fan.safe_duty == 0 {
            return Err(
                ConfigError::BadValue {
                    key: "fan.safe_duty",
                    got: "0".to_owned(),
                    expected: "a duty that actually spins the fan; 0 would make the safety fallback a stopped fan",
                },
            );
        }
        if self.telemetry.enabled && !listen_is_address {
            return Err(
                ConfigError::BadValue {
                    key: "telemetry.listen",
                    got: self.telemetry.listen.clone(),
                    expected: "an address and port, e.g. 127.0.0.1:9843",
                },
            );
        }
        if self.fan.poll_interval_s == 0 {
            return Err(
                ConfigError::BadValue {
                    key: "fan.poll_interval_s",
                    got: "0".to_owned(),
                    expected: "at least 1 second; zero is a busy loop",
                },
            );
        }
        // The watchdog is fed once per control-loop iteration, so this interval is also the
        // watchdog period.
        if self.fan.poll_interval_s >= MAX_FAN_POLL_INTERVAL_S {
            return Err(
                ConfigError::BadValue {
                    key: "fan.poll_interval_s",
                    got: decimal_of(self.fan.poll_interval_s),
                    expected: "below 15 seconds: it is also the systemd watchdog ping period                            (WatchdogSec=30 in the shipped unit)",
                },
            );
        }
        Ok(())
    }
}

/// The configuration of a fresh install is accepted, with any battery policy that is.
pub proof fn law_default_configuration_is_accepted(c: Config, listen_is_address: bool)
    requires
        c.is_default_but_for_policy(),
    ensures
        c.complaint(None, None, listen_is_address) is None,
{
    let curve = c.fan.curve@;
    reveal_with_fuel(first_bad_duty, 4);
    assert(curve.skip(1)[0] == curve[1]);
    assert(curve.skip(1).skip(1)[0] == curve[2]);
    assert(first_bad_duty(curve) is None);
}

/// An accepted configuration feeds the watchdog in time: the fan is polled at least once in 15
/// seconds, and never in a busy loop.
pub proof fn law_accepted_configuration_polls_in_time(
    c: Config,
    curve: Option<Seq<char>>,
    policy: Option<PolicyError>,
    listen_is_address: bool,
)
    requires
        c.complaint(curve, policy, listen_is_address) is None,
    ensures
        1 <= c.fan.poll_interval_s < 15,
        c.oled.refresh_s >= 1,
{
}

/// An accepted configuration never leaves the fan stopped as a fallback, names a dialect that was
/// chosen and not guessed, and schedules a poweroff neither at once nor past half an hour.
pub proof fn law_accepted_configuration_is_safe(
    c: Config,
    curve: Option<Seq<char>>,
    policy: Option<PolicyError>,
    listen_is_address: bool,
)
    requires
        c.complaint(curve, policy, listen_is_address) is None,
    ensures
        c.fan.safe_duty > 0,
        Dialect::named(c.mcu.dialect@) is Some,
        Mode::named(c.mode@) is Some,
        1 <= c.ups.shutdown_delay_min <= 30,
        c.lid.shutdown_delay_s <= 60,
        first_bad_duty(c.fan.curve@) is None,
        policy is None,
{
}

/// The mode that a configuration asks for, or read-only where it names none.
pub open spec fn requested_mode(config: Config) -> Mode {
    match Mode::named(config.mode@) {
        Some(m) => m,
        None => Mode::ReadOnly,
    }
}

/// The mode that a configuration asks for, or read-only where it names none.
pub fn requested(config: &Config) -> (m: Mode)
    ensures
        m == requested_mode(*config),
{
    match Mode::parse(config.mode.as_str()) {
        Some(m) => m,
        None => Mode::ReadOnly,
    }
}

proof fn lemma_bad_duty(curve: Seq<CurveEntry>)
    ensures
        first_bad_duty(curve) is None <==> forall|i: int|
            0 <= i < curve.len() ==> (#[trigger] curve[i]).duty <= 100,
        first_bad_duty(curve) is Some ==> exists|i: int|
            0 <= i < curve.len() && (#[trigger] curve[i]).duty > 100 && first_bad_duty(curve) == Some(
                curve[i].duty,
            ),
    decreases curve.len(),
{
    if curve.len() > 0 {
        lemma_bad_duty(curve.skip(1));
        let rest = curve.skip(1);
        assert forall|i: int| 0 <= i < rest.len() implies #[trigger] rest[i] == curve[i + 1] by {}
        if curve[0].duty <= 100 {
            if first_bad_duty(rest) is None {
                assert forall|i: int| 0 <= i < curve.len() implies (#[trigger] curve[i]).duty
                    <= 100 by {
                    if i > 0 {
                        assert(rest[i - 1].duty <= 100);
                    }
                }
            } else {
                let k = choose|k: int|
                    0 <= k < rest.len() && (#[trigger] rest[k]).duty > 100 && first_bad_duty(rest)
                        == Some(rest[k].duty);
                assert(curve[k + 1].duty > 100);
            }
        }
    }
}

/// A configuration is accepted exactly where each setting is one that makes sense, and refused for
/// any one that does not.
pub proof fn law_a_configuration_is_accepted_where_it_makes_sense(
    c: &Config,
    curve: Option<String>,
    policy: Option<PolicyError>,
    listen_is_address: bool,
    r: Result<(), ConfigError>,
)
    requires
        call_ensures(Config::validate, (c, curve, policy, listen_is_address), r),
    ensures
        r is Ok <==> {
            &&& c.mode@ == "read-only"@ || c.mode@ == "managed"@ || c.mode@ == "full"@
            &&& forall|i: int|
                0 <= i < c.fan.curve@.len() ==> (#[trigger] c.fan.curve@[i]).duty <= 100
            &&& curve is None
            &&& c.lid.action@ == "power-save"@ || c.lid.action@ == "shutdown"@
            &&& c.lid.shutdown_delay_s <= 60
            &&& c.button.action@ == "none"@ || c.button.action@ == "shutdown"@
            &&& c.oled.refresh_s >= 1
            &&& c.mcu.dialect@ == "legacy"@ || c.mcu.dialect@ == "register"@
            &&& policy is None
            &&& 1 <= c.ups.shutdown_delay_min <= 30
            &&& c.ups.source@ == "serial"@ || c.ups.source@ == "oneup"@ || c.ups.source@ == "hid"@
                || c.ups.source@ == "none"@
            &&& c.fan.safe_duty >= 1
            &&& c.telemetry.enabled ==> listen_is_address
            &&& 1 <= c.fan.poll_interval_s < 15
        },
{
    lemma_bad_duty(c.fan.curve@);
}

/// The settings that are written are the ones that count: the mode, the curve point by point, the
/// thresholds of the battery policy, the intervals, the dialect and the button.
pub proof fn law_the_settings_are_what_was_written(
    c: &Config,
    mode: Result<Mode, ConfigError>,
    points: Result<Vec<CurvePoint>, ConfigError>,
    policy: PolicyConfig,
    poll: Duration,
    write: Duration,
    dialect: Dialect,
    armed: bool,
    wanted: Mode,
)
    requires
        call_ensures(Config::mode, (c,), mode),
        call_ensures(Config::fan_curve, (c,), points),
        call_ensures(UpsConfig::policy, (&c.ups,), policy),
        call_ensures(Config::fan_poll_interval, (c,), poll),
        call_ensures(Config::min_write_interval, (c,), write),
        call_ensures(McuConfig::dialect, (&c.mcu,), dialect),
        call_ensures(ButtonConfig::armed, (&c.button,), armed),
        call_ensures(requested, (c,), wanted),
    ensures
        mode == Ok::<Mode, ConfigError>(Mode::ReadOnly) <==> c.mode@ == "read-only"@,
        mode == Ok::<Mode, ConfigError>(Mode::Managed) <==> c.mode@ == "managed"@,
        mode == Ok::<Mode, ConfigError>(Mode::Full) <==> c.mode@ == "full"@,
        mode matches Ok(m) ==> wanted == m,
        mode is Err ==> wanted == Mode::ReadOnly,
        points is Ok <==> forall|i: int|
            0 <= i < c.fan.curve@.len() ==> (#[trigger] c.fan.curve@[i]).duty <= 100,
        points matches Ok(ps) ==> ps@.len() == c.fan.curve@.len() && forall|i: int|
            0 <= i < ps@.len() ==> (#[trigger] ps@[i]).celsius == c.fan.curve@[i].temp_c
                && ps@[i].duty.value() == c.fan.curve@[i].duty,
        policy.low_percent == c.ups.low_percent,
        policy.critical_percent == c.ups.critical_percent,
        policy.recover_margin == c.ups.recover_margin,
        policy.confirmations == c.ups.confirmations,
        policy.min_uptime.ns() == c.ups.min_uptime_s * 1_000_000_000,
        poll.ns() == c.fan.poll_interval_s * 1_000_000_000,
        write.ns() == c.fan.min_write_interval_ms * 1_000_000,
        dialect == Dialect::Register <==> c.mcu.dialect@ == "register"@,
        armed <==> c.button.action@ == "shutdown"@,
{
    lemma_bad_duty(c.fan.curve@);
    reveal_strlit("read-only");
    reveal_strlit("managed");
    reveal_strlit("full");
    reveal_strlit("legacy");
    reveal_strlit("register");
    assert("read-only"@.len() == 9 && "managed"@.len() == 7 && "full"@.len() == 4);
    assert("legacy"@.len() == 6 && "register"@.len() == 8);
}

/// A section is missing exactly where it is one of the seven and no line of the file is its header.
pub proof fn law_a_section_without_a_header_is_missing(
    text: &str,
    r: Vec<&'static str>,
    section: Seq<char>,
)
    requires
        call_ensures(Config::missing_sections, (text,), r),
    ensures
        views(r@).contains(section) <==> (section == "fan"@ || section == "mcu"@ || section == "ups"@
            || section == "oled"@ || section == "telemetry"@ || section == "lid"@ || section
            == "button"@) && forall|i: int|
            0 <= i < lines(text@).len() ==> trimmed(#[trigger] lines(text@)[i]) != "["@ + section
                + "]"@,
{
    lemma_absent(text@, 0, section);
    let s = sections();
    assert(s[0] == "fan"@ && s[1] == "mcu"@ && s[2] == "ups"@ && s[3] == "oled"@ && s[4]
        == "telemetry"@ && s[5] == "lid"@ && s[6] == "button"@);
    assert(has_section(text@, section) <==> exists|i: int|
        0 <= i < lines(text@).len() && trimmed(#[trigger] lines(text@)[i]) == "["@ + section + "]"@)
        by {
        if has_section(text@, section) {
            let i = choose|i: int|
                0 <= i < lines(text@).len() && is_header(#[trigger] lines(text@)[i], section);
            assert(trimmed(lines(text@)[i]) == "["@ + section + "]"@);
        }
        if exists|i: int|
            0 <= i < lines(text@).len() && trimmed(#[trigger] lines(text@)[i]) == "["@ + section
                + "]"@ {
            let i = choose|i: int|
                0 <= i < lines(text@).len() && trimmed(#[trigger] lines(text@)[i]) == "["@ + section
                    + "]"@;
            assert(is_header(lines(text@)[i], section));
        }
    }
}

proof fn lemma_absent(text: Seq<char>, from: int, section: Seq<char>)
    requires
        0 <= from <= sections().len(),
    ensures
        absent_sections(text, from).contains(section) <==> !has_section(text, section) && exists|k:
            int| from <= k < sections().len() && #[trigger] sections()[k] == section,
    decreases sections().len() - from,
{
    let all = absent_sections(text, from);
    if from < sections().len() {
        lemma_absent(text, from + 1, section);
        let rest = absent_sections(text, from + 1);
        let head = sections()[from];
        if !has_section(text, head) {
            assert(all == seq![head] + rest);
            assert(all[0] == head);
            if rest.contains(section) {
                let k = choose|k: int| 0 <= k < rest.len() && rest[k] == section;
                assert(all[k + 1] == section);
            }
            if all.contains(section) && section != head {
                let k = choose|k: int| 0 <= k < all.len() && all[k] == section;
                assert(rest[k - 1] == section);
            }
        }
        if exists|k: int| from <= k < sections().len() && #[trigger] sections()[k] == section {
            let k = choose|k: int| from <= k < sections().len() && #[trigger] sections()[k] == section;
            if k > from {
                assert(sections()[k] == section);
            }
        }
    }
}

/// A fresh install reads only: nothing is driven, nothing is exported, nothing is shown, and the
/// button is left alone. What it does once it is told to is what is documented.
pub proof fn law_a_fresh_configuration_is_read_only(p: PolicyConfig, c: Config)
    requires
        call_ensures(Config::with_policy, (p,), c),
    ensures
        c.mode@ == "read-only"@,
        !c.telemetry.enabled,
        !c.oled.enabled,
        c.button.action@ == "none"@,
        c.lid.action@ == "power-save"@,
        !c.lid.radios_off && !c.lid.cpu_throttle,
        !c.fan.allow_stop,
        c.fan.safe_duty == 55,
        c.fan.hot_threshold_c == 75,
        c.mcu.dialect@ == "legacy"@,
        c.ups.source@ == "serial"@,
        c.ups.shutdown_delay_min == 2,
        c.ups.sync_clock,
        c.ups.low_percent == p.low_percent,
        c.ups.critical_percent == p.critical_percent,
        c.ups.recover_margin == p.recover_margin,
        c.ups.confirmations == p.confirmations,
        c.ups.min_uptime_s == p.min_uptime.secs(),
{
}

/// The settings that nobody wrote are the documented ones.
pub proof fn law_what_nobody_wrote_is_as_documented(p: PolicyConfig, c: Config)
    requires
        call_ensures(Config::with_policy, (p,), c),
    ensures
        c.fan.curve@.len() == 3,
        c.fan.curve@[0] == (CurveEntry { temp_c: 55, duty: 30 }),
        c.fan.curve@[1] == (CurveEntry { temp_c: 60, duty: 55 }),
        c.fan.curve@[2] == (CurveEntry { temp_c: 65, duty: 100 }),
        c.fan.hysteresis_c == 3 && c.fan.min_duty == 10 && c.fan.safe_duty == 55,
        c.fan.hot_threshold_c == 75 && !c.fan.allow_stop,
        c.fan.poll_interval_s == 5 && c.fan.min_write_interval_ms == 500,
        c.mcu.dialect@ == "legacy"@ && c.mcu.bus@ == "auto"@,
        c.ups.source@ == "serial"@ && c.ups.port@ == "auto"@,
        c.ups.poll_interval_s == 10 && c.ups.shutdown_delay_min == 2 && c.ups.sync_clock,
        c.ups.state_file@ == "/run/argon-utils/ups.state"@,
        !c.telemetry.enabled && c.telemetry.listen@ == "127.0.0.1:9843"@,
        !c.oled.enabled && !c.oled.flip && c.oled.contrast == 64 && c.oled.refresh_s == 5,
        c.lid.action@ == "power-save"@ && !c.lid.radios_off && !c.lid.cpu_throttle,
        c.lid.shutdown_delay_s == 1,
        c.button.action@ == "none"@,
{
}

/// What a policy is expected to be is said for each way in which it can be wrong.
pub proof fn law_each_wrong_policy_has_its_words(e: PolicyError, s: &'static str)
    requires
        call_ensures(policy_expectation, (e,), s),
    ensures
        e == PolicyError::CriticalNotBelowLow ==> s@ == "critical_percent below low_percent"@,
        e == PolicyError::OutOfRange ==> s@ == "percentages within 0..=100"@,
        e == PolicyError::NoConfirmations ==> s@
            == "confirmations of at least 1; 0 would act on a single reading"@,
        e == PolicyError::NoMargin ==> s@ == "recover_margin of at least 1; 0 lets a reading flap"@,
{
}

} // verus!
