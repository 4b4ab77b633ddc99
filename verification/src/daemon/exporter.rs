//! What the control loop tells the metrics exporter and the bus.

use crate::device::fan_control::{first_fan, CoolingDevice, FanReading};
use crate::device::mode::Mode;
use crate::text::contains;
use vstd::prelude::*;

verus! {

/// What the control loop tells the exporter: only what the loop uniquely knows.
#[derive(Clone, Copy, Debug, PartialEq, Eq, Structural)]
pub struct State {
    /// Last temperature read, in tenths of a degree.
    pub cpu_decicelsius: Option<i32>,
    /// Consecutive failed sensor reads.
    pub sensor_failures: u32,
    /// The duty last decided, in percent.
    pub fan_duty_percent: Option<u8>,
    /// Whether the fan is driven, rather than only reported.
    pub fan_driving: bool,
    /// When the loop last completed an iteration, seconds since the unix epoch.
    pub updated_unix: Option<u64>,
}

impl Default for State {
    fn default() -> (s: Self)
        ensures
            s == (State {
                cpu_decicelsius: None,
                sensor_failures: 0,
                fan_duty_percent: None,
                fan_driving: false,
                updated_unix: None,
            }),
    {
        State {
            cpu_decicelsius: None,
            sensor_failures: 0,
            fan_duty_percent: None,
            fan_driving: false,
            updated_unix: None,
        }
    }
}

/// Records one control iteration, at `now_unix`. A temperature that could not be read leaves the
/// last one in place; the failures tell that it is not current.
pub fn record(
    state: &mut State,
    cpu_decicelsius: Option<i32>,
    failures: u32,
    duty_percent: Option<u8>,
    driving: bool,
    now_unix: u64,
)
    ensures
        *final(state) == (State {
            cpu_decicelsius: if cpu_decicelsius is Some {
                cpu_decicelsius
            } else {
                old(state).cpu_decicelsius
            },
            sensor_failures: failures,
            fan_duty_percent: duty_percent,
            fan_driving: driving,
            updated_unix: Some(now_unix),
        }),
{
    if cpu_decicelsius.is_some() {
        state.cpu_decicelsius = cpu_decicelsius;
    }
    state.sensor_failures = failures;
    state.fan_duty_percent = duty_percent;
    state.fan_driving = driving;
    state.updated_unix = Some(now_unix);
}

/// Everything the exporter reports.
#[derive(Clone, Debug, PartialEq, Eq)]
pub struct Snapshot {
    /// The operating mode.
    pub mode: &'static str,
    /// Last temperature read, in tenths of a degree.
    pub cpu_decicelsius: Option<i32>,
    /// The kernel fan's duty, 0-255.
    pub fan_pwm: Option<u8>,
    /// The kernel fan's speed.
    pub fan_rpm: Option<u32>,
    /// What drives the fan.
    pub fan_backend: Option<&'static str>,
    /// Whether the fan is ours to drive.
    pub fan_writable: Option<bool>,
    /// The state the governor has the fan in, and the highest one.
    pub governor_state: Option<(u32, u32)>,
    /// The vendor's units, with whether each is running.
    pub vendor_units: Vec<(String, bool)>,
    /// The devices that are looked for, with whether each is there.
    pub devices: Vec<(&'static str, bool)>,
    /// Consecutive failed sensor reads.
    pub sensor_failures: u32,
}

/// Gathers everything the exporter reports. `fan` is the kernel fan, where there is one, with its
/// reading, where that could be had. It is never writable by us: taking it over would mean disabling
/// the thermal zone and with it the critical trip.
pub fn snapshot(
    mode: Mode,
    state: &State,
    fan: Option<Option<FanReading>>,
    cooling: &Vec<CoolingDevice>,
    vendor_units: Vec<(String, bool)>,
    ups_present: bool,
    zigbee_present: bool,
) -> (s: Snapshot)
    ensures
        s.mode@ == mode.name(),
        s.cpu_decicelsius == state.cpu_decicelsius,
        s.sensor_failures == state.sensor_failures,
        s.fan_pwm == (match fan {
            Some(Some(r)) => Some(r.pwm),
            _ => None,
        }),
        s.fan_rpm == (match fan {
            Some(Some(r)) => r.rpm,
            _ => None,
        }),
        match s.fan_backend {
            Some(b) => fan is Some && b@ == "kernel-pwm"@,
            None => fan is None,
        },
        s.fan_writable == (if fan is Some {
            Some(false)
        } else {
            None
        }),
        s.governor_state == (match first_fan(cooling@, 0) {
            Some(c) => Some((c.state, c.max_state)),
            None => None,
        }),
        s.vendor_units == vendor_units,
        s.devices@.len() == 2,
        s.devices@[0].0@ == "ups"@ && s.devices@[0].1 == ups_present,
        s.devices@[1].0@ == "zigbee"@ && s.devices@[1].1 == zigbee_present,
{
    let (fan_pwm, fan_rpm): (Option<u8>, Option<u32>) = match fan {
        Some(Some(r)) => (Some(r.pwm), r.rpm),
        _ => (None, None),
    };
    let mut governor_state: Option<(u32, u32)> = None;
    let mut i: usize = 0;
    while i < cooling.len() && governor_state.is_none()
        invariant
            i <= cooling.len(),
            match governor_state {
                None => first_fan(cooling@, 0) == first_fan(cooling@, i as int),
                Some(g) => first_fan(cooling@, 0) matches Some(c) && g == (c.state, c.max_state),
            },
        decreases cooling.len() - i + (if governor_state is None {
            1int
        } else {
            0int
        }),
    {
        if contains(cooling[i].kind.as_str(), "fan") {
            governor_state = Some((cooling[i].state, cooling[i].max_state));
        } else {
            i = i + 1;
        }
    }
    Snapshot {
        mode: mode.as_str(),
        cpu_decicelsius: state.cpu_decicelsius,
        fan_pwm,
        fan_rpm,
        fan_backend: if fan.is_some() {
            Some("kernel-pwm")
        } else {
            None
        },
        fan_writable: if fan.is_some() {
            Some(false)
        } else {
            None
        },
        governor_state,
        vendor_units,
        devices: vec![("ups", ups_present), ("zigbee", zigbee_present)],
        sensor_failures: state.sensor_failures,
    }
}

/// What is recorded is the iteration: a temperature that could not be read leaves the last one, and
/// the rest is replaced.
pub proof fn law_a_record_is_the_iteration(
    t: i32,
    failures: u32,
    duty: Option<u8>,
    driving: bool,
    now: u64,
)
    ensures
        forall|s: &mut State, u: ()| #[trigger]
            call_ensures(record, (s, Some(t), failures, duty, driving, now), u) ==> final(
                s).cpu_decicelsius == Some(t) && final(s).sensor_failures == failures && final(
                s).fan_duty_percent == duty && final(s).fan_driving == driving && final(
                s).updated_unix == Some(now),
        forall|s: &mut State, u: ()| #[trigger]
            call_ensures(record, (s, None::<i32>, failures, duty, driving, now), u) ==> final(
                s).cpu_decicelsius == s.cpu_decicelsius && final(s).sensor_failures == failures
                && final(s).fan_duty_percent == duty && final(s).updated_unix == Some(now),
{
}

/// What is exported is what is known: the mode under its name, the last temperature, the kernel's fan
/// where there is one, and which devices are there. The kernel's fan is never ours to write.
pub proof fn law_what_is_exported_is_what_is_known(
    mode: Mode,
    state: &State,
    fan: Option<Option<FanReading>>,
    cooling: &Vec<CoolingDevice>,
    units: Vec<(String, bool)>,
    ups: bool,
    zigbee: bool,
    s: Snapshot,
)
    requires
        call_ensures(snapshot, (mode, state, fan, cooling, units, ups, zigbee), s),
    ensures
        s.mode@ == "read-only"@ <==> mode == Mode::ReadOnly,
        s.mode@ == "managed"@ <==> mode == Mode::Managed,
        s.mode@ == "full"@ <==> mode == Mode::Full,
        s.cpu_decicelsius == state.cpu_decicelsius,
        s.sensor_failures == state.sensor_failures,
        s.fan_writable != Some(true),
        s.fan_backend is Some <==> fan is Some,
        fan matches Some(Some(r)) ==> s.fan_pwm == Some(r.pwm) && s.fan_rpm == r.rpm,
        fan is None || fan->0 is None ==> s.fan_pwm is None && s.fan_rpm is None,
        s.devices@.len() == 2 && s.devices@[0].1 == ups && s.devices@[1].1 == zigbee,
        s.vendor_units == units,
{
    reveal_strlit("read-only");
    reveal_strlit("managed");
    reveal_strlit("full");
    assert("read-only"@.len() == 9 && "managed"@.len() == 7 && "full"@.len() == 4);
}

} // verus!
