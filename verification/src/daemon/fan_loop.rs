//! The daemon's control loop: what one iteration reports, when the daemon gives up, and what it is
//! started with.
//!
//! The worst outcome is a stopped fan on a heating machine, and the second worst a daemon that
//! looks healthy while nothing watches the battery.

use crate::daemon::exporter::{record, State};
use crate::daemon::startup::{FanPlan, Startup};
use crate::daemon::ups::STALL_INTERVALS;
use crate::device::celsius::{to_degrees, whole_degrees};
use crate::device::config::Config;
use crate::device::fan::Step;
use crate::device::mode::{FanDuty, Mode};
use crate::text::{
    decimal, decimal_of, join, join_all, joined, same, signed_decimal, signed_decimal_of, texts,
    views,
};
use crate::time::Duration;
use vstd::prelude::*;

verus! {

/// What is logged of the sections that a configuration file lacks. An upgrade keeps the
/// administrator's file, so one that was written before a feature existed silently runs that
/// feature's defaults.
pub fn missing_sections_line(path: &str, missing: &Vec<String>) -> (log: Option<String>)
    ensures
        match log {
            None => missing@.len() == 0,
            Some(s) => missing@.len() > 0 && s@ == "argond: "@ + path@ + " has no ["@ + joined(
                texts(missing@),
                "], ["@,
            )
                + "] section; those settings are at their defaults. The package's current config is /etc/argon-utils/config.toml.dpkg-dist."@,
        },
{
    if missing.len() == 0 {
        return None;
    }
    let mut s: String = join("argond: ", path);
    s.append(" has no [");
    s.append(join_all(missing, "], [").as_str());
    s.append(
        "] section; those settings are at their defaults. The package's current config is /etc/argon-utils/config.toml.dpkg-dist.",
    );
    Some(s)
}

/// What watches the battery.
#[derive(Clone, Copy, Debug, PartialEq, Eq, Structural)]
pub enum Monitor {
    /// Nothing: a single iteration is run, to check a configuration.
    Nothing,
    /// The ONE UP's fuel gauge.
    Gauge,
    /// The UPS, over its serial port.
    Serial,
}

/// Which threads are started.
#[derive(Clone, Copy, Debug, PartialEq, Eq, Structural)]
pub struct WorkerPlan {
    /// What watches the battery.
    pub monitor: Monitor,
    /// Whether the bus service, the control socket and the display are started.
    pub services: bool,
    /// Whether a wake can be scheduled: only the UPS has a clock to wake the machine by.
    pub wake_supported: bool,
}

/// Decides which threads are started. `once` is whether a single iteration is run.
pub fn start_workers(once: bool, config: &Config) -> (p: WorkerPlan)
    ensures
        p == (WorkerPlan {
            monitor: if once {
                Monitor::Nothing
            } else if config.ups.source@ == "oneup"@ {
                Monitor::Gauge
            } else {
                Monitor::Serial
            },
            services: !once,
            wake_supported: config.ups.source@ != "oneup"@,
        }),
{
    let oneup: bool = same(config.ups.source.as_str(), "oneup");
    WorkerPlan {
        monitor: if once {
            Monitor::Nothing
        } else if oneup {
            Monitor::Gauge
        } else {
            Monitor::Serial
        },
        services: !once,
        wake_supported: !oneup,
    }
}

/// The liveness of the thread that watches the battery.
///
/// The fan loop feeds the watchdog, so a monitoring thread that panicked or wedged inside a device
/// read would leave the service apparently healthy with no battery protection at all. This makes
/// that state loud and fatal instead.
#[derive(Clone, Copy, Debug, PartialEq, Eq, Structural)]
pub struct Workers {
    /// Whether there is such a thread.
    pub watched: bool,
    /// Seconds without a heartbeat after which it counts as stalled.
    pub stale_after_s: u64,
}

/// Seconds without a heartbeat after which the thread counts as stalled: several poll intervals,
/// and never less than a minute, since a reopen after a device re-enumeration takes a while.
pub open spec fn stale_after(poll_interval_s: nat) -> nat {
    let interval = if poll_interval_s < 1 {
        1
    } else {
        poll_interval_s
    };
    if interval * STALL_INTERVALS as nat > 60 {
        interval * STALL_INTERVALS as nat
    } else {
        60
    }
}

impl Workers {
    /// Watches the thread, if there is one.
    pub fn new(watched: bool, config: &Config) -> (w: Self)
        requires
            config.ups.poll_interval_s * STALL_INTERVALS <= u64::MAX,
        ensures
            w.watched == watched,
            w.stale_after_s == stale_after(config.ups.poll_interval_s as nat),
    {
        let interval: u64 = if config.ups.poll_interval_s < 1 {
            1
        } else {
            config.ups.poll_interval_s
        };
        let several: u64 = interval * STALL_INTERVALS as u64;
        Workers {
            watched,
            stale_after_s: if several > 60 {
                several
            } else {
                60
            },
        }
    }

    /// How many seconds since the thread last started a poll, if it has gone quiet. `heartbeat` is
    /// when it did, and `now` the time; both in seconds since the unix epoch.
    pub fn stalled_for(&self, now: u64, heartbeat: u64) -> (r: Option<u64>)
        ensures
            match r {
                Some(s) => self.watched && now > heartbeat && s == now - heartbeat && s
                    > self.stale_after_s,
                None => !self.watched || now - heartbeat <= self.stale_after_s,
            },
    {
        if !self.watched {
            return None;
        }
        let since: u64 = if now > heartbeat {
            now - heartbeat
        } else {
            0
        };
        if since > self.stale_after_s {
            Some(since)
        } else {
            None
        }
    }
}

/// A thread that polls at its configured interval is never taken for stalled, even where it misses
/// a poll or two.
pub proof fn law_a_polling_thread_is_not_stalled(poll_interval_s: nat, missed: nat)
    requires
        poll_interval_s >= 1,
        missed < STALL_INTERVALS,
    ensures
        poll_interval_s * (missed + 1) <= stale_after(poll_interval_s),
{
    assert(poll_interval_s * (missed + 1) <= poll_interval_s * 4) by (nonlinear_arith)
        requires
            missed < 4,
    ;
}

/// What is logged of a stalled thread, in the terms an operator needs.
pub fn stalled_line(since_s: u64) -> (s: String)
    ensures
        s@ == "argond: ups: the monitoring thread has not polled for "@ + decimal(since_s as nat)
            + "s. Exiting so systemd restarts us: a daemon that looks healthy while nothing watches the battery is worse than one that is visibly down."@,
{
    let mut s: String = join(
        "argond: ups: the monitoring thread has not polled for ",
        decimal_of(since_s).as_str(),
    );
    s.append(
        "s. Exiting so systemd restarts us: a daemon that looks healthy while nothing watches the battery is worse than one that is visibly down.",
    );
    s
}

/// Whether the fan is driven, rather than only observed: where the adopted mode allows writes, an
/// MCU drives it, and there is a bus to it.
pub fn drives(startup: &Startup, fan: FanPlan, bus_known: bool) -> (r: bool)
    ensures
        r == (startup.mode.writes() && fan == FanPlan::Mcu && bus_known),
{
    startup.mode.allows_writes() && matches!(fan, FanPlan::Mcu) && bus_known
}

/// The bus that the configuration names; `None` stands for the one to be discovered.
pub fn configured_bus(config: &Config) -> (r: Option<String>)
    ensures
        match r {
            Some(b) => config.mcu.bus@ != "auto"@ && b@ == config.mcu.bus@,
            None => config.mcu.bus@ == "auto"@,
        },
{
    if same(config.mcu.bus.as_str(), "auto") {
        None
    } else {
        Some(config.mcu.bus.clone())
    }
}

/// What is logged of an iteration, and what it tells the exporter. `outcome` is the iteration, or
/// why its write failed, and `duty` its duty in words. A failed write means that the fan is no
/// longer under control, and the loop keeps trying.
pub fn report(
    state: &mut State,
    outcome: Result<Step, &str>,
    duty: &str,
    driving: bool,
    now_unix: u64,
) -> (log: Option<String>)
    ensures
        match outcome {
            Ok(Step::Applied { decicelsius, duty: d, wrote }) => {
                &&& *final(state) == (State {
                    cpu_decicelsius: Some(decicelsius),
                    sensor_failures: 0,
                    fan_duty_percent: Some(d.value()),
                    fan_driving: driving,
                    updated_unix: Some(now_unix),
                })
                &&& match log {
                    Some(s) => wrote && driving && s@ == "argond: "@ + signed_decimal(
                        whole_degrees(decicelsius),
                    ) + "C -> "@ + duty@,
                    None => !wrote || !driving,
                }
            },
            Ok(Step::SensorFailed { fallback, consecutive }) => {
                &&& *final(state) == (State {
                    cpu_decicelsius: old(state).cpu_decicelsius,
                    sensor_failures: consecutive,
                    fan_duty_percent: Some(fallback.value()),
                    fan_driving: driving,
                    updated_unix: Some(now_unix),
                })
                &&& log matches Some(s) && s@ == "argond: temperature read failed ("@ + decimal(
                    consecutive as nat,
                ) + " in a row), forcing "@ + duty@
            },
            Err(e) => *final(state) == *old(state) && (log matches Some(s) && s@
                == "argond: write failed: "@ + e@),
        },
{
    match outcome {
        Ok(Step::Applied { decicelsius, duty: d, wrote }) => {
            record(state, Some(decicelsius), 0, Some(d.percent()), driving, now_unix);
            if wrote && driving {
                let mut s: String = join(
                    "argond: ",
                    signed_decimal_of(to_degrees(decicelsius)).as_str(),
                );
                s.append("C -> ");
                s.append(duty);
                Some(s)
            } else {
                None
            }
        },
        Ok(Step::SensorFailed { fallback, consecutive }) => {
            record(state, None, consecutive, Some(fallback.percent()), driving, now_unix);
            let mut s: String = join(
                "argond: temperature read failed (",
                decimal_of(consecutive as u64).as_str(),
            );
            s.append(" in a row), forcing ");
            s.append(duty);
            Some(s)
        },
        Err(e) => Some(join("argond: write failed: ", e)),
    }
}

/// What the loop does after an iteration.
#[derive(Clone, Copy, Debug, PartialEq, Eq, Structural)]
pub enum Turn {
    /// Give up, so that systemd restarts the daemon: the monitoring thread is stalled.
    GiveUp {
        /// Seconds since it last started a poll.
        since_s: u64,
    },
    /// Stop: a single iteration was asked for.
    Stop,
    /// Sleep, and go on.
    Sleep,
}

/// Decides what the loop does after an iteration.
pub fn after_iteration(workers: &Workers, once: bool, now: u64, heartbeat: u64) -> (t: Turn)
    ensures
        match t {
            Turn::GiveUp { since_s } => workers.watched && since_s == now - heartbeat && since_s
                > workers.stale_after_s,
            Turn::Stop => (!workers.watched || now - heartbeat <= workers.stale_after_s) && once,
            Turn::Sleep => (!workers.watched || now - heartbeat <= workers.stale_after_s) && !once,
        },
{
    match workers.stalled_for(now, heartbeat) {
        Some(since_s) => Turn::GiveUp { since_s },
        None => if once {
            Turn::Stop
        } else {
            Turn::Sleep
        },
    }
}

/// What is logged when the loop stops. `duty` is the duty that is restored, in words.
pub fn stopping_line(driving: bool, duty: &str) -> (s: String)
    ensures
        s@ == if driving {
            "argond: stopping, restoring "@ + duty@
        } else {
            "argond: stopping"@
        },
{
    if driving {
        join("argond: stopping, restoring ", duty)
    } else {
        "argond: stopping".to_owned()
    }
}

/// The battery is watched whenever the daemon runs on, by the gauge on a ONE UP and over the serial
/// port otherwise; and only there can a wake be scheduled.
pub proof fn law_the_battery_is_watched(once: bool, config: &Config, p: WorkerPlan)
    requires
        call_ensures(start_workers, (once, config), p),
    ensures
        p.monitor == Monitor::Nothing <==> once,
        p.monitor == Monitor::Gauge <==> !once && config.ups.source@ == "oneup"@,
        p.monitor == Monitor::Serial <==> !once && config.ups.source@ != "oneup"@,
        p.services <==> !once,
        p.wake_supported <==> config.ups.source@ != "oneup"@,
{
}

/// A thread is stalled once it has been silent for longer than four polls, and longer than a minute;
/// the loop then gives up, and says how long it was. Otherwise it goes on, unless a single
/// iteration was asked for.
pub proof fn law_a_silent_thread_ends_the_daemon(
    watched: bool,
    config: &Config,
    w: Workers,
    now: u64,
    heartbeat: u64,
    once: bool,
    s: Option<u64>,
    t: Turn,
)
    requires
        call_ensures(Workers::new, (watched, config), w),
        call_ensures(Workers::stalled_for, (&w, now, heartbeat), s),
        call_ensures(after_iteration, (&w, once, now, heartbeat), t),
        config.ups.poll_interval_s >= 1,
    ensures
        s is Some <==> watched && now - heartbeat > 60 && now - heartbeat > 4
            * config.ups.poll_interval_s,
        s is Some ==> s->0 == now - heartbeat,
        t is GiveUp <==> s is Some,
        t matches Turn::GiveUp { since_s } ==> Some(since_s) == s,
        t == Turn::Stop <==> s is None && once,
        t == Turn::Sleep <==> s is None && !once,
{
}

/// The fan is driven exactly where the mode that was adopted writes, an MCU drives it, and its bus is
/// known.
pub proof fn law_the_fan_is_driven_only_where_it_may_be(
    startup: &Startup,
    fan: FanPlan,
    bus_known: bool,
    r: bool,
)
    requires
        call_ensures(drives, (startup, fan, bus_known), r),
    ensures
        r <==> startup.mode != Mode::ReadOnly && fan == FanPlan::Mcu && bus_known,
{
}

/// The bus is the one that was written down, unless that says `auto`.
pub proof fn law_the_bus_is_the_one_written_down(config: &Config, r: Option<String>)
    requires
        call_ensures(configured_bus, (config,), r),
    ensures
        r is None <==> config.mcu.bus@ == "auto"@,
        r is Some ==> (r->0)@ == config.mcu.bus@,
{
}

/// What an iteration tells: the temperature and the duty of one that was applied, the fallback and
/// the failures of one that could not read, and nothing new where the write failed. A change is
/// logged where it reached the fan, and a failure always.
pub proof fn law_an_iteration_is_told_as_it_was(
    dc: i32,
    d: FanDuty,
    wrote: bool,
    n: u32,
    e: &str,
    duty: &str,
    driving: bool,
    now: u64,
)
    ensures
        forall|s: &mut State, log: Option<String>| #[trigger]
            call_ensures(
                report,
                (
                    s,
                    Ok::<Step, &str>(Step::Applied { decicelsius: dc, duty: d, wrote }),
                    duty,
                    driving,
                    now,
                ),
                log,
            ) ==> {
                &&& final(s).cpu_decicelsius == Some(dc)
                &&& final(s).sensor_failures == 0
                &&& final(s).fan_duty_percent == Some(d.value())
                &&& final(s).fan_driving == driving
                &&& final(s).updated_unix == Some(now)
                &&& log is Some <==> wrote && driving
            },
        forall|s: &mut State, log: Option<String>| #[trigger]
            call_ensures(
                report,
                (
                    s,
                    Ok::<Step, &str>(Step::SensorFailed { fallback: d, consecutive: n }),
                    duty,
                    driving,
                    now,
                ),
                log,
            ) ==> {
                &&& final(s).cpu_decicelsius == s.cpu_decicelsius
                &&& final(s).sensor_failures == n
                &&& final(s).fan_duty_percent == Some(d.value())
                &&& final(s).fan_driving == driving
                &&& final(s).updated_unix == Some(now)
                &&& log is Some
            },
        forall|s: &mut State, log: Option<String>| #[trigger]
            call_ensures(report, (s, Err::<Step, &str>(e), duty, driving, now), log) ==> *final(s)
                == *s && log is Some,
{
}

} // verus!
