//! The daemon's battery thread for the Argon ONE UP, reading its fuel gauge.
//!
//! The same cycle as the UPS thread -- read, decide, act, publish. What the ONE UP lacks is the
//! UPS's clock and scheduled wake, so this thread has no housekeeping and refuses wake requests.

use crate::daemon::ups::{enforces, opt_text};
use crate::device::config::{requested, requested_mode, Config};
use crate::device::control::{Answer, Response};
use crate::device::gauge::{Flow, Health, Reading};
use crate::device::mode::Mode;
use crate::device::ups_service::{among, oneup_contention, oneup_vendor_units};
use crate::text::{
    decimal, decimal_of, join, join_all, joined, plus_decimal, plus_decimal_of, same, texts,
};
use vstd::prelude::*;

verus! {

/// What monitoring is started with.
#[derive(Clone, Debug, PartialEq, Eq)]
pub struct Plan {
    /// Whether a shutdown is only reported, never scheduled.
    pub dry_run: bool,
    /// The I2C bus.
    pub bus: String,
    /// Seconds between two polls.
    pub interval_s: u64,
    /// Seconds from a confirmed critical battery to the poweroff.
    pub delay_s: u64,
    /// Where the status is published.
    pub state_file: String,
    /// What is logged of it.
    pub log: String,
}

/// Whether monitoring is started.
#[derive(Clone, Debug, PartialEq, Eq)]
pub enum Start {
    /// It is not: what is logged.
    No(Vec<String>),
    /// It is.
    Monitor(Plan),
}

/// What is logged of the shutdown.
pub open spec fn shutdown_words(mode: Mode, contended: Seq<Seq<char>>, delay_min: nat) -> Seq<char> {
    if enforces(mode, contended) {
        "argond: ups: ONE UP battery: shutdown ENABLED: poweroff "@ + decimal(delay_min)
            + " min after the battery is confirmed critical, cancelled once it stops discharging"@
    } else if mode == Mode::Full {
        "argond: ups: ONE UP battery: shutdown in dry run: "@ + joined(contended, ", "@)
            + " is running and responsible for this battery"@
    } else {
        "argond: ups: ONE UP battery: shutdown in dry run: mode is "@ + mode.name()
            + ", and only mode \"full\" may power the machine off"@
    }
}

/// Decides whether ONE UP battery monitoring is started, and with what. `policy_error` is why the
/// battery policy was rejected, if it was; `discovered` is the bus that was discovered, which
/// counts where the configuration says `auto`.
///
/// Reading alongside the vendor's daemon is safe -- the I2C bus arbitrates, unlike the UPS's serial
/// port -- so it only decides whether the daemon may act.
pub fn start(
    config: &Config,
    active_units: &[String],
    policy_error: Option<&str>,
    discovered: Option<&str>,
) -> (s: Start)
    requires
        policy_error is None && (config.mcu.bus@ != "auto"@ || discovered is Some)
            ==> config.ups.shutdown_delay_min * 60 <= u64::MAX,
    ensures
        ({
            let mode = requested_mode(*config);
            let contended = among(oneup_vendor_units(), texts(active_units@));
            let first = shutdown_words(mode, contended, config.ups.shutdown_delay_min as nat);
            let bus = if config.mcu.bus@ == "auto"@ {
                opt_text(discovered)
            } else {
                Some(config.mcu.bus@)
            };
            match s {
                Start::No(log) => if policy_error is Some {
                    texts(log@) == seq![first, "argond: ups: battery policy: "@ + (policy_error->0)@]
                } else {
                    bus is None && texts(log@) == seq![
                        first,
                        "argond: ups: no I2C bus found for the ONE UP's fuel gauge; is dtparam=i2c_arm=on set in config.txt?"@,
                    ]
                },
                Start::Monitor(p) => {
                    &&& policy_error is None
                    &&& bus == Some(p.bus@)
                    &&& p.dry_run == !enforces(mode, contended)
                    &&& p.interval_s == if config.ups.poll_interval_s < 1 {
                        1
                    } else {
                        config.ups.poll_interval_s
                    }
                    &&& p.delay_s == config.ups.shutdown_delay_min * 60
                    &&& p.state_file@ == config.ups.state_file@
                    &&& p.log@ == first
                },
            }
        }),
{
    let contended: Vec<String> = oneup_contention(active_units);
    assert(texts(contended@).len() == contended@.len());
    let mode: Mode = requested(config);
    let full: bool = matches!(mode, Mode::Full);
    let enforce: bool = full && contended.len() == 0;
    let first: String = if enforce {
        let mut s: String = join(
            "argond: ups: ONE UP battery: shutdown ENABLED: poweroff ",
            decimal_of(config.ups.shutdown_delay_min).as_str(),
        );
        s.append(
            " min after the battery is confirmed critical, cancelled once it stops discharging",
        );
        s
    } else if full {
        let mut s: String = join(
            "argond: ups: ONE UP battery: shutdown in dry run: ",
            join_all(&contended, ", ").as_str(),
        );
        s.append(" is running and responsible for this battery");
        s
    } else {
        let mut s: String = join(
            "argond: ups: ONE UP battery: shutdown in dry run: mode is ",
            mode.as_str(),
        );
        s.append(", and only mode \"full\" may power the machine off");
        s
    };
    if let Some(e) = policy_error {
        let log: Vec<String> = vec![first, join("argond: ups: battery policy: ", e)];
        assert(texts(log@) =~= seq![log@[0]@, log@[1]@]);
        return Start::No(log);
    }
    let bus: Option<String> = if same(config.mcu.bus.as_str(), "auto") {
        match discovered {
            Some(b) => Some(b.to_owned()),
            None => None,
        }
    } else {
        Some(config.mcu.bus.clone())
    };
    match bus {
        None => {
            let log: Vec<String> = vec![
                first,
                "argond: ups: no I2C bus found for the ONE UP's fuel gauge; is dtparam=i2c_arm=on set in config.txt?".to_owned(),
            ];
            assert(texts(log@) =~= seq![log@[0]@, log@[1]@]);
            Start::No(log)
        },
        Some(bus) => Start::Monitor(
            Plan {
                dry_run: !enforce,
                bus,
                interval_s: if config.ups.poll_interval_s < 1 {
                    1
                } else {
                    config.ups.poll_interval_s
                },
                delay_s: config.ups.shutdown_delay_min * 60,
                state_file: config.ups.state_file.clone(),
                log: first,
            },
        ),
    }
}

/// Which way the charge moves, in words.
pub open spec fn flow_words(flow: Flow) -> Seq<char> {
    match flow {
        Flow::Charging => "charging"@,
        Flow::Discharging => "discharging"@,
        Flow::Idle => "resting on the charger"@,
    }
}

/// Which way the charge moves, in words.
pub fn flow_name(flow: Flow) -> (s: &'static str)
    ensures
        s@ == flow_words(flow),
{
    match flow {
        Flow::Charging => "charging",
        Flow::Discharging => "discharging",
        Flow::Idle => "resting on the charger",
    }
}

/// What is logged of a reading: when the way the charge moves has changed. The level only changes
/// on battery; charging starting and stopping is worth a line too, since on a laptop that is the
/// charger being plugged in. `volts` is the cell's voltage in volts.
pub fn flow_line(
    last_flow: &mut Option<Flow>,
    reading: Option<Reading>,
    volts: &str,
) -> (log: Option<String>)
    ensures
        match reading {
            None => *final(last_flow) == *old(last_flow) && log is None,
            Some(r) => *final(last_flow) == Some(r.flow) && match log {
                None => *old(last_flow) == Some(r.flow),
                Some(s) => *old(last_flow) != Some(r.flow) && s@ == "argond: ups: ONE UP battery "@
                    + flow_words(r.flow) + " at "@ + decimal(r.percent as nat) + "% ("@
                    + volts@ + " V, current "@ + plus_decimal(
                    r.current as int,
                ) + ")"@,
            },
        },
{
    let r: Reading = match reading {
        Some(r) => r,
        None => {
            return None;
        },
    };
    let unchanged: bool = match *last_flow {
        Some(f) => f == r.flow,
        None => false,
    };
    if unchanged {
        return None;
    }
    *last_flow = Some(r.flow);
    let mut s: String = join("argond: ups: ONE UP battery ", flow_name(r.flow));
    s.append(" at ");
    s.append(decimal_of(r.percent as u64).as_str());
    s.append("% (");
    s.append(volts);
    s.append(" V, current ");
    s.append(plus_decimal_of(r.current as i64).as_str());
    s.append(")");
    Some(s)
}

/// What is logged when the gauge is opened: where it is, and its wear, or why that is unreadable.
pub fn opened_line(at: &str, health: Result<Health, &str>) -> (s: String)
    ensures
        s@ == "argond: ups: ONE UP fuel gauge: CW2217 at "@ + at@ + "; "@ + match health {
            Ok(h) => decimal(h.cycles as nat) + " charge cycles, health "@ + decimal(h.soh as nat)
                + "%"@,
            Err(e) => "cycle count unreadable ("@ + e@ + ")"@,
        },
{
    let mut s: String = join("argond: ups: ONE UP fuel gauge: CW2217 at ", at);
    s.append("; ");
    let wear: String = match health {
        Ok(h) => {
            let mut w: String = decimal_of(h.cycles as u64);
            w.append(" charge cycles, health ");
            w.append(decimal_of(h.soh as u64).as_str());
            w.append("%");
            w
        },
        Err(e) => {
            let mut w: String = join("cycle count unreadable (", e);
            w.append(")");
            w
        },
    };
    s.append(wear.as_str());
    s
}

/// What is logged when there is no gauge, once per episode.
pub fn no_gauge_line(bus: &str, failure: &str, error_logged: &mut bool) -> (log: Option<String>)
    ensures
        *final(error_logged),
        match log {
            Some(s) => !*old(error_logged) && s@ == "argond: ups: no CW2217 fuel gauge at 0x64 on "@
                + bus@ + " ("@ + failure@
                + "). Is this an Argon ONE UP? Will keep trying once per poll without repeating this."@,
            None => *old(error_logged),
        },
{
    if *error_logged {
        return None;
    }
    *error_logged = true;
    let mut s: String = join("argond: ups: no CW2217 fuel gauge at 0x64 on ", bus);
    s.append(" (");
    s.append(failure);
    s.append(
        "). Is this an Argon ONE UP? Will keep trying once per poll without repeating this.",
    );
    Some(s)
}

/// The answer to a request: the ONE UP has nothing to set a wake on.
pub fn no_wake_answer() -> (r: Response)
    ensures
        r@ == (Answer::Error {
            message: "this machine's battery is the ONE UP's, which has no scheduled wake; nothing was done"@,
        }),
{
    Response::error(
        "this machine's battery is the ONE UP's, which has no scheduled wake; nothing was done",
    )
}

/// The battery is watched exactly where its policy makes sense and its bus is known; a shutdown is
/// carried out only in mode full and without the vendor's daemon; and the delay and the interval
/// are those that were configured.
pub proof fn law_the_gauge_is_watched_where_it_can_be(
    config: &Config,
    active_units: &[String],
    policy_error: Option<&str>,
    discovered: Option<&str>,
    s: Start,
)
    requires
        call_ensures(start, (config, active_units, policy_error, discovered), s),
    ensures
        s is Monitor <==> policy_error is None && (config.mcu.bus@ != "auto"@ || discovered is Some),
        s matches Start::Monitor(p) ==> {
            &&& p.dry_run <==> config.mode@ != "full"@ || texts(active_units@).contains(
                "argononeupd.service"@,
            )
            &&& p.delay_s == config.ups.shutdown_delay_min * 60
            &&& config.ups.poll_interval_s >= 1 ==> p.interval_s == config.ups.poll_interval_s
            &&& p.interval_s >= 1
            &&& p.state_file@ == config.ups.state_file@
            &&& config.mcu.bus@ != "auto"@ ==> p.bus@ == config.mcu.bus@
            &&& config.mcu.bus@ == "auto"@ ==> p.bus@ == (discovered->0)@
        },
{
    let active = texts(active_units@);
    let unit = "argononeupd.service"@;
    crate::device::ups_service::law_only_active_vendor_units_contend(
        oneup_vendor_units(),
        active,
        unit,
    );
    let us = oneup_vendor_units();
    assert(us[0] == unit);
    let c = among(us, active);
    if c.len() > 0 {
        crate::device::ups_service::law_only_active_vendor_units_contend(us, active, c[0]);
        assert(c.contains(c[0]));
        assert(us.contains(c[0]));
        assert(c[0] == unit);
    }
    crate::device::mode::law_mode_of_its_name(Mode::Full);
    reveal_strlit("read-only");
    reveal_strlit("managed");
    reveal_strlit("full");
    assert("read-only"@.len() == 9 && "managed"@.len() == 7 && "full"@.len() == 4);
}

/// Each way that the charge moves has its own words.
pub proof fn law_flows_are_told_apart(flow: Flow, s: &'static str)
    requires
        call_ensures(flow_name, (flow,), s),
    ensures
        s@ == "charging"@ <==> flow == Flow::Charging,
        s@ == "discharging"@ <==> flow == Flow::Discharging,
        s@ == "resting on the charger"@ <==> flow == Flow::Idle,
{
    reveal_strlit("charging");
    reveal_strlit("discharging");
    reveal_strlit("resting on the charger");
    assert("charging"@.len() == 8 && "discharging"@.len() == 11 && "resting on the charger"@.len()
        == 22);
}

/// A change of the way that the charge moves is logged, once, and a reading that failed neither is nor
/// is remembered.
pub proof fn law_a_change_of_flow_is_logged(reading: Reading, volts: &str)
    ensures
        forall|m: &mut Option<Flow>, log: Option<String>| #[trigger]
            call_ensures(flow_line, (m, Some(reading), volts), log) ==> *final(m) == Some(
                reading.flow,
            ) && (log is Some <==> *m != Some(reading.flow)),
        forall|m: &mut Option<Flow>, log: Option<String>| #[trigger]
            call_ensures(flow_line, (m, None::<Reading>, volts), log) ==> *final(m) == *m && log
                is None,
{
}

/// No wake is ever promised on a ONE UP.
pub proof fn law_no_wake_on_a_one_up(r: Response)
    requires
        call_ensures(no_wake_answer, (), r),
    ensures
        r is Error,
{
}

/// A shutdown is announced as enabled exactly in mode full with nobody else responsible, and otherwise
/// as a dry run, with why.
pub proof fn law_a_dry_run_says_why(contended: Seq<Seq<char>>, min: nat)
    ensures
        contended.len() == 0 ==> shutdown_words(Mode::Full, contended, min)
            == "argond: ups: ONE UP battery: shutdown ENABLED: poweroff "@ + decimal(min)
            + " min after the battery is confirmed critical, cancelled once it stops discharging"@,
        contended.len() > 0 ==> shutdown_words(Mode::Full, contended, min)
            == "argond: ups: ONE UP battery: shutdown in dry run: "@ + joined(contended, ", "@)
            + " is running and responsible for this battery"@,
        shutdown_words(Mode::Managed, contended, min)
            == "argond: ups: ONE UP battery: shutdown in dry run: mode is "@ + "managed"@
            + ", and only mode \"full\" may power the machine off"@,
        shutdown_words(Mode::ReadOnly, contended, min)
            == "argond: ups: ONE UP battery: shutdown in dry run: mode is "@ + "read-only"@
            + ", and only mode \"full\" may power the machine off"@,
{
}

} // verus!
