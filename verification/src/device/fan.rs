//! The fan control task: what one iteration does with a temperature.
//!
//! The curve and its hysteresis live in a controller of their own. What it answers is handed in;
//! what is decided here is when it is asked, when it is reset, which duty is written, and what an
//! iteration reports.

use crate::device::mcu::Error;
use crate::device::mode::FanDuty;
use vstd::prelude::*;

verus! {

/// What one iteration did.
#[derive(Clone, Copy, Debug, PartialEq, Eq, Structural)]
pub enum Step {
    /// Temperature read, duty applied.
    Applied {
        /// The temperature read, in tenths of a degree.
        decicelsius: i32,
        /// The duty now in force.
        duty: FanDuty,
        /// Whether this iteration wrote to the device.
        wrote: bool,
    },
    /// The temperature could not be read, and the fan was forced to a safe duty.
    ///
    /// Not a no-op: a control loop that cannot see the temperature must not keep applying whatever
    /// it last decided, because it no longer has any basis for that decision.
    SensorFailed {
        /// The duty forced in response.
        fallback: FanDuty,
        /// How many consecutive reads have now failed.
        consecutive: u32,
    },
}

/// What to do next in an iteration.
#[derive(Clone, Copy, Debug, PartialEq, Eq, Structural)]
pub enum Next {
    /// Ask the controller for the duty at this temperature, in tenths of a degree, and hand its
    /// answer to `decided`.
    Update {
        /// The temperature read.
        decicelsius: i32,
    },
    /// Reset the controller, so that when the sensor returns, hysteresis does not hold a duty
    /// chosen from a temperature that can no longer be vouched for. Then apply this duty.
    ResetAndApply {
        /// The duty to force.
        fallback: FanDuty,
    },
}

/// Drives the fan from a temperature source.
pub struct FanTask {
    /// Duty to force when the sensor cannot be read.
    sensor_fail_duty: FanDuty,
    /// Consecutive failed reads.
    failures: u32,
    /// Last duty actually written, to avoid rewriting an unchanged value.
    last_written: Option<FanDuty>,
    /// Last temperature successfully read.
    last_temp: Option<i32>,
}

/// What a fan task knows.
pub struct TaskView {
    /// Duty to force when the sensor cannot be read.
    pub sensor_fail_duty: FanDuty,
    /// Consecutive failed reads.
    pub failures: u32,
    /// Last duty that reached the device.
    pub last_written: Option<FanDuty>,
    /// Last temperature successfully read.
    pub last_temp: Option<i32>,
}

impl View for FanTask {
    type V = TaskView;

    closed spec fn view(&self) -> TaskView {
        TaskView {
            sensor_fail_duty: self.sensor_fail_duty,
            failures: self.failures,
            last_written: self.last_written,
            last_temp: self.last_temp,
        }
    }
}

/// One more failure, as far as they are counted.
pub open spec fn one_more(n: u32) -> u32 {
    if n == u32::MAX {
        n
    } else {
        (n + 1) as u32
    }
}

impl TaskView {
    /// What is known after a reading of the sensor.
    pub open spec fn sensed(self, reading: Option<i32>) -> TaskView {
        match reading {
            Some(dc) => TaskView { failures: 0, last_temp: Some(dc), ..self },
            None => TaskView { failures: one_more(self.failures), ..self },
        }
    }

    /// Whether a duty has to be written: it is not the one written last.
    pub open spec fn needs_write(self, duty: FanDuty) -> bool {
        self.last_written != Some(duty)
    }

    /// What is known after the write of a duty. A transport that declined for now changes nothing,
    /// so the next iteration tries again.
    pub open spec fn written(self, duty: FanDuty, outcome: Result<(), Error>) -> TaskView {
        if outcome is Ok {
            TaskView { last_written: Some(duty), ..self }
        } else {
            self
        }
    }
}

impl FanTask {
    /// Creates a task.
    pub fn new(sensor_fail_duty: FanDuty) -> (t: Self)
        ensures
            t@ == (TaskView {
                sensor_fail_duty,
                failures: 0,
                last_written: None,
                last_temp: None,
            }),
    {
        FanTask { sensor_fail_duty, failures: 0, last_written: None, last_temp: None }
    }

    /// The last temperature read, in tenths of a degree.
    pub fn last_temperature(&self) -> (t: Option<i32>)
        ensures
            t == self@.last_temp,
    {
        self.last_temp
    }

    /// Consecutive failed sensor reads.
    pub fn consecutive_failures(&self) -> (n: u32)
        ensures
            n == self@.failures,
    {
        self.failures
    }

    /// Starts an iteration with a reading of the sensor, in tenths of a degree; `None` stands for
    /// one that failed. Losing the sensor is a condition to handle, not a reason to stop
    /// controlling the fan.
    pub fn sense(&mut self, reading: Option<i32>) -> (next: Next)
        ensures
            final(self)@ == old(self)@.sensed(reading),
            next == match reading {
                Some(decicelsius) => Next::Update { decicelsius },
                None => Next::ResetAndApply { fallback: old(self)@.sensor_fail_duty },
            },
    {
        match reading {
            None => {
                self.failures = if self.failures == u32::MAX {
                    self.failures
                } else {
                    self.failures + 1
                };
                Next::ResetAndApply { fallback: self.sensor_fail_duty }
            },
            Some(decicelsius) => {
                self.failures = 0;
                self.last_temp = Some(decicelsius);
                Next::Update { decicelsius }
            },
        }
    }

    /// Whether this duty has to be written to the device.
    pub fn wants_write(&self, duty: FanDuty) -> (r: bool)
        ensures
            r == self@.needs_write(duty),
    {
        match self.last_written {
            Some(d) => !d.equals(duty),
            None => true,
        }
    }

    /// Takes what became of writing `duty`: whether it reached the device. A transport that
    /// declined for now is no error -- the loop is doing its job -- but no success either. Any
    /// other failure is handed on, because the daemon is then no longer in control.
    pub fn wrote(&mut self, duty: FanDuty, outcome: Result<(), Error>) -> (r: Result<bool, Error>)
        ensures
            final(self)@ == old(self)@.written(duty, outcome),
            r == match outcome {
                Ok(()) => Ok::<bool, Error>(true),
                Err(Error::RateLimited) => Ok::<bool, Error>(false),
                Err(e) => Err::<bool, Error>(e),
            },
    {
        match outcome {
            Ok(()) => {
                self.last_written = Some(duty);
                Ok(true)
            },
            Err(Error::RateLimited) => Ok(false),
            Err(e) => Err(e),
        }
    }

    /// Ends an iteration that read `decicelsius` and applied `duty`.
    pub fn applied(&self, decicelsius: i32, duty: FanDuty, wrote: bool) -> (s: Step)
        ensures
            s == (Step::Applied { decicelsius, duty, wrote }),
    {
        Step::Applied { decicelsius, duty, wrote }
    }

    /// Ends an iteration whose reading failed.
    pub fn sensor_failed(&self) -> (s: Step)
        ensures
            s == (Step::SensorFailed {
                fallback: self@.sensor_fail_duty,
                consecutive: self@.failures,
            }),
    {
        Step::SensorFailed { fallback: self.sensor_fail_duty, consecutive: self.failures }
    }
}

/// A duty that reached the device is not written again until another one has.
pub proof fn law_an_unchanged_duty_is_not_rewritten(t: TaskView, duty: FanDuty, reading: Option<i32>)
    ensures
        !t.written(duty, Ok(())).needs_write(duty),
        !t.written(duty, Ok(())).sensed(reading).needs_write(duty),
{
}

/// A duty that did not reach the device is tried again on the next iteration, whether the transport
/// declined for now or failed.
pub proof fn law_a_duty_that_was_not_written_is_retried(t: TaskView, duty: FanDuty, e: Error)
    requires
        t.needs_write(duty),
    ensures
        t.written(duty, Err(e)).needs_write(duty),
{
}

/// Failures are counted until a reading succeeds, and a failed reading is never mistaken for a
/// temperature.
pub proof fn law_failures_count_until_a_reading(t: TaskView, dc: i32)
    ensures
        t.sensed(None).last_temp == t.last_temp,
        t.sensed(None).failures > 0,
        t.sensed(Some(dc)).failures == 0,
{
}

/// A temperature that was read goes to the controller as it is; a reading that failed resets it and
/// forces the duty that was configured for that, which does not depend on anything decided before.
pub proof fn law_a_lost_sensor_forces_the_safe_duty(dc: i32)
    ensures
        forall|t: &mut FanTask, next: Next| #[trigger]
            call_ensures(FanTask::sense, (t, Some(dc)), next) ==> {
                &&& next == (Next::Update { decicelsius: dc })
                &&& final(t)@.last_temp == Some(dc)
                &&& final(t)@.failures == 0
                &&& final(t)@.last_written == t@.last_written
                &&& final(t)@.sensor_fail_duty == t@.sensor_fail_duty
            },
        forall|t: &mut FanTask, next: Next| #[trigger]
            call_ensures(FanTask::sense, (t, None::<i32>), next) ==> {
                &&& next == (Next::ResetAndApply { fallback: t@.sensor_fail_duty })
                &&& final(t)@.last_temp == t@.last_temp
                &&& t@.failures < u32::MAX ==> final(t)@.failures == t@.failures + 1
                &&& final(t)@.last_written == t@.last_written
                &&& final(t)@.sensor_fail_duty == t@.sensor_fail_duty
            },
{
}

/// A duty is written exactly where it is not the one that reached the device last.
pub proof fn law_a_changed_duty_is_written(t: &FanTask, duty: FanDuty, r: bool)
    requires
        call_ensures(FanTask::wants_write, (t, duty), r),
    ensures
        !r <==> t@.last_written == Some(duty),
{
}

/// A write that succeeded is remembered and reported; a transport that declined for now is neither a
/// success nor an error; and any other failure is handed on. Neither of the last two is remembered.
pub proof fn law_what_becomes_of_a_write(duty: FanDuty, e: Error)
    ensures
        forall|t: &mut FanTask, r: Result<bool, Error>| #[trigger]
            call_ensures(FanTask::wrote, (t, duty, Ok::<(), Error>(())), r) ==> r == Ok::<
                bool,
                Error,
            >(true) && final(t)@.last_written == Some(duty),
        forall|t: &mut FanTask, r: Result<bool, Error>| #[trigger]
            call_ensures(FanTask::wrote, (t, duty, Err::<(), Error>(e)), r) ==> final(t)@ == t@ && if e
                is RateLimited {
                r == Ok::<bool, Error>(false)
            } else {
                r == Err::<bool, Error>(e)
            },
{
}

/// A step reports what happened: the reading, the duty and whether it was written, or the fallback and
/// how often the sensor failed.
pub proof fn law_a_step_reports_what_happened(
    c: &FanTask,
    dc: i32,
    duty: FanDuty,
    wrote: bool,
    applied: Step,
    failed: Step,
    n: u32,
)
    requires
        call_ensures(FanTask::applied, (c, dc, duty, wrote), applied),
        call_ensures(FanTask::sensor_failed, (c,), failed),
        call_ensures(FanTask::consecutive_failures, (c,), n),
    ensures
        applied == (Step::Applied { decicelsius: dc, duty, wrote }),
        failed == (Step::SensorFailed { fallback: c@.sensor_fail_duty, consecutive: n }),
{
}

} // verus!
