//! The fan, whichever thing is actually driving it: the Argon MCU, or the Pi 5's own PWM fan
//! header under the kernel thermal governor.

use crate::device::mcu::Error;
use crate::text::{contains, decimal, decimal_of, holds, join};
use vstd::prelude::*;

verus! {

/// A reading of the kernel's PWM fan.
#[derive(Clone, Copy, Debug, PartialEq, Eq, Structural)]
pub struct FanReading {
    /// The duty, 0-255.
    pub pwm: u8,
    /// The measured speed, where the fan reports one.
    pub rpm: Option<u32>,
}

/// A cooling device of the kernel.
#[derive(Clone, Debug, PartialEq, Eq)]
pub struct CoolingDevice {
    /// What it is.
    pub kind: String,
    /// The state it is in.
    pub state: u32,
    /// The highest state it has.
    pub max_state: u32,
}

/// Which fan is there to be driven.
#[derive(Clone, Copy, Debug, PartialEq, Eq, Structural)]
pub enum Backend {
    /// The Argon MCU: the fan is genuinely ours to drive.
    Mcu,
    /// The kernel's PWM fan: reported, never driven.
    Kernel,
}

/// A duty of the kernel, 0-255, in percent, rounded rather than truncated: a duty of 3 is 1%, not
/// 0%, and reporting a running fan as stopped would be the wrong error to make.
pub open spec fn percent_of(pwm: u8) -> int {
    (pwm * 100 + 127) / 255
}

/// What the governor has set, in percent.
pub fn pwm_percent(pwm: u8) -> (p: u8)
    ensures
        p == percent_of(pwm),
        p <= 100,
{
    ((pwm as u32 * 100 + 127) / 255) as u8
}

/// A fan that is driven at 2 of 255 or more is never reported as stopped, nor one that is not
/// driven at all as turning; full drive is reported as full. The least drive of all, 1 of 255,
/// rounds down to 0 percent.
pub proof fn law_a_turning_fan_is_not_reported_stopped(pwm: u8)
    ensures
        pwm >= 2 ==> percent_of(pwm) >= 1,
        pwm == 0 ==> percent_of(pwm) == 0,
        pwm == 255 ==> percent_of(pwm) == 100,
{
}

/// What the MCU is called in logs and status output.
pub fn describe_mcu() -> (s: String)
    ensures
        s@ == "Argon MCU at i2c 0x1a"@,
{
    "Argon MCU at i2c 0x1a".to_owned()
}

/// The first of the cooling devices that is a fan, from `from` on.
pub open spec fn first_fan(devices: Seq<CoolingDevice>, from: int) -> Option<CoolingDevice>
    decreases devices.len() - from,
{
    if from < 0 || from >= devices.len() {
        None
    } else if holds(devices[from].kind@, "fan"@) {
        Some(devices[from])
    } else {
        first_fan(devices, from + 1)
    }
}

/// What is said of the governor's state.
pub open spec fn governor_words(fan: Option<CoolingDevice>) -> Seq<char> {
    match fan {
        Some(c) => decimal(c.state as nat) + "/"@ + decimal(c.max_state as nat),
        None => "unbound"@,
    }
}

/// What the kernel's fan is called in logs and status output: where it is, and the state the
/// governor has it in.
pub fn describe_kernel(path: &str, devices: &Vec<CoolingDevice>) -> (s: String)
    ensures
        s@ == "kernel pwm fan at "@ + path@ + " (governor state "@ + governor_words(
            first_fan(devices@, 0),
        ) + ", read-only)"@,
{
    let mut i: usize = 0;
    let mut state: String = "unbound".to_owned();
    let mut bound: bool = false;
    while i < devices.len() && !bound
        invariant
            i <= devices.len(),
            !bound ==> state@ == "unbound"@ && first_fan(devices@, 0) == first_fan(
                devices@,
                i as int,
            ),
            bound ==> state@ == governor_words(first_fan(devices@, 0)),
        decreases devices.len() - i + (if bound {
            0int
        } else {
            1int
        }),
    {
        if contains(devices[i].kind.as_str(), "fan") {
            let mut s: String = join(decimal_of(devices[i].state as u64).as_str(), "/");
            s.append(decimal_of(devices[i].max_state as u64).as_str());
            state = s;
            bound = true;
        } else {
            i = i + 1;
        }
    }
    let mut s: String = join("kernel pwm fan at ", path);
    s.append(" (governor state ");
    s.append(state.as_str());
    s.append(", read-only)");
    s
}

/// Always refuses: the kernel thermal governor owns this fan. Taking it over means disabling the
/// whole thermal zone, and with it the software thermal shutdown.
pub fn refuse_kernel_write(duty: &str) -> (e: Error)
    ensures
        e matches Error::WriteBlocked { what, reason } && what@ == "kernel pwm fan <- "@ + duty@
            && reason@
            == "the kernel thermal governor owns this fan. Taking it over means disabling the whole thermal zone, which also disables the 110C critical trip -- see docs/protocol/captures/OBS-2026-09-16-taking-the-pi5-fan.md"@,
{
    Error::WriteBlocked {
        what: join("kernel pwm fan <- ", duty),
        reason: "the kernel thermal governor owns this fan. Taking it over means disabling the whole thermal zone, which also disables the 110C critical trip -- see docs/protocol/captures/OBS-2026-09-16-taking-the-pi5-fan.md".to_owned(),
    }
}

/// Picks whichever backend this machine actually has. `mcu_answers` is whether the MCU
/// acknowledged its address, `None` where that could not be asked. Prefers the MCU when one
/// answers.
pub fn detect(mcu_answers: Option<bool>, kernel_fan: bool) -> (r: Result<Backend, Error>)
    ensures
        match r {
            Ok(Backend::Mcu) => mcu_answers == Some(true),
            Ok(Backend::Kernel) => mcu_answers != Some(true) && kernel_fan,
            Err(Error::Parse { what, got }) => mcu_answers != Some(true) && !kernel_fan && what@
                == "a fan controller"@ && got@
                == "no Argon MCU answered, and this machine has no kernel PWM fan"@,
            Err(_) => false,
        },
{
    if matches!(mcu_answers, Some(true)) {
        Ok(Backend::Mcu)
    } else if kernel_fan {
        Ok(Backend::Kernel)
    } else {
        Err(
            Error::Parse {
                what: "a fan controller".to_owned(),
                got: "no Argon MCU answered, and this machine has no kernel PWM fan".to_owned(),
            },
        )
    }
}

/// The percentage that is reported is the nearest one: less than half a percent off, or half.
pub proof fn law_a_percentage_is_the_nearest(pwm: u8, p: u8)
    requires
        call_ensures(pwm_percent, (pwm,), p),
    ensures
        -255 <= 2 * (p * 255 - pwm * 100) <= 255,
        p <= 100,
{
}

/// The MCU is driven wherever it answers; the kernel's fan is reported where it does not and there is
/// one; and there is an error exactly where there is neither.
pub proof fn law_an_mcu_that_answers_is_driven(
    mcu: Option<bool>,
    kernel: bool,
    r: Result<Backend, Error>,
)
    requires
        call_ensures(detect, (mcu, kernel), r),
    ensures
        r == Ok::<Backend, Error>(Backend::Mcu) <==> mcu == Some(true),
        r == Ok::<Backend, Error>(Backend::Kernel) <==> mcu != Some(true) && kernel,
        r is Err <==> mcu != Some(true) && !kernel,
{
}

/// The kernel's fan is never written.
pub proof fn law_the_kernels_fan_is_never_written(duty: &str, e: Error)
    requires
        call_ensures(refuse_kernel_write, (duty,), e),
    ensures
        e is WriteBlocked,
{
}

/// The governor's state is that of the first cooling device that is a fan, and none where there is
/// none.
pub proof fn law_the_first_fan_is_described(devices: Seq<CoolingDevice>, i: int)
    requires
        0 <= i <= devices.len(),
        forall|k: int| 0 <= k < i ==> !holds((#[trigger] devices[k]).kind@, "fan"@),
        i < devices.len() ==> holds(devices[i].kind@, "fan"@),
    ensures
        i < devices.len() ==> first_fan(devices, 0) == Some(devices[i]),
        i == devices.len() ==> first_fan(devices, 0) is None,
{
    lemma_first_fan(devices, 0, i);
}

proof fn lemma_first_fan(devices: Seq<CoolingDevice>, from: int, i: int)
    requires
        0 <= from <= i <= devices.len(),
        forall|k: int| from <= k < i ==> !holds((#[trigger] devices[k]).kind@, "fan"@),
    ensures
        first_fan(devices, from) == first_fan(devices, i),
    decreases i - from,
{
    if from < i {
        lemma_first_fan(devices, from + 1, i);
    }
}

/// A kernel fan is described with the state of the first fan among the cooling devices, and as unbound
/// where there is none.
pub proof fn law_a_kernel_fan_is_described_by_its_governor(
    path: &str,
    devices: &Vec<CoolingDevice>,
    s: String,
    i: int,
)
    requires
        call_ensures(describe_kernel, (path, devices), s),
    ensures
        (forall|k: int| 0 <= k < devices@.len() ==> !holds((#[trigger] devices@[k]).kind@, "fan"@))
            ==> s@ == "kernel pwm fan at "@ + path@ + " (governor state "@ + "unbound"@
            + ", read-only)"@,
        0 <= i < devices@.len() && holds(devices@[i].kind@, "fan"@) && (forall|k: int|
            0 <= k < i ==> !holds((#[trigger] devices@[k]).kind@, "fan"@)) ==> s@
            == "kernel pwm fan at "@ + path@ + " (governor state "@ + (decimal(
            devices@[i].state as nat,
        ) + "/"@ + decimal(devices@[i].max_state as nat)) + ", read-only)"@,
{
    if 0 <= i < devices@.len() && holds(devices@[i].kind@, "fan"@) && (forall|k: int|
        0 <= k < i ==> !holds((#[trigger] devices@[k]).kind@, "fan"@)) {
        lemma_first_is_found(devices@, 0, i);
    }
    if forall|k: int| 0 <= k < devices@.len() ==> !holds((#[trigger] devices@[k]).kind@, "fan"@) {
        lemma_none_is_found(devices@, 0);
    }
}

proof fn lemma_first_is_found(devices: Seq<CoolingDevice>, from: int, i: int)
    requires
        0 <= from <= i < devices.len(),
        holds(devices[i].kind@, "fan"@),
        forall|k: int| from <= k < i ==> !holds((#[trigger] devices[k]).kind@, "fan"@),
    ensures
        first_fan(devices, from) == Some(devices[i]),
    decreases i - from,
{
    if from < i {
        assert(!holds(devices[from].kind@, "fan"@));
        lemma_first_is_found(devices, from + 1, i);
    }
}

proof fn lemma_none_is_found(devices: Seq<CoolingDevice>, from: int)
    requires
        0 <= from <= devices.len(),
        forall|k: int| from <= k < devices.len() ==> !holds((#[trigger] devices[k]).kind@, "fan"@),
    ensures
        first_fan(devices, from) is None,
    decreases devices.len() - from,
{
    if from < devices.len() {
        assert(!holds(devices[from].kind@, "fan"@));
        lemma_none_is_found(devices, from + 1);
    }
}

} // verus!
