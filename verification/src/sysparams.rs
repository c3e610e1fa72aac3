//! The parameters of the machine: how many processors it has, and how many
//! cycles of a workload it runs in a second.

use crate::clock::duration_ms;
use crate::clock::EngineError;
use crate::clock::TimeMs;
use crate::clock::MAX_DURATION_MS;
use crate::text::format_sysparams;
use crate::text::sysparams_text;
use std::time::SystemTime;
use vstd::prelude::*;

verus! {

/// Ten to the power of `exponent`.
pub open spec fn power_of_ten(exponent: nat) -> nat
    decreases exponent,
{
    if exponent == 0 {
        1
    } else {
        10 * power_of_ten((exponent - 1) as nat)
    }
}

/// The number of cycles in a second, rounded down, where `n_cycles` cycles
/// take `duration` milliseconds.
pub open spec fn cycles_per_second(n_cycles: int, duration: int) -> int {
    1000 * n_cycles / duration
}

/// `rate` is what a calibration can find: the cycles in a second of a run of
/// ten cycles, or a hundred, and so on, that took a second or more.
pub open spec fn is_calibrated_rate(rate: int) -> bool {
    exists|exponent: nat, duration: int|
        {
            &&& 1 <= exponent
            &&& power_of_ten(exponent) <= usize::MAX
            &&& 1000 <= duration <= MAX_DURATION_MS
            &&& rate == #[trigger] cycles_per_second(power_of_ten(exponent) as int, duration)
        }
}

/// `workload` has run, and come back, on ten cycles, on a hundred, and so on
/// up to ten to the power of `exponent`, each of them a number that a `usize`
/// holds.
pub open spec fn has_run_up_to<W: Fn(usize)>(workload: &W, exponent: nat) -> bool {
    forall|e: nat|
        1 <= e <= exponent ==> {
            &&& #[trigger] power_of_ten(e) <= usize::MAX
            &&& call_ensures(*workload, (power_of_ten(e) as usize,), ())
        }
}

/// `rate` is what a calibration with `workload` finds: `workload` has run on
/// ten cycles, on a hundred, and so on, and `rate` is the number of cycles in
/// a second of the last of these runs, which took a second or more.
pub open spec fn is_rate_found_with<W: Fn(usize)>(workload: &W, rate: int) -> bool {
    exists|exponent: nat, duration: int|
        {
            &&& 1 <= exponent
            &&& has_run_up_to(workload, exponent)
            &&& 1000 <= duration <= MAX_DURATION_MS
            &&& rate == #[trigger] cycles_per_second(power_of_ten(exponent) as int, duration)
        }
}

/// `error` is how a calibration with `workload` fails: `workload` has run on
/// ten cycles, on a hundred, and so on, and then the last run could not be
/// timed or, for `CalibrationOverflow`, was the run on the largest power of
/// ten that a `usize` holds.
pub open spec fn is_failure_found_with<W: Fn(usize)>(workload: &W, error: EngineError) -> bool {
    exists|exponent: nat|
        {
            &&& 1 <= exponent
            &&& #[trigger] has_run_up_to(workload, exponent)
            &&& error == EngineError::CalibrationOverflow ==> power_of_ten(exponent + 1)
                > usize::MAX
        }
}

/// `num_cpus::get`: the number of processors that this process can run on,
/// which is at least 1.
#[verifier::external_body]
pub(crate) fn count_cpus() -> (n_cpus: usize)
    ensures
        n_cpus >= 1,
{
    num_cpus::get()
}

/// The number of cycles in a second, rounded down, where `n_cycles` cycles
/// took `duration` milliseconds, a second or more.
pub fn cycles_per_sec(n_cycles: usize, duration: TimeMs) -> (rate: usize)
    requires
        duration >= 1000,
    ensures
        rate == cycles_per_second(n_cycles as int, duration as int),
        rate <= n_cycles,
{
    let cycles = n_cycles as TimeMs;
    assert(0 <= (1000 * cycles) / (duration as int) <= cycles) by (nonlinear_arith)
        requires
            0 <= cycles,
            duration >= 1000,
    ;
    (1000 * cycles / duration) as usize
}

/// Finds how many cycles of `workload` the machine runs in a second: runs it
/// on ten cycles, on a hundred, and so on, until one run takes a second or
/// more, and takes the rate of that run.
///
/// Fails with `CalibrationOverflow` when no run takes a second before the
/// number of cycles leaves the range of `usize`, and with `TimingUnavailable`
/// when a run could not be timed.
pub fn count_cycles_per_sec<W: Fn(usize)>(workload: &W) -> (outcome: Result<usize, EngineError>)
    requires
        forall|n_cycles: usize| call_requires(*workload, (n_cycles,)),
    ensures
        outcome matches Ok(rate) ==> is_calibrated_rate(rate as int),
        outcome matches Ok(rate) ==> is_rate_found_with(workload, rate as int),
        outcome matches Err(error) ==> is_failure_found_with(workload, error),
{
    let mut duration: TimeMs = 0;
    let mut n_cycles: usize = 1;
    let ghost mut exponent: nat = 0;
    while duration < 1000
        invariant
            forall|n_cycles: usize| call_requires(*workload, (n_cycles,)),
            n_cycles == power_of_ten(exponent),
            n_cycles >= 1,
            0 <= duration <= MAX_DURATION_MS,
            exponent >= 1 || duration == 0,
            has_run_up_to(workload, exponent),
        decreases usize::MAX - n_cycles,
    {
        n_cycles =
        match n_cycles.checked_mul(10) {
            Some(more) => more,
            None => {
                return Err(EngineError::CalibrationOverflow);
            },
        };
        proof {
            exponent = exponent + 1;
        }
        let watch = SystemTime::now();
        workload(n_cycles);
        assert(has_run_up_to(workload, exponent)) by {
            assert forall|e: nat| 1 <= e <= exponent implies #[trigger] power_of_ten(e)
                <= usize::MAX && call_ensures(*workload, (power_of_ten(e) as usize,), ()) by {
                if e < exponent {
                    assert(has_run_up_to(workload, (exponent - 1) as nat));
                }
            }
        }
        duration =
        match duration_ms(&watch) {
            Ok(elapsed) => elapsed,
            Err(e) => {
                return Err(e);
            },
        };
    }
    let rate = cycles_per_sec(n_cycles, duration);
    Ok(rate)
}

/// The table of the parameters of this machine, as found with `workload`.
///
/// Fails as `count_cycles_per_sec` does.
pub fn test_sysparams<W: Fn(usize)>(workload: &W) -> (outcome: Result<String, EngineError>)
    requires
        forall|n_cycles: usize| call_requires(*workload, (n_cycles,)),
    ensures
        outcome matches Ok(table) ==> exists|n_cpus: nat, cycles_per_sec: nat|
            {
                &&& n_cpus >= 1
                &&& is_calibrated_rate(cycles_per_sec as int)
                &&& is_rate_found_with(workload, cycles_per_sec as int)
                &&& table@ == #[trigger] sysparams_text(n_cpus, cycles_per_sec)
            },
        outcome matches Err(error) ==> is_failure_found_with(workload, error),
{
    let n_cpus = count_cpus();
    match count_cycles_per_sec(workload) {
        Ok(cycles_per_sec) => {
            let table = format_sysparams(n_cpus, cycles_per_sec);
            Ok(table)
        },
        Err(e) => Err(e),
    }
}

} // verus!
