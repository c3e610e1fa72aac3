//! Runs a burst of tasks in series of bounded size, each series on threads of
//! its own, and sweeps over bursts of growing size.

use crate::clock::EngineError;
use crate::observation::Observation;
use crate::profit::ProfitRatio;
use crate::report::Report;
use crate::task::standard_task;
use crate::task::Task;
use crossbeam::Scope;
use crossbeam::ScopedJoinHandle;
use vstd::arithmetic::div_mod::lemma_fundamental_div_mod;
use vstd::arithmetic::div_mod::lemma_fundamental_div_mod_converse;
use vstd::arithmetic::div_mod::lemma_mod_bound;
use vstd::arithmetic::mul::lemma_mul_is_commutative;
use vstd::arithmetic::mul::lemma_mul_nonnegative;
use vstd::prelude::*;

verus! {

/// The number of series that `n_tasks` tasks make when no series holds more
/// than `series_size`: `n_tasks / series_size`, rounded up.
pub open spec fn series_count(n_tasks: int, series_size: int) -> int {
    (n_tasks + series_size - 1) / series_size
}

/// The number of tasks that have been launched when `index` series are done.
pub open spec fn launched_before(n_tasks: int, series_size: int, index: int) -> int {
    if index * series_size < n_tasks {
        index * series_size
    } else {
        n_tasks
    }
}

/// The number of tasks in the series at `index`: `series_size`, or what is
/// left of `n_tasks` after the series before it, if that is less.
pub open spec fn series_len(n_tasks: int, series_size: int, index: int) -> int {
    if n_tasks - index * series_size < series_size {
        n_tasks - index * series_size
    } else {
        series_size
    }
}

/// The series count is the quotient of the two numbers where the division
/// leaves nothing over, and one more where it leaves something.
pub proof fn lemma_series_count_quotient(n_tasks: int, series_size: int)
    requires
        0 <= n_tasks,
        0 < series_size,
    ensures
        0 <= series_size * (n_tasks / series_size) <= n_tasks,
        0 <= n_tasks / series_size <= n_tasks,
        series_size * (n_tasks / series_size) < n_tasks ==> series_count(n_tasks, series_size)
            == n_tasks / series_size + 1,
        series_size * (n_tasks / series_size) == n_tasks ==> series_count(n_tasks, series_size)
            == n_tasks / series_size,
{
    let quotient = n_tasks / series_size;
    let rest = n_tasks % series_size;
    lemma_fundamental_div_mod(n_tasks, series_size);
    lemma_mod_bound(n_tasks, series_size);
    lemma_mul_is_commutative(series_size, quotient);
    lemma_mul_nonnegative(series_size, quotient);
    if rest == 0 {
        lemma_fundamental_div_mod_converse(
            n_tasks + series_size - 1,
            series_size,
            quotient,
            series_size - 1,
        );
    } else {
        assert((quotient + 1) * series_size == quotient * series_size + series_size)
            by (nonlinear_arith);
        lemma_fundamental_div_mod_converse(
            n_tasks + series_size - 1,
            series_size,
            quotient + 1,
            rest - 1,
        );
    }
}

/// The series count is the least number of series of `series_size` that hold
/// `n_tasks` tasks.
pub proof fn lemma_series_count_is_least(n_tasks: int, series_size: int)
    requires
        0 <= n_tasks,
        0 < series_size,
    ensures
        0 <= series_count(n_tasks, series_size) <= n_tasks,
        series_count(n_tasks, series_size) * series_size >= n_tasks,
        (series_count(n_tasks, series_size) - 1) * series_size < n_tasks || n_tasks == 0,
        n_tasks == 0 ==> series_count(n_tasks, series_size) == 0,
{
    lemma_series_count_quotient(n_tasks, series_size);
    let quotient = n_tasks / series_size;
    let count = series_count(n_tasks, series_size);
    lemma_mul_is_commutative(series_size, quotient);
    lemma_mod_bound(n_tasks, series_size);
    lemma_fundamental_div_mod(n_tasks, series_size);
    assert((quotient + 1) * series_size == quotient * series_size + series_size)
        by (nonlinear_arith);
    assert((quotient - 1) * series_size == quotient * series_size - series_size)
        by (nonlinear_arith);
    if series_size * quotient < n_tasks {
        assert(count <= n_tasks) by (nonlinear_arith)
            requires
                count == quotient + 1,
                series_size * quotient < n_tasks,
                0 < series_size,
                0 <= quotient,
        ;
    }
}

/// Every series holds at least one task and at most `series_size`; all but
/// the last hold `series_size`; and each begins where the one before it
/// ended.
pub proof fn lemma_series_len(n_tasks: int, series_size: int, index: int)
    requires
        0 < series_size,
        0 <= index < series_count(n_tasks, series_size),
        0 <= n_tasks,
    ensures
        1 <= series_len(n_tasks, series_size, index) <= series_size,
        index + 1 < series_count(n_tasks, series_size) ==> series_len(n_tasks, series_size, index)
            == series_size,
        launched_before(n_tasks, series_size, index) == index * series_size,
        launched_before(n_tasks, series_size, index + 1) == launched_before(
            n_tasks,
            series_size,
            index,
        ) + series_len(n_tasks, series_size, index),
{
    lemma_series_count_is_least(n_tasks, series_size);
    let count = series_count(n_tasks, series_size);
    assert(index * series_size < n_tasks && (index + 1) * series_size == index * series_size
        + series_size && (index + 1 < count ==> (index + 1) * series_size < n_tasks))
        by (nonlinear_arith)
        requires
            0 < series_size,
            0 <= index < count,
            (count - 1) * series_size < n_tasks,
    ;
}

/// The series of a burst hold all of its tasks, and no more: when the last
/// series is done, `n_tasks` tasks have been launched.
pub proof fn lemma_series_cover(n_tasks: int, series_size: int)
    requires
        0 <= n_tasks,
        0 < series_size,
    ensures
        launched_before(n_tasks, series_size, 0) == 0,
        launched_before(n_tasks, series_size, series_count(n_tasks, series_size)) == n_tasks,
{
    lemma_series_count_is_least(n_tasks, series_size);
}

/// With series of one task, a burst of `n_tasks` tasks is run in `n_tasks`
/// series: no two of its tasks are launched together, and each is launched
/// when the one before it is done.
pub proof fn lemma_series_of_one(n_tasks: int, index: int)
    requires
        0 <= index < n_tasks,
    ensures
        series_count(n_tasks, 1) == n_tasks,
        series_len(n_tasks, 1, index) == 1,
        launched_before(n_tasks, 1, index) == index,
{
}

/// The number of series that a burst of `n_tasks` tasks is run in.
pub fn count_series(n_tasks: usize, series_size: usize) -> (n_series: usize)
    requires
        series_size > 0,
    ensures
        n_series == series_count(n_tasks as int, series_size as int),
{
    let mut n_series = n_tasks / series_size;
    proof {
        lemma_series_count_quotient(n_tasks as int, series_size as int);
        lemma_series_count_is_least(n_tasks as int, series_size as int);
    }
    if series_size * n_series < n_tasks {
        n_series += 1;
    }
    n_series
}

/// The number of tasks to launch in the series at `index`.
pub fn series_length(n_tasks: usize, series_size: usize, index: usize) -> (length: usize)
    requires
        series_size > 0,
        index < series_count(n_tasks as int, series_size as int),
    ensures
        length == series_len(n_tasks as int, series_size as int, index as int),
        1 <= length <= series_size,
{
    proof {
        lemma_series_len(n_tasks as int, series_size as int, index as int);
    }
    let remaining = n_tasks - index * series_size;
    if remaining < series_size {
        remaining
    } else {
        series_size
    }
}

/// `crossbeam::Scope`, within which scoped threads are spawned.
#[verifier::external_type_specification]
#[verifier::external_body]
pub struct ExScope<'a>(Scope<'a>);

/// `crossbeam::ScopedJoinHandle`, the handle to a scoped thread that is to
/// produce a `T`.
#[verifier::external_type_specification]
#[verifier::external_body]
#[verifier::reject_recursive_types(T)]
pub struct ExScopedJoinHandle<T>(ScopedJoinHandle<T>);

/// `ScopedJoinHandle::join` waits for the thread and hands out what it
/// produced. Nothing is claimed of that value. The call panics if the thread
/// has panicked.
pub assume_specification<T>[ ScopedJoinHandle::<T>::join ](handle: ScopedJoinHandle<T>) -> (produced:
    T);

/// `Scope::spawn` starts a thread that lives no longer than the scope; here it
/// is to run `standard_task` once. Nothing is claimed of the handle. The call
/// panics if the system refuses another thread.
#[verifier::external_body]
fn spawn_task<'a, W: Fn(usize) + Sync>(
    spawner: &Scope<'a>,
    n_cycles: usize,
    workload: &'a W,
) -> (handle: ScopedJoinHandle<Result<Task, EngineError>>)
    requires
        call_requires(*workload, (n_cycles,)),
{
    spawner.spawn(move || standard_task(n_cycles, workload))
}

/// Launches `size` tasks in `spawner`, each on a thread of its own.
fn spawn_series<'a, W: Fn(usize) + Sync>(
    spawner: &Scope<'a>,
    size: usize,
    n_cycles: usize,
    workload: &'a W,
) -> (handles: Vec<ScopedJoinHandle<Result<Task, EngineError>>>)
    requires
        call_requires(*workload, (n_cycles,)),
    ensures
        handles@.len() == size,
{
    let mut handles: Vec<ScopedJoinHandle<Result<Task, EngineError>>> = Vec::new();
    let mut count_tasks_series: usize = 0;
    while count_tasks_series < size
        invariant
            count_tasks_series <= size,
            handles@.len() == count_tasks_series,
            call_requires(*workload, (n_cycles,)),
        decreases size - count_tasks_series,
    {
        handles.push(spawn_task(spawner, n_cycles, workload));
        count_tasks_series += 1;
    }
    handles
}

/// `crossbeam::scope` runs its argument in a new scope, waits for every thread
/// spawned in the scope, and returns what the argument returned; here the
/// argument is `spawn_series`, so what comes back are its `size` handles, each
/// to a thread that is done. The scope panics where a thread has panicked, so
/// where it hands back a handle, `standard_task` has run to its end on a
/// thread, and with it the workload.
#[verifier::external_body]
fn run_series<W: Fn(usize) + Sync>(size: usize, n_cycles: usize, workload: &W) -> (handles: Vec<
    ScopedJoinHandle<Result<Task, EngineError>>,
>)
    requires
        call_requires(*workload, (n_cycles,)),
    ensures
        handles@.len() == size,
        handles@.len() > 0 ==> call_ensures(*workload, (n_cycles,), ()),
{
    crossbeam::scope(|spawner| spawn_series(spawner, size, n_cycles, workload))
}

/// Waits for each thread of a series, in the order in which the threads were
/// launched, and takes what it produced.
fn join_series(handles: Vec<ScopedJoinHandle<Result<Task, EngineError>>>) -> (outcomes: Vec<
    Result<Task, EngineError>,
>)
    ensures
        outcomes@.len() == handles@.len(),
{
    let mut outcomes: Vec<Result<Task, EngineError>> = Vec::new();
    for handle in joined: handles
        invariant
            outcomes@.len() == joined.index(),
    {
        outcomes.push(handle.join());
    }
    outcomes
}

/// Runs `n_tasks` tasks, each of them `workload` on `n_cycles`, in series of
/// at most `series_size`: the tasks of a series run on threads of their own,
/// and a series is launched when every task of the one before it is done. The
/// schedule holds one task for each that ran, in the order in which they were
/// launched.
///
/// Fails with `TimingUnavailable` when a task could not be timed; the
/// workload has run all the same.
pub fn observe<W: Fn(usize) + Sync>(
    n_tasks: usize,
    n_cycles: usize,
    series_size: usize,
    workload: &W,
) -> (outcome: Result<Observation, EngineError>)
    requires
        series_size > 0,
        call_requires(*workload, (n_cycles,)),
    ensures
        outcome matches Ok(obs) ==> {
            &&& obs.wf()
            &&& obs@.schedule.len() == n_tasks
            &&& obs@.profit == ProfitRatio::neutral()
        },
        outcome matches Err(e) ==> e == EngineError::TimingUnavailable,
        n_tasks == 0 ==> outcome is Ok,
        n_tasks > 0 ==> call_ensures(*workload, (n_cycles,), ()),
{
    let n_series = count_series(n_tasks, series_size);
    let mut obs = Observation::with_capacity(n_tasks);
    let mut series: usize = 0;
    proof {
        lemma_series_cover(n_tasks as int, series_size as int);
        lemma_series_count_is_least(n_tasks as int, series_size as int);
    }
    while series < n_series
        invariant
            series <= n_series,
            n_tasks > 0 ==> n_series > 0,
            series > 0 ==> call_ensures(*workload, (n_cycles,), ()),
            series_size > 0,
            n_series == series_count(n_tasks as int, series_size as int),
            call_requires(*workload, (n_cycles,)),
            obs.wf(),
            obs@.profit == ProfitRatio::neutral(),
            obs@.schedule.len() == launched_before(
                n_tasks as int,
                series_size as int,
                series as int,
            ),
        decreases n_series - series,
    {
        let size = series_length(n_tasks, series_size, series);
        proof {
            lemma_series_len(n_tasks as int, series_size as int, series as int);
        }
        let handles = run_series(size, n_cycles, workload);
        let outcomes = join_series(handles);
        match obs.register_outcomes(&outcomes) {
            Ok(()) => {},
            Err(_) => {
                return Err(EngineError::TimingUnavailable);
            },
        }
        series += 1;
    }
    Ok(obs)
}

/// Observes bursts of 1, 2, and so on up to `tasks_max` tasks, and registers
/// each with the report, so that the burst of one task is the baseline of the
/// others.
///
/// Fails with `TimingUnavailable` when a task could not be timed; the
/// workload has run all the same.
pub fn test_concurrency_profit<W: Fn(usize) + Sync>(
    tasks_max: usize,
    n_cycles: usize,
    series_size: usize,
    workload: &W,
) -> (outcome: Result<Report, EngineError>)
    requires
        series_size > 0,
        call_requires(*workload, (n_cycles,)),
    ensures
        outcome matches Ok(report) ==> {
            &&& report.wf()
            &&& report@.len() == tasks_max
            &&& forall|i: int| 0 <= i < tasks_max ==> (#[trigger] report@[i]).schedule.len() == i + 1
            &&& tasks_max > 0 ==> report@[0].profit == ProfitRatio::neutral()
        },
        outcome matches Err(e) ==> e == EngineError::TimingUnavailable,
        tasks_max == 0 ==> outcome is Ok,
        tasks_max > 0 ==> call_ensures(*workload, (n_cycles,), ()),
{
    let mut report = Report::create(tasks_max);
    let mut n_tasks: usize = 0;
    while n_tasks < tasks_max
        invariant
            n_tasks <= tasks_max,
            n_tasks > 0 ==> call_ensures(*workload, (n_cycles,), ()),
            series_size > 0,
            call_requires(*workload, (n_cycles,)),
            report.wf(),
            report@.len() == n_tasks,
            forall|i: int| 0 <= i < n_tasks ==> (#[trigger] report@[i]).schedule.len() == i + 1,
            n_tasks > 0 ==> report@[0].profit == ProfitRatio::neutral(),
        decreases tasks_max - n_tasks,
    {
        n_tasks += 1;
        match observe(n_tasks, n_cycles, series_size, workload) {
            Ok(obs) => {
                report.register_observation(obs);
            },
            Err(e) => {
                return Err(e);
            },
        }
    }
    Ok(report)
}

/// Whether the line of the burst of `n_tasks` tasks ends a group in the table
/// of a sweep up to `tasks_max`: the groups are as long as there are
/// processors, and the last line of the table ends none.
pub fn ends_processor_group(n_tasks: usize, n_cpus: usize, tasks_max: usize) -> (ends: bool)
    requires
        n_cpus > 0,
    ensures
        ends == (n_tasks % n_cpus == 0 && n_tasks != tasks_max),
{
    n_tasks % n_cpus == 0 && n_tasks != tasks_max
}

} // verus!
