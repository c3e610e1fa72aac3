//! The schedule of one burst of tasks and the statistics it reduces to.

use crate::clock::EngineError;
use crate::clock::TimeMs;
use crate::clock::MAX_DURATION_MS;
use crate::clock::MAX_INSTANT_MS;
use crate::clock::MAX_SQUARED_DEVIATION;
use crate::profit::lemma_profit_approaches_one;
use crate::profit::Profit;
use crate::profit::ProfitRatio;
use crate::schedule::dispersion;
use crate::schedule::earliest_start;
use crate::schedule::int_sqrt;
use crate::schedule::is_int_sqrt;
use crate::schedule::latest_finish;
use crate::schedule::lemma_int_sqrt_unique;
use crate::schedule::lemma_mean_bounds;
use crate::schedule::lemma_normalized_starts_at_zero;
use crate::schedule::lemma_normalized_valid;
use crate::schedule::lemma_span_bounds;
use crate::schedule::lemma_square_bounds;
use crate::schedule::mean_task_duration;
use crate::schedule::normalized;
use crate::schedule::schedule_valid;
use crate::schedule::standard_deviation;
use crate::schedule::sum_duration;
use crate::schedule::total_duration;
use crate::task::ScheduleEntry;
use crate::task::Task;
use vstd::prelude::*;

verus! {

/// What an `Observation` stands for: the entries of its tasks, in the order
/// in which they were registered, and its profit.
pub struct ObservationView {
    pub schedule: Seq<ScheduleEntry>,
    pub profit: ProfitRatio,
}

/// The tasks of one burst and the profit that the burst was found to have.
pub struct Observation {
    tasks: Vec<Task>,
    concurrency_profit: Profit,
}

impl View for Observation {
    type V = ObservationView;

    closed spec fn view(&self) -> ObservationView {
        ObservationView {
            schedule: Seq::new(self.tasks@.len(), |i: int| self.tasks@[i]@),
            profit: self.concurrency_profit@,
        }
    }
}

/// The outcome of a task is a record that a schedule can hold.
pub open spec fn is_timed(outcome: Result<Task, EngineError>) -> bool {
    outcome matches Ok(task) && task.wf()
}

/// Why the outcome of a task is no record that a schedule can hold: the
/// error that the task ended with, or `TimingUnavailable` for a record out of
/// range.
pub open spec fn failure_of(outcome: Result<Task, EngineError>) -> EngineError {
    match outcome {
        Ok(_) => EngineError::TimingUnavailable,
        Err(e) => e,
    }
}

/// The entries of the first `count` outcomes.
pub open spec fn entries_of(outcomes: Seq<Result<Task, EngineError>>, count: int) -> Seq<
    ScheduleEntry,
> {
    Seq::new(count as nat, |i: int| outcomes[i].unwrap()@)
}

/// The square root of `n`, rounded down.
pub fn isqrt(n: TimeMs) -> (root: TimeMs)
    requires
        n >= 0,
    ensures
        is_int_sqrt(n as int, root as int),
        root == int_sqrt(n as int),
{
    let mut low: i128 = 0;
    let mut high: i128 = 13043817825332782213;
    while high - low > 1
        invariant
            0 <= low < high <= 13043817825332782213,
            low * low <= n < high * high,
        decreases high - low,
    {
        let mid = low + (high - low) / 2;
        assert(mid * mid <= 13043817825332782212 * 13043817825332782212) by (nonlinear_arith)
            requires
                0 <= mid <= 13043817825332782212,
        ;
        if mid * mid <= n {
            low = mid;
        } else {
            high = mid;
        }
    }
    proof {
        lemma_int_sqrt_unique(n as int, low as int);
    }
    low
}

impl Observation {
    /// Every task of the observation lies in the range that a schedule holds.
    pub open spec fn wf(&self) -> bool {
        schedule_valid(self@.schedule)
    }

    /// Appends `task` to the schedule.
    pub fn register_task(&mut self, task: Task)
        requires
            old(self).wf(),
            task.wf(),
        ensures
            final(self).wf(),
            final(self)@.schedule == old(self)@.schedule.push(task@),
            final(self)@.profit == old(self)@.profit,
    {
        self.tasks.push(task);
        assert(self@.schedule =~= old(self)@.schedule.push(task@));
    }

    /// Appends the tasks of `outcomes` to the schedule, in their order, up to
    /// the first outcome that is no task, or is one that no schedule can hold.
    ///
    /// Fails at that outcome, with its error, or with `TimingUnavailable`
    /// where it is a task out of range.
    pub fn register_outcomes(&mut self, outcomes: &Vec<Result<Task, EngineError>>) -> (outcome:
        Result<(), EngineError>)
        requires
            old(self).wf(),
        ensures
            final(self).wf(),
            final(self)@.profit == old(self)@.profit,
            outcome is Ok <==> forall|i: int| 0 <= i < outcomes@.len() ==> is_timed(outcomes@[i]),
            outcome is Ok ==> final(self)@.schedule == old(self)@.schedule + entries_of(
                outcomes@,
                outcomes@.len() as int,
            ),
            outcome matches Err(e) ==> exists|first: int|
                {
                    &&& 0 <= first < outcomes@.len()
                    &&& forall|i: int| 0 <= i < first ==> is_timed(outcomes@[i])
                    &&& !is_timed(#[trigger] outcomes@[first])
                    &&& e == failure_of(outcomes@[first])
                    &&& final(self)@.schedule == old(self)@.schedule + entries_of(outcomes@, first)
                },
    {
        let n = outcomes.len();
        let mut done: usize = 0;
        while done < n
            invariant
                done <= n,
                n == outcomes@.len(),
                self.wf(),
                self@.profit == old(self)@.profit,
                forall|i: int| 0 <= i < done ==> is_timed(outcomes@[i]),
                self@.schedule == old(self)@.schedule + entries_of(outcomes@, done as int),
            decreases n - done,
        {
            match outcomes[done] {
                Ok(task) => {
                    if task.is_valid() {
                        self.register_task(task);
                    } else {
                        return Err(EngineError::TimingUnavailable);
                    }
                },
                Err(e) => {
                    return Err(e);
                },
            }
            done += 1;
        }
        Ok(())
    }

    /// The number of tasks in the schedule.
    pub fn count_tasks(&self) -> (count: usize)
        ensures
            count == self@.schedule.len(),
    {
        self.tasks.len()
    }

    /// The task that was registered as number `idx`, counted from 0.
    pub fn get_task(&self, idx: usize) -> (task: &Task)
        requires
            idx < self@.schedule.len(),
        ensures
            task@ == self@.schedule[idx as int],
            self.wf() ==> task.wf(),
    {
        &self.tasks[idx]
    }

    /// The start of the task that started first.
    pub fn get_earliest_start(&self) -> (earliest: TimeMs)
        requires
            self@.schedule.len() > 0,
        ensures
            earliest == earliest_start(self@.schedule),
    {
        let n = self.tasks.len();
        let mut earliest = self.tasks[0].get_start();
        let mut i: usize = 1;
        while i < n
            invariant
                1 <= i <= n,
                n == self.tasks@.len(),
                earliest == earliest_start(self@.schedule.take(i as int)),
            decreases n - i,
        {
            let start = self.tasks[i].get_start();
            proof {
                let upto = self@.schedule.take(i + 1);
                assert(upto.drop_last() =~= self@.schedule.take(i as int));
            }
            if start < earliest {
                earliest = start;
            }
            i += 1;
        }
        assert(self@.schedule.take(n as int) =~= self@.schedule);
        earliest
    }

    /// The finish of the task that finished last.
    pub fn get_latest_finish(&self) -> (latest: TimeMs)
        requires
            self.wf(),
            self@.schedule.len() > 0,
        ensures
            latest == latest_finish(self@.schedule),
    {
        let n = self.tasks.len();
        assert(self@.schedule[0].valid());
        let mut latest = self.tasks[0].get_finish();
        let mut i: usize = 1;
        while i < n
            invariant
                1 <= i <= n,
                n == self.tasks@.len(),
                self.wf(),
                latest == latest_finish(self@.schedule.take(i as int)),
            decreases n - i,
        {
            assert(self@.schedule[i as int].valid());
            let finish = self.tasks[i].get_finish();
            proof {
                let upto = self@.schedule.take(i + 1);
                assert(upto.drop_last() =~= self@.schedule.take(i as int));
            }
            if finish > latest {
                latest = finish;
            }
            i += 1;
        }
        assert(self@.schedule.take(n as int) =~= self@.schedule);
        latest
    }

    /// Counts every start from the earliest one on, which then reads 0.
    pub fn recalc_tasks_relative_earliest_start(&mut self)
        requires
            old(self).wf(),
            old(self)@.schedule.len() > 0,
        ensures
            final(self).wf(),
            final(self)@.schedule == normalized(old(self)@.schedule),
            final(self)@.profit == old(self)@.profit,
            earliest_start(final(self)@.schedule) == 0,
    {
        let initial_moment = self.get_earliest_start();
        let n = self.tasks.len();
        let ghost before = self@.schedule;
        proof {
            lemma_normalized_valid(before);
            lemma_normalized_starts_at_zero(before);
        }
        let mut i: usize = 0;
        while i < n
            invariant
                i <= n,
                n == self.tasks@.len(),
                n == before.len(),
                initial_moment == earliest_start(before),
                schedule_valid(before),
                schedule_valid(normalized(before)),
                self@.profit == old(self)@.profit,
                forall|j: int| 0 <= j < i ==> self.tasks@[j]@ == #[trigger] normalized(before)[j],
                forall|j: int| i <= j < n ==> self.tasks@[j]@ == #[trigger] before[j],
            decreases n - i,
        {
            let mut task = self.tasks[i];
            assert(normalized(before)[i as int].valid());
            task.recalc_start_relative(initial_moment);
            self.tasks[i] = task;
            i += 1;
        }
        assert(self@.schedule =~= normalized(before));
    }

    /// The span from the first start to the last finish.
    pub fn get_total_duration(&self) -> (total: TimeMs)
        requires
            self.wf(),
            self@.schedule.len() > 0,
        ensures
            total == total_duration(self@.schedule),
            0 <= total <= MAX_INSTANT_MS + MAX_DURATION_MS,
    {
        proof {
            lemma_span_bounds(self@.schedule);
        }
        self.get_latest_finish() - self.get_earliest_start()
    }

    /// The durations of all tasks, added up.
    pub fn sum_duration(&self) -> (sum: TimeMs)
        requires
            self.wf(),
        ensures
            sum == sum_duration(self@.schedule),
            0 <= sum <= self@.schedule.len() * MAX_DURATION_MS,
    {
        let n = self.tasks.len();
        let mut sum: TimeMs = 0;
        let mut i: usize = 0;
        while i < n
            invariant
                i <= n,
                n == self.tasks@.len(),
                self.wf(),
                sum == sum_duration(self@.schedule.take(i as int)),
                0 <= sum <= i * MAX_DURATION_MS,
            decreases n - i,
        {
            let duration = self.tasks[i].get_duration();
            proof {
                let upto = self@.schedule.take(i + 1);
                assert(upto.drop_last() =~= self@.schedule.take(i as int));
                assert(upto.last() == self@.schedule[i as int]);
            }
            sum += duration;
            i += 1;
        }
        assert(self@.schedule.take(n as int) =~= self@.schedule);
        sum
    }

    /// The mean duration of a task, rounded down.
    pub fn get_mean_task_duration(&self) -> (mean: TimeMs)
        requires
            self.wf(),
            self@.schedule.len() > 0,
        ensures
            mean == mean_task_duration(self@.schedule),
            0 <= mean <= MAX_DURATION_MS,
    {
        proof {
            lemma_mean_bounds(self@.schedule);
        }
        self.sum_duration() / (self.count_tasks() as TimeMs)
    }

    /// The root of the summed squares of the distances of the durations from
    /// their mean, over one less than the number of tasks, rounded down. It is
    /// 0 where there are fewer than two tasks.
    pub fn get_standard_deviation(&self) -> (deviation: TimeMs)
        requires
            self.wf(),
        ensures
            deviation == standard_deviation(self@.schedule),
            deviation >= 0,
    {
        let n = self.tasks.len();
        if n <= 1 {
            return 0;
        }
        let mean_task_duration = self.get_mean_task_duration();
        let mut squares: TimeMs = 0;
        let mut i: usize = 0;
        while i < n
            invariant
                i <= n,
                n == self.tasks@.len(),
                self.wf(),
                0 <= mean_task_duration <= MAX_DURATION_MS,
                squares == dispersion(self@.schedule.take(i as int), mean_task_duration as int),
                0 <= squares <= i * MAX_SQUARED_DEVIATION,
            decreases n - i,
        {
            assert(self@.schedule[i as int].valid());
            let deviation = mean_task_duration - self.tasks[i].get_duration();
            proof {
                let upto = self@.schedule.take(i + 1);
                assert(upto.drop_last() =~= self@.schedule.take(i as int));
                lemma_square_bounds(deviation as int);
            }
            squares += deviation * deviation;
            i += 1;
        }
        assert(self@.schedule.take(n as int) =~= self@.schedule);
        let root = isqrt(squares);
        let divisor = (n - 1) as TimeMs;
        root / divisor
    }

    /// The profit that the observation was last found to have.
    pub fn get_concurrency_profit(&self) -> (profit: Profit)
        ensures
            profit@ == self@.profit,
    {
        self.concurrency_profit
    }

    /// Sets the profit of the observation against `task_duration_min`, the
    /// time that one task takes alone, and returns it. No profit is larger
    /// than 1: no more is saved than the tasks would take one after another.
    /// Tasks that together take exactly as long as one after another have a
    /// profit of 0, and tasks that together take less than one alone have a
    /// profit larger than 1 less the inverse of their number.
    pub fn calc_concurrency_profit(&mut self, task_duration_min: TimeMs) -> (profit: Profit)
        requires
            old(self).wf(),
            old(self)@.schedule.len() > 0,
            0 <= task_duration_min,
            old(self)@.schedule.len() * task_duration_min <= i128::MAX,
        ensures
            final(self).wf(),
            final(self)@.schedule == old(self)@.schedule,
            final(self)@.profit == ProfitRatio::of(
                old(self)@.schedule.len() as int,
                total_duration(old(self)@.schedule),
                task_duration_min as int,
            ),
            profit@ == final(self)@.profit,
            profit@.saved <= profit@.serial,
            total_duration(old(self)@.schedule) == old(self)@.schedule.len() * task_duration_min
                ==> profit@.is_zero(),
            total_duration(old(self)@.schedule) < task_duration_min
                ==> profit@.within_one_part_of_all(old(self)@.schedule.len() as int),
    {
        let count = self.count_tasks() as TimeMs;
        let serial_duration = count * task_duration_min;
        let total = self.get_total_duration();
        proof {
            if total < task_duration_min {
                lemma_profit_approaches_one(
                    count as int,
                    total as int,
                    task_duration_min as int,
                    count as int,
                );
            }
        }
        self.concurrency_profit = Profit { saved: serial_duration - total, serial: serial_duration };
        self.concurrency_profit
    }

    /// An observation without tasks and with the profit of one that was
    /// compared with nothing. Room is made for `capacity` tasks where the
    /// memory for them is to be had.
    pub fn with_capacity(capacity: usize) -> (observation: Observation)
        ensures
            observation.wf(),
            observation@.schedule.len() == 0,
            observation@.profit == ProfitRatio::neutral(),
    {
        let mut tasks: Vec<Task> = Vec::new();
        match tasks.try_reserve(capacity) {
            Ok(()) => {},
            Err(_) => {},
        }
        Observation { tasks, concurrency_profit: Profit::neutral() }
    }
}

} // verus!
