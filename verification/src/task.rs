//! One task's timing record, and the runner that produces it.

use crate::clock::duration_ms;
use crate::clock::now_ms;
use crate::clock::EngineError;
use crate::clock::TimeMs;
use crate::clock::MAX_DURATION_MS;
use crate::clock::MAX_INSTANT_MS;
use std::time::SystemTime;
use vstd::prelude::*;

verus! {

/// What a `Task` stands for: when one task started and how long it ran.
pub struct ScheduleEntry {
    pub started_at: int,
    pub duration: int,
}

impl ScheduleEntry {
    /// The instant at which the task was done.
    pub open spec fn finished_at(self) -> int {
        self.started_at + self.duration
    }

    /// The entry lies in the range that a schedule holds: it starts at or
    /// after the epoch, and no task runs for a negative time.
    pub open spec fn valid(self) -> bool {
        &&& 0 <= self.started_at <= MAX_INSTANT_MS
        &&& 0 <= self.duration <= MAX_DURATION_MS
    }

    /// The same entry, its start counted from `origin`.
    pub open spec fn rebased(self, origin: int) -> ScheduleEntry {
        ScheduleEntry { started_at: self.started_at - origin, duration: self.duration }
    }
}

/// The timing record of one task.
#[derive(Clone, Copy, Debug)]
pub struct Task {
    start: TimeMs,
    duration: TimeMs,
}

impl View for Task {
    type V = ScheduleEntry;

    closed spec fn view(&self) -> ScheduleEntry {
        ScheduleEntry { started_at: self.start as int, duration: self.duration as int }
    }
}

impl Task {
    /// Well-formed tasks are those whose entry is `valid`.
    pub open spec fn wf(&self) -> bool {
        self@.valid()
    }

    /// The instant at which the task started.
    pub fn get_start(&self) -> (start: TimeMs)
        ensures
            start == self@.started_at,
    {
        self.start
    }

    /// Counts the start from `initial_moment` on.
    pub fn recalc_start_relative(&mut self, initial_moment: TimeMs)
        requires
            old(self).wf(),
            old(self)@.rebased(initial_moment as int).valid(),
        ensures
            final(self)@ == old(self)@.rebased(initial_moment as int),
    {
        self.start -= initial_moment
    }

    /// The instant at which the task was done.
    pub fn get_finish(&self) -> (finish: TimeMs)
        requires
            self.wf(),
        ensures
            finish == self@.finished_at(),
            finish >= self@.started_at,
    {
        self.start + self.duration
    }

    /// The time that the task ran for.
    pub fn get_duration(&self) -> (duration: TimeMs)
        ensures
            duration == self@.duration,
            self.wf() ==> duration >= 0,
    {
        self.duration
    }

    /// The record of a task that started at `start` and ran for `duration`.
    pub fn create(start: TimeMs, duration: TimeMs) -> (task: Task)
        requires
            (ScheduleEntry { started_at: start as int, duration: duration as int }).valid(),
        ensures
            task@ == (ScheduleEntry { started_at: start as int, duration: duration as int }),
            task.wf(),
    {
        Task { start, duration }
    }

    /// Whether the record lies in the range that a schedule holds.
    pub fn is_valid(&self) -> (valid: bool)
        ensures
            valid == self.wf(),
    {
        0 <= self.start && self.start <= MAX_INSTANT_MS && 0 <= self.duration
            && self.duration <= MAX_DURATION_MS
    }
}

/// Runs `workload` once on `n_cycles` and records when it started and how long
/// it took. The clock is read before and after, whatever the first reading
/// gave, and the workload has run whatever the clock gave.
///
/// Fails with `TimingUnavailable` when either reading is not to be had.
pub fn standard_task<W: Fn(usize)>(n_cycles: usize, workload: &W) -> (outcome: Result<
    Task,
    EngineError,
>)
    requires
        call_requires(*workload, (n_cycles,)),
    ensures
        call_ensures(*workload, (n_cycles,), ()),
        outcome matches Ok(task) ==> task.wf(),
        outcome matches Err(e) ==> e == EngineError::TimingUnavailable,
{
    let watch = SystemTime::now();
    let start = now_ms(&watch);
    workload(n_cycles);
    let duration = duration_ms(&watch);
    task_from_readings(start, duration)
}

/// The record of a task from the two readings of its clock.
///
/// Fails with the failure of the first reading, or else of the second, where
/// one was not to be had, and with `TimingUnavailable` where the readings are
/// outside the range that a schedule holds.
pub fn task_from_readings(
    start: Result<TimeMs, EngineError>,
    duration: Result<TimeMs, EngineError>,
) -> (outcome: Result<Task, EngineError>)
    ensures
        match (start, duration) {
            (Ok(s), Ok(d)) => {
                let entry = ScheduleEntry { started_at: s as int, duration: d as int };
                if entry.valid() {
                    outcome matches Ok(task) && task@ == entry
                } else {
                    outcome == Err::<Task, EngineError>(EngineError::TimingUnavailable)
                }
            },
            (Err(e), _) => outcome == Err::<Task, EngineError>(e),
            (Ok(_), Err(e)) => outcome == Err::<Task, EngineError>(e),
        },
{
    match start {
        Ok(s) => match duration {
            Ok(d) => {
                if 0 <= s && s <= MAX_INSTANT_MS && 0 <= d && d <= MAX_DURATION_MS {
                    Ok(Task::create(s, d))
                } else {
                    Err(EngineError::TimingUnavailable)
                }
            },
            Err(e) => Err(e),
        },
        Err(e) => Err(e),
    }
}

} // verus!
