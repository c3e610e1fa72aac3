//! The observations of one sweep, in the order in which they were made.

use crate::clock::TimeMs;
use crate::clock::MAX_DURATION_MS;
use crate::clock::MAX_INSTANT_MS;
use crate::observation::Observation;
use crate::observation::ObservationView;
use crate::profit::ProfitRatio;
use crate::schedule::earliest_start;
use crate::schedule::lemma_normalized_starts_at_zero;
use crate::schedule::lemma_rebased_keeps_statistics;
use crate::schedule::normalized;
use crate::schedule::schedule_valid;
use crate::schedule::total_duration;
use vstd::prelude::*;

verus! {

/// The observation at `index` is as `register_observation` leaves one: its
/// schedule is valid, has an entry and starts at 0, and, unless it is the
/// first, its profit is taken against the total duration of the first.
pub open spec fn registered_at(report: Seq<ObservationView>, index: int) -> bool {
    let observation = report[index];
    &&& schedule_valid(observation.schedule)
    &&& observation.schedule.len() > 0
    &&& earliest_start(observation.schedule) == 0
    &&& index > 0 ==> observation.profit == ProfitRatio::of(
        observation.schedule.len() as int,
        total_duration(observation.schedule),
        total_duration(report[0].schedule),
    )
}

/// What `register_observation` makes of `observation` before it appends it to
/// `report`: the schedule rebased on its earliest start, and the profit taken
/// against the first observation of the report, or left as it is where the
/// report is empty.
pub open spec fn registered(
    report: Seq<ObservationView>,
    observation: ObservationView,
) -> ObservationView {
    ObservationView {
        schedule: normalized(observation.schedule),
        profit: if report.len() > 0 {
            ProfitRatio::of(
                observation.schedule.len() as int,
                total_duration(observation.schedule),
                total_duration(report[0].schedule),
            )
        } else {
            observation.profit
        },
    }
}

/// The observations of a sweep. The first one is the baseline of all later
/// ones: their profit is taken against its total duration, and not against
/// the shortest total duration that was seen.
pub struct Report {
    observations: Vec<Observation>,
}

impl View for Report {
    type V = Seq<ObservationView>;

    closed spec fn view(&self) -> Seq<ObservationView> {
        Seq::new(self.observations@.len(), |i: int| self.observations@[i]@)
    }
}

impl Report {
    /// Every observation is as `register_observation` leaves one.
    pub open spec fn wf(&self) -> bool {
        forall|i: int| 0 <= i < self@.len() ==> #[trigger] registered_at(self@, i)
    }

    /// The number of observations in the report.
    pub fn count_observations(&self) -> (count: usize)
        ensures
            count == self@.len(),
    {
        self.observations.len()
    }

    /// The baseline of the report: the total duration of its first
    /// observation.
    pub fn get_task_duration_min(&self) -> (baseline: TimeMs)
        requires
            self.wf(),
            self@.len() > 0,
        ensures
            baseline == total_duration(self@[0].schedule),
            0 <= baseline <= MAX_INSTANT_MS + MAX_DURATION_MS,
    {
        assert(registered_at(self@, 0));
        self.observations[0].get_total_duration()
    }

    /// Takes the profit of `obs` against the baseline of the report, if it
    /// has one, rebases the schedule of `obs` on its earliest start, and
    /// appends `obs`.
    pub fn register_observation(&mut self, obs: Observation)
        requires
            old(self).wf(),
            obs.wf(),
            obs@.schedule.len() > 0,
        ensures
            final(self).wf(),
            final(self)@ == old(self)@.push(registered(old(self)@, obs@)),
    {
        let mut obs = obs;
        let ghost given = obs@;
        if self.count_observations() > 0 {
            let baseline = self.get_task_duration_min();
            let count = obs.count_tasks();
            assert(count * baseline <= i128::MAX) by (nonlinear_arith)
                requires
                    0 <= count <= 0xFFFF_FFFF_FFFF_FFFF,
                    0 <= baseline <= 0x4000_0000_0000_0000 + 0x7FFF_FFFF,
            ;
            obs.calc_concurrency_profit(baseline);
        }
        obs.recalc_tasks_relative_earliest_start();
        proof {
            lemma_rebased_keeps_statistics(given.schedule, earliest_start(given.schedule));
            lemma_normalized_starts_at_zero(given.schedule);
        }
        self.observations.push(obs);
        proof {
            assert forall|i: int| 0 <= i < self@.len() implies #[trigger] registered_at(
                self@,
                i,
            ) by {
                if i < old(self)@.len() {
                    assert(registered_at(old(self)@, i));
                }
            }
        }
    }

    /// The observation that was registered as number `idx`, counted from 0.
    pub fn get_observation(&self, idx: usize) -> (observation: &Observation)
        requires
            idx < self@.len(),
        ensures
            observation@ == self@[idx as int],
            self.wf() ==> observation.wf() && observation@.schedule.len() > 0,
    {
        proof {
            if self.wf() {
                assert(registered_at(self@, idx as int));
            }
        }
        &(self.observations[idx])
    }

    /// A report without observations. Room is made for `ntasks_max` of them
    /// where the memory for them is to be had.
    pub fn create(ntasks_max: usize) -> (report: Report)
        ensures
            report.wf(),
            report@.len() == 0,
    {
        let mut observations: Vec<Observation> = Vec::new();
        match observations.try_reserve(ntasks_max) {
            Ok(()) => {},
            Err(_) => {},
        }
        Report { observations }
    }
}

} // verus!
