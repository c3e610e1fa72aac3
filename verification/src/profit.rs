//! The concurrency profit: the share of wall-clock time that running tasks
//! together saves over running them one after another.

use crate::clock::TimeMs;
use vstd::prelude::*;

verus! {

/// A profit as a fraction: `saved` out of `serial` milliseconds. Where
/// `serial` is 0 the fraction has no value.
pub struct ProfitRatio {
    pub saved: int,
    pub serial: int,
}

impl ProfitRatio {
    /// The profit of `task_count` tasks that took `total` milliseconds
    /// together, where one task alone takes `baseline`: run one after
    /// another they would take `task_count * baseline`, and the profit is
    /// `1 - total / (task_count * baseline)`.
    pub open spec fn of(task_count: int, total: int, baseline: int) -> ProfitRatio {
        ProfitRatio { saved: task_count * baseline - total, serial: task_count * baseline }
    }

    /// The profit of an observation that was compared with nothing: 0.
    pub open spec fn neutral() -> ProfitRatio {
        ProfitRatio { saved: 0, serial: 1 }
    }

    /// The profit is 0: nothing was saved.
    pub open spec fn is_zero(self) -> bool {
        self.saved == 0
    }

    /// The profit is larger than `1 - 1 / parts`, for `parts` above 0.
    pub open spec fn within_one_part_of_all(self, parts: int) -> bool {
        &&& self.serial > 0
        &&& parts * (self.serial - self.saved) < self.serial
    }
}

/// The concurrency profit of an observation, kept as the two numbers of
/// milliseconds that it is the quotient of.
#[derive(Clone, Copy, Debug, PartialEq, Eq, Structural)]
pub struct Profit {
    /// How much sooner the tasks were done than one after another.
    pub saved: TimeMs,
    /// How long the tasks would have taken one after another.
    pub serial: TimeMs,
}

impl View for Profit {
    type V = ProfitRatio;

    open spec fn view(&self) -> ProfitRatio {
        ProfitRatio { saved: self.saved as int, serial: self.serial as int }
    }
}

impl Profit {
    /// The profit of an observation that was compared with nothing.
    pub fn neutral() -> (profit: Profit)
        ensures
            profit@ == ProfitRatio::neutral(),
    {
        Profit { saved: 0, serial: 1 }
    }
}

/// Tasks that together take exactly as long as one after another have a
/// profit of 0.
pub proof fn lemma_profit_boundary(task_count: int, total: int, baseline: int)
    requires
        total == task_count * baseline,
    ensures
        ProfitRatio::of(task_count, total, baseline).is_zero(),
{
}

/// Tasks that together take less time than one of them alone have a profit
/// larger than `1 - 1 / task_count`, and so larger than `1 - 1 / parts` for
/// any `parts` up to the number of tasks: the profit tends to 1 as the number
/// of tasks grows.
pub proof fn lemma_profit_approaches_one(task_count: int, total: int, baseline: int, parts: int)
    requires
        0 <= total < baseline,
        1 <= parts <= task_count,
    ensures
        ProfitRatio::of(task_count, total, baseline).within_one_part_of_all(parts),
        ProfitRatio::of(task_count, total, baseline).saved <= ProfitRatio::of(
            task_count,
            total,
            baseline,
        ).serial,
{
    assert(parts * total < task_count * baseline && task_count * baseline > 0)
        by (nonlinear_arith)
        requires
            0 <= total < baseline,
            1 <= parts <= task_count,
    ;
}

} // verus!
