//! What a schedule amounts to: the statistics of a sequence of entries, as
//! mathematics, with the facts that the executable reducers rest on.

use crate::clock::MAX_DURATION_MS;
use crate::clock::MAX_INSTANT_MS;
use crate::clock::MAX_SQUARED_DEVIATION;
use crate::task::ScheduleEntry;
use vstd::prelude::*;

verus! {

/// Every entry of the schedule is `valid`.
pub open spec fn schedule_valid(s: Seq<ScheduleEntry>) -> bool {
    forall|i: int| 0 <= i < s.len() ==> (#[trigger] s[i]).valid()
}

/// The smallest `started_at` of the schedule; 0 for the empty one.
pub open spec fn earliest_start(s: Seq<ScheduleEntry>) -> int
    decreases s.len(),
{
    if s.len() == 0 {
        0
    } else if s.len() == 1 {
        s[0].started_at
    } else {
        let before = earliest_start(s.drop_last());
        if s.last().started_at < before {
            s.last().started_at
        } else {
            before
        }
    }
}

/// The largest `finished_at` of the schedule; 0 for the empty one.
pub open spec fn latest_finish(s: Seq<ScheduleEntry>) -> int
    decreases s.len(),
{
    if s.len() == 0 {
        0
    } else if s.len() == 1 {
        s[0].finished_at()
    } else {
        let before = latest_finish(s.drop_last());
        if s.last().finished_at() > before {
            s.last().finished_at()
        } else {
            before
        }
    }
}

/// The span from the first start to the last finish.
pub open spec fn total_duration(s: Seq<ScheduleEntry>) -> int {
    latest_finish(s) - earliest_start(s)
}

/// The durations of all entries, added up.
pub open spec fn sum_duration(s: Seq<ScheduleEntry>) -> int
    decreases s.len(),
{
    if s.len() == 0 {
        0
    } else {
        sum_duration(s.drop_last()) + s.last().duration
    }
}

/// The mean duration of a task, rounded down. Meaningful of a schedule that
/// has an entry.
pub open spec fn mean_task_duration(s: Seq<ScheduleEntry>) -> int {
    sum_duration(s) / (s.len() as int)
}

/// The squares of the distances of all durations from `mean`, added up.
pub open spec fn dispersion(s: Seq<ScheduleEntry>, mean: int) -> int
    decreases s.len(),
{
    if s.len() == 0 {
        0
    } else {
        dispersion(s.drop_last(), mean) + (mean - s.last().duration) * (mean - s.last().duration)
    }
}

/// `root` is the square root of `n`, rounded down.
pub open spec fn is_int_sqrt(n: int, root: int) -> bool {
    &&& 0 <= root
    &&& root * root <= n
    &&& n < (root + 1) * (root + 1)
}

/// The square root of `n`, rounded down.
pub open spec fn int_sqrt(n: int) -> int {
    choose|root: int| is_int_sqrt(n, root)
}

/// The root of the dispersion over one less than the number of entries,
/// rounded down; 0 where there are fewer than two entries.
pub open spec fn standard_deviation(s: Seq<ScheduleEntry>) -> int {
    if s.len() <= 1 {
        0
    } else {
        int_sqrt(dispersion(s, mean_task_duration(s))) / (s.len() - 1)
    }
}

/// The schedule with every start counted from `origin`.
pub open spec fn rebased(s: Seq<ScheduleEntry>, origin: int) -> Seq<ScheduleEntry> {
    Seq::new(s.len(), |i: int| s[i].rebased(origin))
}

/// The schedule as the reducer leaves it: every start counted from the
/// earliest.
pub open spec fn normalized(s: Seq<ScheduleEntry>) -> Seq<ScheduleEntry> {
    rebased(s, earliest_start(s))
}

/// A number has at most one rounded-down square root, and `int_sqrt` is it.
pub proof fn lemma_int_sqrt_unique(n: int, root: int)
    requires
        is_int_sqrt(n, root),
    ensures
        int_sqrt(n) == root,
{
    let other = int_sqrt(n);
    assert(other == root) by (nonlinear_arith)
        requires
            0 <= root,
            0 <= other,
            root * root <= n,
            n < (root + 1) * (root + 1),
            other * other <= n,
            n < (other + 1) * (other + 1),
    ;
}

/// Every number from 0 on has a rounded-down square root, and `int_sqrt` is
/// it.
pub proof fn lemma_int_sqrt(n: int)
    requires
        0 <= n,
    ensures
        is_int_sqrt(n, int_sqrt(n)),
    decreases n,
{
    if n == 0 {
        assert(is_int_sqrt(0, 0));
    } else {
        lemma_int_sqrt(n - 1);
        let below = int_sqrt(n - 1);
        if (below + 1) * (below + 1) <= n {
            assert(n < (below + 2) * (below + 2)) by (nonlinear_arith)
                requires
                    0 <= below,
                    n - 1 < (below + 1) * (below + 1),
            ;
            assert(is_int_sqrt(n, below + 1));
        } else {
            assert(is_int_sqrt(n, below));
        }
    }
}

/// No dispersion is negative.
pub proof fn lemma_dispersion_not_negative(s: Seq<ScheduleEntry>, mean: int)
    ensures
        0 <= dispersion(s, mean),
    decreases s.len(),
{
    if s.len() > 0 {
        lemma_dispersion_not_negative(s.drop_last(), mean);
        let deviation = mean - s.last().duration;
        assert(0 <= deviation * deviation) by (nonlinear_arith);
    }
}

/// The standard deviation is the quotient of the root of the dispersion and
/// one less than the number of entries, rounded down as a whole: it is the
/// largest number whose product with that divisor, squared, is no more than
/// the dispersion. So it makes no difference that the root is rounded down
/// before it is divided.
pub proof fn lemma_standard_deviation_rounds_down(s: Seq<ScheduleEntry>)
    requires
        s.len() >= 2,
    ensures
        ({
            let deviation = standard_deviation(s);
            let divisor = s.len() - 1;
            let squares = dispersion(s, mean_task_duration(s));
            &&& 0 <= deviation
            &&& (deviation * divisor) * (deviation * divisor) <= squares
            &&& squares < ((deviation + 1) * divisor) * ((deviation + 1) * divisor)
        }),
{
    let divisor = s.len() - 1;
    let squares = dispersion(s, mean_task_duration(s));
    lemma_dispersion_not_negative(s, mean_task_duration(s));
    lemma_int_sqrt(squares);
    let root = int_sqrt(squares);
    let deviation = root / divisor;
    vstd::arithmetic::div_mod::lemma_fundamental_div_mod(root, divisor);
    vstd::arithmetic::div_mod::lemma_mod_bound(root, divisor);
    vstd::arithmetic::mul::lemma_mul_is_commutative(divisor, deviation);
    let low = deviation * divisor;
    let high = (deviation + 1) * divisor;
    assert(high == low + divisor) by (nonlinear_arith)
        requires
            low == deviation * divisor,
            high == (deviation + 1) * divisor,
    ;
    assert(low * low <= root * root) by (nonlinear_arith)
        requires
            0 <= low <= root,
    ;
    assert((root + 1) * (root + 1) <= high * high) by (nonlinear_arith)
        requires
            0 <= root + 1 <= high,
    ;
}

/// The earliest start of a schedule that has an entry is the start of one of
/// its entries, and no entry starts before it.
pub proof fn lemma_earliest_start_is_minimum(s: Seq<ScheduleEntry>)
    requires
        s.len() > 0,
    ensures
        exists|i: int| 0 <= i < s.len() && (#[trigger] s[i]).started_at == earliest_start(s),
        forall|i: int| 0 <= i < s.len() ==> earliest_start(s) <= (#[trigger] s[i]).started_at,
    decreases s.len(),
{
    if s.len() == 1 {
        assert(s[0].started_at == earliest_start(s));
    } else {
        let front = s.drop_last();
        lemma_earliest_start_is_minimum(front);
        let first = choose|i: int| 0 <= i < front.len() && (#[trigger] front[i]).started_at
            == earliest_start(front);
        assert(front[first] == s[first]);
        assert forall|i: int| 0 <= i < s.len() implies earliest_start(s) <= (
        #[trigger] s[i]).started_at by {
            if i < front.len() {
                assert(front[i] == s[i]);
            }
        }
    }
}

/// The latest finish of a schedule that has an entry is the finish of one of
/// its entries, and no entry finishes after it.
pub proof fn lemma_latest_finish_is_maximum(s: Seq<ScheduleEntry>)
    requires
        s.len() > 0,
    ensures
        exists|i: int| 0 <= i < s.len() && (#[trigger] s[i]).finished_at() == latest_finish(s),
        forall|i: int| 0 <= i < s.len() ==> (#[trigger] s[i]).finished_at() <= latest_finish(s),
    decreases s.len(),
{
    if s.len() == 1 {
        assert(s[0].finished_at() == latest_finish(s));
    } else {
        let front = s.drop_last();
        lemma_latest_finish_is_maximum(front);
        let last = choose|i: int| 0 <= i < front.len() && (#[trigger] front[i]).finished_at()
            == latest_finish(front);
        assert(front[last] == s[last]);
        assert forall|i: int| 0 <= i < s.len() implies (#[trigger] s[i]).finished_at()
            <= latest_finish(s) by {
            if i < front.len() {
                assert(front[i] == s[i]);
            }
        }
    }
}

/// In a valid schedule that has an entry, the earliest start and the latest
/// finish lie in the range of instants, and the first is no later than the
/// second.
pub proof fn lemma_span_bounds(s: Seq<ScheduleEntry>)
    requires
        schedule_valid(s),
        s.len() > 0,
    ensures
        0 <= earliest_start(s) <= MAX_INSTANT_MS,
        0 <= latest_finish(s) <= MAX_INSTANT_MS + MAX_DURATION_MS,
        0 <= total_duration(s) <= MAX_INSTANT_MS + MAX_DURATION_MS,
{
    lemma_earliest_start_is_minimum(s);
    lemma_latest_finish_is_maximum(s);
    let first = choose|i: int|
        0 <= i < s.len() && (#[trigger] s[i]).started_at == earliest_start(s);
    let last = choose|i: int|
        0 <= i < s.len() && (#[trigger] s[i]).finished_at() == latest_finish(s);
    assert(s[first].valid() && s[last].valid());
    assert(s[first].finished_at() <= latest_finish(s));
}

/// The durations of a valid schedule add up to no less than 0 and to no more
/// than the longest duration for each entry.
pub proof fn lemma_sum_duration_bounds(s: Seq<ScheduleEntry>)
    requires
        schedule_valid(s),
    ensures
        0 <= sum_duration(s) <= s.len() * MAX_DURATION_MS,
    decreases s.len(),
{
    if s.len() > 0 {
        let front = s.drop_last();
        lemma_sum_duration_bounds(front);
    }
}

/// The mean duration of a valid schedule that has an entry is a duration
/// itself.
pub proof fn lemma_mean_bounds(s: Seq<ScheduleEntry>)
    requires
        schedule_valid(s),
        s.len() > 0,
    ensures
        0 <= mean_task_duration(s) <= MAX_DURATION_MS,
{
    lemma_sum_duration_bounds(s);
    let sum = sum_duration(s);
    let n = s.len() as int;
    assert(0 <= sum / n <= MAX_DURATION_MS) by (nonlinear_arith)
        requires
            0 <= sum <= n * MAX_DURATION_MS,
            n > 0,
    ;
}

/// The square of the distance of one duration from another is no larger than
/// `MAX_SQUARED_DEVIATION`.
pub proof fn lemma_square_bounds(deviation: int)
    requires
        -MAX_DURATION_MS <= deviation <= MAX_DURATION_MS,
    ensures
        0 <= deviation * deviation <= MAX_SQUARED_DEVIATION,
{
    assert(0 <= deviation * deviation <= 0x7FFF_FFFF * 0x7FFF_FFFF) by (nonlinear_arith)
        requires
            -0x7FFF_FFFF <= deviation <= 0x7FFF_FFFF,
    ;
}

/// Rebasing keeps every duration, and with them their sum.
pub proof fn lemma_rebased_sum_duration(s: Seq<ScheduleEntry>, origin: int)
    ensures
        sum_duration(rebased(s, origin)) == sum_duration(s),
    decreases s.len(),
{
    if s.len() > 0 {
        assert(rebased(s, origin).drop_last() =~= rebased(s.drop_last(), origin));
        lemma_rebased_sum_duration(s.drop_last(), origin);
    }
}

/// Rebasing keeps the dispersion about any mean.
pub proof fn lemma_rebased_dispersion(s: Seq<ScheduleEntry>, origin: int, mean: int)
    ensures
        dispersion(rebased(s, origin), mean) == dispersion(s, mean),
    decreases s.len(),
{
    if s.len() > 0 {
        assert(rebased(s, origin).drop_last() =~= rebased(s.drop_last(), origin));
        lemma_rebased_dispersion(s.drop_last(), origin, mean);
    }
}

/// Rebasing moves the earliest start and the latest finish by the origin.
pub proof fn lemma_rebased_span(s: Seq<ScheduleEntry>, origin: int)
    requires
        s.len() > 0,
    ensures
        earliest_start(rebased(s, origin)) == earliest_start(s) - origin,
        latest_finish(rebased(s, origin)) == latest_finish(s) - origin,
    decreases s.len(),
{
    if s.len() > 1 {
        assert(rebased(s, origin).drop_last() =~= rebased(s.drop_last(), origin));
        lemma_rebased_span(s.drop_last(), origin);
    }
}

/// After the reducer has rebased a schedule that has an entry, the earliest
/// start among its entries is exactly 0, and doing it again changes nothing.
pub proof fn lemma_normalized_starts_at_zero(s: Seq<ScheduleEntry>)
    requires
        s.len() > 0,
    ensures
        earliest_start(normalized(s)) == 0,
        exists|i: int| 0 <= i < s.len() && (#[trigger] normalized(s)[i]).started_at == 0,
        forall|i: int| 0 <= i < s.len() ==> 0 <= (#[trigger] normalized(s)[i]).started_at,
        normalized(normalized(s)) == normalized(s),
{
    lemma_rebased_span(s, earliest_start(s));
    lemma_earliest_start_is_minimum(normalized(s));
}

/// What the reducer reports of a schedule does not depend on where its starts
/// are counted from: rebasing keeps the total duration, the mean and the
/// standard deviation.
pub proof fn lemma_rebased_keeps_statistics(s: Seq<ScheduleEntry>, origin: int)
    requires
        s.len() > 0,
    ensures
        total_duration(rebased(s, origin)) == total_duration(s),
        sum_duration(rebased(s, origin)) == sum_duration(s),
        mean_task_duration(rebased(s, origin)) == mean_task_duration(s),
        standard_deviation(rebased(s, origin)) == standard_deviation(s),
{
    lemma_rebased_span(s, origin);
    lemma_rebased_sum_duration(s, origin);
    lemma_rebased_dispersion(s, origin, mean_task_duration(s));
}

/// Rebasing a valid schedule on its earliest start leaves it valid.
pub proof fn lemma_normalized_valid(s: Seq<ScheduleEntry>)
    requires
        schedule_valid(s),
        s.len() > 0,
    ensures
        schedule_valid(normalized(s)),
{
    lemma_earliest_start_is_minimum(s);
    lemma_span_bounds(s);
}

/// The statistics of a single task: its mean duration is its own, and its
/// standard deviation is 0.
pub proof fn lemma_single_task_statistics(s: Seq<ScheduleEntry>)
    requires
        s.len() == 1,
    ensures
        standard_deviation(s) == 0,
        mean_task_duration(s) == s[0].duration,
        total_duration(s) == s[0].duration,
{
    assert(sum_duration(s.drop_last()) == 0);
}

/// No entry of a valid schedule runs for a negative time, and none finishes
/// before it starts.
pub proof fn lemma_durations_not_negative(s: Seq<ScheduleEntry>, i: int)
    requires
        schedule_valid(s),
        0 <= i < s.len(),
    ensures
        s[i].duration >= 0,
        s[i].finished_at() >= s[i].started_at,
{
}

} // verus!
