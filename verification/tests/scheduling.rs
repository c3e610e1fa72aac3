use concurrency_observer::clock::EngineError;
use concurrency_observer::profit::Profit;
use concurrency_observer::scheduler::count_series;
use concurrency_observer::scheduler::ends_processor_group;
use concurrency_observer::scheduler::observe;
use concurrency_observer::scheduler::series_length;
use concurrency_observer::scheduler::test_concurrency_profit;
use std::sync::atomic::AtomicUsize;
use std::sync::atomic::Ordering;
use std::time::Duration;
use std::time::Instant;

fn spin(millis: u64) {
    let begun = Instant::now();
    while begun.elapsed() < Duration::from_millis(millis) {
        std::hint::spin_loop();
    }
}

#[test]
fn count_series_rounds_up() {
    assert_eq!(count_series(10, 4), 3);
    assert_eq!(count_series(8, 4), 2);
    assert_eq!(count_series(9, 4), 3);
    assert_eq!(count_series(1, 4), 1);
    assert_eq!(count_series(4, 4), 1);
    assert_eq!(count_series(5, 1), 5);
    assert_eq!(count_series(0, 3), 0);
    assert_eq!(count_series(usize::MAX, 1), usize::MAX);
    assert_eq!(count_series(usize::MAX, usize::MAX), 1);
    assert_eq!(count_series(usize::MAX, 2), usize::MAX / 2 + 1);
}

#[test]
fn ten_tasks_in_series_of_four_make_series_of_four_four_and_two() {
    assert_eq!(count_series(10, 4), 3);
    assert_eq!(series_length(10, 4, 0), 4);
    assert_eq!(series_length(10, 4, 1), 4);
    assert_eq!(series_length(10, 4, 2), 2);
}

#[test]
fn the_series_hold_all_tasks() {
    for n_tasks in 0..40usize {
        for series_size in 1..12usize {
            let n_series = count_series(n_tasks, series_size);
            let mut launched = 0;
            for index in 0..n_series {
                let length = series_length(n_tasks, series_size, index);
                assert!(length >= 1 && length <= series_size);
                if index + 1 < n_series {
                    assert_eq!(length, series_size);
                }
                launched += length;
            }
            assert_eq!(launched, n_tasks);
        }
    }
}

#[test]
fn a_series_larger_than_the_burst_holds_the_burst() {
    assert_eq!(count_series(3, 8), 1);
    assert_eq!(series_length(3, 8, 0), 3);
}

#[test]
fn observe_runs_every_task_once() {
    for (n_tasks, series_size) in [(1usize, 1usize), (10, 4), (7, 7), (5, 1), (3, 8), (0, 2)] {
        let calls = AtomicUsize::new(0);
        let workload = |_n_cycles: usize| {
            calls.fetch_add(1, Ordering::SeqCst);
        };
        let obs = observe(n_tasks, 3, series_size, &workload).unwrap();
        assert_eq!(obs.count_tasks(), n_tasks);
        assert_eq!(calls.load(Ordering::SeqCst), n_tasks);
        assert_eq!(obs.get_concurrency_profit(), Profit { saved: 0, serial: 1 });
        for i in 0..n_tasks {
            assert!(obs.get_task(i).is_valid());
            assert!(obs.get_task(i).get_duration() >= 0);
        }
    }
}

#[test]
fn observe_hands_the_cycles_to_the_workload() {
    let cycles = AtomicUsize::new(0);
    let workload = |n_cycles: usize| {
        cycles.fetch_add(n_cycles, Ordering::SeqCst);
    };
    observe(6, 1_000, 4, &workload).unwrap();
    assert_eq!(cycles.load(Ordering::SeqCst), 6_000);
}

#[test]
fn observe_never_runs_more_tasks_at_once_than_a_series_holds() {
    let running = AtomicUsize::new(0);
    let most = AtomicUsize::new(0);
    let workload = |_n_cycles: usize| {
        let now = running.fetch_add(1, Ordering::SeqCst) + 1;
        most.fetch_max(now, Ordering::SeqCst);
        spin(20);
        running.fetch_sub(1, Ordering::SeqCst);
    };
    let obs = observe(9, 1, 3, &workload).unwrap();
    assert_eq!(obs.count_tasks(), 9);
    assert!(most.load(Ordering::SeqCst) <= 3);
    assert!(most.load(Ordering::SeqCst) >= 1);
}

#[test]
fn series_of_one_run_the_tasks_one_after_another() {
    let workload = |_n_cycles: usize| spin(30);
    let mut obs = observe(4, 1, 1, &workload).unwrap();
    assert_eq!(obs.count_tasks(), 4);
    for i in 1..4 {
        assert!(obs.get_task(i).get_start() >= obs.get_task(i - 1).get_finish());
    }
    let total = obs.get_total_duration();
    assert!(total >= obs.sum_duration());
    assert!(total >= 4 * 29);
    assert!(total < 4 * 30 + 2_000);
    // against a single task of 30 ms nothing is gained
    let profit = obs.calc_concurrency_profit(30);
    assert_eq!(profit.serial, 120);
    assert!(profit.saved <= 4);
}

#[test]
fn ten_tasks_of_100_ms_in_series_of_four_take_three_series() {
    let workload = |_n_cycles: usize| spin(100);
    let obs = observe(10, 1, 4, &workload).unwrap();
    assert_eq!(obs.count_tasks(), 10);
    let total = obs.get_total_duration();
    assert!(total >= 3 * 99);
    assert!(total < 1_000);
    // the second series starts when the first is done, the third when the second is
    let first_done = (0..4).map(|i| obs.get_task(i).get_finish()).max().unwrap();
    let second_begun = (4..8).map(|i| obs.get_task(i).get_start()).min().unwrap();
    let second_done = (4..8).map(|i| obs.get_task(i).get_finish()).max().unwrap();
    let third_begun = (8..10).map(|i| obs.get_task(i).get_start()).min().unwrap();
    assert!(second_begun >= first_done);
    assert!(third_begun >= second_done);
}

#[test]
fn a_sweep_observes_bursts_of_growing_size() {
    let calls = AtomicUsize::new(0);
    let workload = |_n_cycles: usize| {
        calls.fetch_add(1, Ordering::SeqCst);
        spin(2);
    };
    let report = test_concurrency_profit(5, 1, 2, &workload).unwrap();
    assert_eq!(report.count_observations(), 5);
    assert_eq!(calls.load(Ordering::SeqCst), 1 + 2 + 3 + 4 + 5);
    for idx in 0..5 {
        let obs = report.get_observation(idx);
        assert_eq!(obs.count_tasks(), idx + 1);
        assert_eq!(obs.get_earliest_start(), 0);
    }
    assert_eq!(report.get_observation(0).get_concurrency_profit(), Profit { saved: 0, serial: 1 });
    let baseline = report.get_task_duration_min();
    for idx in 1..5 {
        let obs = report.get_observation(idx);
        let profit = obs.get_concurrency_profit();
        assert_eq!(profit.serial, (idx as i128 + 1) * baseline);
        assert_eq!(profit.saved, profit.serial - obs.get_total_duration());
    }
}

#[test]
fn a_sweep_up_to_nothing_reports_nothing() {
    let workload = |_n_cycles: usize| {};
    let report = test_concurrency_profit(0, 1, 1, &workload).unwrap();
    assert_eq!(report.count_observations(), 0);
}

#[test]
fn the_only_error_of_a_burst_is_that_of_the_clock() {
    let workload = |_n_cycles: usize| {};
    match observe(3, 1, 2, &workload) {
        Ok(obs) => assert_eq!(obs.count_tasks(), 3),
        Err(e) => assert_eq!(e, EngineError::TimingUnavailable),
    }
}

#[test]
fn groups_of_lines_are_as_long_as_there_are_processors() {
    assert!(ends_processor_group(4, 4, 10));
    assert!(ends_processor_group(8, 4, 10));
    assert!(!ends_processor_group(5, 4, 10));
    assert!(!ends_processor_group(1, 4, 10));
    assert!(ends_processor_group(1, 1, 10));
    // the last line ends no group
    assert!(!ends_processor_group(8, 4, 8));
    assert!(!ends_processor_group(10, 1, 10));
}
