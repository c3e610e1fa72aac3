use concurrency_observer::clock::EngineError;
use concurrency_observer::clock::MAX_DURATION_MS;
use concurrency_observer::clock::MAX_INSTANT_MS;
use concurrency_observer::task::standard_task;
use concurrency_observer::task::task_from_readings;
use concurrency_observer::task::Task;
use std::sync::atomic::AtomicUsize;
use std::sync::atomic::Ordering;
use std::time::Duration;
use std::time::Instant;

fn spin(millis: u64) {
    let begun = Instant::now();
    while begun.elapsed() < Duration::from_millis(millis) {
        std::hint::spin_loop();
    }
}

#[test]
fn a_task_gives_back_what_it_was_created_with() {
    let task = Task::create(100, 50);
    assert_eq!(task.get_start(), 100);
    assert_eq!(task.get_duration(), 50);
    assert_eq!(task.get_finish(), 150);
}

#[test]
fn a_task_finishes_no_earlier_than_it_starts() {
    for (start, duration) in [(0, 0), (7, 0), (0, 9), (1_700_000_000_000, 2_147_483_647)] {
        let task = Task::create(start, duration);
        assert!(task.get_duration() >= 0);
        assert!(task.get_finish() >= task.get_start());
        assert_eq!(task.get_finish(), start + duration);
    }
}

#[test]
fn recalc_start_relative_moves_the_start_only() {
    let mut task = Task::create(1_000, 40);
    task.recalc_start_relative(900);
    assert_eq!(task.get_start(), 100);
    assert_eq!(task.get_duration(), 40);
    assert_eq!(task.get_finish(), 140);
}

#[test]
fn recalc_start_relative_to_its_own_start_reads_zero() {
    let mut task = Task::create(1_700_000_000_000, 3);
    task.recalc_start_relative(1_700_000_000_000);
    assert_eq!(task.get_start(), 0);
    assert_eq!(task.get_finish(), 3);
}

#[test]
fn is_valid_tells_the_range_of_a_schedule() {
    assert!(Task::create(0, 0).is_valid());
    assert!(Task::create(MAX_INSTANT_MS, MAX_DURATION_MS).is_valid());
    let mut early = Task::create(5, 1);
    early.recalc_start_relative(5);
    assert!(early.is_valid());
}

#[test]
fn task_from_readings_takes_both_readings() {
    let task = task_from_readings(Ok(1_000), Ok(25)).unwrap();
    assert_eq!(task.get_start(), 1_000);
    assert_eq!(task.get_duration(), 25);
}

#[test]
fn task_from_readings_fails_with_the_first_failure() {
    let unavailable = EngineError::TimingUnavailable;
    let overflow = EngineError::CalibrationOverflow;
    assert_eq!(task_from_readings(Err(unavailable), Ok(25)).err(), Some(unavailable));
    assert_eq!(task_from_readings(Ok(1_000), Err(unavailable)).err(), Some(unavailable));
    assert_eq!(task_from_readings(Err(overflow), Err(unavailable)).err(), Some(overflow));
}

#[test]
fn task_from_readings_refuses_readings_out_of_range() {
    let unavailable = EngineError::TimingUnavailable;
    assert_eq!(task_from_readings(Ok(-1), Ok(25)).err(), Some(unavailable));
    assert_eq!(task_from_readings(Ok(0), Ok(-1)).err(), Some(unavailable));
    assert_eq!(task_from_readings(Ok(MAX_INSTANT_MS + 1), Ok(0)).err(), Some(unavailable));
    assert_eq!(task_from_readings(Ok(0), Ok(MAX_DURATION_MS + 1)).err(), Some(unavailable));
    assert!(task_from_readings(Ok(MAX_INSTANT_MS), Ok(MAX_DURATION_MS)).is_ok());
    assert!(task_from_readings(Ok(0), Ok(0)).is_ok());
}

#[test]
fn standard_task_runs_the_workload_once_on_the_given_cycles() {
    let calls = AtomicUsize::new(0);
    let cycles = AtomicUsize::new(0);
    let workload = |n_cycles: usize| {
        calls.fetch_add(1, Ordering::SeqCst);
        cycles.store(n_cycles, Ordering::SeqCst);
    };
    let task = standard_task(77, &workload).unwrap();
    assert_eq!(calls.load(Ordering::SeqCst), 1);
    assert_eq!(cycles.load(Ordering::SeqCst), 77);
    assert!(task.is_valid());
    assert!(task.get_start() > 1_600_000_000_000);
}

#[test]
fn standard_task_times_the_workload() {
    let workload = |_n_cycles: usize| spin(40);
    let task = standard_task(1, &workload).unwrap();
    assert!(task.get_duration() >= 39);
    assert!(task.get_duration() < 5_000);
    assert_eq!(task.get_finish(), task.get_start() + task.get_duration());
}
