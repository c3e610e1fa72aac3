use concurrency_observer::export::format_observation_schedule_header;
use concurrency_observer::export::format_observation_schedules_section;
use concurrency_observer::export::format_observation_totals;
use concurrency_observer::export::format_observation_totals_section;
use concurrency_observer::export::format_observation_totals_section_data;
use concurrency_observer::export::format_observation_totals_section_header;
use concurrency_observer::export::format_profit_entry;
use concurrency_observer::export::format_profit_table;
use concurrency_observer::export::format_profit_table_for;
use concurrency_observer::export::format_report;
use concurrency_observer::export::format_task;
use concurrency_observer::export::format_tasks;
use concurrency_observer::observation::Observation;
use concurrency_observer::report::Report;
use concurrency_observer::task::Task;
use concurrency_observer::text::format_cpus;
use concurrency_observer::text::format_cycles_per_sec;
use concurrency_observer::text::format_signed;
use concurrency_observer::text::format_sysparams;
use concurrency_observer::text::format_unsigned;
use concurrency_observer::text::pad_left;

fn observation_of(entries: &[(i128, i128)]) -> Observation {
    let mut obs = Observation::with_capacity(entries.len());
    for &(start, duration) in entries {
        obs.register_task(Task::create(start, duration));
    }
    obs
}

fn small_report() -> Report {
    let mut report = Report::create(2);
    report.register_observation(observation_of(&[(500, 50)]));
    report.register_observation(observation_of(&[(1_000, 50), (1_003, 52)]));
    report
}

#[test]
fn format_unsigned_writes_decimal_numerals() {
    assert_eq!(format_unsigned(0), "0");
    assert_eq!(format_unsigned(7), "7");
    assert_eq!(format_unsigned(10), "10");
    assert_eq!(format_unsigned(1_234_567_890), "1234567890");
    assert_eq!(format_unsigned(u128::MAX), u128::MAX.to_string());
}

#[test]
fn format_signed_writes_the_sign_of_negative_numbers() {
    assert_eq!(format_signed(0), "0");
    assert_eq!(format_signed(45), "45");
    assert_eq!(format_signed(-1), "-1");
    assert_eq!(format_signed(-1200), "-1200");
    assert_eq!(format_signed(i128::MAX), i128::MAX.to_string());
    assert_eq!(format_signed(i128::MIN), i128::MIN.to_string());
}

#[test]
fn pad_left_fills_a_column_from_the_left() {
    assert_eq!(pad_left("ab", 5), "   ab");
    assert_eq!(pad_left("ab", 2), "ab");
    assert_eq!(pad_left("abcdef", 3), "abcdef");
    assert_eq!(pad_left("", 2), "  ");
    assert_eq!(pad_left("", 0), "");
    // a column is counted in characters
    assert_eq!(pad_left("\u{e9}t\u{e9}", 5), "  \u{e9}t\u{e9}");
}

#[test]
fn the_line_of_the_processors() {
    assert_eq!(format_cpus(8), "CPUs available                     8\n");
    assert_eq!(format_cpus(128), format!("CPUs available {:>21}\n", 128));
    assert_eq!(format_cpus(usize::MAX), format!("CPUs available {:>21}\n", usize::MAX));
}

#[test]
fn the_line_of_the_cycles_groups_the_digits_in_threes() {
    assert_eq!(format_cycles_per_sec(1_234_567), "Cycles per second          1,234,567\n");
    assert_eq!(format_cycles_per_sec(0), "Cycles per second                  0\n");
    assert_eq!(format_cycles_per_sec(999), "Cycles per second                999\n");
    assert_eq!(format_cycles_per_sec(1_000), "Cycles per second              1,000\n");
    assert_eq!(format_cycles_per_sec(100_200), "Cycles per second            100,200\n");
    assert_eq!(format_cycles_per_sec(12_000_045), "Cycles per second         12,000,045\n");
}

#[test]
fn a_number_wider_than_its_column_is_not_cut() {
    assert_eq!(
        format_cycles_per_sec(18_446_744_073_709_551_615),
        "Cycles per second 18,446,744,073,709,551,615\n"
    );
}

#[test]
fn the_table_of_system_parameters() {
    let expected = "====================================\n\
                    System parameter               Value\n\
                    ====================================\n\
                    CPUs available                     4\n\
                    Cycles per second         25,000,000\n\
                    ====================================\n";
    assert_eq!(format_sysparams(4, 25_000_000), expected);
}

#[test]
fn the_heads_of_the_tables() {
    assert_eq!(
        format_observation_totals_section_header(),
        "Tasks,Mean task duration,Std. dev.,Total duration,Profit\n"
    );
    assert_eq!(format_observation_schedule_header(), "Tasks,Task,Started,Finished,Duration\n");
}

#[test]
fn the_line_of_a_task() {
    assert_eq!(format_task(3, 1, &Task::create(0, 5)), "3,1,0,5,5\n");
    assert_eq!(format_task(10, 7, &Task::create(120, 30)), "10,7,120,150,30\n");
    assert_eq!(
        format_task(1, 1, &Task::create(1_700_000_000_000, 2_147_483_647)),
        "1,1,1700000000000,1702147483647,2147483647\n"
    );
}

#[test]
fn the_lines_of_the_tasks_of_an_observation() {
    let obs = observation_of(&[(10, 50), (30, 10), (0, 30)]);
    assert_eq!(format_tasks(&obs), "3,1,10,60,50\n3,2,30,40,10\n3,3,0,30,30\n");
    assert_eq!(format_tasks(&Observation::with_capacity(0)), "");
}

#[test]
fn the_line_of_an_observation() {
    let obs = observation_of(&[(100, 50), (120, 10), (90, 30)]);
    assert_eq!(format_observation_totals(&obs, "33"), "3, 30, 14, 60, 33%\n");
    assert_eq!(format_observation_totals(&obs, "-inf"), "3, 30, 14, 60, -inf%\n");
}

#[test]
fn the_table_of_totals() {
    let report = small_report();
    let percents = vec!["0".to_string(), "45".to_string()];
    assert_eq!(
        format_observation_totals_section_data(&report, &percents),
        "1, 50, 0, 50, 0%\n2, 51, 1, 55, 45%\n"
    );
    assert_eq!(
        format_observation_totals_section(&report, &percents),
        "Tasks,Mean task duration,Std. dev.,Total duration,Profit\n\
         1, 50, 0, 50, 0%\n\
         2, 51, 1, 55, 45%\n"
    );
}

#[test]
fn the_table_of_schedules() {
    let report = small_report();
    assert_eq!(
        format_observation_schedules_section(&report),
        "Tasks,Task,Started,Finished,Duration\n\
         1,1,0,50,50\n\
         2,1,0,50,50\n\
         2,2,3,55,52\n"
    );
}

#[test]
fn a_report_as_text() {
    let report = small_report();
    let percents = vec!["0".to_string(), "45".to_string()];
    assert_eq!(
        format_report(&report, &percents),
        "Tasks,Mean task duration,Std. dev.,Total duration,Profit\n\
         1, 50, 0, 50, 0%\n\
         2, 51, 1, 55, 45%\n\
         \n\
         Tasks,Task,Started,Finished,Duration\n\
         1,1,0,50,50\n\
         2,1,0,50,50\n\
         2,2,3,55,52\n"
    );
}

#[test]
fn an_empty_report_as_text() {
    let report = Report::create(0);
    assert_eq!(
        format_report(&report, &Vec::new()),
        "Tasks,Mean task duration,Std. dev.,Total duration,Profit\n\
         \n\
         Tasks,Task,Started,Finished,Duration\n"
    );
}

#[test]
fn the_line_of_an_observation_in_the_table_of_profits() {
    let obs = observation_of(&[(100, 50), (120, 10), (90, 30)]);
    assert_eq!(
        format_profit_entry(&obs, "33"),
        format!("{:5} {:19} {:10} {:15} {:>6}%\n", 3, 30, 14, 60, "33")
    );
    assert_eq!(
        format_profit_entry(&obs, "33"),
        "    3                  30         14              60     33%\n"
    );
    assert_eq!(
        format_profit_entry(&obs, "-12345678"),
        "    3                  30         14              60 -12345678%\n"
    );
}

fn report_of_bursts(count: usize) -> (Report, Vec<String>) {
    let mut report = Report::create(count);
    let mut percents = Vec::new();
    for n_tasks in 1..count + 1 {
        let entries: Vec<(i128, i128)> = (0..n_tasks).map(|i| (1_000 + i as i128, 40)).collect();
        report.register_observation(observation_of(&entries));
        percents.push(format!("{}", 10 * n_tasks));
    }
    (report, percents)
}

#[test]
fn the_table_of_profits_in_groups_of_two() {
    let (report, percents) = report_of_bursts(5);
    let expected = "============================================================\n\
                    Tasks  Mean task duration  Std. dev.  Total duration  Profit\n\
                    ============================================================\n\
                    \x20   1                  40          0              40     10%\n\
                    \x20   2                  40          0              41     20%\n\
                    ------------------------------------------------------------\n\
                    \x20   3                  40          0              42     30%\n\
                    \x20   4                  40          0              43     40%\n\
                    ------------------------------------------------------------\n\
                    \x20   5                  40          0              44     50%\n\
                    ============================================================\n";
    assert_eq!(format_profit_table_for(&report, &percents, 2), expected);
}

#[test]
fn the_last_line_of_the_table_of_profits_ends_no_group() {
    let (report, percents) = report_of_bursts(4);
    let table = format_profit_table_for(&report, &percents, 2);
    let lines: Vec<&str> = table.lines().collect();
    assert_eq!(lines.len(), 3 + 4 + 1 + 1);
    assert!(lines[5].starts_with("-----"));
    assert!(lines[7].ends_with("40%"));
    assert!(lines[8].starts_with("====="));
}

#[test]
fn the_table_of_profits_of_an_empty_report() {
    let report = Report::create(0);
    assert_eq!(
        format_profit_table_for(&report, &Vec::new(), 4),
        "============================================================\n\
         Tasks  Mean task duration  Std. dev.  Total duration  Profit\n\
         ============================================================\n\
         ============================================================\n"
    );
}

#[test]
fn the_table_of_profits_of_this_machine() {
    let (report, percents) = report_of_bursts(3);
    let table = format_profit_table(&report, &percents);
    let lines: Vec<&str> = table.lines().filter(|line| !line.starts_with('-')).collect();
    assert_eq!(lines.len(), 3 + 3 + 1);
    assert_eq!(lines[3], "    1                  40          0              40     10%");
    assert_eq!(lines[5], "    3                  40          0              42     30%");
    let groups = (1..64usize).any(|n_cpus| table == format_profit_table_for(&report, &percents, n_cpus));
    assert!(groups);
}
