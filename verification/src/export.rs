//! A report as text: the table of profits that is shown while a sweep is
//! looked at, and the two tables that are kept of it, one of totals, a line
//! for each observation, and one of schedules, a line for each task.

use crate::observation::Observation;
use crate::observation::ObservationView;
use crate::report::Report;
use crate::schedule::mean_task_duration;
use crate::schedule::standard_deviation;
use crate::schedule::total_duration;
use crate::scheduler::ends_processor_group;
use crate::sysparams::count_cpus;
use crate::task::ScheduleEntry;
use crate::task::Task;
use crate::text::decimal_text;
use crate::text::format_signed;
use crate::text::format_unsigned;
use crate::text::int_text;
use crate::text::pad_left;
use crate::text::right_aligned;
use vstd::prelude::*;
use vstd::string::StringExecFns;

verus! {

/// The line of a task in the table of schedules: the number of tasks in its
/// observation, its own number, its start, its finish and its duration.
pub open spec fn task_line(n_tasks: nat, task_idx: nat, entry: ScheduleEntry) -> Seq<char> {
    decimal_text(n_tasks) + ","@ + decimal_text(task_idx) + ","@ + int_text(entry.started_at)
        + ","@ + int_text(entry.finished_at()) + ","@ + int_text(entry.duration) + "\n"@
}

/// The lines of the first `count` tasks of a schedule, which are numbered
/// from 1.
pub open spec fn task_lines(schedule: Seq<ScheduleEntry>, count: nat) -> Seq<char>
    decreases count,
{
    if count == 0 {
        Seq::empty()
    } else {
        task_lines(schedule, (count - 1) as nat) + task_line(
            schedule.len(),
            count,
            schedule[count - 1],
        )
    }
}

/// The head of the table of schedules.
pub open spec fn schedule_header() -> Seq<char> {
    "Tasks,Task,Started,Finished,Duration\n"@
}

/// The lines of all tasks of the first `count` observations of a report.
pub open spec fn schedule_lines(report: Seq<ObservationView>, count: nat) -> Seq<char>
    decreases count,
{
    if count == 0 {
        Seq::empty()
    } else {
        schedule_lines(report, (count - 1) as nat) + task_lines(
            report[count - 1].schedule,
            report[count - 1].schedule.len(),
        )
    }
}

/// The table of schedules of a report.
pub open spec fn schedules_section(report: Seq<ObservationView>) -> Seq<char> {
    schedule_header() + schedule_lines(report, report.len())
}

/// The head of the table of totals.
pub open spec fn totals_header() -> Seq<char> {
    "Tasks,Mean task duration,Std. dev.,Total duration,Profit\n"@
}

/// The line of an observation in the table of totals: the number of its
/// tasks, their mean duration, the standard deviation, the total duration,
/// and the profit in percent, as `percent` writes it.
pub open spec fn totals_line(schedule: Seq<ScheduleEntry>, percent: Seq<char>) -> Seq<char> {
    decimal_text(schedule.len()) + ", "@ + int_text(mean_task_duration(schedule)) + ", "@
        + int_text(standard_deviation(schedule)) + ", "@ + int_text(total_duration(schedule))
        + ", "@ + percent + "%\n"@
}

/// The lines of the first `count` observations of a report in the table of
/// totals.
pub open spec fn totals_lines(
    report: Seq<ObservationView>,
    percents: Seq<Seq<char>>,
    count: nat,
) -> Seq<char>
    decreases count,
{
    if count == 0 {
        Seq::empty()
    } else {
        totals_lines(report, percents, (count - 1) as nat) + totals_line(
            report[count - 1].schedule,
            percents[count - 1],
        )
    }
}

/// The table of totals of a report.
pub open spec fn totals_section(report: Seq<ObservationView>, percents: Seq<Seq<char>>) -> Seq<
    char,
> {
    totals_header() + totals_lines(report, percents, report.len())
}

/// A report as text: the table of totals, an empty line, and the table of
/// schedules.
pub open spec fn report_text(report: Seq<ObservationView>, percents: Seq<Seq<char>>) -> Seq<char> {
    totals_section(report, percents) + "\n"@ + schedules_section(report)
}

/// The rule above and below the table of profits.
pub open spec fn profit_rule() -> Seq<char> {
    "============================================================\n"@
}

/// The head of the table of profits.
pub open spec fn profit_header() -> Seq<char> {
    profit_rule() + "Tasks  Mean task duration  Std. dev.  Total duration  Profit\n"@
        + profit_rule()
}

/// The line between two groups of lines of the table of profits.
pub open spec fn profit_separator() -> Seq<char> {
    "------------------------------------------------------------\n"@
}

/// The line of an observation in the table of profits: the number of its
/// tasks, their mean duration, the standard deviation, the total duration,
/// and the profit in percent, as `percent` writes it, each at the right of
/// its column.
pub open spec fn profit_line(schedule: Seq<ScheduleEntry>, percent: Seq<char>) -> Seq<char> {
    right_aligned(decimal_text(schedule.len()), 5) + " "@ + right_aligned(
        int_text(mean_task_duration(schedule)),
        19,
    ) + " "@ + right_aligned(int_text(standard_deviation(schedule)), 10) + " "@ + right_aligned(
        int_text(total_duration(schedule)),
        15,
    ) + " "@ + right_aligned(percent, 6) + "%\n"@
}

/// The lines of the first `count` observations of a report in the table of
/// profits, with a separator after every group of `n_cpus` lines but after
/// the last line of the table.
pub open spec fn profit_lines(
    report: Seq<ObservationView>,
    percents: Seq<Seq<char>>,
    n_cpus: nat,
    count: nat,
) -> Seq<char>
    decreases count,
{
    if count == 0 {
        Seq::empty()
    } else {
        profit_lines(report, percents, n_cpus, (count - 1) as nat) + profit_line(
            report[count - 1].schedule,
            percents[count - 1],
        ) + (if count % n_cpus == 0 && count != report.len() {
            profit_separator()
        } else {
            Seq::empty()
        })
    }
}

/// The table of profits of a report, for a machine with `n_cpus` processors.
pub open spec fn profit_table(
    report: Seq<ObservationView>,
    percents: Seq<Seq<char>>,
    n_cpus: nat,
) -> Seq<char> {
    profit_header() + profit_lines(report, percents, n_cpus, report.len()) + profit_rule()
}

/// The line of `obs` in the table of profits, where `percent` writes its
/// profit in percent.
pub fn format_profit_entry(obs: &Observation, percent: &str) -> (line: String)
    requires
        obs.wf(),
        obs@.schedule.len() > 0,
    ensures
        line@ == profit_line(obs@.schedule, percent@),
{
    let count = format_unsigned(obs.count_tasks() as u128);
    let mean = format_signed(obs.get_mean_task_duration());
    let deviation = format_signed(obs.get_standard_deviation());
    let total = format_signed(obs.get_total_duration());
    let mut line = pad_left(count.as_str(), 5);
    line.append(" ");
    line.append(pad_left(mean.as_str(), 19).as_str());
    line.append(" ");
    line.append(pad_left(deviation.as_str(), 10).as_str());
    line.append(" ");
    line.append(pad_left(total.as_str(), 15).as_str());
    line.append(" ");
    line.append(pad_left(percent, 6).as_str());
    line.append("%\n");
    line
}

/// The table of profits of `report` for a machine with `n_cpus` processors,
/// where `percents` write the profits of its observations in percent, in the
/// same order.
pub fn format_profit_table_for(report: &Report, percents: &Vec<String>, n_cpus: usize) -> (table:
    String)
    requires
        report.wf(),
        percents@.len() == report@.len(),
        n_cpus > 0,
    ensures
        table@ == profit_table(report@, percents.deep_view(), n_cpus as nat),
{
    let mut table = String::from_str(
        "============================================================\n",
    );
    table.append("Tasks  Mean task duration  Std. dev.  Total duration  Profit\n");
    table.append("============================================================\n");
    let tasks_max = report.count_observations();
    let mut n_tasks: usize = 0;
    while n_tasks < tasks_max
        invariant
            n_tasks <= tasks_max,
            tasks_max == report@.len(),
            percents@.len() == report@.len(),
            report.wf(),
            n_cpus > 0,
            table@ == profit_header() + profit_lines(
                report@,
                percents.deep_view(),
                n_cpus as nat,
                n_tasks as nat,
            ),
        decreases tasks_max - n_tasks,
    {
        let obs = report.get_observation(n_tasks);
        let line = format_profit_entry(obs, percents[n_tasks].as_str());
        n_tasks += 1;
        table.append(line.as_str());
        if ends_processor_group(n_tasks, n_cpus, tasks_max) {
            table.append("------------------------------------------------------------\n");
        }
    }
    table.append("============================================================\n");
    table
}

/// The table of profits of `report` for this machine, where `percents` write
/// the profits of its observations in percent, in the same order.
pub fn format_profit_table(report: &Report, percents: &Vec<String>) -> (table: String)
    requires
        report.wf(),
        percents@.len() == report@.len(),
    ensures
        exists|n_cpus: nat|
            n_cpus >= 1 && table@ == #[trigger] profit_table(
                report@,
                percents.deep_view(),
                n_cpus,
            ),
{
    let n_cpus = count_cpus();
    let table = format_profit_table_for(report, percents, n_cpus);
    table
}

/// The head of the table of totals.
pub fn format_observation_totals_section_header() -> (header: String)
    ensures
        header@ == totals_header(),
{
    String::from_str("Tasks,Mean task duration,Std. dev.,Total duration,Profit\n")
}

/// The line of `obs` in the table of totals, where `percent` writes its
/// profit in percent.
pub fn format_observation_totals(obs: &Observation, percent: &str) -> (line: String)
    requires
        obs.wf(),
        obs@.schedule.len() > 0,
    ensures
        line@ == totals_line(obs@.schedule, percent@),
{
    let mut line = format_unsigned(obs.count_tasks() as u128);
    line.append(", ");
    line.append(format_signed(obs.get_mean_task_duration()).as_str());
    line.append(", ");
    line.append(format_signed(obs.get_standard_deviation()).as_str());
    line.append(", ");
    line.append(format_signed(obs.get_total_duration()).as_str());
    line.append(", ");
    line.append(percent);
    line.append("%\n");
    line
}

/// The lines of all observations of `report` in the table of totals, where
/// `percents` write their profits in percent, in the same order.
pub fn format_observation_totals_section_data(report: &Report, percents: &Vec<String>) -> (data:
    String)
    requires
        report.wf(),
        percents@.len() == report@.len(),
    ensures
        data@ == totals_lines(report@, percents.deep_view(), report@.len()),
{
    let mut formatted_data = String::new();
    let count = report.count_observations();
    let mut idx: usize = 0;
    while idx < count
        invariant
            idx <= count,
            count == report@.len(),
            percents@.len() == report@.len(),
            report.wf(),
            formatted_data@ == totals_lines(report@, percents.deep_view(), idx as nat),
        decreases count - idx,
    {
        let obs = report.get_observation(idx);
        let line = format_observation_totals(obs, percents[idx].as_str());
        formatted_data.append(line.as_str());
        idx += 1;
    }
    formatted_data
}

/// The table of totals of `report`.
pub fn format_observation_totals_section(report: &Report, percents: &Vec<String>) -> (section:
    String)
    requires
        report.wf(),
        percents@.len() == report@.len(),
    ensures
        section@ == totals_section(report@, percents.deep_view()),
{
    let mut section = format_observation_totals_section_header();
    section.append(format_observation_totals_section_data(report, percents).as_str());
    section
}

/// The line of `task` in the table of schedules.
pub fn format_task(n_tasks: usize, task_idx: usize, task: &Task) -> (line: String)
    requires
        task.wf(),
    ensures
        line@ == task_line(n_tasks as nat, task_idx as nat, task@),
{
    let mut line = format_unsigned(n_tasks as u128);
    line.append(",");
    line.append(format_unsigned(task_idx as u128).as_str());
    line.append(",");
    line.append(format_signed(task.get_start()).as_str());
    line.append(",");
    line.append(format_signed(task.get_finish()).as_str());
    line.append(",");
    line.append(format_signed(task.get_duration()).as_str());
    line.append("\n");
    line
}

/// The lines of all tasks of `obs` in the table of schedules.
pub fn format_tasks(obs: &Observation) -> (lines: String)
    requires
        obs.wf(),
    ensures
        lines@ == task_lines(obs@.schedule, obs@.schedule.len()),
{
    let mut schedule_text = String::new();
    let n_tasks: usize = obs.count_tasks();
    let mut done: usize = 0;
    while done < n_tasks
        invariant
            done <= n_tasks,
            n_tasks == obs@.schedule.len(),
            obs.wf(),
            schedule_text@ == task_lines(obs@.schedule, done as nat),
        decreases n_tasks - done,
    {
        let task = obs.get_task(done);
        let line = format_task(n_tasks, done + 1, task);
        schedule_text.append(line.as_str());
        done += 1;
    }
    schedule_text
}

/// The head of the table of schedules.
pub fn format_observation_schedule_header() -> (header: String)
    ensures
        header@ == schedule_header(),
{
    String::from_str("Tasks,Task,Started,Finished,Duration\n")
}

/// The table of schedules of `report`.
pub fn format_observation_schedules_section(report: &Report) -> (section: String)
    requires
        report.wf(),
    ensures
        section@ == schedules_section(report@),
{
    let mut section_text = format_observation_schedule_header();
    let count = report.count_observations();
    let mut idx: usize = 0;
    while idx < count
        invariant
            idx <= count,
            count == report@.len(),
            report.wf(),
            section_text@ == schedule_header() + schedule_lines(report@, idx as nat),
        decreases count - idx,
    {
        let obs = report.get_observation(idx);
        let lines = format_tasks(obs);
        section_text.append(lines.as_str());
        idx += 1;
    }
    section_text
}

/// `report` as text, where `percents` write the profits of its observations
/// in percent, in the same order.
pub fn format_report(report: &Report, percents: &Vec<String>) -> (text: String)
    requires
        report.wf(),
        percents@.len() == report@.len(),
    ensures
        text@ == report_text(report@, percents.deep_view()),
{
    let mut text = format_observation_totals_section(report, percents);
    text.append("\n");
    text.append(format_observation_schedules_section(report).as_str());
    text
}

} // verus!
