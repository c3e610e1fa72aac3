//! Measures what running short CPU-bound tasks concurrently gains over running
//! them one after another, and reduces the timings to summary statistics.

pub mod args;
pub mod clock;
pub mod export;
pub mod observation;
pub mod profit;
pub mod report;
pub mod schedule;
pub mod scheduler;
pub mod sysparams;
pub mod task;
pub mod text;
