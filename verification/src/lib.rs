//! Decision logic for small time-keeping command-line tools: setting file
//! timestamps on a schedule, reporting an uptime, counting down a dialog.
//!
//! The functions here are verified against their contracts. Reading the
//! clock, parsing a date and wording a duration are left to `chrono`,
//! `dateparser` and `pretty_duration`: the calls stand in [`outside`], behind
//! contracts that are trusted rather than proved. Touching the file system,
//! sleeping and printing are left to the caller.

pub mod batch;
pub mod config;
pub mod dialog;
pub mod elapsed;
pub mod instant;
pub mod outside;
pub mod resolve;
pub mod schedule;
pub mod text;
