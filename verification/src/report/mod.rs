//! The report on a run of real submissions.

pub mod agent;
pub mod config;
pub mod run;
pub mod scrub;
pub mod transactions;
pub mod types;
pub mod util;
