//! Batch orchestration of TLS scans: a bounded dispatcher of scan tasks,
//! classification of each external scan's outcome, and placement of results.

pub mod config;
pub mod outcome;
pub mod scheduler;
pub mod sink;
pub mod targets;
