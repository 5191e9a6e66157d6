//! Background work: the poller's decisions and schedule, and the statistics
//! over an instance's status history.
pub mod aggregator;
pub mod poller;
pub mod schedule;
