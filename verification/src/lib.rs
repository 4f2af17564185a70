//! Telemetry egress for a request-tracing agent: a bounded hand-off of finished
//! trace segments from many short-lived producers to one long-lived consumer,
//! and the reporter that delivers them to a remote collector.

pub mod channel;
pub mod counter;
pub mod module;
pub mod report;
pub mod util;
pub mod worker;
