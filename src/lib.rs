//! Samples state from a source-control platform (workflow run queues, pull
//! request counts, rate-limit budget) and republishes it as gauges that a
//! pull-based monitoring system can scrape.
//!
//! The library holds the verified decisions: which remote query a monitor
//! needs, how a remote reply becomes a gauge update, how the scheduler walks
//! the monitors, and how an exposition request is answered. The program
//! around it performs the network calls.

pub mod args;
pub mod config;
pub mod dispatch;
pub mod metrics;
pub mod server;
pub mod scheduler;
