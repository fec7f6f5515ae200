//! A real-time multi-host latency monitor: per-host rolling latency
//! statistics, network throughput accounting, the probe loop's decisions,
//! the dashboard's key handling and its colour rules.

pub mod host;
pub mod ratio;
pub mod sparkline;
pub mod theme;
pub mod network;
pub mod app;
pub mod ping;
