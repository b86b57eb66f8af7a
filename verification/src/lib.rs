//! The decision-making core of the oxideGate inference gateway: error
//! classification, backend reply screening, admission, the batching
//! scheduler's state machine, start-up settings, and the load generator's
//! statistics.

pub mod backend;
pub mod config;
pub mod error;
pub mod report;
pub mod scheduler;
pub mod stats;
pub mod stream;
pub mod types;
