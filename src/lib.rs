//! Declarative checks on the startup state of a measurement pipeline host.
//!
//! A test declares the metrics, plugins, sources, transforms and outputs that it
//! expects; the host hands its state to the checks at three points of its
//! startup, and each check reports the first mismatch it finds.
pub mod units;
pub mod naming;
pub mod host;
pub mod startup;
pub mod check;
pub mod laws;

pub use startup::{Metric, StartupExpectations};
