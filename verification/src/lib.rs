//! Verified core of a machine-configuration checklist engine.
//!
//! The library owns the scenario/check configuration model with its JSON
//! codec and schema migration, the check evaluation dispatcher, the drift
//! detector, the fix-capability classifier, and the shared-state
//! coordinator.  Operating-system probes, file I/O and the user interface
//! live outside the library and exchange plain values with it.

pub mod checkers;
pub mod config;
pub mod defaults;
pub mod dispatch;
pub mod display;
pub mod drift;
pub mod fixer;
pub mod json;
pub mod notify;
pub mod power_plan;
pub mod processes;
pub mod registry;
pub mod state;
pub mod text;
