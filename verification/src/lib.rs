//! Normalisation and rendering of host telemetry: byte quantities in their
//! largest sensible binary unit, storage totals, graphics adapters, process
//! tables and the cadence at which a process table is refreshed.
//!
//! Everything here works on plain values. Reading the host and writing the
//! report are left to the caller.

pub mod adapter_walk;
pub mod graphics;
pub mod processes;
pub mod report;
pub mod scheduler;
pub mod storage;
pub mod text;
pub mod units;
