//! Host telemetry aggregation core.
//!
//! The library normalizes platform metric readings into one coherent
//! snapshot, fuzzy-matches network interface identities across two
//! independently enumerated sources, and keeps the state of a cancellable
//! background sampler that accumulates a time series of log rows.
//!
//! Readings are taken from the operating system through a small set of
//! trusted probe functions; everything that is derived from a reading
//! (percentages, disk usage, interface matching, the sampler state
//! machine) is verified.

pub mod alerts;
pub mod health;
pub mod icon;
pub mod netinfo;
pub mod percent;
pub mod probe;
pub mod procs;
pub mod reconcile;
pub mod sampler;
pub mod snapshot;
pub mod text;
