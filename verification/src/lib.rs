//! Sensor telemetry codec and session-export pipeline for a cycling computer.
//!
//! The crate decodes raw Bluetooth Low Energy characteristic payloads into
//! typed measurements, converts wrapping hardware counters into instantaneous
//! rates and running totals, folds a time-ordered stream of raw samples into
//! one-record-per-second summaries, and serializes those summaries into a
//! CRC-protected FIT file. Every function is specified by its contract and
//! verified; all quantities are carried as the raw integer register values
//! of the wire format, so callers that want engineering units (seconds,
//! percent, newton-metres) apply the documented scale factors themselves.

pub mod bytes;
pub mod csc;
pub mod display;
pub mod fit;
pub mod heart_rate;
pub mod power;
pub mod revolution;
pub mod session;
