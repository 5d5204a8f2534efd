//! Byte-overhead accounting for simulated Matter messages across the
//! transport, session, presentation and application layers, with the
//! text forms in which a measurement is reported and persisted.

pub mod clock;
pub mod decimal;
pub mod metrics;
pub mod client;
pub mod session;
pub mod records;
pub mod report;
