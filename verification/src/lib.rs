//! Measurement synchronization pipeline for hydrological water-temperature
//! readings.
//!
//! The library fetches the latest reading of each configured station from a
//! semantic-data query endpoint, forwards readings that have not been seen
//! before to a downstream ingestion API, and records every forwarded reading
//! in a durable dedup ledger so that no reading is ever forwarded twice.
//!
//! The crate holds the verified core: query construction, response
//! interpretation, the dedup ledger, forwarding decisions, and the cycle
//! scheduler. Transport (HTTP) and configuration-file loading live outside,
//! in the thin program around the library, and hand the library plain values.

pub mod config;
pub mod database;
pub mod gfroerli;
pub mod parsing;
pub mod processor;
pub mod scheduler;
pub mod sparql;
pub mod text;
pub mod timestamp;
