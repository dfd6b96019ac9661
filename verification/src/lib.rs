//! Verified core of a part-order ("spord") tracking service.
//!
//! The crate owns the data-integrity layer of the tracker: the order and
//! credential records, a store model with the operations that create, mutate
//! and list them, the row encoding and decoding used at the persistence
//! boundary, the session-identity mapping that gates access, and the
//! configuration defaults.  The surrounding process (HTTP routing, the
//! SQLite connection, console prompts, logging) lives outside and hands the
//! core plain values.

pub mod config;
pub mod crypt;
pub mod errors;
pub mod models;
pub mod rows;
pub mod session;
pub mod store;
pub mod templates;
