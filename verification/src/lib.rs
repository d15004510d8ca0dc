//! Newsletter subscription ingestion: validation of submissions, preparation
//! of the record to persist, and the mapping of failures to HTTP outcomes.
//!
//! The crate holds the decisions of the service. Sockets, the connection pool
//! and the log sink belong to the program around it, which hands this crate
//! plain values and carries out what it answers.

pub mod error;
pub mod form;
pub mod response;
pub mod routes;
pub mod store;
