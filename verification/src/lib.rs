//! Data-access core of a small message service backed by a graph database.
//!
//! The crate decides; its caller performs the I/O. It builds the parameterized
//! statements, decodes the rows that come back into [`message::Message`]
//! records, folds a row stream into the result of an operation, checks the
//! bearer credential of a request and chooses the response to send.

pub mod api;
pub mod auth;
pub mod bolt;
pub mod error;
pub mod message;
pub mod record;
pub mod statement;
pub mod store;
