//! A client driver core for a remote graph database: the concept type records,
//! the classification of queries by their answers, and the protocol state
//! machines of channels, transactions, sessions and connections.
//!
//! The library does no I/O. Each operation decides locally what happens and
//! hands back the request to put on the wire; the caller performs the exchange
//! and feeds each server message back in.
pub mod channel;
pub mod concept;
pub mod connection;
pub mod error;
pub mod query;
pub mod session;
pub mod transaction;
