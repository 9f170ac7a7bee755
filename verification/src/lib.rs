//! Message routing core of a real-time chat backend.
//!
//! The crate holds the session registry, the live-connection registry, the
//! group-membership cache, the dispatcher that turns a submitted message into
//! deliveries, and the per-connection gateway state machine. Contracts are
//! stated over mathematical models of the data and proved, down to a small
//! number of wrappers around other crates whose contracts are taken on trust;
//! each of those says in its documentation what it claims.
//!
//! The crate does no I/O and takes no lock. A server holds each registry
//! behind a mutex of its own, drives the dispatcher and the gateways, and
//! performs the storage and socket work they order.

pub mod recency;
pub mod lru_cache;
pub mod session;
pub mod roster;
pub mod connection;
pub mod json;
pub mod message;
pub mod dispatch;
pub mod gateway;
pub mod account;
pub mod directory;
pub mod history;
