//! Location-transparent actors with revocable, capability-based remote
//! messaging.
//!
//! An actor is a stateful object that processes typed messages one at a
//! time.  Local actors run in-process; remote actors are reached through
//! opaque addresses that act as unforgeable capabilities and can be revoked
//! at any moment.  This crate holds the verified core: the message model,
//! the dispatch state machine, the bridge policy, addresses and the wire
//! format, and the router's peer table.

pub mod actors;
pub mod address;
pub mod auth;
pub mod dencoder;
pub mod endpoint;
pub mod hex;
pub mod local;
pub mod messaging;
pub mod models;
pub mod opts;
pub mod remote;
pub mod router;
pub mod trust_store;
pub mod utils;
pub mod wire;
