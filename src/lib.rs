//! Peer registry and broadcast synchronisation for a fleet of data proxies.
//!
//! The library holds the decisions of the sync module: which peers are
//! registered, how one operation fans out into one outbound call per peer,
//! how the outcomes of those calls are folded into one result, and which
//! response each error becomes. Network and database work is done by the
//! caller, which hands plain values in and takes plain values back.
pub mod models;
pub mod error;
pub mod registry;
pub mod broadcast;
