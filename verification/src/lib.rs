//! An in-memory key-value provider: a shared string-to-string store, a
//! registry of linked callers in two directions, a wholesale-replaceable
//! configuration record, and the lifecycle state machine that ties them
//! together.
//!
//! All state lives in ordinary owned values; a host embeds the
//! [`provider::KeyValueStoreProvider`] behind whatever guard suits its
//! concurrency model and drives it with lifecycle events, while attached
//! callers issue `get`/`set` invocations.

pub mod assoc;
pub mod config;
pub mod laws;
pub mod provider;
pub mod registry;
pub mod store;
