//! A continuously refreshed mirror of a remote beatmap catalog.
//!
//! The library holds the decisions of the three processes that fill the
//! document store: the cache-aside resolver, the forward crawler with its
//! backoff, and the staleness updater, together with the batch collapse
//! they share. The network and store traffic itself is performed by the
//! caller, which hands the outcomes back to these functions.

pub mod status;
pub mod entity;
pub mod updater;
pub mod backoff;
pub mod crawler;
pub mod search;
pub mod bulk;
pub mod store;
pub mod resolver;
pub mod error;
