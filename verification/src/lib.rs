//! A minimal self-sovereign agent: a locally generated identity, a guarded
//! in-memory key/value store, and a single outbound JSON notification.
//!
//! The library holds the verified core: identity construction, the store and
//! its map semantics, payload serialization, and the interpretation of a
//! notification attempt's outcome. Performing the HTTP round trip itself is
//! left to the embedding program.

pub mod agent;
pub mod identity;
pub mod notify;
pub mod payload;
pub mod store;
