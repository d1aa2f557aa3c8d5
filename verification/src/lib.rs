//! Verified core of the MewsFeed ActivityPub federation: the Holochain
//! entry model, the decisions taken by the coordinator and integrity zomes,
//! and the pure parts of the server-to-server bridge.

pub mod hashes;
pub mod entries;
pub mod text;
pub mod shard;
pub mod anchors;
pub mod zome_io;
pub mod dht_model;
pub mod coordinator;
pub mod validation;
pub mod s2s;
pub mod laws;
