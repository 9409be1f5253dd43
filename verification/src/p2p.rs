//! The peer-to-peer side: identities, the record store's rules and the
//! decisions of the swarm coordinator.

pub mod controller;
pub mod peer_id;
pub mod store;
pub mod swarm;
