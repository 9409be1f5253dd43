//! A peer-to-peer, reputation-governed file custody network: the verified core.
//!
//! The crate holds the proof-of-retrievability codec and the decision logic of
//! the custody network. Every executable function carries a contract that is
//! checked by Verus.
pub mod auditor;
pub mod bench;
pub mod grpc;
pub mod ledger;
pub mod malice;
pub mod p2p;
pub mod por;
pub mod settings;
pub mod storage;
pub mod util;
