//! The typed operations of the ledger: the statements that are sent to it
//! and the rows that come back.

pub mod client;
pub mod reputation;
pub mod rows;
pub mod statements;
