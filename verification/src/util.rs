//! What the other modules share: constants, errors, hashing and the plain
//! data types.

pub mod consts;
pub mod encoding;
pub mod errors;
pub mod hasher;
pub mod ids;
pub mod text;
pub mod types;
