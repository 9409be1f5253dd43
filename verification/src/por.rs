//! Proof of retrievability over the prime field of order `P57`.

pub mod algebra;
pub mod codec;
pub mod laws;
pub mod layout;
pub mod random;
