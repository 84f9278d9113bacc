//! A verifiable random function over the ristretto255 group.
//!
//! Keys and proofs are held in their fixed-length byte layouts, which this
//! crate checks and splits itself; the group arithmetic and hashing come from
//! fastcrypto's ECVRF.
pub mod api;
pub mod backend;
pub mod encoding;
pub mod keys;
pub mod laws;
pub mod vrf;
