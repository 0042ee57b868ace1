//! A verified BLS12-381 pairing engine, together with the Merkle-tree
//! utilities used by the surrounding sync-committee tooling.
//!
//! The base-field and extension-tower arithmetic and the elliptic-curve group
//! law are consumed from `ark-bls12-381` through trusted wrappers; the Miller
//! loop, its drivers, the `G2Prepared` cache, multi-pairing batching, the
//! final exponentiation and the `Gt` group algebra are implemented and
//! verified here.

pub mod aggregate;
pub mod committee;
pub mod engine;
pub mod fp;
pub mod gt;
pub mod lines;
pub mod pairings;
pub mod points;
pub mod step;
pub mod types;
