//! A publicly verifiable secret sharing (PVSS) engine over a type-III
//! bilinear pairing, in the style of the "modified SCRAPE" construction.
//!
//! Each node can act as a dealer (issuing a share of a random field element)
//! and as an aggregator (verifying shares from other nodes and folding them
//! into one aggregated transcript that commits to the sum of all dealers'
//! secrets). Aggregation is homomorphic and keeps per-dealer weights, so the
//! aggregated object can itself be re-aggregated recursively.

pub mod aggregator;
pub mod config;
pub mod curve;
pub mod decomp;
pub mod decryption;
pub mod dleq;
pub mod dlk;
pub mod eddsa;
pub mod errors;
pub mod hashing;
pub mod node;
pub mod participant;
pub mod poly;
pub mod scheme;
pub mod schnorr;
pub mod share;
pub mod srs;
