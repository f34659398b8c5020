//! Polynomial commitments with a reveal-based baseline scheme.
//!
//! The `polycommit` module states the capability contract every
//! commitment scheme exposes: `commit`, `open` and `verify` over five
//! associated data kinds. The `greyhound` module implements it for
//! dense polynomials by hashing the full coefficient sequence and
//! opening by full disclosure; `scalar`, `dense_poly`, `hashing`,
//! `nizk`, `random` and `transcript` supply the field, the polynomials
//! and the collaborators the protocol composes.

pub mod dense_poly;
pub mod errors;
pub mod greyhound;
pub mod hashing;
pub mod nizk;
pub mod polycommit;
pub mod random;
pub mod scalar;
pub mod transcript;
