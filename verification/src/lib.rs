//! Verified core of a smart-contract source-verification pipeline.
//!
//! The crate resolves a numeric chain identifier to a known explorer
//! target, locates exactly one compiled artifact for a contract
//! reference, encodes constructor arguments against the artifact's ABI,
//! extracts the compiler version pragma from source lines, assembles a
//! verification request, and classifies the explorer's response.

pub mod artifact;
pub mod chain;
pub mod encoder;
pub mod errors;
pub mod submit;
pub mod text;
