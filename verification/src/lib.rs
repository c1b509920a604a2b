//! Shared types of the Photon sidechain node: error types, byte-level
//! encodings of Bitcoin and Utreexo values, and the hex adapter used for
//! human-readable serialization.

pub mod error;
pub mod text;
pub mod types;
pub mod util;
