//! Utility functions: Borsh encodings and the hex adapter.

pub mod borsh_io;
pub mod deserialize;
pub mod serialize;
pub mod hexstr_human_readable;
