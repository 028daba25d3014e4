//! Descriptor-level checks on verified-boot metadata.

pub mod array_vec;
pub mod descriptor;
pub mod error;
pub mod laws;
pub mod partition;
