//! Errors of the verified-boot checks.

use vstd::prelude::*;

verus! {

/// Why a single descriptor record was turned down.
#[derive(Debug, PartialEq, Eq, Structural, Clone, Copy)]
pub enum AvbIOError {
    /// The store already holds a descriptor for the partition.
    Io,
    /// The record names a partition that is not one of the known ones.
    NoSuchPartition,
    /// The record is of a kind other than a hash descriptor.
    NoSuchValue,
}

/// Why the metadata of a boot image was turned down as a whole.
#[derive(Debug, PartialEq, Eq, Structural, Clone, Copy)]
pub enum AvbSlotVerifyError {
    /// No metadata was handed over.
    Io,
    /// A descriptor record of the metadata was turned down.
    InvalidMetadata,
}

} // verus!
