//! The partitions whose images the firmware verifies.

use vstd::prelude::*;
use crate::pvmfw::avb::error::AvbIOError;

verus! {

/// The closed set of partitions that may carry a hash descriptor.
#[derive(Debug, PartialEq, Eq, Structural, Clone, Copy)]
pub enum PartitionName {
    Kernel,
    InitrdNormal,
    InitrdDebug,
}

/// "boot", the name of the kernel partition.
pub const KERNEL_PARTITION_NAME: [u8; 4] = [0x62, 0x6f, 0x6f, 0x74];

/// "initrd_normal", the name of the ramdisk partition of an ordinary boot.
pub const INITRD_NORMAL_PARTITION_NAME: [u8; 13] = [
    0x69, 0x6e, 0x69, 0x74, 0x72, 0x64, 0x5f, 0x6e, 0x6f, 0x72, 0x6d, 0x61, 0x6c,
];

/// "initrd_debug", the name of the ramdisk partition of a debuggable boot.
pub const INITRD_DEBUG_PARTITION_NAME: [u8; 12] = [
    0x69, 0x6e, 0x69, 0x74, 0x72, 0x64, 0x5f, 0x64, 0x65, 0x62, 0x75, 0x67,
];

/// How many partitions are known.
pub const NUM_OF_KNOWN_PARTITIONS: usize = 3;

/// Whether two byte strings are the same.
fn bytes_equal(a: &[u8], b: &[u8]) -> (same: bool)
    ensures
        same <==> a@ == b@,
{
    if a.len() != b.len() {
        return false;
    }
    let mut i: usize = 0;
    while i < a.len()
        invariant
            a.len() == b.len(),
            i <= a.len(),
            forall|k: int| 0 <= k < i ==> a@[k] == b@[k],
        decreases a.len() - i,
    {
        if a[i] != b[i] {
            return false;
        }
        i += 1;
    }
    assert(a@ =~= b@);
    true
}

impl PartitionName {
    /// The name under which the metadata refers to the partition.
    pub open spec fn name(self) -> Seq<u8> {
        match self {
            PartitionName::Kernel => KERNEL_PARTITION_NAME@,
            PartitionName::InitrdNormal => INITRD_NORMAL_PARTITION_NAME@,
            PartitionName::InitrdDebug => INITRD_DEBUG_PARTITION_NAME@,
        }
    }

    /// The partition that goes by `name`, if there is one.
    pub open spec fn named(name: Seq<u8>) -> Option<PartitionName> {
        if name == PartitionName::Kernel.name() {
            Some(PartitionName::Kernel)
        } else if name == PartitionName::InitrdNormal.name() {
            Some(PartitionName::InitrdNormal)
        } else if name == PartitionName::InitrdDebug.name() {
            Some(PartitionName::InitrdDebug)
        } else {
            None
        }
    }

    /// The bytes of the partition's name, without a terminator.
    pub fn as_bytes(&self) -> (bytes: &'static [u8])
        ensures
            bytes@ == self.name(),
    {
        match self {
            PartitionName::Kernel => KERNEL_PARTITION_NAME.as_slice(),
            PartitionName::InitrdNormal => INITRD_NORMAL_PARTITION_NAME.as_slice(),
            PartitionName::InitrdDebug => INITRD_DEBUG_PARTITION_NAME.as_slice(),
        }
    }

    /// Maps the name found in a descriptor onto a known partition.
    pub fn from_name(name: &[u8]) -> (partition: Result<PartitionName, AvbIOError>)
        ensures
            match partition {
                Ok(p) => PartitionName::named(name@) == Some(p),
                Err(e) => e == AvbIOError::NoSuchPartition && PartitionName::named(name@) is None,
            },
    {
        if bytes_equal(name, PartitionName::Kernel.as_bytes()) {
            Ok(PartitionName::Kernel)
        } else if bytes_equal(name, PartitionName::InitrdNormal.as_bytes()) {
            Ok(PartitionName::InitrdNormal)
        } else if bytes_equal(name, PartitionName::InitrdDebug.as_bytes()) {
            Ok(PartitionName::InitrdDebug)
        } else {
            Err(AvbIOError::NoSuchPartition)
        }
    }
}

/// The known partitions go by different names: each is the one that its own
/// name stands for.
pub proof fn lemma_names_tell_partitions_apart(partition_name: PartitionName)
    ensures
        PartitionName::named(partition_name.name()) == Some(partition_name),
{
}

} // verus!
