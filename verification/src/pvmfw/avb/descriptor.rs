//! Descriptors of verified-boot metadata and the store that keeps them.

use vstd::prelude::*;
use crate::pvmfw::avb::error::{AvbIOError, AvbSlotVerifyError};
use crate::pvmfw::avb::partition::{PartitionName, NUM_OF_KNOWN_PARTITIONS};
use crate::pvmfw::avb::array_vec::{empty_vec, held, vec_as_slice, vec_len, vec_push};
use crate::pvmfw::avb::laws::{
    after_callback, lemma_acceptable_prefix, lemma_acceptable_step, lemma_at_most_one_slot_each,
    lemma_push_keeps_one_per_partition, lemma_room_for_absent,
};
use tinyvec::ArrayVec;

verus! {

/// Length of a SHA-256 digest in bytes.
pub const AVB_SHA256_DIGEST_SIZE: usize = 32;

/// Digest type for kernel and initrd.
pub type Digest = [u8; 32];

/// Tag of a hash descriptor.
pub const AVB_DESCRIPTOR_TAG_HASH: u64 = 2;

/// One descriptor record as the metadata parser hands it over, before its
/// kind and its partition have been looked at. In a record of another kind
/// than a hash descriptor only the tag carries meaning.
#[derive(Debug, Clone)]
pub struct RawDescriptor {
    pub tag: u64,
    pub partition_name: Vec<u8>,
    pub digest: Digest,
    pub image_size: u64,
    pub flags: u32,
}

/// The expected digest of the image of one known partition. What tells one
/// hash descriptor from another is the partition that it belongs to.
#[derive(Debug, Clone, Copy)]
pub struct HashDescriptor {
    pub partition_name: PartitionName,
    pub digest: Digest,
    pub image_size: u64,
    pub flags: u32,
}

impl Default for HashDescriptor {
    fn default() -> (descriptor: Self)
        ensures
            descriptor.partition_name == PartitionName::Kernel,
            descriptor.digest@ == Seq::new(32, |i: int| 0u8),
            descriptor.image_size == 0,
            descriptor.flags == 0,
    {
        HashDescriptor {
            partition_name: PartitionName::Kernel,
            digest: [0u8; 32],
            image_size: 0,
            flags: 0,
        }
    }
}

/// A descriptor of a kind that the firmware accepts.
#[derive(Debug, Clone, Copy)]
pub enum Descriptor {
    Hash(HashDescriptor),
}

/// What decoding makes of a raw record.
pub open spec fn decode(raw: RawDescriptor) -> Result<Descriptor, AvbIOError> {
    if raw.tag != AVB_DESCRIPTOR_TAG_HASH {
        Err(AvbIOError::NoSuchValue)
    } else {
        match PartitionName::named(raw.partition_name@) {
            Some(partition_name) => Ok(
                Descriptor::Hash(
                    HashDescriptor {
                        partition_name,
                        digest: raw.digest,
                        image_size: raw.image_size,
                        flags: raw.flags,
                    },
                ),
            ),
            None => Err(AvbIOError::NoSuchPartition),
        }
    }
}

impl Default for Descriptors {
    fn default() -> (descriptors: Self)
        ensures
            descriptors@ == Seq::<HashDescriptor>::empty(),
    {
        Descriptors::new()
    }
}

impl Descriptor {
    /// Decodes a raw record: only a hash descriptor of a known partition is
    /// accepted.
    pub fn from_raw(raw: &RawDescriptor) -> (descriptor: Result<Descriptor, AvbIOError>)
        ensures
            descriptor == decode(*raw),
    {
        if raw.tag != AVB_DESCRIPTOR_TAG_HASH {
            return Err(AvbIOError::NoSuchValue);
        }
        match PartitionName::from_name(raw.partition_name.as_slice()) {
            Ok(partition_name) => Ok(
                Descriptor::Hash(
                    HashDescriptor {
                        partition_name,
                        digest: raw.digest,
                        image_size: raw.image_size,
                        flags: raw.flags,
                    },
                ),
            ),
            Err(e) => Err(e),
        }
    }
}

/// Whether some descriptor of `stored` belongs to `partition_name`.
pub open spec fn holds(stored: Seq<HashDescriptor>, partition_name: PartitionName) -> bool {
    exists|i: int| 0 <= i < stored.len() && (#[trigger] stored[i]).partition_name == partition_name
}

/// Whether no two descriptors of `stored` belong to the same partition.
pub open spec fn one_per_partition(stored: Seq<HashDescriptor>) -> bool {
    forall|i: int, j: int|
        0 <= i < j < stored.len() ==> (#[trigger] stored[i]).partition_name != (
        #[trigger] stored[j]).partition_name
}

/// What saving `descriptor` makes of a store: the store with the descriptor
/// at its end, or the reason why the store stays as it is.
pub open spec fn save(stored: Seq<HashDescriptor>, descriptor: Descriptor) -> Result<
    Seq<HashDescriptor>,
    AvbIOError,
> {
    match descriptor {
        Descriptor::Hash(d) => if holds(stored, d.partition_name) {
            Err(AvbIOError::Io)
        } else {
            Ok(stored.push(d))
        },
    }
}

/// What one descriptor callback makes of a store: the record is decoded and,
/// if it is of an accepted kind, saved.
pub open spec fn check_and_save(stored: Seq<HashDescriptor>, raw: RawDescriptor) -> Result<
    Seq<HashDescriptor>,
    AvbIOError,
> {
    match decode(raw) {
        Ok(descriptor) => save(stored, descriptor),
        Err(e) => Err(e),
    }
}

/// The hash descriptor that an accepted record stands for.
pub open spec fn hash_descriptor(raw: RawDescriptor) -> HashDescriptor {
    match decode(raw) {
        Ok(Descriptor::Hash(d)) => d,
        Err(_) => arbitrary(),
    }
}

/// The hash descriptors that a list of accepted records stands for.
pub open spec fn hash_descriptors(records: Seq<RawDescriptor>) -> Seq<HashDescriptor> {
    Seq::new(records.len(), |i: int| hash_descriptor(records[i]))
}

/// Whether a list of records makes a store: every record is a hash descriptor
/// of a known partition, and no two of them are of the same partition.
pub open spec fn acceptable(records: Seq<RawDescriptor>) -> bool {
    &&& forall|i: int| 0 <= i < records.len() ==> decode(#[trigger] records[i]) is Ok
    &&& one_per_partition(hash_descriptors(records))
}

/// `Descriptors` can have at most one `HashDescriptor` per known partition.
#[derive(Debug)]
pub struct Descriptors {
    hash_descriptors: ArrayVec<[HashDescriptor; 3]>,
}

impl Descriptors {
    /// The descriptors of the store, in the order in which they were saved.
    pub closed spec fn view(&self) -> Seq<HashDescriptor> {
        held(self.hash_descriptors)
    }

    /// What holds of every store: no two of its descriptors belong to the
    /// same partition.
    #[verifier::type_invariant]
    pub closed spec fn wf(&self) -> bool {
        one_per_partition(self@)
    }

    /// An empty store.
    pub fn new() -> (descriptors: Self)
        ensures
            descriptors@ == Seq::<HashDescriptor>::empty(),
    {
        Descriptors { hash_descriptors: empty_vec() }
    }

    /// Builds `Descriptors` from the descriptor records of one metadata image,
    /// which are given in the order in which the image lists them; `None`
    /// stands for an image without data.
    /// Returns an error if the records contain a non-hash descriptor, a hash
    /// descriptor of an unknown partition or two hash descriptors of one
    /// partition.
    pub fn from_vbmeta(vbmeta: Option<&[RawDescriptor]>) -> (built: Result<
        Self,
        AvbSlotVerifyError,
    >)
        ensures
            match built {
                Ok(descriptors) => vbmeta matches Some(records) && acceptable(records@)
                    && descriptors@ == hash_descriptors(records@) && one_per_partition(
                    descriptors@,
                ),
                Err(e) => match vbmeta {
                    None => e == AvbSlotVerifyError::Io,
                    Some(records) => e == AvbSlotVerifyError::InvalidMetadata && !acceptable(
                        records@,
                    ),
                },
            },
    {
        let records = match vbmeta {
            Some(records) => records,
            None => {
                return Err(AvbSlotVerifyError::Io);
            },
        };
        let mut descriptors = Descriptors::new();
        let mut i: usize = 0;
        while i < records.len()
            invariant
                vbmeta == Some(records),
                i <= records.len(),
                acceptable(records@.take(i as int)),
                descriptors@ == hash_descriptors(records@.take(i as int)),
            decreases records.len() - i,
        {
            let saved = check_and_save_descriptor(&records[i], &mut descriptors);
            proof {
                lemma_acceptable_step(records@.take(i as int), records@[i as int]);
                assert(records@.take(i as int).push(records@[i as int]) =~= records@.take(
                    i as int + 1,
                ));
            }
            if !saved {
                proof {
                    if acceptable(records@) {
                        lemma_acceptable_prefix(records@, i as int + 1);
                    }
                }
                return Err(AvbSlotVerifyError::InvalidMetadata);
            }
            i += 1;
        }
        assert(records@.take(i as int) =~= records@);
        Ok(descriptors)
    }

    /// The number of hash descriptors in the store, which is at most one per
    /// known partition.
    pub fn num_hash_descriptor(&self) -> (n: usize)
        ensures
            n == self@.len(),
            n <= NUM_OF_KNOWN_PARTITIONS,
            one_per_partition(self@),
    {
        proof {
            use_type_invariant(self);
            lemma_at_most_one_slot_each(self@);
        }
        vec_len(&self.hash_descriptors)
    }

    /// Finds the `HashDescriptor` for the given `PartitionName`.
    pub fn find_hash_descriptor(&self, partition_name: PartitionName) -> (found: Result<
        &HashDescriptor,
        AvbSlotVerifyError,
    >)
        ensures
            found is Ok <==> holds(self@, partition_name),
            match found {
                Ok(d) => d.partition_name == partition_name && self@.contains(*d),
                Err(e) => e == AvbSlotVerifyError::InvalidMetadata,
            },
    {
        let items = vec_as_slice(&self.hash_descriptors);
        let mut i: usize = 0;
        while i < items.len()
            invariant
                items@ == self@,
                i <= items.len(),
                forall|k: int| 0 <= k < i ==> (#[trigger] items@[k]).partition_name != partition_name,
            decreases items.len() - i,
        {
            if items[i].partition_name == partition_name {
                return Ok(&items[i]);
            }
            i += 1;
        }
        Err(AvbSlotVerifyError::InvalidMetadata)
    }

    /// Saves a descriptor of an accepted kind.
    pub fn push(&mut self, descriptor: Descriptor) -> (saved: Result<(), AvbIOError>)
        ensures
            match saved {
                Ok(()) => save(old(self)@, descriptor) == Ok::<_, AvbIOError>(final(self)@),
                Err(e) => save(old(self)@, descriptor) == Err::<Seq<HashDescriptor>, _>(e)
                    && final(self)@ == old(self)@,
            },
            one_per_partition(final(self)@),
    {
        match descriptor {
            Descriptor::Hash(d) => self.push_hash_descriptor(d),
        }
    }

    /// Saves a hash descriptor unless the store holds one for the same
    /// partition already; in that case the store stays as it is.
    pub fn push_hash_descriptor(&mut self, descriptor: HashDescriptor) -> (saved: Result<
        (),
        AvbIOError,
    >)
        ensures
            match saved {
                Ok(()) => !holds(old(self)@, descriptor.partition_name) && final(self)@ == old(
                    self,
                )@.push(descriptor),
                Err(e) => e == AvbIOError::Io && holds(old(self)@, descriptor.partition_name)
                    && final(self)@ == old(self)@,
            },
            one_per_partition(final(self)@),
    {
        proof {
            use_type_invariant(&*self);
        }
        let items = vec_as_slice(&self.hash_descriptors);
        let mut i: usize = 0;
        while i < items.len()
            invariant
                items@ == self@,
                one_per_partition(self@),
                i <= items.len(),
                forall|k: int|
                    0 <= k < i ==> (#[trigger] items@[k]).partition_name
                        != descriptor.partition_name,
            decreases items.len() - i,
        {
            if items[i].partition_name == descriptor.partition_name {
                return Err(AvbIOError::Io);
            }
            i += 1;
        }
        proof {
            lemma_room_for_absent(self@, descriptor.partition_name);
            lemma_push_keeps_one_per_partition(self@, descriptor);
        }
        vec_push(&mut self.hash_descriptors, descriptor);
        Ok(())
    }
}

/// The descriptor callback in its fallible form: decodes the record and saves
/// it in the store; on an error the store stays as it is.
pub fn try_check_and_save_descriptor(
    descriptor: &RawDescriptor,
    user_data: &mut Descriptors,
) -> (saved: Result<(), AvbIOError>)
    ensures
        match saved {
            Ok(()) => check_and_save(old(user_data)@, *descriptor) == Ok::<_, AvbIOError>(
                final(user_data)@,
            ),
            Err(e) => check_and_save(old(user_data)@, *descriptor) == Err::<
                Seq<HashDescriptor>,
                _,
            >(e) && final(user_data)@ == old(user_data)@,
        },
        one_per_partition(final(user_data)@),
{
    proof {
        use_type_invariant(&*user_data);
    }
    match Descriptor::from_raw(descriptor) {
        Ok(descriptor) => user_data.push(descriptor),
        Err(e) => Err(e),
    }
}

/// The descriptor callback: `true` lets the enumeration go on, `false` ends it.
pub fn check_and_save_descriptor(descriptor: &RawDescriptor, user_data: &mut Descriptors) -> (go_on:
    bool)
    ensures
        go_on <==> check_and_save(old(user_data)@, *descriptor) is Ok,
        go_on ==> check_and_save(old(user_data)@, *descriptor) == Ok::<_, AvbIOError>(
            final(user_data)@,
        ),
        !go_on ==> final(user_data)@ == old(user_data)@,
        final(user_data)@ == after_callback(old(user_data)@, *descriptor),
        one_per_partition(final(user_data)@),
{
    try_check_and_save_descriptor(descriptor, user_data).is_ok()
}

} // verus!
