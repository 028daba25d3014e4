//! What holds of the descriptor store whatever records the callbacks bring.

use vstd::prelude::*;
use crate::pvmfw::avb::descriptor::{
    acceptable, check_and_save, decode, hash_descriptor, hash_descriptors, holds,
    one_per_partition, Descriptor, HashDescriptor, RawDescriptor,
};
use crate::pvmfw::avb::error::AvbIOError;
use crate::pvmfw::avb::partition::{PartitionName, NUM_OF_KNOWN_PARTITIONS};

verus! {

/// A store with one descriptor per partition at most has a free slot for any
/// partition that it does not hold yet.
pub proof fn lemma_room_for_absent(stored: Seq<HashDescriptor>, partition_name: PartitionName)
    requires
        one_per_partition(stored),
        !holds(stored, partition_name),
    ensures
        stored.len() < NUM_OF_KNOWN_PARTITIONS,
{
    if stored.len() >= 3 {
        let a = stored[0].partition_name;
        let b = stored[1].partition_name;
        let c = stored[2].partition_name;
        assert(a != b && a != c && b != c);
        assert(a != partition_name && b != partition_name && c != partition_name);
    }
}

/// A store with one descriptor per partition at most holds no more
/// descriptors than there are known partitions.
pub proof fn lemma_at_most_one_slot_each(stored: Seq<HashDescriptor>)
    requires
        one_per_partition(stored),
    ensures
        stored.len() <= NUM_OF_KNOWN_PARTITIONS,
{
    if stored.len() > 3 {
        let a = stored[0].partition_name;
        let b = stored[1].partition_name;
        let c = stored[2].partition_name;
        let d = stored[3].partition_name;
        assert(a != b && a != c && b != c);
        assert(a != d && b != d && c != d);
    }
}

/// Saving a descriptor of a partition that the store does not hold yet keeps
/// the store at one descriptor per partition.
pub proof fn lemma_push_keeps_one_per_partition(stored: Seq<HashDescriptor>, d: HashDescriptor)
    requires
        one_per_partition(stored),
        !holds(stored, d.partition_name),
    ensures
        one_per_partition(stored.push(d)),
{
    let after = stored.push(d);
    assert forall|i: int, j: int| 0 <= i < j < after.len() implies (#[trigger] after[i]).partition_name
        != (#[trigger] after[j]).partition_name by {
        if j < stored.len() {
            assert(after[i] == stored[i] && after[j] == stored[j]);
        } else {
            assert(after[i] == stored[i]);
        }
    }
}

/// One more record after an acceptable list: the callback accepts it exactly
/// if the longer list is acceptable too, and then saves what it stands for.
pub proof fn lemma_acceptable_step(records: Seq<RawDescriptor>, raw: RawDescriptor)
    requires
        acceptable(records),
    ensures
        check_and_save(hash_descriptors(records), raw) is Ok <==> acceptable(records.push(raw)),
        acceptable(records.push(raw)) ==> check_and_save(hash_descriptors(records), raw) == Ok::<
            _,
            AvbIOError,
        >(hash_descriptors(records.push(raw))),
{
    let longer = records.push(raw);
    let stored = hash_descriptors(records);
    let after = hash_descriptors(longer);
    assert forall|i: int| 0 <= i < records.len() implies #[trigger] after[i] == stored[i] by {
        assert(longer[i] == records[i]);
    }
    assert(longer[records.len() as int] == raw);
    if check_and_save(stored, raw) is Ok {
        let d = hash_descriptor(raw);
        assert(!holds(stored, d.partition_name));
        lemma_push_keeps_one_per_partition(stored, d);
        assert(after =~= stored.push(d));
        assert forall|i: int| 0 <= i < longer.len() implies decode(#[trigger] longer[i]) is Ok by {
            if i < records.len() {
                assert(longer[i] == records[i]);
            }
        }
    }
    if acceptable(longer) {
        let d = hash_descriptor(raw);
        let last = records.len() as int;
        assert(decode(longer[last]) is Ok);
        assert(after[last] == d);
        if holds(stored, d.partition_name) {
            let k = choose|k: int|
                0 <= k < stored.len() && (#[trigger] stored[k]).partition_name == d.partition_name;
            assert(after[k].partition_name == after[last].partition_name);
        }
        assert(after =~= stored.push(d));
    }
}

/// A list of records with a beginning that is not acceptable is not
/// acceptable either.
pub proof fn lemma_acceptable_prefix(records: Seq<RawDescriptor>, n: int)
    requires
        0 <= n <= records.len(),
        acceptable(records),
    ensures
        acceptable(records.take(n)),
{
    let head = records.take(n);
    let all = hash_descriptors(records);
    let some = hash_descriptors(head);
    assert forall|i: int| 0 <= i < head.len() implies decode(#[trigger] head[i]) is Ok by {
        assert(head[i] == records[i]);
    }
    assert forall|i: int, j: int| 0 <= i < j < some.len() implies (#[trigger] some[i]).partition_name
        != (#[trigger] some[j]).partition_name by {
        assert(some[i] == all[i] && some[j] == all[j]);
    }
}

/// The store after one descriptor callback: a record that is turned down
/// leaves the store as it was.
pub open spec fn after_callback(stored: Seq<HashDescriptor>, raw: RawDescriptor) -> Seq<
    HashDescriptor,
> {
    match check_and_save(stored, raw) {
        Ok(next) => next,
        Err(_) => stored,
    }
}

/// The store after one callback for each of `records` in turn, whatever the
/// callbacks answered.
pub open spec fn after_callbacks(stored: Seq<HashDescriptor>, records: Seq<RawDescriptor>) -> Seq<
    HashDescriptor,
>
    decreases records.len(),
{
    if records.len() == 0 {
        stored
    } else {
        after_callback(after_callbacks(stored, records.drop_last()), records.last())
    }
}

/// The store that an enumeration builds: it ends at the first record that a
/// callback turns down, with that callback's error.
pub open spec fn enumerate(stored: Seq<HashDescriptor>, records: Seq<RawDescriptor>) -> Result<
    Seq<HashDescriptor>,
    AvbIOError,
>
    decreases records.len(),
{
    if records.len() == 0 {
        Ok(stored)
    } else {
        match enumerate(stored, records.drop_last()) {
            Ok(so_far) => check_and_save(so_far, records.last()),
            Err(e) => Err(e),
        }
    }
}

/// Whatever sequence of records the callbacks are made for, the store holds
/// at most one hash descriptor per known partition.
pub proof fn lemma_callbacks_keep_one_per_partition(
    stored: Seq<HashDescriptor>,
    records: Seq<RawDescriptor>,
)
    requires
        one_per_partition(stored),
    ensures
        one_per_partition(after_callbacks(stored, records)),
        after_callbacks(stored, records).len() <= NUM_OF_KNOWN_PARTITIONS,
    decreases records.len(),
{
    if records.len() > 0 {
        lemma_callbacks_keep_one_per_partition(stored, records.drop_last());
        let so_far = after_callbacks(stored, records.drop_last());
        match decode(records.last()) {
            Ok(Descriptor::Hash(d)) => {
                if !holds(so_far, d.partition_name) {
                    lemma_push_keeps_one_per_partition(so_far, d);
                }
            },
            Err(_) => {},
        }
    }
    lemma_at_most_one_slot_each(after_callbacks(stored, records));
}

/// A hash descriptor for a partition that the store holds already is turned
/// down, and the store stays as it was.
pub proof fn lemma_duplicate_is_rejected(stored: Seq<HashDescriptor>, raw: RawDescriptor)
    requires
        decode(raw) is Ok,
        holds(stored, hash_descriptor(raw).partition_name),
    ensures
        check_and_save(stored, raw) == Err::<Seq<HashDescriptor>, _>(AvbIOError::Io),
        after_callback(stored, raw) == stored,
{
}

/// A record whose partition name is not that of a known partition is turned
/// down, and the store stays as it was.
pub proof fn lemma_unknown_partition_is_rejected(stored: Seq<HashDescriptor>, raw: RawDescriptor)
    requires
        PartitionName::named(raw.partition_name@) is None,
    ensures
        check_and_save(stored, raw) is Err,
        after_callback(stored, raw) == stored,
{
}

/// Every descriptor that a store built by callbacks holds came from a record
/// that decodes to it: a record that does not decode, such as one of an
/// unknown partition, is never found in the store.
pub proof fn lemma_stored_descriptors_were_decoded(records: Seq<RawDescriptor>, i: int)
    requires
        0 <= i < after_callbacks(Seq::empty(), records).len(),
    ensures
        exists|k: int|
            0 <= k < records.len() && decode(#[trigger] records[k]) == Ok::<_, AvbIOError>(
                Descriptor::Hash(after_callbacks(Seq::empty(), records)[i]),
            ),
    decreases records.len(),
{
    if records.len() > 0 {
        let head = records.drop_last();
        let so_far = after_callbacks(Seq::empty(), head);
        let last = records.len() - 1;
        if i < so_far.len() {
            lemma_stored_descriptors_were_decoded(head, i);
            let k = choose|k: int|
                0 <= k < head.len() && decode(#[trigger] head[k]) == Ok::<_, AvbIOError>(
                    Descriptor::Hash(so_far[i]),
                );
            assert(records[k] == head[k]);
            assert(after_callbacks(Seq::empty(), records)[i] == so_far[i]);
        } else {
            assert(decode(records[last]) == Ok::<_, AvbIOError>(
                Descriptor::Hash(after_callbacks(Seq::empty(), records)[i]),
            ));
        }
    }
}

/// A store that holds nothing has no descriptor for any partition.
pub proof fn lemma_empty_store_holds_nothing(partition_name: PartitionName)
    ensures
        !holds(Seq::<HashDescriptor>::empty(), partition_name),
{
}

/// An enumeration from an empty store comes to its end exactly if the records
/// are acceptable, and then the store holds what the records stand for, in
/// their order.
pub proof fn lemma_enumeration_builds_acceptable(records: Seq<RawDescriptor>)
    ensures
        enumerate(Seq::empty(), records) is Ok <==> acceptable(records),
        acceptable(records) ==> enumerate(Seq::empty(), records) == Ok::<_, AvbIOError>(
            hash_descriptors(records),
        ),
    decreases records.len(),
{
    if records.len() == 0 {
        assert(hash_descriptors(records) =~= Seq::<HashDescriptor>::empty());
    } else {
        let head = records.drop_last();
        lemma_enumeration_builds_acceptable(head);
        assert(head.push(records.last()) =~= records);
        if acceptable(head) {
            lemma_acceptable_step(head, records.last());
        } else if acceptable(records) {
            assert(head =~= records.take(records.len() - 1));
            lemma_acceptable_prefix(records, records.len() - 1);
        }
    }
}

} // verus!
