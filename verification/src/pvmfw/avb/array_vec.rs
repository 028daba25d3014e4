//! The fixed-capacity vector that backs the descriptor store.

use vstd::prelude::*;
use tinyvec::ArrayVec;
use crate::pvmfw::avb::descriptor::HashDescriptor;

verus! {

/// `tinyvec::ArrayVec`: a vector that lives in an array and never grows
/// beyond it. Nothing of its inside is known to the proofs.
#[verifier::external_type_specification]
#[verifier::external_body]
#[verifier::reject_recursive_types(A)]
pub struct ExArrayVec<A>(ArrayVec<A>);

/// The descriptors that a backing vector holds, in the order in which they were pushed.
pub uninterp spec fn held(v: ArrayVec<[HashDescriptor; 3]>) -> Seq<HashDescriptor>;

/// `ArrayVec::default`: a vector of length zero over a default-filled array.
/// Trusted: the new vector holds nothing.
#[verifier::external_body]
pub(crate) fn empty_vec() -> (v: ArrayVec<[HashDescriptor; 3]>)
    ensures
        held(v) == Seq::<HashDescriptor>::empty(),
{
    ArrayVec::default()
}

/// `ArrayVec::len`: the number of items in use.
/// Trusted: it is the length of what the vector holds.
#[verifier::external_body]
pub(crate) fn vec_len(v: &ArrayVec<[HashDescriptor; 3]>) -> (n: usize)
    ensures
        n == held(*v).len(),
{
    v.len()
}

/// `ArrayVec::as_slice`: the items in use as a slice, which is what iterating
/// over the vector walks.
/// Trusted: the slice is what the vector holds, in order.
#[verifier::external_body]
pub(crate) fn vec_as_slice(v: &ArrayVec<[HashDescriptor; 3]>) -> (items: &[HashDescriptor])
    ensures
        items@ == held(*v),
{
    v.as_slice()
}

/// `ArrayVec::push`: places an item behind the last one, and panics when the
/// array has no slot left.
/// Trusted: with fewer than three items held, the call does not panic, the
/// item is added at the end and the others stay as they were.
#[verifier::external_body]
pub(crate) fn vec_push(v: &mut ArrayVec<[HashDescriptor; 3]>, item: HashDescriptor)
    requires
        held(*old(v)).len() < 3,
    ensures
        held(*final(v)) == held(*old(v)).push(item),
    no_unwind
{
    v.push(item)
}

} // verus!
