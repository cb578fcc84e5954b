//! The slot registry: `thread_local::ThreadLocal`, which keeps one slot per
//! thread that touched it.
//!
//! The registry grows through shared references, whenever a new thread looks
//! up its slot. So two things are told apart here: what an exclusive walk
//! over the registry finds, and what such a walk leaves behind. Between two
//! walks threads may add slots and fill empty ones, and nothing is said of
//! how what the second walk finds relates to what the first one left.

use thread_local::IterMut;
use thread_local::ThreadLocal;
use vstd::prelude::*;
use crate::slot::{BumpLocal, SlotState};

verus! {

/// `thread_local::ThreadLocal`: one value per thread, found by the calling
/// thread's identity.
#[verifier::external_type_specification]
#[verifier::external_body]
#[verifier::reject_recursive_types(T)]
pub struct ExThreadLocal<T: Send>(ThreadLocal<T>);

/// `thread_local::IterMut`: a walk over the values of all threads, which
/// borrows the registry exclusively.
#[verifier::external_type_specification]
#[verifier::external_body]
#[verifier::reject_recursive_types(T)]
pub struct ExIterMut<'a, T: Send>(IterMut<'a, T>);

/// The states of the slots that a walk over the registry hands out, in the
/// order of the walk: what `ThreadLocal::iter_mut` finds, once the registry
/// is borrowed exclusively and no thread can add to it any more.
pub uninterp spec fn registry_walked(registry: ThreadLocal<BumpLocal>) -> Seq<Option<SlotState>>;

/// The states in which the last walk over the registry left its slots, in
/// the order of that walk. A slot that was left empty may be filled while
/// the registry is shared.
pub uninterp spec fn registry_settled(registry: ThreadLocal<BumpLocal>) -> Seq<Option<SlotState>>;

/// The states of the slots that a walk has yet to hand out, in the order in
/// which `IterMut::next` will hand them out.
pub uninterp spec fn walk_rest(walk: IterMut<BumpLocal>) -> Seq<Option<SlotState>>;

/// The states in which a walk leaves the slots of its registry, those
/// already handed out and those yet to come, in the order of the walk.
pub uninterp spec fn walk_settles(walk: IterMut<BumpLocal>) -> Seq<Option<SlotState>>;

/// The largest number of threads a registry can be sized for in advance:
/// `ThreadLocal::with_capacity` indexes out of bounds above it.
pub open spec fn threads_in_range(threads: usize) -> bool {
    threads <= isize::MAX
}

/// The place in its walk of the slot that a walk hands out next: the number
/// of slots it has handed out so far.
pub open spec fn walk_place(walk: IterMut<BumpLocal>) -> int {
    walk_settles(walk).len() - walk_rest(walk).len()
}

/// `ThreadLocal::new` makes an empty registry and allocates nothing.
pub assume_specification<T: Send>[ ThreadLocal::<T>::new ]() -> ThreadLocal<T>;

/// `ThreadLocal::with_capacity` makes an empty registry with buckets
/// allocated for `capacity` threads. It panics on a capacity above
/// `isize::MAX`, which is excluded; whether the buckets of a smaller one can
/// be allocated is the allocator's to decide.
pub assume_specification<T: Send>[ ThreadLocal::<T>::with_capacity ](
    capacity: usize,
) -> ThreadLocal<T>
    requires
        threads_in_range(capacity),
;

/// Calls `ThreadLocal::iter_mut`, which starts a walk over the slots of all
/// threads, in no specified order. The walk has every slot of the registry
/// yet to hand out, and the registry is left as the walk leaves it. The
/// contract also claims that the call cannot unwind: it only builds the
/// iterator.
#[verifier::external_body]
pub(crate) fn registry_iter_mut<'a>(registry: &'a mut ThreadLocal<BumpLocal>) -> (walk: IterMut<
    'a,
    BumpLocal,
>)
    ensures
        walk_rest(walk) == registry_walked(*old(registry)),
        walk_settles(walk) == registry_settled(*final(registry)),
        walk_settles(walk).len() == walk_rest(walk).len(),
    no_unwind
{
    registry.iter_mut()
}

/// Calls `IterMut::next`, which hands out the next slot of the walk, if one
/// is left. The slot handed out is the first of those that were yet to come;
/// its place in what the walk leaves is its place in the walk, and what is
/// left there is what the borrower of the slot leaves.
#[verifier::external_body]
pub(crate) fn walk_next<'a>(walk: &mut IterMut<'a, BumpLocal>) -> (slot: Option<&'a mut BumpLocal>)
    ensures
        walk_settles(*final(walk)) == walk_settles(*old(walk)),
        match slot {
            Some(local) => {
                &&& walk_rest(*old(walk)).len() > 0
                &&& local@ == walk_rest(*old(walk))[0]
                &&& walk_rest(*final(walk)) == walk_rest(*old(walk)).drop_first()
                &&& walk_settles(*old(walk))[walk_place(*old(walk))] == (*final(local)).left()
            },
            None => walk_rest(*old(walk)).len() == 0 && walk_rest(*final(walk)).len() == 0,
        },
{
    walk.next()
}

} // verus!
