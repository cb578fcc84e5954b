//! Shared state: what all clones of a handle point to, and the reset
//! coordinator that works on it.

use std::sync::Arc;
use thread_local::ThreadLocal;
use vstd::prelude::*;
use crate::arena::capacity_in_range;
use crate::error::ResetError;
use crate::guard::ThreadGuard;
use crate::registry::{
    registry_iter_mut, registry_settled, registry_walked, threads_in_range, walk_next, walk_rest,
    walk_settles,
};
use crate::slot::{cleared_either_way, filled_with, left_as, BumpLocal, SlotState};

verus! {

/// The state behind a handle: the slot registry and the configuration that
/// every slot is filled with. The configuration never changes.
pub struct BumpInner {
    locals: ThreadLocal<BumpLocal>,
    capacity: usize,
    alloc_limit: Option<usize>,
}

/// Calls `ThreadLocal::get_or`: the calling thread's slot, created with the
/// state's configuration and the thread's token if the thread has none yet.
///
/// Which slot comes back depends on the calling thread and on what earlier
/// calls left in the registry, so nothing is promised of its state. Like
/// every use of thread-local data, the call cannot be made while the calling
/// thread is being torn down.
#[verifier::external_body]
fn registry_get_or<'a>(shared: &'a BumpInner, guard: &ThreadGuard) -> (slot: &'a BumpLocal) {
    shared.locals.get_or(|| shared.fresh_local(guard))
}

/// Calls `Arc::clone`, which makes another pointer to the same value. The
/// contract claims that what the clone points to is what the given pointer
/// points to.
#[verifier::external_body]
pub(crate) fn arc_share<T>(shared: &Arc<T>) -> (copy: Arc<T>)
    ensures
        copy == *shared,
{
    Arc::clone(shared)
}

/// Calls `Arc::get_mut`: exclusive access to the shared state, granted only
/// while no other handle points to it. With another handle alive the call
/// returns `None` and touches nothing; otherwise the state is what the
/// borrower leaves.
#[verifier::external_body]
pub(crate) fn sole_access<'a>(shared: &'a mut Arc<BumpInner>) -> (access: Option<&'a mut BumpInner>)
    ensures
        match access {
            Some(inner) => *inner == **old(shared) && **final(shared) == *final(inner),
            None => *final(shared) == *old(shared),
        },
{
    Arc::get_mut(shared)
}

/// True if `after` are the states that clearing makes of the states `before`,
/// slot by slot, each for one of the two values that its owner's liveness
/// token can read.
pub open spec fn all_cleared(before: Seq<Option<SlotState>>, after: Seq<Option<SlotState>>) -> bool {
    &&& after.len() == before.len()
    &&& forall|i: int|
        0 <= i < before.len() ==> cleared_either_way(#[trigger] before[i], after[i])
}

/// A reset moves every slot along one of the only two paths there are: a
/// slot found filled is left with the same arena, rewound, and the capacity,
/// limit and token it had, or it is left empty; a slot found empty is left
/// empty.
pub proof fn lemma_reset_rewinds_or_empties(
    before: Seq<Option<SlotState>>,
    after: Seq<Option<SlotState>>,
    i: int,
)
    requires
        all_cleared(before, after),
        0 <= i < before.len(),
    ensures
        after[i] is None || (before[i] is Some && after[i] == Some(before[i]->0.rewound())),
        before[i] is None ==> after[i] is None,
{
    assert(cleared_either_way(before[i], after[i]));
}

/// The reset coordinator: clears every slot it is given. Each slot whose
/// owner's token reads "alive" has its arena reset and kept; each slot whose
/// owner is dead is emptied; empty slots are skipped.
pub fn clear_all(slots: Vec<&mut BumpLocal>)
    ensures
        forall|i: int|
            0 <= i < slots@.len() ==> cleared_either_way(
                (*#[trigger] slots@[i])@,
                (*final(slots@[i])).left(),
            ),
{
    let mut rest = slots;
    loop
        invariant
            rest@.len() <= slots@.len(),
            forall|i: int| 0 <= i < rest@.len() ==> rest@[i] == slots@[i],
            forall|i: int|
                rest@.len() <= i < slots@.len() ==> cleared_either_way(
                    (*#[trigger] slots@[i])@,
                    (*final(slots@[i])).left(),
                ),
        ensures
            rest@.len() == 0,
        decreases rest@.len(),
    {
        match rest.pop() {
            Some(local) => local.clear(),
            None => {
                break ;
            },
        }
    }
}

impl BumpInner {
    #[verifier::type_invariant]
    spec fn well_formed(&self) -> bool {
        capacity_in_range(self.capacity)
    }

    /// The initial capacity of each thread's arena.
    pub closed spec fn capacity(&self) -> usize {
        self.capacity
    }

    /// The allocation limit of each thread's arena.
    pub closed spec fn allocation_limit(&self) -> Option<usize> {
        self.alloc_limit
    }

    /// The states of the slots that exclusive access to the shared state
    /// finds, in the order in which the registry hands them out: one for
    /// each thread that has touched a handle so far.
    pub closed spec fn slots_found(&self) -> Seq<Option<SlotState>> {
        registry_walked(self.locals)
    }

    /// The states in which the last exclusive access to the shared state left
    /// the slots, in the order in which the registry handed them out.
    pub closed spec fn slots_left(&self) -> Seq<Option<SlotState>> {
        registry_settled(self.locals)
    }

    /// Creates the shared state, with an empty registry sized for `threads`
    /// threads where a number is given.
    pub fn new(threads: Option<usize>, capacity: usize, alloc_limit: Option<usize>) -> (shared:
        Self)
        requires
            threads matches Some(n) ==> threads_in_range(n),
            capacity_in_range(capacity),
        ensures
            shared.capacity() == capacity,
            shared.allocation_limit() == alloc_limit,
    {
        BumpInner {
            locals: match threads {
                Some(cap) => ThreadLocal::with_capacity(cap),
                None => ThreadLocal::new(),
            },
            capacity,
            alloc_limit,
        }
    }

    /// A filled slot for the thread that owns `guard`: its arena is made
    /// with the state's capacity and limit, and paired with the guard's
    /// token.
    pub fn fresh_local(&self, guard: &ThreadGuard) -> (slot: BumpLocal)
        ensures
            filled_with(slot@, self.capacity(), self.allocation_limit(), guard.token()),
            left_as(slot, slot@),
    {
        proof {
            use_type_invariant(self);
        }
        BumpLocal::new(self.capacity, self.alloc_limit, guard.alive())
    }

    /// The calling thread's slot, filled: created on the thread's first
    /// touch, and filled again if a reset emptied it since.
    #[inline]
    pub fn local<'a>(&'a self, guard: &ThreadGuard) -> (slot: &'a BumpLocal)
        ensures
            slot@ is Some,
    {
        self.settled(registry_get_or(self, guard), guard)
    }

    /// Settles the slot that the registry found for the thread that owns
    /// `guard`, and hands it back filled. A slot that is found filled is left
    /// as it is: what a shared slot holds cannot be replaced. A slot that is
    /// found empty is filled as `reinit_local` fills it.
    pub fn settled<'a>(&self, found: &'a BumpLocal, guard: &ThreadGuard) -> (slot: &'a BumpLocal)
        ensures
            *slot == *found,
            slot@ is Some,
    {
        if found.needs_init() {
            let _ = self.reinit_local(found, guard);
        }
        found
    }

    /// Fills the emptied slot of the thread that owns `guard`, unless the
    /// slot turns out to be filled. The result tells whether the slot was
    /// filled by this call: its arena is then made with the state's capacity
    /// and limit, and paired with the guard's token.
    pub fn reinit_local(&self, bump: &BumpLocal, guard: &ThreadGuard) -> (refilled: bool)
        ensures
            bump@ is Some,
            refilled ==> filled_with(
                bump@,
                self.capacity(),
                self.allocation_limit(),
                guard.token(),
            ),
    {
        proof {
            use_type_invariant(self);
        }
        bump.refill(self.capacity, self.alloc_limit, guard.alive())
    }

    /// Every slot of the registry, in no specified order. The slots are those
    /// that the registry holds now that it is borrowed exclusively, and the
    /// registry is left with what the borrowers of the slots leave.
    pub fn slots<'a>(&'a mut self) -> (found: Vec<&'a mut BumpLocal>)
        ensures
            final(self).capacity() == old(self).capacity(),
            final(self).allocation_limit() == old(self).allocation_limit(),
            found@.len() == old(self).slots_found().len(),
            final(self).slots_left().len() == found@.len(),
            forall|i: int|
                0 <= i < found@.len() ==> {
                    &&& (*#[trigger] found@[i])@ == old(self).slots_found()[i]
                    &&& (*final(found@[i])).left() == final(self).slots_left()[i]
                },
    {
        proof {
            use_type_invariant(&*self);
        }
        let mut found: Vec<&'a mut BumpLocal> = Vec::new();
        let mut walk = registry_iter_mut(&mut self.locals);
        let ghost states = walk_rest(walk);
        let ghost settles = walk_settles(walk);
        loop
            invariant
                walk_settles(walk) == settles,
                settles.len() == states.len(),
                found@.len() + walk_rest(walk).len() == states.len(),
                walk_rest(walk) == states.skip(found@.len() as int),
                forall|i: int|
                    0 <= i < found@.len() ==> {
                        &&& (*#[trigger] found@[i])@ == states[i]
                        &&& (*final(found@[i])).left() == settles[i]
                    },
            ensures
                found@.len() == states.len(),
            decreases walk_rest(walk).len(),
        {
            match walk_next(&mut walk) {
                Some(local) => found.push(local),
                None => {
                    break ;
                },
            }
        }
        found
    }

    /// Clears every slot of the registry: each slot that exclusive access
    /// finds is left as clearing leaves it.
    #[inline]
    pub fn reset_all(&mut self)
        ensures
            final(self).capacity() == old(self).capacity(),
            final(self).allocation_limit() == old(self).allocation_limit(),
            all_cleared(old(self).slots_found(), final(self).slots_left()),
    {
        let ghost before = self.slots_found();
        let slots = self.slots();
        let ghost handed = slots@;
        clear_all(slots);
        proof {
            assert forall|i: int| 0 <= i < before.len() implies cleared_either_way(
                #[trigger] before[i],
                self.slots_left()[i],
            ) by {
                assert((*handed[i])@ == before[i]);
            }
        }
    }

    /// Hands out every slot if exclusive access to the shared state was
    /// granted, and refuses otherwise.
    pub fn slots_granted<'a>(access: Option<&'a mut BumpInner>) -> (found: Result<
        Vec<&'a mut BumpLocal>,
        ResetError,
    >)
        ensures
            found is Ok <==> access is Some,
            access matches Some(inner) ==> {
                &&& final(inner).capacity() == inner.capacity()
                &&& final(inner).allocation_limit() == inner.allocation_limit()
                &&& found->Ok_0@.len() == inner.slots_found().len()
                &&& final(inner).slots_left().len() == inner.slots_found().len()
                &&& forall|i: int|
                    0 <= i < found->Ok_0@.len() ==> {
                        &&& (*#[trigger] found->Ok_0@[i])@ == inner.slots_found()[i]
                        &&& (*final(found->Ok_0@[i])).left() == final(inner).slots_left()[i]
                    }
            },
    {
        match access {
            Some(inner) => Ok(inner.slots()),
            None => Err(ResetError),
        }
    }

    /// Resets all arenas if exclusive access to the shared state was granted,
    /// and refuses otherwise.
    pub fn reset_granted(access: Option<&mut BumpInner>) -> (done: Result<(), ResetError>)
        ensures
            done is Ok <==> access is Some,
            access matches Some(inner) ==> {
                &&& final(inner).capacity() == inner.capacity()
                &&& final(inner).allocation_limit() == inner.allocation_limit()
                &&& all_cleared(inner.slots_found(), final(inner).slots_left())
            },
    {
        match access {
            Some(inner) => {
                inner.reset_all();
                Ok(())
            },
            None => Err(ResetError),
        }
    }
}

} // verus!
