//! The handle and its builder.

use std::sync::Arc;
use vstd::prelude::*;
use crate::arena::capacity_in_range;
use crate::error::ResetError;
use crate::guard::ThreadGuard;
use crate::registry::threads_in_range;
use crate::shared::{all_cleared, arc_share, sole_access, BumpInner};
use crate::slot::{BumpLocal, SlotState};

verus! {

/// A thread-safe bump allocator that provides `Sync + Send` semantics.
///
/// Each thread gets its own `BumpLocal` instance. Clones of a handle share
/// one state.
pub struct Bump {
    inner: Arc<BumpInner>,
}

impl Bump {
    /// The initial capacity, in bytes, of each thread's arena.
    pub closed spec fn capacity(&self) -> usize {
        self.inner.capacity()
    }

    /// The allocation limit of each thread's arena.
    pub closed spec fn allocation_limit(&self) -> Option<usize> {
        self.inner.allocation_limit()
    }

    /// The states of the slots that the only handle left finds in the
    /// registry, in the order in which the registry hands them out: one for
    /// each thread that has touched a handle so far.
    pub closed spec fn slots_found(&self) -> Seq<Option<SlotState>> {
        self.inner.slots_found()
    }

    /// The states in which the last access by an only handle left the slots
    /// of the registry, in the order in which the registry handed them out.
    pub closed spec fn slots_left(&self) -> Seq<Option<SlotState>> {
        self.inner.slots_left()
    }

    /// Creates a new empty `Bump` allocator: no capacity reserved in advance,
    /// no allocation limit.
    pub fn new() -> (bump: Self)
        ensures
            bump.capacity() == 0,
            bump.allocation_limit() is None,
    {
        BumpBuilder::new().build()
    }

    /// Returns a builder for configuring a `Bump` allocator.
    pub fn builder() -> (builder: BumpBuilder)
        ensures
            builder@ == Config::initial(),
    {
        BumpBuilder::new()
    }

    /// Returns the allocator for the current thread, or creates it if it
    /// doesn't exist. `guard` is the current thread's guard: its token goes
    /// into the slot whenever the slot is filled.
    ///
    /// The slot that comes back is always filled. It is the one the registry
    /// keeps for the calling thread, settled as `BumpInner::settled` says: a
    /// slot that is found filled is handed out as it is, with the token it
    /// was filled with; one that a reset emptied is filled again.
    #[inline]
    pub fn local<'a>(&'a self, guard: &ThreadGuard) -> (slot: &'a BumpLocal)
        ensures
            slot@ is Some,
    {
        self.inner.local(guard)
    }

    /// Resets all threads' bump allocators, deallocating all previously
    /// allocated memory.
    ///
    /// At the moment of reset this must be the only handle to the shared
    /// state: with a clone alive the call fails and changes nothing. On
    /// success every slot found in the registry is left cleared: the arena
    /// of a live thread rewound, the slot of a dead thread empty. As with
    /// `bumpalo::Bump::reset`, no `Drop` implementation runs.
    #[inline]
    pub fn reset_all(&mut self) -> (done: Result<(), ResetError>)
        ensures
            final(self).capacity() == old(self).capacity(),
            final(self).allocation_limit() == old(self).allocation_limit(),
            done is Err ==> *final(self) == *old(self),
            done is Ok ==> all_cleared(old(self).slots_found(), final(self).slots_left()),
    {
        BumpInner::reset_granted(sole_access(&mut self.inner))
    }

    /// Hands out every slot of the registry, in no specified order, for
    /// inspection or for clearing one by one.
    ///
    /// Like a reset, this needs the only handle to the shared state: with a
    /// clone alive the call fails and changes nothing. On success the slots
    /// are those found in the registry, and the registry is left with what
    /// the borrowers of the slots leave.
    pub fn locals<'a>(&'a mut self) -> (found: Result<Vec<&'a mut BumpLocal>, ResetError>)
        ensures
            final(self).capacity() == old(self).capacity(),
            final(self).allocation_limit() == old(self).allocation_limit(),
            found is Err ==> *final(self) == *old(self),
            found is Ok ==> {
                &&& found->Ok_0@.len() == old(self).slots_found().len()
                &&& final(self).slots_left().len() == old(self).slots_found().len()
                &&& forall|i: int|
                    0 <= i < found->Ok_0@.len() ==> {
                        &&& (*#[trigger] found->Ok_0@[i])@ == old(self).slots_found()[i]
                        &&& (*final(found->Ok_0@[i])).left() == final(self).slots_left()[i]
                    }
            },
    {
        BumpInner::slots_granted(sole_access(&mut self.inner))
    }
}

impl Clone for Bump {
    /// Another handle to the same shared state.
    fn clone(&self) -> (copy: Self)
        ensures
            copy == *self,
    {
        Bump { inner: arc_share(&self.inner) }
    }
}

impl Default for Bump {
    fn default() -> (bump: Self)
        ensures
            bump.capacity() == 0,
            bump.allocation_limit() is None,
    {
        Bump::new()
    }
}

/// What a builder has been told so far.
pub struct Config {
    /// The number of threads to size the registry for, if any was given.
    pub threads_capacity: Option<usize>,
    /// The allocation limit of each thread's arena, if any was given.
    pub bump_allocation_limit: Option<usize>,
    /// The initial capacity, in bytes, of each thread's arena.
    pub bump_capacity: usize,
}

impl Config {
    /// The configuration a new builder starts from.
    pub open spec fn initial() -> Config {
        Config { threads_capacity: None, bump_allocation_limit: None, bump_capacity: 0 }
    }

    /// True if a handle can be built from the configuration: both capacities
    /// are sizes that an allocation can have.
    pub open spec fn buildable(self) -> bool {
        &&& capacity_in_range(self.bump_capacity)
        &&& self.threads_capacity matches Some(threads) ==> threads_in_range(threads)
    }
}

/// Builder for configuring a `Bump` allocator.
pub struct BumpBuilder {
    threads_capacity: Option<usize>,
    bump_alloc_limit: Option<usize>,
    bump_capacity: usize,
}

impl View for BumpBuilder {
    type V = Config;

    closed spec fn view(&self) -> Config {
        Config {
            threads_capacity: self.threads_capacity,
            bump_allocation_limit: self.bump_alloc_limit,
            bump_capacity: self.bump_capacity,
        }
    }
}

impl BumpBuilder {
    /// Creates a new `BumpBuilder` with default configuration.
    pub fn new() -> (builder: Self)
        ensures
            builder@ == Config::initial(),
    {
        BumpBuilder { threads_capacity: None, bump_alloc_limit: None, bump_capacity: 0 }
    }

    /// Sets the initial capacity hint for the number of threads that will
    /// access this allocator.
    pub fn threads_capacity(self, capacity: usize) -> (builder: Self)
        ensures
            builder@ == (Config { threads_capacity: Some(capacity), ..self@ }),
    {
        let mut builder = self;
        builder.threads_capacity = Some(capacity);
        builder
    }

    /// Sets the allocation limit for each per-thread bump allocator.
    ///
    /// Once the limit is reached, further allocations will fail.
    pub fn bump_allocation_limit(self, limit: usize) -> (builder: Self)
        ensures
            builder@ == (Config { bump_allocation_limit: Some(limit), ..self@ }),
    {
        let mut builder = self;
        builder.bump_alloc_limit = Some(limit);
        builder
    }

    /// Sets the initial capacity for each per-thread bump allocator.
    pub fn bump_capacity(self, capacity: usize) -> (builder: Self)
        ensures
            builder@ == (Config { bump_capacity: capacity, ..self@ }),
    {
        let mut builder = self;
        builder.bump_capacity = capacity;
        builder
    }

    /// Builds the `Bump` allocator with the configured parameters, if a
    /// handle can be built from them.
    pub fn try_build(self) -> (bump: Option<Bump>)
        ensures
            bump is Some <==> self@.buildable(),
            bump matches Some(built) ==> {
                &&& built.capacity() == self@.bump_capacity
                &&& built.allocation_limit() == self@.bump_allocation_limit
            },
    {
        let largest: usize = isize::MAX as usize;
        let threads_fit = match self.threads_capacity {
            Some(threads) => threads <= largest,
            None => true,
        };
        if threads_fit && self.bump_capacity <= largest {
            Some(self.build())
        } else {
            None
        }
    }

    /// Builds the `Bump` allocator with the configured parameters.
    pub fn build(self) -> (bump: Bump)
        requires
            self@.buildable(),
        ensures
            bump.capacity() == self@.bump_capacity,
            bump.allocation_limit() == self@.bump_allocation_limit,
    {
        Bump {
            inner: Arc::new(
                BumpInner::new(self.threads_capacity, self.bump_capacity, self.bump_alloc_limit),
            ),
        }
    }
}

impl Default for BumpBuilder {
    fn default() -> (builder: Self)
        ensures
            builder@ == Config::initial(),
    {
        BumpBuilder::new()
    }
}

} // verus!
