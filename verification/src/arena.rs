//! The arena engine behind every slot: `bumpalo::Bump`.
//!
//! An arena is opaque to the verifier. What a slot has to know of one is the
//! capacity it was made with, the allocation limit it enforces and what a
//! reset makes of it; how much of its memory is in use changes through shared
//! references and is not modelled.

use bumpalo::Bump as Arena;
use vstd::prelude::*;

verus! {

/// `bumpalo::Bump`: a bump allocation arena.
#[verifier::external_type_specification]
#[verifier::external_body]
pub struct ExArena<const MIN_ALIGN: usize>(Arena<MIN_ALIGN>);

/// The allocation limit an arena enforces: what `bumpalo::Bump::allocation_limit`
/// reports for it.
pub uninterp spec fn arena_limit(arena: Arena) -> Option<usize>;

/// The initial capacity an arena was made with: the argument that
/// `bumpalo::Bump::with_capacity` was given for it.
pub uninterp spec fn arena_capacity(arena: Arena) -> usize;

/// The arena that a reset makes of `arena`: the same arena, rewound to the
/// start of its current chunk, with the memory it had handed out free again.
pub uninterp spec fn arena_after_reset(arena: Arena) -> Arena;

/// The largest initial capacity an arena can be asked for: no single
/// allocation may exceed `isize::MAX` bytes.
pub open spec fn capacity_in_range(capacity: usize) -> bool {
    capacity <= isize::MAX
}

/// Calls `bumpalo::Bump::with_capacity`: a new arena with room reserved for
/// `capacity` bytes. The contract records the capacity and claims that a new
/// arena has no allocation limit, as the constructor sets that field to
/// `None`.
///
/// The call panics when the first chunk cannot be allocated. A capacity above
/// `isize::MAX` never can be and is excluded. Below that the call can still
/// panic: within about a page of `isize::MAX` the chunk's layout overflows,
/// and elsewhere the allocator decides. This contract, like those of std's
/// allocating calls, does not cover that.
#[verifier::external_body]
pub(crate) fn arena_with_capacity(capacity: usize) -> (arena: Arena)
    requires
        capacity_in_range(capacity),
    ensures
        arena_capacity(arena) == capacity,
        arena_limit(arena) is None,
{
    Arena::with_capacity(capacity)
}

/// Calls `bumpalo::Bump::set_allocation_limit`, which stores `limit` in the
/// arena and touches nothing else. The arena is taken and handed back by
/// value, so that the arena with the new limit is a value of its own.
#[verifier::external_body]
pub(crate) fn arena_limited(arena: Arena, limit: Option<usize>) -> (limited: Arena)
    ensures
        arena_limit(limited) == limit,
        arena_capacity(limited) == arena_capacity(arena),
{
    arena.set_allocation_limit(limit);
    arena
}

/// Calls `bumpalo::Bump::reset`, which rewinds the arena to the start of its
/// current chunk and frees the others, without running any destructor. The
/// contract names what the call leaves, and claims that the allocation limit
/// is left as it was, since `reset` does not touch it, and that the arena is
/// still the one that was made with its capacity.
#[verifier::external_body]
pub(crate) fn arena_reset(arena: &mut Arena)
    ensures
        *final(arena) == arena_after_reset(*old(arena)),
        arena_limit(*final(arena)) == arena_limit(*old(arena)),
        arena_capacity(*final(arena)) == arena_capacity(*old(arena)),
{
    arena.reset()
}

} // verus!
