//! Thread arena slots: the per-thread, per-handle holder of one arena.
//!
//! A slot is either empty or holds an arena together with the liveness token
//! of the thread that filled it.
//!
//! An empty slot can be filled through a shared reference, so two states
//! are told apart. The view of a slot is what it holds for whoever looks at
//! it: what it was left with, or, if it was left empty, what is written into
//! it while it is shared. `left` is what the slot held when it was made or
//! when its last exclusive borrower was done with it. A slot that was left
//! filled holds just that; of a slot that was left empty a look through a
//! shared reference tells only what it finds, never that nothing is there.

use bumpalo::Bump as Arena;
use std::cell::OnceCell;
use std::sync::atomic::AtomicBool;
use std::sync::Arc;
use vstd::prelude::*;
use crate::arena::{
    arena_after_reset, arena_capacity, arena_limit, arena_limited, arena_reset,
    arena_with_capacity, capacity_in_range,
};
use crate::guard::token_is_alive;

verus! {

/// `std::cell::OnceCell`: a cell that can be filled through a shared
/// reference while it is empty, and emptied only through an exclusive one.
#[verifier::external_type_specification]
#[verifier::external_body]
#[verifier::reject_recursive_types(T)]
pub struct ExOnceCell<T>(OnceCell<T>);

/// What a filled slot holds.
pub struct BumpLocalInner {
    inner: Arena,
    thread_alive: Arc<AtomicBool>,
}

/// What a cell held when it was made, or when the last exclusive borrow of
/// it ended.
pub uninterp spec fn cell_left(cell: OnceCell<BumpLocalInner>) -> Option<BumpLocalInner>;

/// What a cell holds for whoever looks at it: what `OnceCell::get` finds in
/// it, once it finds anything. A cell that was left filled holds what it was
/// left with; one that was left empty holds what `OnceCell::set` writes into
/// it while it is shared, and nothing if nothing is written.
pub uninterp spec fn cell_found(cell: OnceCell<BumpLocalInner>) -> Option<BumpLocalInner>;

/// Calls `OnceCell::from`, which makes a cell that already holds `content`.
#[verifier::external_body]
fn cell_filled(content: BumpLocalInner) -> (cell: OnceCell<BumpLocalInner>)
    ensures
        cell_left(cell) == Some(content),
        cell_found(cell) == Some(content),
{
    OnceCell::from(content)
}

/// Calls `OnceCell::get`, which borrows what the cell holds, if anything.
/// A cell that was left filled is found filled. Of a cell that is found
/// empty the contract says no more than that it was left empty: it may be
/// filled the next moment, through another shared reference.
#[verifier::external_body]
fn cell_get(cell: &OnceCell<BumpLocalInner>) -> (content: Option<&BumpLocalInner>)
    ensures
        content matches Some(held) ==> cell_found(*cell) == Some(*held),
        content is None ==> cell_left(*cell) is None,
{
    cell.get()
}

/// Calls `OnceCell::get` on a cell that is known to hold something, and
/// hands out what it holds. What a cell holds is known only after a look or
/// a write found it there, and it stays there while the cell is shared.
#[verifier::external_body]
fn cell_held(cell: &OnceCell<BumpLocalInner>) -> (held: &BumpLocalInner)
    requires
        cell_found(*cell) is Some,
    ensures
        cell_found(*cell) == Some(*held),
{
    cell.get().unwrap()
}

/// Calls `OnceCell::get_mut`, which borrows what the cell holds, if anything,
/// for writing. The borrow is exclusive, so what is found is exact, and what
/// the cell is left with is what the borrower leaves there.
#[verifier::external_body]
fn cell_get_mut(cell: &mut OnceCell<BumpLocalInner>) -> (content: Option<&mut BumpLocalInner>)
    ensures
        match cell_found(*old(cell)) {
            Some(held) => {
                &&& content is Some
                &&& *content->0 == held
                &&& cell_left(*final(cell)) == Some(*final(content->0))
                &&& cell_found(*final(cell)) == Some(*final(content->0))
            },
            None => content is None && cell_left(*final(cell)) is None,
        },
{
    cell.get_mut()
}

/// Calls `OnceCell::take`, which moves the content out and leaves the cell
/// empty.
#[verifier::external_body]
fn cell_take(cell: &mut OnceCell<BumpLocalInner>) -> (content: Option<BumpLocalInner>)
    ensures
        content == cell_found(*old(cell)),
        cell_left(*final(cell)) is None,
{
    cell.take()
}

/// Calls `OnceCell::set`, which writes `content` into the slot's cell if the
/// cell is empty and refuses if it is filled. The result tells which: after
/// a write the cell holds `content`, after a refusal it holds what it held.
#[verifier::external_body]
fn slot_set(slot: &BumpLocal, content: BumpLocalInner) -> (written: bool)
    ensures
        written ==> cell_found(slot.inner) == Some(content),
        !written ==> cell_found(slot.inner) is Some,
{
    slot.inner.set(content).is_ok()
}

/// The state of a filled slot.
pub struct SlotState {
    /// The slot's arena.
    pub arena: Arena,
    /// The initial capacity, in bytes, the arena was made with.
    pub capacity: usize,
    /// The allocation limit the arena enforces.
    pub limit: Option<usize>,
    /// The liveness token of the thread that filled the slot.
    pub thread_alive: Arc<AtomicBool>,
}

impl SlotState {
    /// The state after a reset of the arena: the same arena, rewound, with
    /// the capacity, the limit and the token it had.
    pub open spec fn rewound(self) -> SlotState {
        SlotState { arena: arena_after_reset(self.arena), ..self }
    }
}

/// True of the state of a slot that holds an arena made with `capacity`,
/// which enforces `limit`, and the token `thread_alive`. Which arena it is
/// the predicate leaves open.
pub open spec fn filled_with(
    state: Option<SlotState>,
    capacity: usize,
    limit: Option<usize>,
    thread_alive: Arc<AtomicBool>,
) -> bool {
    &&& state is Some
    &&& state->0.capacity == capacity
    &&& state->0.limit == limit
    &&& state->0.thread_alive == thread_alive
}

/// What clearing makes of a slot, given what its owner's liveness token read:
/// a live owner keeps its arena, rewound; a dead owner's slot is emptied; an
/// empty slot stays empty either way.
pub open spec fn cleared(state: Option<SlotState>, alive: bool) -> Option<SlotState> {
    match state {
        Some(filled) => if alive {
            Some(filled.rewound())
        } else {
            None
        },
        None => None,
    }
}

/// True if `after` is what clearing makes of a slot in state `before`, for
/// one of the two values its owner's liveness token can read.
pub open spec fn cleared_either_way(before: Option<SlotState>, after: Option<SlotState>) -> bool {
    after == cleared(before, true) || after == cleared(before, false)
}

/// The state that stands for what a cell holds.
pub closed spec fn state_of(content: Option<BumpLocalInner>) -> Option<SlotState> {
    match content {
        Some(held) => Some(
            SlotState {
                arena: held.inner,
                capacity: arena_capacity(held.inner),
                limit: arena_limit(held.inner),
                thread_alive: held.thread_alive,
            },
        ),
        None => None,
    }
}

/// Per-thread wrapper around a `bumpalo::Bump` allocator.
pub struct BumpLocal {
    inner: OnceCell<BumpLocalInner>,
}

impl View for BumpLocal {
    type V = Option<SlotState>;

    /// What the slot holds for whoever looks at it.
    closed spec fn view(&self) -> Option<SlotState> {
        state_of(cell_found(self.inner))
    }
}

/// True if the slot was left in `state` when it was made or when its last
/// exclusive borrower was done with it. A slot left filled holds what it was
/// left with; a slot left empty may be filled while it is shared.
pub open spec fn left_as(slot: BumpLocal, state: Option<SlotState>) -> bool {
    &&& slot.left() == state
    &&& state is Some ==> slot@ == state
}

impl BumpLocalInner {
    /// A fresh arena with the given capacity and limit, paired with a token.
    fn new(capacity: usize, limit: Option<usize>, thread_alive: Arc<AtomicBool>) -> (held: Self)
        requires
            capacity_in_range(capacity),
        ensures
            arena_capacity(held.inner) == capacity,
            arena_limit(held.inner) == limit,
            held.thread_alive == thread_alive,
    {
        let bump = arena_with_capacity(capacity);
        BumpLocalInner { inner: arena_limited(bump, limit), thread_alive }
    }
}

impl BumpLocal {
    /// What the slot held when it was made, or when its last exclusive
    /// borrower was done with it.
    pub closed spec fn left(&self) -> Option<SlotState> {
        state_of(cell_left(self.inner))
    }

    /// Creates a filled slot: an arena made with room for `capacity` bytes
    /// and the given allocation limit, paired with the creating thread's
    /// token. Which arena it is the contract leaves open.
    pub fn new(capacity: usize, limit: Option<usize>, thread_alive: Arc<AtomicBool>) -> (slot: Self)
        requires
            capacity_in_range(capacity),
        ensures
            filled_with(slot@, capacity, limit, thread_alive),
            left_as(slot, slot@),
    {
        BumpLocal { inner: cell_filled(BumpLocalInner::new(capacity, limit, thread_alive)) }
    }

    /// True if the slot is found to hold no arena: it was never filled, or it
    /// was emptied after its owner died. A slot that is found to hold one
    /// holds it for as long as it is shared. One that is found empty was
    /// left empty, and may be filled the next moment: no more is said of it.
    #[inline]
    pub fn needs_init(&self) -> (empty: bool)
        ensures
            !empty ==> self@ is Some,
            empty ==> self.left() is None,
    {
        cell_get(&self.inner).is_none()
    }

    /// Fills the slot with an arena made with `capacity` and `limit`, paired
    /// with `thread_alive`. Which arena it is the contract leaves open.
    pub fn init(&mut self, capacity: usize, limit: Option<usize>, thread_alive: Arc<AtomicBool>)
        requires
            capacity_in_range(capacity),
        ensures
            filled_with(final(self)@, capacity, limit, thread_alive),
            left_as(*final(self), final(self)@),
    {
        self.inner = cell_filled(BumpLocalInner::new(capacity, limit, thread_alive));
    }

    /// Fills the slot through a shared reference if it is empty, as a thread
    /// does with its own slot on its first touch after an eviction, and
    /// leaves it as it is if it is filled. Either way the slot is filled
    /// afterwards. The result tells whether the slot was empty and has been
    /// filled by this call: it then holds an arena made with `capacity` and
    /// `limit`, paired with `thread_alive`.
    pub fn refill(&self, capacity: usize, limit: Option<usize>, thread_alive: Arc<AtomicBool>) -> (refilled:
        bool)
        requires
            capacity_in_range(capacity),
        ensures
            self@ is Some,
            refilled ==> filled_with(self@, capacity, limit, thread_alive),
    {
        slot_set(self, BumpLocalInner::new(capacity, limit, thread_alive))
    }

    /// Returns a reference to the underlying `bumpalo::Bump` allocator.
    ///
    /// The returned reference provides access to all `bumpalo::Bump`
    /// allocation methods. The slot must be filled.
    #[inline]
    pub fn as_inner(&self) -> (arena: &Arena)
        requires
            self@ is Some,
        ensures
            *arena == self@->0.arena,
            arena_capacity(*arena) == self@->0.capacity,
            arena_limit(*arena) == self@->0.limit,
    {
        &cell_held(&self.inner).inner
    }

    /// Resets the slot's arena in place. The slot stays filled, with the same
    /// limit and token; no destructor of a value allocated in the arena runs.
    #[inline]
    pub fn reset(&mut self)
        requires
            old(self)@ is Some,
        ensures
            left_as(*final(self), Some(old(self)@->0.rewound())),
    {
        match cell_get_mut(&mut self.inner) {
            Some(held) => arena_reset(&mut held.inner),
            None => {},
        }
    }

    /// Clears the slot for a reset of all arenas, given what the owner's
    /// liveness token read: the arena of a live owner is reset and kept, that
    /// of a dead owner is dropped and the slot left empty.
    pub fn clear_with(&mut self, alive: bool)
        ensures
            left_as(*final(self), cleared(old(self)@, alive)),
    {
        if alive {
            match cell_get_mut(&mut self.inner) {
                Some(held) => arena_reset(&mut held.inner),
                None => {},
            }
        } else {
            let _ = cell_take(&mut self.inner);
        }
    }

    /// Clears the slot for a reset of all arenas: reads the owner's liveness
    /// token, if the slot is filled, and clears the slot accordingly.
    ///
    /// What the token reads is the owner thread's doing, so the contract
    /// states what holds for either reading.
    pub fn clear(&mut self)
        ensures
            cleared_either_way(old(self)@, final(self).left()),
            final(self).left() is Some ==> final(self)@ == final(self).left(),
    {
        let alive = match cell_get_mut(&mut self.inner) {
            Some(held) => token_is_alive(&held.thread_alive),
            None => {
                return ;
            },
        };
        self.clear_with(alive);
    }
}

/// Clearing never empties the slot of a live owner: a filled slot whose
/// token read "alive" is still filled, with the same arena, rewound, and the
/// same capacity, limit and token.
pub proof fn lemma_live_slot_stays_filled(state: Option<SlotState>)
    requires
        state is Some,
    ensures
        cleared(state, true) is Some,
        cleared(state, true)->0.arena == arena_after_reset(state->0.arena),
        cleared(state, true)->0.capacity == state->0.capacity,
        cleared(state, true)->0.limit == state->0.limit,
        cleared(state, true)->0.thread_alive == state->0.thread_alive,
{
}

/// Clearing evicts the slot of a dead owner, whatever it held.
pub proof fn lemma_dead_slot_is_evicted(state: Option<SlotState>)
    ensures
        cleared(state, false) is None,
{
}

/// Clearing an empty slot leaves it empty: a slot that was never filled is
/// skipped.
pub proof fn lemma_empty_slot_stays_empty(alive: bool)
    ensures
        cleared(None, alive) is None,
{
}

/// Clearing moves a slot along the only two paths there are: a filled slot
/// stays filled, its arena rewound, or it ends up empty. An empty slot can
/// only stay empty: nothing but filling makes a slot filled.
pub proof fn lemma_cleared_slot_is_rewound_or_empty(
    before: Option<SlotState>,
    after: Option<SlotState>,
)
    requires
        cleared_either_way(before, after),
    ensures
        after is None || (before is Some && after == Some(before->0.rewound())),
        before is None ==> after is None,
{
}

} // verus!
