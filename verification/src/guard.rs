//! Liveness tokens: one atomic flag per thread, flipped to "dead" when the
//! thread's guard is dropped.

use std::sync::atomic::AtomicBool;
use std::sync::atomic::Ordering;
use std::sync::Arc;
use vstd::prelude::*;
use crate::shared::arc_share;

verus! {

/// What a liveness token was made to read: the value that `AtomicBool::new`
/// was given for it. What the token reads later is not a function of it: a
/// token is written when its thread's guard is dropped.
pub uninterp spec fn token_made_with(token: AtomicBool) -> bool;

/// Calls `AtomicBool::new`, which makes a flag that reads `alive`.
#[verifier::external_body]
pub(crate) fn token_new(alive: bool) -> (token: AtomicBool)
    ensures
        token_made_with(token) == alive,
{
    AtomicBool::new(alive)
}

/// Calls `AtomicBool::store` with release ordering, so that whoever reads
/// the value with acquire ordering also sees what the writing thread wrote
/// before. The contract claims that the call does not unwind: `store` panics
/// only for the acquire orderings.
#[verifier::external_body]
pub(crate) fn token_store(token: &Arc<AtomicBool>, alive: bool)
    opens_invariants none
    no_unwind
{
    token.store(alive, Ordering::Release)
}

/// Reads a liveness token with acquire ordering, so that a reader who sees
/// "dead" also sees everything the thread wrote before it ended.
///
/// The flag belongs to another thread's lifetime: nothing is promised of the
/// value read.
pub(crate) fn token_is_alive(token: &Arc<AtomicBool>) -> bool {
    token.load(Ordering::Acquire)
}

/// Owns a thread's end of its liveness token. The token reads "alive" from
/// the guard's creation and "dead" once the guard has been dropped; a thread
/// keeps its guard in thread-local storage, so that the drop happens when the
/// thread ends.
pub struct ThreadGuard {
    alive: Arc<AtomicBool>,
}

impl ThreadGuard {
    /// The token this guard controls.
    pub closed spec fn token(&self) -> Arc<AtomicBool> {
        self.alive
    }

    /// Creates a guard with a fresh token that is made to read "alive".
    pub fn new() -> (guard: Self)
        ensures
            token_made_with(*guard.token()),
    {
        ThreadGuard { alive: Arc::new(token_new(true)) }
    }

    /// Hands out the guard's token, for slots to hold.
    pub fn alive(&self) -> (shared: Arc<AtomicBool>)
        ensures
            shared == self.token(),
    {
        arc_share(&self.alive)
    }
}

impl Drop for ThreadGuard {
    fn drop(&mut self)
        opens_invariants none
        no_unwind
    {
        token_store(&self.alive, false);
    }
}

} // verus!
