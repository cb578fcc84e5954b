//! A shareable bump allocator handle: every thread that touches a handle
//! allocates from an arena of its own, and a coordinator that holds the only
//! remaining handle can reset all of them at once.
//!
//! - [`Bump`] is the handle. Its clones share one state, [`BumpInner`]: a
//!   registry with one slot per thread, and the configuration every slot is
//!   filled with.
//! - [`BumpLocal`] is a slot: empty, or an arena together with the liveness
//!   token of the thread that filled it.
//! - [`ThreadGuard`] owns a thread's liveness token and marks it dead when it
//!   is dropped.
//! - [`clear_all`] is the reset coordinator: it resets the arenas of live
//!   threads and evicts those of dead ones.
//!
//! # What the contracts speak of
//!
//! A slot has two states, each an `Option<SlotState>`, because an empty
//! slot can be filled through a shared reference. Its view is what it holds
//! for whoever looks at it; `left` is what it held when it was made or when
//! its last exclusive borrower was done with it. Every operation with
//! exclusive access says exactly what it finds and what it leaves; an
//! operation on a shared slot speaks only of what it finds there, which
//! stays there while the slot is shared. The coordinator's contract says of
//! every slot it is given what it found and what it left.
//!
//! A reset says how it leaves every slot that it finds. The registry grows
//! through shared references too, so a handle has two sequences of slot
//! states: those that exclusive access finds, and those that the last
//! exclusive access left. What threads add in between is not told.
//!
//! Three things are decided outside the verified code, and the contracts
//! state what holds whichever way they go: which slot the registry finds for
//! the calling thread, whether a handle is the only one left, and what a
//! liveness token reads. The arenas' fill levels and the tokens' values
//! change through shared references; they are not part of any view.

pub mod arena;
pub mod bump;
pub mod error;
pub mod guard;
pub mod registry;
pub mod shared;
pub mod slot;

pub use bump::{Bump, BumpBuilder, Config};
pub use error::ResetError;
pub use guard::ThreadGuard;
pub use shared::{clear_all, BumpInner};
pub use slot::{cleared, cleared_either_way, filled_with, left_as, BumpLocal, SlotState};
