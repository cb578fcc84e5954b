use std::alloc::Layout;

use bump_local::{Bump, BumpBuilder, ResetError, ThreadGuard};

#[test]
fn reset_all_restores_capacity_for_each_owner() {
    let mut bump = Bump::builder().bump_capacity(100).build();

    let layouts = [
        Layout::new::<i8>(),
        Layout::new::<i16>(),
        Layout::new::<i32>(),
    ];

    for layout in layouts {
        let guard = ThreadGuard::new();
        let worker = bump.clone();

        let initial_capacity = worker.local(&guard).as_inner().chunk_capacity();

        let _ = worker.local(&guard).as_inner().alloc_layout(layout);
        let capacity_after_alloc = worker.local(&guard).as_inner().chunk_capacity();

        assert!(
            capacity_after_alloc < initial_capacity,
            "first={}, second={}",
            initial_capacity,
            capacity_after_alloc
        );

        drop(worker);

        bump.reset_all().unwrap();

        let capacity_after_reset = bump.local(&guard).as_inner().chunk_capacity();
        assert_eq!(capacity_after_reset, initial_capacity);
    }
}

#[test]
fn local_reuse_on_one_thread() {
    let bump = Bump::builder().bump_capacity(100).build();

    let layouts = [
        Layout::new::<i8>(),
        Layout::new::<i16>(),
        Layout::new::<i32>(),
    ];

    let guard = ThreadGuard::new();
    let mut expected = bump.local(&guard).as_inner().chunk_capacity();
    for layout in layouts {
        let worker = bump.clone();
        let initial_capacity = worker.local(&guard).as_inner().chunk_capacity();
        assert_eq!(initial_capacity, expected);
        let _ = worker.local(&guard).as_inner().alloc_layout(layout);
        drop(worker);

        let next = bump.clone();
        let capacity_after_alloc = next.local(&guard).as_inner().chunk_capacity();
        assert!(capacity_after_alloc <= initial_capacity - layout.size());
        assert!(capacity_after_alloc > initial_capacity - layout.size() - layout.align());
        expected = capacity_after_alloc;
    }
}

#[test]
fn local_reuse_of_one_allocation() {
    let bump = Bump::builder().bump_capacity(100).build();
    let guard = ThreadGuard::new();

    let layout = Layout::new::<i32>();
    let worker = bump.clone();
    let initial_capacity = worker.local(&guard).as_inner().chunk_capacity();
    let _ = worker.local(&guard).as_inner().alloc_layout(layout);
    drop(worker);

    let capacity_after_alloc = bump.local(&guard).as_inner().chunk_capacity();
    assert_eq!(capacity_after_alloc, initial_capacity - layout.size());
}

#[test]
fn local_returns_the_same_slot() {
    let bump = Bump::new();
    let guard = ThreadGuard::new();

    let first = bump.local(&guard);
    let second = bump.local(&guard);
    assert!(std::ptr::eq(first, second));

    let clone = bump.clone();
    assert!(std::ptr::eq(first, clone.local(&guard)));

    // Another handle has a registry, and so a slot, of its own.
    let other = Bump::new();
    assert!(!std::ptr::eq(first, other.local(&guard)));
}

#[test]
fn local_is_filled_on_first_touch() {
    let bump = Bump::builder().bump_capacity(100).build();
    let guard = ThreadGuard::new();
    let slot = bump.local(&guard);
    assert!(!slot.needs_init());
    assert!(slot.as_inner().chunk_capacity() >= 100);
}

#[test]
fn new_handle_has_no_capacity_and_no_limit() {
    let guard = ThreadGuard::new();

    let bump = Bump::new();
    assert_eq!(bump.local(&guard).as_inner().chunk_capacity(), 0);
    assert_eq!(bump.local(&guard).as_inner().allocation_limit(), None);

    let bump = Bump::default();
    assert_eq!(bump.local(&guard).as_inner().chunk_capacity(), 0);
    assert_eq!(bump.local(&guard).as_inner().allocation_limit(), None);

    let bump = BumpBuilder::default().build();
    assert_eq!(bump.local(&guard).as_inner().chunk_capacity(), 0);
    assert_eq!(bump.local(&guard).as_inner().allocation_limit(), None);
}

#[test]
fn builder_options_reach_the_arena() {
    let guard = ThreadGuard::new();

    let bump = Bump::builder()
        .threads_capacity(8)
        .bump_capacity(4096)
        .build();
    assert!(bump.local(&guard).as_inner().chunk_capacity() >= 4096);
    assert_eq!(bump.local(&guard).as_inner().allocation_limit(), None);

    let bump = BumpBuilder::new()
        .bump_allocation_limit(1 << 14)
        .bump_capacity(64)
        .threads_capacity(0)
        .build();
    assert!(bump.local(&guard).as_inner().chunk_capacity() >= 64);
    assert_eq!(bump.local(&guard).as_inner().allocation_limit(), Some(1 << 14));
}

#[test]
fn builder_keeps_the_last_value_of_an_option() {
    let guard = ThreadGuard::new();
    let bump = Bump::builder()
        .bump_allocation_limit(1)
        .bump_allocation_limit(1 << 15)
        .bump_capacity(1 << 13)
        .bump_capacity(32)
        .build();
    let arena = bump.local(&guard).as_inner();
    assert_eq!(arena.allocation_limit(), Some(1 << 15));
    assert!(arena.chunk_capacity() < 1 << 13);
}

#[test]
fn allocation_limit_fails_the_allocation() {
    let guard = ThreadGuard::new();
    let bump = Bump::builder().bump_allocation_limit(0).build();
    assert!(bump.local(&guard).as_inner().try_alloc(5_u64).is_err());
}

#[test]
fn reset_all_fails_while_a_clone_is_alive() {
    let mut bump = Bump::builder().bump_capacity(100).build();
    let guard = ThreadGuard::new();

    let clone = bump.clone();
    let initial = clone.local(&guard).as_inner().chunk_capacity();
    let _ = clone.local(&guard).as_inner().alloc(1_u64);
    let used = clone.local(&guard).as_inner().chunk_capacity();
    assert!(used < initial);

    assert_eq!(bump.reset_all(), Err(ResetError));
    // Nothing was reset.
    assert_eq!(bump.local(&guard).as_inner().chunk_capacity(), used);

    let second = bump.clone();
    drop(clone);
    assert!(bump.reset_all().is_err());

    drop(second);
    assert_eq!(bump.reset_all(), Ok(()));
    assert_eq!(bump.local(&guard).as_inner().chunk_capacity(), initial);
}

#[test]
fn reset_all_on_an_untouched_handle_succeeds() {
    let mut bump = Bump::new();
    assert!(bump.reset_all().is_ok());
    assert!(bump.reset_all().is_ok());
}

#[test]
fn reset_resets_alive_owner() {
    let mut bump = Bump::builder().bump_capacity(100).build();
    let guard = ThreadGuard::new();

    let capacity_before = {
        let bump = bump.clone();
        let _ = bump.local(&guard).as_inner().alloc(1_u8);
        bump.local(&guard).as_inner().chunk_capacity()
    };

    // reset while the owner is still alive
    bump.reset_all().unwrap();

    // check if bump was reset, not dropped
    let locals = bump.locals().unwrap();
    assert_eq!(locals.len(), 1);
    let local = locals.first().unwrap();
    assert!(!local.needs_init());
    assert!(local.as_inner().chunk_capacity() > capacity_before);
}

#[test]
fn reset_keeps_the_arena_of_an_alive_thread() {
    let mut bump = Bump::builder().bump_capacity(100).build();
    let guard = ThreadGuard::new();

    let initial = bump.local(&guard).as_inner().chunk_capacity();
    let _ = bump.local(&guard).as_inner().alloc([0_u8; 10_000]);
    let grown = bump.local(&guard).as_inner().chunk_capacity() + 10_000;
    assert!(grown > initial);

    bump.reset_all().unwrap();

    // The same arena, rewound: it still has the chunk it grew into.
    assert_eq!(bump.local(&guard).as_inner().chunk_capacity(), grown);
}

#[test]
fn reset_drops_dead_owner_bump() {
    let mut bump = Bump::builder().bump_capacity(100).build();

    let initial = {
        let guard = ThreadGuard::new();
        let bump = bump.clone();
        let initial = bump.local(&guard).as_inner().chunk_capacity();
        let _ = bump.local(&guard).as_inner().alloc([0_u8; 10_000]);
        assert!(bump.local(&guard).as_inner().chunk_capacity() + 10_000 > initial);
        initial
    };

    // reset_all should detect the dead owner and drop its bump
    bump.reset_all().unwrap();

    {
        let locals = bump.locals().unwrap();
        assert_eq!(locals.len(), 1);
        assert!(locals.first().unwrap().needs_init());
    }

    // The next owner of the slot finds a fresh arena, not the grown one.
    let guard = ThreadGuard::new();
    let local = bump.local(&guard);
    assert!(!local.needs_init());
    assert_eq!(local.as_inner().chunk_capacity(), initial);
}

#[test]
fn refilled_slot_follows_its_new_owner() {
    let mut bump = Bump::builder().bump_capacity(100).build();

    let first = ThreadGuard::new();
    let _ = bump.local(&first).as_inner().alloc(1_u8);
    drop(first);
    bump.reset_all().unwrap();

    let second = ThreadGuard::new();
    let initial = bump.local(&second).as_inner().chunk_capacity();
    let _ = bump.local(&second).as_inner().alloc([0_u8; 10_000]);
    let grown = bump.local(&second).as_inner().chunk_capacity() + 10_000;
    assert!(grown > initial);

    // The new owner is alive: its arena is rewound and kept.
    bump.reset_all().unwrap();
    assert_eq!(bump.local(&second).as_inner().chunk_capacity(), grown);

    // Once it is dead too, the slot is emptied again.
    drop(second);
    bump.reset_all().unwrap();
    let third = ThreadGuard::new();
    assert_eq!(bump.local(&third).as_inner().chunk_capacity(), initial);
}

#[test]
fn filled_slot_keeps_the_token_it_was_filled_with() {
    let mut bump = Bump::builder().bump_capacity(100).build();

    let owner = ThreadGuard::new();
    let initial = bump.local(&owner).as_inner().chunk_capacity();
    let _ = bump.local(&owner).as_inner().alloc([0_u8; 10_000]);

    // A later call with another guard finds the slot filled and leaves it.
    let visitor = ThreadGuard::new();
    let _ = bump.local(&visitor);
    drop(visitor);

    bump.reset_all().unwrap();
    assert!(bump.local(&owner).as_inner().chunk_capacity() > initial);
}

#[test]
fn locals_needs_the_only_handle() {
    let mut bump = Bump::new();
    let guard = ThreadGuard::new();
    let _ = bump.local(&guard);

    let clone = bump.clone();
    assert!(matches!(bump.locals(), Err(ResetError)));
    drop(clone);

    let locals = bump.locals().unwrap();
    assert_eq!(locals.len(), 1);
    assert!(!locals[0].needs_init());
}

#[test]
fn locals_of_an_untouched_handle_are_none() {
    let mut bump = Bump::builder().threads_capacity(4).build();
    assert!(bump.locals().unwrap().is_empty());
}

#[test]
fn locals_can_be_cleared_one_by_one() {
    let mut bump = Bump::builder().bump_capacity(100).build();
    let guard = ThreadGuard::new();
    let _ = bump.local(&guard).as_inner().alloc(1_u8);

    for local in bump.locals().unwrap() {
        local.clear_with(false);
    }
    assert!(bump.locals().unwrap()[0].needs_init());

    // The owner's next touch fills the slot again.
    assert!(!bump.local(&guard).needs_init());
    assert!(!bump.locals().unwrap()[0].needs_init());
}

#[test]
fn handle_is_send_and_sync() {
    fn check<T: Send + Sync>(_: &T) {}
    check(&Bump::new());
}

#[test]
fn clone_shares_the_state() {
    let bump = Bump::builder().bump_capacity(100).bump_allocation_limit(1 << 16).build();
    let guard = ThreadGuard::new();
    let clone = bump.clone();

    let _ = bump.local(&guard).as_inner().alloc(1_u64);
    assert!(std::ptr::eq(bump.local(&guard), clone.local(&guard)));
    assert_eq!(clone.local(&guard).as_inner().allocation_limit(), Some(1 << 16));
}

#[test]
fn try_build_accepts_what_can_be_allocated() {
    let guard = ThreadGuard::new();
    let bump = Bump::builder()
        .threads_capacity(2)
        .bump_capacity(100)
        .bump_allocation_limit(1 << 16)
        .try_build()
        .unwrap();
    assert!(bump.local(&guard).as_inner().chunk_capacity() >= 100);
    assert_eq!(bump.local(&guard).as_inner().allocation_limit(), Some(1 << 16));

    assert!(BumpBuilder::new().try_build().is_some());
    assert!(Bump::builder().threads_capacity(0).bump_capacity(0).try_build().is_some());
}

#[test]
fn try_build_refuses_sizes_no_allocation_can_have() {
    let largest = isize::MAX as usize;

    assert!(Bump::builder().bump_capacity(usize::MAX).try_build().is_none());
    assert!(Bump::builder().bump_capacity(largest + 1).try_build().is_none());
    assert!(Bump::builder().threads_capacity(usize::MAX).try_build().is_none());
    assert!(Bump::builder().threads_capacity(largest + 1).try_build().is_none());
    assert!(Bump::builder()
        .threads_capacity(largest + 1)
        .bump_capacity(100)
        .bump_allocation_limit(7)
        .try_build()
        .is_none());

    // The allocation limit is not a size to allocate: any value will do.
    assert!(Bump::builder().bump_allocation_limit(usize::MAX).try_build().is_some());
}

#[test]
fn slot_found_filled_is_cleared_by_its_first_token() {
    let mut bump = Bump::builder().bump_capacity(100).build();

    let first = ThreadGuard::new();
    let initial = bump.local(&first).as_inner().chunk_capacity();
    drop(first);

    // No reset in between: the next owner finds the slot filled and gets it
    // as it is, with the token of the one who filled it.
    let second = ThreadGuard::new();
    let _ = bump.local(&second).as_inner().alloc([0_u8; 10_000]);
    assert!(bump.local(&second).as_inner().chunk_capacity() + 10_000 > initial);

    bump.reset_all().unwrap();
    assert!(bump.locals().unwrap()[0].needs_init());

    // From its next touch on the slot carries the second owner's token.
    let _ = bump.local(&second).as_inner().alloc([0_u8; 10_000]);
    let grown = bump.local(&second).as_inner().chunk_capacity() + 10_000;
    bump.reset_all().unwrap();
    assert!(!bump.locals().unwrap()[0].needs_init());
    assert_eq!(bump.local(&second).as_inner().chunk_capacity(), grown);
}
