//! Contexts: collecting groups, tracking allocations, and the
//! finished-iff-fully-executed rule.

use ispc::task::Context;

#[test]
fn context_finished_iff_every_group_executed() {
    // Two groups of extents (2,1,1) and (3,1,1): the context reports done
    // only after every chunk of both has been claimed and executed.
    let mut ctx = Context::new(0);
    assert!(ctx.current_tasks_done());
    ctx.launch((2, 1, 1));
    ctx.launch((3, 1, 1));
    assert!(!ctx.current_tasks_done());
    // drain group 0 completely
    while let Some(_c) = ctx.get_chunk_from(0, 1) {
        ctx.finish_chunk_in(0);
    }
    assert!(!ctx.current_tasks_done());
    // drain group 1, checking that claiming alone is not enough
    let mut claimed = 0;
    while let Some(_c) = ctx.get_chunk_from(1, 1) {
        claimed += 1;
    }
    assert_eq!(claimed, 3);
    assert!(!ctx.current_tasks_done());
    for _ in 0..claimed {
        ctx.finish_chunk_in(1);
    }
    assert!(ctx.current_tasks_done());
}

#[test]
fn active_group_scan_skips_exhausted_groups() {
    let mut ctx = Context::new(3);
    ctx.launch((1, 1, 1));
    ctx.launch((2, 1, 1));
    assert_eq!(ctx.get_active_group(), Some(0));
    let _ = ctx.get_chunk_from(0, 1).unwrap();
    assert_eq!(ctx.get_active_group(), Some(1));
    let _ = ctx.get_chunk_from(1, 2).unwrap();
    assert_eq!(ctx.get_active_group(), None);
}

#[test]
fn allocations_are_recorded_in_slot_order() {
    let mut ctx = Context::new(9);
    assert_eq!(ctx.allocate(128, 16), 0);
    assert_eq!(ctx.allocate(64, 32), 1);
    assert_eq!(ctx.allocate(8, 8), 2);
    assert_eq!(ctx.mem.len(), 3);
    assert_eq!((ctx.mem[1].size, ctx.mem[1].align), (64, 32));
}
