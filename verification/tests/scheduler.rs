//! The execution environment: handle resolution, synchronization, and
//! the help-anyone scan that guarantees forward progress.

use ispc::exec::{pool_plan, Parallel};

#[test]
fn allocate_opens_and_reuses_contexts() {
    let mut par = Parallel::new();
    // first allocation with a null handle opens context 0, slot 0
    assert_eq!(par.allocate(None, 64, 16), (0, 0));
    // further allocations against the same handle append slots
    assert_eq!(par.allocate(Some(0), 32, 8), (0, 1));
    // a fresh null handle opens the next context
    assert_eq!(par.allocate(None, 16, 4), (1, 0));
    assert_eq!(par.context_list.len(), 2);
}

#[test]
fn sync_executes_everything_and_closes_the_context() {
    let mut par = Parallel::new();
    let (h, _) = par.allocate(None, 64, 16);
    par.launch(h, (2, 2, 1));
    par.launch(h, (3, 1, 1));
    let closed = par.sync(h);
    assert_eq!(closed.id, h);
    assert!(closed.current_tasks_done());
    // the allocation records come back for release only now
    assert_eq!(closed.mem.len(), 1);
    assert_eq!(par.context_list.len(), 0);
}

#[test]
fn sync_leaves_other_contexts_open() {
    let mut par = Parallel::new();
    let (a, _) = par.allocate(None, 8, 8);
    par.launch(a, (2, 1, 1));
    let (b, _) = par.allocate(None, 8, 8);
    par.launch(b, (3, 1, 1));
    let closed = par.sync(a);
    assert_eq!(closed.id, a);
    assert_eq!(par.context_list.len(), 1);
    assert_eq!(par.context_list[0].id, b);
    let closed_b = par.sync(b);
    assert!(closed_b.current_tasks_done());
    assert_eq!(par.context_list.len(), 0);
}

#[test]
fn scan_finds_work_wherever_it_is() {
    let mut par = Parallel::new();
    let (a, _) = par.allocate(None, 8, 8);
    par.launch(a, (1, 1, 1));
    let (b, _) = par.allocate(None, 8, 8);
    par.launch(b, (1, 1, 1));
    // the scan walks the registry in order and claims from the first
    // context that still has something
    assert_eq!(par.find_claimable(), Some((0, 0)));
    let c1 = par.run_one_chunk().unwrap();
    assert_eq!((c1.start, c1.end), (0, 1));
    assert_eq!(par.find_claimable(), Some((1, 0)));
    let _c2 = par.run_one_chunk().unwrap();
    assert_eq!(par.find_claimable(), None);
    assert!(par.run_one_chunk().is_none());
}

#[test]
fn nested_launch_completes_under_a_single_worker() {
    // A task that itself allocates, launches and synchronizes a nested
    // context must complete even when the only thread doing any work is
    // the one synchronizing -- the scan helps whatever context is
    // runnable.
    let mut par = Parallel::new();
    let (a, _) = par.allocate(None, 64, 16);
    par.launch(a, (1, 1, 1));
    // the lone worker claims the outer chunk and starts running it
    let pa = par.find_context(a);
    let outer = par.context_list[pa].get_chunk_from(0, 1).unwrap();
    assert_eq!((outer.start, outer.end), (0, 1));
    // mid-task, the outer chunk launches a nested batch and waits on it,
    // while its own chunk is still in flight
    let (b, _) = par.allocate(None, 32, 8);
    assert_ne!(a, b);
    par.launch(b, (2, 1, 1));
    let closed_b = par.sync(b);
    assert!(closed_b.current_tasks_done());
    // the outer task finishes its chunk; the outer sync can now close
    let pa = par.find_context(a);
    par.context_list[pa].finish_chunk_in(0);
    let closed_a = par.sync(a);
    assert!(closed_a.current_tasks_done());
    assert_eq!(par.context_list.len(), 0);
}

#[test]
fn context_ids_are_never_reused() {
    let mut par = Parallel::new();
    let (a, _) = par.allocate(None, 8, 8);
    let closed = par.sync(a);
    assert_eq!(closed.id, a);
    let (b, _) = par.allocate(None, 8, 8);
    assert_ne!(a, b);
}

#[test]
fn pool_plan_counts_the_caller_too() {
    let (workers, total) = pool_plan();
    assert!(workers >= 1);
    assert_eq!(total, workers + 1);
}
