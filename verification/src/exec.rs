//! The task execution system: a registry of all open contexts, plus the
//! scheduling steps through which worker threads and synchronizing
//! threads claim chunks out of any context that still has work.

use crate::task::{
    fresh_group, lemma_groups_unclaimed_update, valid_extent, AllocRecord, Chunk, Context,
};
use vstd::prelude::*;

verus! {

/// The execution environment for launched tasks: all open contexts and
/// the source of fresh context identifiers.
///
/// Every thread that participates in execution -- parked workers and the
/// threads that call synchronize -- scans this registry and claims chunks
/// out of whichever context still has work, so that progress anywhere is
/// progress for everyone.
pub struct Parallel {
    /// All open contexts, scanned linearly for claimable work.
    pub context_list: Vec<Context>,
    /// The identifier the next context to open will receive.
    pub next_context_id: usize,
}

/// Relies on num_cpus::get: the number of logical CPUs of the running
/// system, which is always at least 1.
#[verifier::external_body]
fn logical_cpus() -> (n: usize)
    ensures
        1 <= n,
{
    num_cpus::get()
}

/// The worker-pool plan of the default task system: one parked worker
/// per logical CPU, and the thread that calls synchronize as one more
/// symmetric participant, so that thread indices range over `[0, r.1)`
/// with index 0 reserved for the caller.
pub fn pool_plan() -> (r: (usize, usize))
    ensures
        1 <= r.0,
        r.1 == if r.0 < usize::MAX {
            r.0 + 1
        } else {
            r.0 as int
        },
{
    let workers = logical_cpus();
    if workers < usize::MAX {
        (workers, workers + 1)
    } else {
        (workers, workers)
    }
}

/// Total number of tasks across all contexts of `s` that no chunk has
/// claimed yet.
pub open spec fn contexts_unclaimed(s: Seq<Context>) -> nat
    decreases s.len(),
{
    if s.len() == 0 {
        0
    } else {
        s[0].unclaimed() + contexts_unclaimed(s.drop_first())
    }
}

/// Replacing the context at `i` changes the unclaimed total of the list
/// by exactly the difference between the two contexts' unclaimed tasks.
pub proof fn lemma_contexts_unclaimed_update(s: Seq<Context>, i: int, c: Context)
    requires
        0 <= i < s.len(),
    ensures
        contexts_unclaimed(s.update(i, c)) + s[i].unclaimed() == contexts_unclaimed(s)
            + c.unclaimed(),
    decreases s.len(),
{
    if i == 0 {
        assert(s.update(0, c).drop_first() =~= s.drop_first());
    } else {
        assert(s.update(i, c).drop_first() =~= s.drop_first().update(i - 1, c));
        lemma_contexts_unclaimed_update(s.drop_first(), i - 1, c);
    }
}

/// Between two registry states of equal shape, every group keeps its
/// number of in-flight chunks: chunks claimed but not yet recorded as
/// complete. A scan step that retires every chunk it claims preserves
/// these counts, whoever else's chunks are still running.
pub open spec fn preserves_in_flight(a: Seq<Context>, b: Seq<Context>) -> bool {
    &&& a.len() == b.len()
    &&& forall|i: int|
        0 <= i < a.len() ==> (#[trigger] b[i]).tasks@.len() == a[i].tasks@.len()
    &&& forall|i: int, j: int|
        0 <= i < a.len() && 0 <= j < a[i].tasks@.len() ==> (
        #[trigger] b[i].tasks@[j]).chunks_launched - b[i].tasks@[j].chunks_finished == a[
            i].tasks@[j].chunks_launched - a[i].tasks@[j].chunks_finished
}

impl Parallel {
    /// Contexts are internally consistent and no two share an identifier;
    /// identifiers already handed out stay below the next fresh one.
    pub open spec fn wf(self) -> bool {
        &&& forall|i: int|
            0 <= i < self.context_list@.len() ==> (#[trigger] self.context_list@[i]).wf()
        &&& forall|i: int, j: int|
            0 <= i < j < self.context_list@.len() ==> (#[trigger] self.context_list@[i].id)
                != (#[trigger] self.context_list@[j].id)
        &&& forall|i: int|
            0 <= i < self.context_list@.len() ==> (#[trigger] self.context_list@[i]).id
                < self.next_context_id
    }

    /// No context anywhere holds a chunk that was claimed but has not
    /// completed. This is the quiescent state between the atomic steps of
    /// a sequential executor, which retires every chunk it claims before
    /// claiming the next.
    pub open spec fn settled(self) -> bool {
        forall|i: int|
            0 <= i < self.context_list@.len() ==> (#[trigger] self.context_list@[i]).settled()
    }

    /// Some open context carries the identifier `handle`.
    pub open spec fn has_context(self, handle: usize) -> bool {
        exists|i: int|
            0 <= i < self.context_list@.len() && (#[trigger] self.context_list@[i]).id == handle
    }

    /// The position of the context whose identifier is `handle`.
    pub open spec fn index_of(self, handle: usize) -> int {
        choose|i: int|
            0 <= i < self.context_list@.len() && (#[trigger] self.context_list@[i]).id == handle
    }

    /// With distinct identifiers, `handle` picks out exactly one context.
    pub proof fn lemma_index_of(self, handle: usize)
        requires
            self.wf(),
            self.has_context(handle),
        ensures
            0 <= self.index_of(handle) < self.context_list@.len(),
            self.context_list@[self.index_of(handle)].id == handle,
            forall|i: int|
                0 <= i < self.context_list@.len() && (#[trigger] self.context_list@[i]).id
                    == handle ==> i == self.index_of(handle),
    {
        let p = self.index_of(handle);
        assert forall|i: int|
            0 <= i < self.context_list@.len() && (#[trigger] self.context_list@[i]).id
                == handle implies i == p by {
            if i != p {
                if i < p {
                    assert(self.context_list@[i].id != self.context_list@[p].id);
                } else {
                    assert(self.context_list@[p].id != self.context_list@[i].id);
                }
            }
        }
    }

    /// Create an execution environment with no open contexts. The worker
    /// threads that will scan it belong to the embedding, not to this
    /// state.
    pub fn new() -> (p: Parallel)
        ensures
            p.wf(),
            p.settled(),
            p.context_list@.len() == 0,
            p.next_context_id == 0,
    {
        Parallel { context_list: Vec::new(), next_context_id: 0 }
    }

    /// The position of the open context carrying `handle`.
    pub fn find_context(&self, handle: usize) -> (p: usize)
        requires
            self.wf(),
            self.has_context(handle),
        ensures
            p < self.context_list@.len(),
            self.context_list@[p as int].id == handle,
            p == self.index_of(handle),
    {
        let mut i: usize = 0;
        while i < self.context_list.len()
            invariant
                self.wf(),
                self.has_context(handle),
                i <= self.context_list@.len(),
                forall|j: int| 0 <= j < i ==> (#[trigger] self.context_list@[j]).id != handle,
            decreases self.context_list@.len() - i,
        {
            if self.context_list[i].id == handle {
                proof {
                    self.lemma_index_of(handle);
                }
                return i;
            }
            i = i + 1;
        }
        proof {
            let w = choose|w: int|
                0 <= w < self.context_list@.len() && (#[trigger] self.context_list@[w]).id
                    == handle;
            assert(self.context_list@[w].id == handle);
            assert(false);
        }
        0
    }

    /// Resolve or create the context for `handle` and record an
    /// allocation of `size` bytes aligned to `align` under it.
    ///
    /// An absent handle means this is the first allocation since the last
    /// synchronize: a fresh context is opened and registered. The result
    /// is the identifier of the context -- to be written back through the
    /// opaque handle -- and the slot under which the allocation is
    /// recorded; the memory paired with that slot may be released only
    /// when the context closes.
    pub fn allocate(&mut self, handle: Option<usize>, size: usize, align: usize) -> (r: (
        usize,
        usize,
    ))
        requires
            old(self).wf(),
            old(self).next_context_id < usize::MAX,
            match handle {
                Some(h) => old(self).has_context(h),
                None => true,
            },
        ensures
            final(self).wf(),
            old(self).settled() ==> final(self).settled(),
            final(self).has_context(r.0),
            match handle {
                None => {
                    &&& r.0 == old(self).next_context_id
                    &&& r.1 == 0
                    &&& final(self).next_context_id == old(self).next_context_id + 1
                    &&& final(self).context_list@.len() == old(self).context_list@.len() + 1
                    &&& forall|i: int|
                        0 <= i < old(self).context_list@.len() ==> final(self).context_list@[i]
                            == old(self).context_list@[i]
                    &&& final(self).context_list@.last().id == r.0
                    &&& final(self).context_list@.last().tasks@.len() == 0
                    &&& final(self).context_list@.last().mem@ =~= seq![
                        AllocRecord { size, align },
                    ]
                },
                Some(h) => {
                    &&& r.0 == h
                    &&& final(self).next_context_id == old(self).next_context_id
                    &&& final(self).context_list@.len() == old(self).context_list@.len()
                    &&& forall|i: int|
                        0 <= i < old(self).context_list@.len() && i != old(self).index_of(h)
                            ==> final(self).context_list@[i] == old(self).context_list@[i]
                    &&& final(self).context_list@[old(self).index_of(h)].id == h
                    &&& final(self).context_list@[old(self).index_of(h)].tasks == old(
                        self).context_list@[old(self).index_of(h)].tasks
                    &&& final(self).context_list@[old(self).index_of(h)].mem@ == old(
                        self).context_list@[old(self).index_of(h)].mem@.push(
                        AllocRecord { size, align })
                    &&& r.1 == old(self).context_list@[old(self).index_of(h)].mem@.len()
                },
            },
    {
        match handle {
            None => {
                let id = self.next_context_id;
                self.next_context_id = self.next_context_id + 1;
                let mut c = Context::new(id);
                let slot = c.allocate(size, align);
                self.context_list.push(c);
                proof {
                    assert(final(self).context_list@.last().id == id);
                }
                (id, slot)
            },
            Some(h) => {
                proof {
                    old(self).lemma_index_of(h);
                }
                let p = self.find_context(h);
                let slot = self.context_list[p].allocate(size, align);
                (h, slot)
            },
        }
    }

    /// Append a newly launched group of tasks over the extent `total` to
    /// the context `handle`. The context must already exist: launching
    /// without a prior allocation on the same handle breaks the calling
    /// convention this runtime serves.
    pub fn launch(&mut self, handle: usize, total: (i32, i32, i32))
        requires
            old(self).wf(),
            old(self).has_context(handle),
            valid_extent(total),
        ensures
            final(self).wf(),
            old(self).settled() ==> final(self).settled(),
            final(self).next_context_id == old(self).next_context_id,
            final(self).context_list@.len() == old(self).context_list@.len(),
            forall|i: int|
                0 <= i < old(self).context_list@.len() && i != old(self).index_of(handle)
                    ==> final(self).context_list@[i] == old(self).context_list@[i],
            final(self).context_list@[old(self).index_of(handle)].id == handle,
            final(self).context_list@[old(self).index_of(handle)].mem == old(
                self).context_list@[old(self).index_of(handle)].mem,
            final(self).context_list@[old(self).index_of(handle)].tasks@ == old(
                self).context_list@[old(self).index_of(handle)].tasks@.push(fresh_group(total)),
    {
        proof {
            old(self).lemma_index_of(handle);
        }
        let p = self.find_context(handle);
        self.context_list[p].launch(total);
    }

    /// Scan the whole registry for claimable work: the first context
    /// holding a group with unclaimed tasks, together with that group's
    /// position. Returns nothing exactly when every open context is
    /// exhausted -- so as long as anything anywhere still has work, a
    /// scanning thread is guaranteed to find some of it.
    pub fn find_claimable(&self) -> (r: Option<(usize, usize)>)
        requires
            self.wf(),
        ensures
            match r {
                Some(w) => {
                    &&& w.0 < self.context_list@.len()
                    &&& w.1 < self.context_list@[w.0 as int].tasks@.len()
                    &&& !self.context_list@[w.0 as int].tasks@[w.1 as int].exhausted()
                    &&& forall|j: int|
                        0 <= j < w.1 ==> (#[trigger] self.context_list@[w.0 as int].tasks@[
                            j]).exhausted()
                    &&& forall|j: int|
                        0 <= j < w.0 ==> (#[trigger] self.context_list@[j]).all_exhausted()
                },
                None => forall|j: int|
                    0 <= j < self.context_list@.len() ==> (
                    #[trigger] self.context_list@[j]).all_exhausted(),
            },
    {
        let mut i: usize = 0;
        while i < self.context_list.len()
            invariant
                self.wf(),
                i <= self.context_list@.len(),
                forall|j: int| 0 <= j < i ==> (#[trigger] self.context_list@[j]).all_exhausted(),
            decreases self.context_list@.len() - i,
        {
            match self.context_list[i].get_active_group() {
                Some(gi) => {
                    return Some((i, gi));
                },
                None => {
                    i = i + 1;
                },
            }
        }
        None
    }

    /// One step of the help-anyone scan that parked workers and
    /// synchronizing threads both perform: claim a one-task chunk from the
    /// first context anywhere that still has unclaimed work, and retire
    /// it. Returns the chunk that was retired, or nothing exactly when
    /// every open context is exhausted.
    ///
    /// In the concurrent runtime the claim and the completion record
    /// bracket the actual run of the task function; this sequential step
    /// performs the two transitions back to back, which is why it leaves
    /// every group's count of in-flight chunks as it found it.
    pub fn run_one_chunk(&mut self) -> (r: Option<Chunk>)
        requires
            old(self).wf(),
        ensures
            final(self).wf(),
            preserves_in_flight(old(self).context_list@, final(self).context_list@),
            final(self).next_context_id == old(self).next_context_id,
            final(self).context_list@.len() == old(self).context_list@.len(),
            forall|i: int|
                0 <= i < old(self).context_list@.len() ==> (
                #[trigger] final(self).context_list@[i]).id == old(self).context_list@[i].id,
            forall|i: int|
                0 <= i < old(self).context_list@.len() ==> (
                #[trigger] final(self).context_list@[i]).mem == old(self).context_list@[i].mem,
            match r {
                Some(c) => {
                    &&& c.wf()
                    &&& contexts_unclaimed(final(self).context_list@) < contexts_unclaimed(
                        old(self).context_list@)
                },
                None => {
                    &&& *final(self) == *old(self)
                    &&& forall|j: int|
                        0 <= j < old(self).context_list@.len() ==> (
                        #[trigger] old(self).context_list@[j]).all_exhausted()
                },
            },
    {
        match self.find_claimable() {
            None => None,
            Some(w) => {
                let (ci, gi) = w;
                let ghost list0 = self.context_list@;
                let ghost g0 = list0[ci as int].tasks@[gi as int];
                let c = self.context_list[ci].get_chunk_from(gi, 1).unwrap();
                let ghost list1 = self.context_list@;
                let ghost g1 = list1[ci as int].tasks@[gi as int];
                self.context_list[ci].finish_chunk_in(gi);
                let ghost list2 = self.context_list@;
                let ghost g2 = list2[ci as int].tasks@[gi as int];
                proof {
                    let ci = ci as int;
                    let gi = gi as int;
                    // the claim advanced the cursor, so the group lost
                    // unclaimed tasks; retiring the chunk changes none
                    assert(g1.unclaimed() < g0.unclaimed());
                    assert(g2.unclaimed() == g1.unclaimed());
                    assert(list1[ci].tasks@ =~= list0[ci].tasks@.update(gi, g1));
                    lemma_groups_unclaimed_update(list0[ci].tasks@, gi, g1);
                    assert(list2[ci].tasks@ =~= list1[ci].tasks@.update(gi, g2));
                    lemma_groups_unclaimed_update(list1[ci].tasks@, gi, g2);
                    assert(list2[ci].unclaimed() < list0[ci].unclaimed());
                    assert(list2 =~= list0.update(ci, list2[ci]));
                    lemma_contexts_unclaimed_update(list0, ci, list2[ci]);
                    assert forall|i: int, j: int|
                        0 <= i < list0.len() && 0 <= j < list0[i].tasks@.len() implies (
                        #[trigger] list2[i].tasks@[j]).chunks_launched - list2[
                            i].tasks@[j].chunks_finished == list0[i].tasks@[j].chunks_launched
                        - list0[i].tasks@[j].chunks_finished by {
                        if i == ci && j == gi {
                            assert(g2.chunks_launched == g0.chunks_launched + 1);
                            assert(g2.chunks_finished == g0.chunks_finished + 1);
                        }
                    }
                }
                Some(c)
            },
        }
    }

    /// Synchronize with the context `handle`: the calling thread claims
    /// and retires chunks -- from that context's own groups or, when it
    /// finds none there, from any other open context -- until every group
    /// launched in the context has finished. Helping whatever context has
    /// runnable work is what keeps a pool of bounded size from
    /// deadlocking when tasks launch and synchronize nested groups of
    /// their own.
    ///
    /// Only then is the context removed from the registry and handed
    /// back, so that the task-parameter memory recorded under it is
    /// released strictly after the last of its chunks has completed.
    pub fn sync(&mut self, handle: usize) -> (closed: Context)
        requires
            old(self).wf(),
            old(self).has_context(handle),
            old(self).context_list@[old(self).index_of(handle)].settled(),
        ensures
            final(self).wf(),
            old(self).settled() ==> final(self).settled(),
            closed.wf(),
            closed.id == handle,
            closed.done(),
            closed.mem == old(self).context_list@[old(self).index_of(handle)].mem,
            final(self).next_context_id == old(self).next_context_id,
            final(self).context_list@.len() + 1 == old(self).context_list@.len(),
            !final(self).has_context(handle),
            forall|i: int|
                0 <= i < old(self).index_of(handle) ==> (
                #[trigger] final(self).context_list@[i]).id == old(self).context_list@[i].id
                    && final(self).context_list@[i].mem == old(self).context_list@[i].mem,
            forall|i: int|
                old(self).index_of(handle) <= i < final(self).context_list@.len() ==> (
                #[trigger] final(self).context_list@[i]).id == old(self).context_list@[i + 1].id
                    && final(self).context_list@[i].mem == old(self).context_list@[i + 1].mem,
    {
        proof {
            old(self).lemma_index_of(handle);
        }
        let p = self.find_context(handle);
        let ghost orig = *self;
        let mut done = self.context_list[p].current_tasks_done();
        while !done
            invariant
                self.wf(),
                p < self.context_list@.len(),
                preserves_in_flight(orig.context_list@, self.context_list@),
                self.context_list@[p as int].settled(),
                self.next_context_id == orig.next_context_id,
                forall|i: int|
                    0 <= i < orig.context_list@.len() ==> (
                    #[trigger] self.context_list@[i]).id == orig.context_list@[i].id,
                forall|i: int|
                    0 <= i < orig.context_list@.len() ==> (
                    #[trigger] self.context_list@[i]).mem == orig.context_list@[i].mem,
                done == self.context_list@[p as int].done(),
            decreases contexts_unclaimed(self.context_list@),
        {
            let ghost before = self.context_list@;
            let r = self.run_one_chunk();
            proof {
                assert forall|i: int, j: int|
                    0 <= i < orig.context_list@.len() && 0 <= j < orig.context_list@[
                        i].tasks@.len() implies (
                    #[trigger] self.context_list@[i].tasks@[j]).chunks_launched
                    - self.context_list@[i].tasks@[j].chunks_finished == orig.context_list@[
                        i].tasks@[j].chunks_launched - orig.context_list@[
                        i].tasks@[j].chunks_finished by {
                    assert(before[i].tasks@[j].chunks_launched - before[
                        i].tasks@[j].chunks_finished == orig.context_list@[
                        i].tasks@[j].chunks_launched - orig.context_list@[
                        i].tasks@[j].chunks_finished);
                }
                if r is None {
                    // were the whole registry exhausted, this settled
                    // context would already be done
                    let ctx = self.context_list@[p as int];
                    assert(ctx.all_exhausted());
                    assert forall|i: int| 0 <= i < ctx.tasks@.len() implies (
                        #[trigger] ctx.tasks@[i]).finished() by {
                        assert(ctx.tasks@[i].exhausted());
                        assert(ctx.tasks@[i].chunks_finished == ctx.tasks@[i].chunks_launched);
                    }
                    assert(ctx.done());
                    assert(false);
                }
            }
            done = self.context_list[p].current_tasks_done();
        }
        let ghost pre = *self;
        proof {
            if orig.settled() {
                assert forall|i: int| 0 <= i < pre.context_list@.len() implies (
                    #[trigger] pre.context_list@[i]).settled() by {
                    assert(orig.context_list@[i].settled());
                    assert forall|j: int| 0 <= j < pre.context_list@[i].tasks@.len() implies (
                        #[trigger] pre.context_list@[i].tasks@[j]).chunks_finished == pre
                        .context_list@[i].tasks@[j].chunks_launched by {
                        assert(orig.context_list@[i].tasks@[j].chunks_finished == orig
                            .context_list@[i].tasks@[j].chunks_launched);
                    }
                }
            }
        }
        let closed = self.context_list.remove(p);
        proof {
            pre.context_list@.remove_ensures(p as int);
            assert forall|i: int| 0 <= i < self.context_list@.len() implies (
                #[trigger] self.context_list@[i]).id != handle by {
                if i < p {
                    assert(self.context_list@[i] == pre.context_list@[i]);
                    assert(pre.context_list@[i].id != pre.context_list@[p as int].id);
                } else {
                    assert(self.context_list@[i] == pre.context_list@[i + 1]);
                    assert(pre.context_list@[p as int].id != pre.context_list@[i + 1].id);
                }
            }
        }
        closed
    }
}

} // verus!
