//! Task groups, the chunks claimed out of them, and the contexts that
//! collect groups between two synchronization points.

use vstd::arithmetic::div_mod::{
    lemma_div_denominator, lemma_div_pos_is_pos, lemma_fundamental_div_mod,
    lemma_fundamental_div_mod_converse, lemma_mod_bound, lemma_multiply_divide_lt,
};
use vstd::prelude::*;

verus! {

/// Flat number of tasks in a 3-D launch extent.
pub open spec fn flat_count(total: (i32, i32, i32)) -> int {
    total.0 * total.1 * total.2
}

/// A launch extent is valid when every axis is positive and the flat task
/// count fits the signed 32-bit indices handed to task functions.
pub open spec fn valid_extent(total: (i32, i32, i32)) -> bool {
    0 < total.0 && 0 < total.1 && 0 < total.2 && flat_count(total) <= i32::MAX
}

/// The x coordinate of flat task `id` in rows of `nx`.
pub open spec fn task_x(id: int, nx: int) -> int {
    id % nx
}

/// The y coordinate of flat task `id` in an extent with `nx` columns and
/// `ny` rows per slice.
pub open spec fn task_y(id: int, nx: int, ny: int) -> int {
    (id / nx) % ny
}

/// The z coordinate of flat task `id` in slices of `nx * ny`.
pub open spec fn task_z(id: int, nx: int, ny: int) -> int {
    id / (nx * ny)
}

/// The flat index of task `(x, y, z)`: the enumeration order of nested
/// loops with z outermost, then y, then x innermost.
pub open spec fn flat_index(x: int, y: int, z: int, nx: int, ny: int) -> int {
    x + y * nx + z * (nx * ny)
}

/// Decomposing a flat task id yields in-range coordinates, and
/// recomposing them gives the id back.
pub proof fn lemma_decompose_recompose(id: int, nx: int, ny: int, nz: int)
    requires
        0 < nx,
        0 < ny,
        0 < nz,
        0 <= id < nx * ny * nz,
    ensures
        0 <= task_x(id, nx) < nx,
        0 <= task_y(id, nx, ny) < ny,
        0 <= task_z(id, nx, ny) < nz,
        flat_index(task_x(id, nx), task_y(id, nx, ny), task_z(id, nx, ny), nx, ny) == id,
{
    let x = task_x(id, nx);
    let y = task_y(id, nx, ny);
    let z = task_z(id, nx, ny);
    let q = id / nx;
    lemma_mod_bound(id, nx);
    lemma_div_pos_is_pos(id, nx);
    lemma_mod_bound(q, ny);
    lemma_fundamental_div_mod(id, nx);
    lemma_fundamental_div_mod(q, ny);
    lemma_div_denominator(id, nx, ny);
    assert(0 < nx * ny) by (nonlinear_arith)
        requires
            0 < nx,
            0 < ny,
    ;
    lemma_div_pos_is_pos(id, nx * ny);
    assert(id < (nx * ny) * nz) by (nonlinear_arith)
        requires
            id < nx * ny * nz,
    ;
    lemma_multiply_divide_lt(id, nx * ny, nz);
    assert(flat_index(x, y, z, nx, ny) == id) by (nonlinear_arith)
        requires
            id == nx * q + x,
            q == ny * z + y,
    ;
}

/// Recomposing in-range coordinates yields an in-range flat id that
/// decomposes back to the same coordinates.
pub proof fn lemma_recompose_decompose(x: int, y: int, z: int, nx: int, ny: int, nz: int)
    requires
        0 < nx,
        0 < ny,
        0 < nz,
        0 <= x < nx,
        0 <= y < ny,
        0 <= z < nz,
    ensures
        0 <= flat_index(x, y, z, nx, ny) < nx * ny * nz,
        task_x(flat_index(x, y, z, nx, ny), nx) == x,
        task_y(flat_index(x, y, z, nx, ny), nx, ny) == y,
        task_z(flat_index(x, y, z, nx, ny), nx, ny) == z,
{
    let id = flat_index(x, y, z, nx, ny);
    assert(id == (y + ny * z) * nx + x && 0 <= id && id < nx * ny * nz) by (nonlinear_arith)
        requires
            0 <= x < nx,
            0 <= y < ny,
            0 <= z < nz,
            id == x + y * nx + z * (nx * ny),
    ;
    lemma_fundamental_div_mod_converse(id, nx, y + ny * z, x);
    lemma_fundamental_div_mod_converse(y + ny * z, ny, z, y);
    lemma_div_denominator(id, nx, ny);
}

/// `(x1, y1, z1)` comes before `(x2, y2, z2)` in the order of nested
/// loops with z outermost, then y, then x innermost.
pub open spec fn lex_before(
    x1: int, y1: int, z1: int,
    x2: int, y2: int, z2: int,
) -> bool {
    ||| z1 < z2
    ||| (z1 == z2 && y1 < y2)
    ||| (z1 == z2 && y1 == y2 && x1 < x2)
}

/// Enumerating flat ids from 0 upward visits the coordinates exactly in
/// nested-loop order: the flat index of one coordinate triple is smaller
/// than another's if and only if the first triple comes first in that
/// order.
pub proof fn lemma_enumeration_order(
    x1: int, y1: int, z1: int,
    x2: int, y2: int, z2: int,
    nx: int, ny: int,
)
    requires
        0 <= x1 < nx,
        0 <= y1 < ny,
        0 <= z1,
        0 <= x2 < nx,
        0 <= y2 < ny,
        0 <= z2,
    ensures
        flat_index(x1, y1, z1, nx, ny) < flat_index(x2, y2, z2, nx, ny) <==> lex_before(
            x1, y1, z1, x2, y2, z2),
{
    assert(lex_before(x1, y1, z1, x2, y2, z2) ==> flat_index(x1, y1, z1, nx, ny) < flat_index(
        x2, y2, z2, nx, ny)) by (nonlinear_arith)
        requires
            0 <= x1 < nx,
            0 <= y1 < ny,
            0 <= z1,
            0 <= x2 < nx,
            0 <= y2 < ny,
            0 <= z2,
    ;
    assert(lex_before(x2, y2, z2, x1, y1, z1) ==> flat_index(x2, y2, z2, nx, ny) < flat_index(
        x1, y1, z1, nx, ny)) by (nonlinear_arith)
        requires
            0 <= x1 < nx,
            0 <= y1 < ny,
            0 <= z1,
            0 <= x2 < nx,
            0 <= y2 < ny,
            0 <= z2,
    ;
}

/// A group of tasks spawned by one launch call: a 3-D extent, the claim
/// cursor that hands out disjoint chunks of the flat index space, and the
/// counters that record how many chunks were handed out and completed.
#[derive(Clone, Copy, Debug)]
pub struct Group {
    /// Claim cursor: next flat index not yet handed out.
    pub start: usize,
    /// Total number of flat tasks, `total.0 * total.1 * total.2`.
    pub end: usize,
    /// Total number of tasks scheduled in this group, per axis.
    pub total: (i32, i32, i32),
    /// How many chunks have been handed out to executors so far.
    pub chunks_launched: usize,
    /// How many of the handed-out chunks have completed execution.
    pub chunks_finished: usize,
}

impl Group {
    /// Internal consistency: the cursor never passes the extent, and
    /// counters never outrun the cursor.
    pub open spec fn wf(self) -> bool {
        &&& valid_extent(self.total)
        &&& self.end == flat_count(self.total)
        &&& self.start <= self.end
        &&& self.chunks_finished <= self.chunks_launched
        &&& self.chunks_launched <= self.start
    }

    /// Every task of the group has been claimed.
    pub open spec fn exhausted(self) -> bool {
        self.start >= self.end
    }

    /// Every task has been claimed and every claimed chunk has completed.
    pub open spec fn finished(self) -> bool {
        self.exhausted() && self.chunks_finished == self.chunks_launched
    }

    /// How many tasks of this group no chunk has claimed yet.
    pub open spec fn unclaimed(self) -> nat {
        if self.start <= self.end {
            (self.end - self.start) as nat
        } else {
            0
        }
    }

    /// Create a new task group for execution over `total`.
    pub fn new(total: (i32, i32, i32)) -> (g: Group)
        requires
            valid_extent(total),
        ensures
            g.wf(),
            g.total == total,
            g.start == 0,
            g.chunks_launched == 0,
            g.chunks_finished == 0,
            g.end == flat_count(total),
    {
        proof {
            assert(0 < total.0 * total.1 && total.0 * total.1 <= total.0 * total.1 * total.2)
                by (nonlinear_arith)
                requires
                    0 < total.0,
                    0 < total.1,
                    0 < total.2,
            ;
        }
        let flat: i32 = total.0 * total.1 * total.2;
        Group {
            start: 0,
            end: flat as usize,
            total,
            chunks_launched: 0,
            chunks_finished: 0,
        }
    }

    /// Check if all tasks for this group have been claimed and completed.
    pub fn is_finished(&self) -> (r: bool)
        requires
            self.wf(),
        ensures
            r == self.finished(),
    {
        self.chunks_finished == self.chunks_launched && self.start >= self.end
    }

    /// Check if this group has tasks left to claim.
    pub fn has_tasks(&self) -> (r: bool)
        requires
            self.wf(),
        ensures
            r == !self.exhausted(),
    {
        self.start < self.end
    }

    /// Get a chunk of tasks from the group to run if there are any tasks
    /// left to run.
    ///
    /// `desired_tasks` is the number of tasks the chunk should contain,
    /// though the chunk is clipped to the tasks that remain. The returned
    /// chunk starts exactly at the old cursor and the cursor moves to the
    /// chunk's end, so the chunks handed out by successive claims tile the
    /// flat index space with no gap and no overlap.
    pub fn get_chunk(&mut self, desired_tasks: usize) -> (r: Option<Chunk>)
        requires
            old(self).wf(),
            desired_tasks >= 1,
        ensures
            final(self).wf(),
            final(self).total == old(self).total,
            final(self).end == old(self).end,
            final(self).chunks_finished == old(self).chunks_finished,
            match r {
                Some(c) => {
                    &&& !old(self).exhausted()
                    &&& c.wf()
                    &&& c.total == old(self).total
                    &&& c.start == old(self).start
                    &&& c.end == claim_end(old(self).start as int, desired_tasks as int,
                        old(self).end as int)
                    &&& final(self).start == c.end
                    &&& final(self).chunks_launched == old(self).chunks_launched + 1
                },
                None => {
                    &&& old(self).exhausted()
                    &&& *final(self) == *old(self)
                },
            },
    {
        let start = self.start;
        if start < self.end {
            let remaining = self.end - start;
            let take = if desired_tasks <= remaining {
                desired_tasks
            } else {
                remaining
            };
            let chunk_end = start + take;
            let c = Chunk::new(self, start, chunk_end);
            self.start = chunk_end;
            self.chunks_launched = self.chunks_launched + 1;
            Some(c)
        } else {
            None
        }
    }

    /// Record that one previously claimed chunk has completed execution.
    /// A group becomes finished the moment its last outstanding chunk is
    /// recorded here and its cursor has passed the extent.
    pub fn finish_chunk(&mut self)
        requires
            old(self).wf(),
            old(self).chunks_finished < old(self).chunks_launched,
        ensures
            final(self).wf(),
            final(self).chunks_finished == old(self).chunks_finished + 1,
            final(self).chunks_launched == old(self).chunks_launched,
            final(self).start == old(self).start,
            final(self).end == old(self).end,
            final(self).total == old(self).total,
    {
        self.chunks_finished = self.chunks_finished + 1;
    }
}

/// The `[start, end)` ranges of a sequence of chunks, in order.
pub open spec fn ranges_of(s: Seq<Chunk>) -> Seq<(int, int)> {
    Seq::new(s.len(), |i: int| (s[i].start as int, s[i].end as int))
}

impl Group {
    /// Claim chunk after chunk of up to `chunk_size` tasks until this
    /// group is exhausted, returning the chunks in claim order.
    ///
    /// The ranges of the returned chunks form a chain from the old
    /// cursor to the extent; started on a fresh group, they are exactly
    /// the premise of `lemma_partition_complete`, so they tile the whole
    /// flat index space with no gap and no overlap.
    pub fn chunks(&mut self, chunk_size: usize) -> (v: Vec<Chunk>)
        requires
            old(self).wf(),
            chunk_size >= 1,
        ensures
            final(self).wf(),
            final(self).exhausted(),
            final(self).total == old(self).total,
            final(self).end == old(self).end,
            final(self).chunks_finished == old(self).chunks_finished,
            final(self).chunks_launched == old(self).chunks_launched + v@.len(),
            chunk_chain_from(ranges_of(v@), old(self).start as int, old(self).end as int),
            old(self).exhausted() ==> v@.len() == 0,
            !old(self).exhausted() ==> v@.len() > 0 && ranges_of(v@).last().1 == old(self).end,
            forall|k: int|
                0 <= k < v@.len() ==> (#[trigger] v@[k]).wf() && v@[k].total == old(self).total,
    {
        let ghost orig = *self;
        let mut v: Vec<Chunk> = Vec::new();
        while self.start < self.end
            invariant
                self.wf(),
                chunk_size >= 1,
                self.total == orig.total,
                self.end == orig.end,
                self.chunks_finished == orig.chunks_finished,
                self.chunks_launched == orig.chunks_launched + v@.len(),
                orig.start <= self.start,
                chunk_chain_from(ranges_of(v@), orig.start as int, orig.end as int),
                v@.len() == 0 ==> self.start == orig.start,
                v@.len() > 0 ==> ranges_of(v@).last().1 == self.start,
                forall|k: int|
                    0 <= k < v@.len() ==> (#[trigger] v@[k]).wf() && v@[k].total == orig.total,
            decreases self.end - self.start,
        {
            let ghost before = v@;
            let c = self.get_chunk(chunk_size).unwrap();
            proof {
                lemma_chain_push(ranges_of(before), orig.start as int, orig.end as int,
                    (c.start as int, c.end as int));
                assert(ranges_of(before.push(c)) =~= ranges_of(before).push(
                    (c.start as int, c.end as int)));
            }
            v.push(c);
        }
        v
    }
}

/// A chain of claims may grow at its end: a further chunk that begins
/// exactly where the chain left off extends it.
pub proof fn lemma_chain_push(ranges: Seq<(int, int)>, cursor: int, total: int, r: (int, int))
    requires
        chunk_chain_from(ranges, cursor, total),
        r.0 == if ranges.len() == 0 {
            cursor
        } else {
            ranges.last().1
        },
        r.0 < r.1 <= total,
    ensures
        chunk_chain_from(ranges.push(r), cursor, total),
    decreases ranges.len(),
{
    if ranges.len() == 0 {
        assert(ranges.push(r)[0] == r);
        assert(ranges.push(r).drop_first() =~= Seq::<(int, int)>::empty());
        assert(chunk_chain_from(Seq::<(int, int)>::empty(), r.1, total));
    } else {
        assert(ranges.push(r)[0] == ranges[0]);
        assert(ranges.push(r).drop_first() =~= ranges.drop_first().push(r));
        if ranges.len() > 1 {
            assert(ranges.drop_first().last() == ranges.last());
        }
        lemma_chain_push(ranges.drop_first(), ranges[0].1, total, r);
    }
}

/// Where the cursor of a group at `start` lands after a claim of
/// `desired` tasks out of `end`: the claim is clipped to the extent.
pub open spec fn claim_end(start: int, desired: int, end: int) -> int {
    if start + desired <= end {
        start + desired
    } else {
        end
    }
}

/// A chunk of tasks claimed from a group, to be executed by one thread.
///
/// Covers the flat task indices in `[start, end)` of a group whose extent
/// is `total`.
#[derive(Clone, Copy, Debug)]
pub struct Chunk {
    /// First flat task index of this chunk.
    pub start: i32,
    /// One past the last flat task index of this chunk.
    pub end: i32,
    /// Total number of tasks scheduled in the group this chunk came from.
    pub total: (i32, i32, i32),
}

impl Chunk {
    /// A chunk is a non-empty sub-range of its group's flat index space.
    pub open spec fn wf(self) -> bool {
        &&& valid_extent(self.total)
        &&& 0 <= self.start < self.end <= flat_count(self.total)
    }

    /// Create a new chunk to execute the tasks `[start, end)` of `group`.
    pub fn new(group: &Group, start: usize, end: usize) -> (c: Chunk)
        requires
            group.wf(),
            start < end <= group.end,
        ensures
            c.wf(),
            c.start == start,
            c.end == end,
            c.total == group.total,
    {
        Chunk { start: start as i32, end: end as i32, total: group.total }
    }

    /// The 3-D coordinates of flat task `id` within this chunk's extent.
    pub fn task_indices(&self, id: i32) -> (r: (i32, i32, i32))
        requires
            self.wf(),
            0 <= id < flat_count(self.total),
        ensures
            r.0 == task_x(id as int, self.total.0 as int),
            r.1 == task_y(id as int, self.total.0 as int, self.total.1 as int),
            r.2 == task_z(id as int, self.total.0 as int, self.total.1 as int),
            0 <= r.0 < self.total.0,
            0 <= r.1 < self.total.1,
            0 <= r.2 < self.total.2,
            flat_index(r.0 as int, r.1 as int, r.2 as int, self.total.0 as int,
                self.total.1 as int) == id,
    {
        proof {
            lemma_decompose_recompose(id as int, self.total.0 as int, self.total.1 as int,
                self.total.2 as int);
            assert(self.total.0 * self.total.1 <= self.total.0 * self.total.1 * self.total.2)
                by (nonlinear_arith)
                requires
                    0 < self.total.0,
                    0 < self.total.1,
                    0 < self.total.2,
            ;
        }
        (
            id % self.total.0,
            (id / self.total.0) % self.total.1,
            id / (self.total.0 * self.total.1),
        )
    }

    /// The argument tuples for every task of this chunk, in flat-index
    /// order. An executor invokes the task function once per element,
    /// adding the executing thread's index and the thread count.
    pub fn task_args(&self) -> (v: Vec<TaskArgs>)
        requires
            self.wf(),
        ensures
            v.len() == self.end - self.start,
            forall|k: int| 0 <= k < v.len() ==> #[trigger] v[k] == chunk_task_arg(*self, k),
    {
        proof {
            assert(0 < self.total.0 * self.total.1 && self.total.0 * self.total.1 <= self.total.0
                * self.total.1 * self.total.2) by (nonlinear_arith)
                requires
                    0 < self.total.0,
                    0 < self.total.1,
                    0 < self.total.2,
            ;
        }
        let total_tasks: i32 = self.total.0 * self.total.1 * self.total.2;
        let mut v: Vec<TaskArgs> = Vec::new();
        let mut t: i32 = self.start;
        while t < self.end
            invariant
                self.wf(),
                self.start <= t <= self.end,
                total_tasks == flat_count(self.total),
                v.len() == t - self.start,
                forall|k: int| 0 <= k < v.len() ==> #[trigger] v[k] == chunk_task_arg(*self, k),
            decreases self.end - t,
        {
            let id = self.task_indices(t);
            v.push(TaskArgs {
                task_index: t,
                task_count: total_tasks,
                index0: id.0,
                index1: id.1,
                index2: id.2,
                count0: self.total.0,
                count1: self.total.1,
                count2: self.total.2,
            });
            t = t + 1;
        }
        v
    }
}

/// Everything a task function is told about one task, except the identity
/// of the thread that happens to run it.
#[derive(Clone, Copy, Debug, PartialEq, Eq, Structural)]
pub struct TaskArgs {
    /// Flat index of the task being run.
    pub task_index: i32,
    /// Flat number of tasks in the launch.
    pub task_count: i32,
    /// x coordinate of the task being run.
    pub index0: i32,
    /// y coordinate of the task being run.
    pub index1: i32,
    /// z coordinate of the task being run.
    pub index2: i32,
    /// Extent of the launch along x.
    pub count0: i32,
    /// Extent of the launch along y.
    pub count1: i32,
    /// Extent of the launch along z.
    pub count2: i32,
}

/// One recorded task-parameter allocation: the size and alignment that
/// were requested of the host allocator. The context keeps the record so
/// that the memory is released exactly when the context closes, never
/// before.
#[derive(Clone, Copy, Debug, PartialEq, Eq, Structural)]
pub struct AllocRecord {
    /// Requested size in bytes.
    pub size: usize,
    /// Requested alignment in bytes.
    pub align: usize,
}

/// The value of a group the instant a launch call creates it.
pub open spec fn fresh_group(total: (i32, i32, i32)) -> Group {
    Group {
        start: 0,
        end: flat_count(total) as usize,
        total,
        chunks_launched: 0,
        chunks_finished: 0,
    }
}

/// A list of all task groups spawned in one launch context, synchronized
/// at an explicit sync call.
///
/// A context is done if and only if sync has been called on its handle
/// and all of its groups are finished. Until then more groups may be
/// launched into it, and its parameter allocations must stay alive,
/// because a late chunk of any of its groups may still read them.
#[derive(Debug)]
pub struct Context {
    /// Task groups launched by this context.
    pub tasks: Vec<Group>,
    /// The parameter allocations made on behalf of this context's groups.
    pub mem: Vec<AllocRecord>,
    /// A unique identifier for this context.
    pub id: usize,
}

impl Context {
    /// Every group of the context is internally consistent.
    pub open spec fn wf(self) -> bool {
        forall|i: int| 0 <= i < self.tasks@.len() ==> (#[trigger] self.tasks@[i]).wf()
    }

    /// Every chunk handed out by this context's groups has completed:
    /// nothing is claimed but still running.
    pub open spec fn settled(self) -> bool {
        forall|i: int|
            0 <= i < self.tasks@.len() ==> (#[trigger] self.tasks@[i]).chunks_finished
                == self.tasks@[i].chunks_launched
    }

    /// Every group of the context is finished.
    pub open spec fn done(self) -> bool {
        forall|i: int| 0 <= i < self.tasks@.len() ==> (#[trigger] self.tasks@[i]).finished()
    }

    /// Every group of the context is exhausted: nothing is left to claim,
    /// though claimed chunks may still be running.
    pub open spec fn all_exhausted(self) -> bool {
        forall|i: int| 0 <= i < self.tasks@.len() ==> (#[trigger] self.tasks@[i]).exhausted()
    }

    /// How many tasks launched in this context no chunk has claimed yet.
    pub open spec fn unclaimed(self) -> nat {
        groups_unclaimed(self.tasks@)
    }

    /// Create a new, empty list of task groups under the identifier `id`.
    pub fn new(id: usize) -> (c: Context)
        ensures
            c.id == id,
            c.tasks@.len() == 0,
            c.mem@.len() == 0,
            c.wf(),
            c.settled(),
    {
        Context { tasks: Vec::new(), mem: Vec::new(), id }
    }

    /// Add a task group launched in this context.
    pub fn launch(&mut self, total: (i32, i32, i32))
        requires
            old(self).wf(),
            valid_extent(total),
        ensures
            final(self).wf(),
            final(self).id == old(self).id,
            final(self).mem == old(self).mem,
            final(self).tasks@ == old(self).tasks@.push(fresh_group(total)),
            old(self).settled() ==> final(self).settled(),
    {
        let g = Group::new(total);
        proof {
            assert(g == fresh_group(total));
        }
        self.tasks.push(g);
    }

    /// Check if all task groups currently in this context are finished.
    ///
    /// More groups may be launched into the context afterwards, so a
    /// positive answer closes the context only once sync has been called
    /// and no further launches can arrive.
    pub fn current_tasks_done(&self) -> (r: bool)
        requires
            self.wf(),
        ensures
            r == self.done(),
    {
        let mut i: usize = 0;
        while i < self.tasks.len()
            invariant
                self.wf(),
                i <= self.tasks@.len(),
                forall|j: int| 0 <= j < i ==> (#[trigger] self.tasks@[j]).finished(),
            decreases self.tasks@.len() - i,
        {
            if !self.tasks[i].is_finished() {
                return false;
            }
            i = i + 1;
        }
        true
    }

    /// Record an allocation of task-parameter memory for this context and
    /// return the slot under which it is recorded. The host memory paired
    /// with the slot may be released only when the context closes.
    pub fn allocate(&mut self, size: usize, align: usize) -> (slot: usize)
        requires
            old(self).wf(),
        ensures
            final(self).wf(),
            final(self).id == old(self).id,
            final(self).tasks == old(self).tasks,
            final(self).mem@ == old(self).mem@.push(AllocRecord { size, align }),
            slot == old(self).mem@.len(),
            old(self).settled() ==> final(self).settled(),
    {
        let slot = self.mem.len();
        self.mem.push(AllocRecord { size, align });
        slot
    }

    /// Find a group with tasks remaining to be claimed; returns the index
    /// of the first such group, or nothing if every group is exhausted.
    pub fn get_active_group(&self) -> (r: Option<usize>)
        requires
            self.wf(),
        ensures
            match r {
                Some(i) => {
                    &&& i < self.tasks@.len()
                    &&& !self.tasks@[i as int].exhausted()
                    &&& forall|j: int| 0 <= j < i ==> (#[trigger] self.tasks@[j]).exhausted()
                },
                None => forall|j: int|
                    0 <= j < self.tasks@.len() ==> (#[trigger] self.tasks@[j]).exhausted(),
            },
    {
        let mut i: usize = 0;
        while i < self.tasks.len()
            invariant
                self.wf(),
                i <= self.tasks@.len(),
                forall|j: int| 0 <= j < i ==> (#[trigger] self.tasks@[j]).exhausted(),
            decreases self.tasks@.len() - i,
        {
            if self.tasks[i].has_tasks() {
                return Some(i);
            }
            i = i + 1;
        }
        None
    }

    /// Claim a chunk of up to `desired_tasks` tasks from group `gi` of
    /// this context.
    pub fn get_chunk_from(&mut self, gi: usize, desired_tasks: usize) -> (r: Option<Chunk>)
        requires
            old(self).wf(),
            gi < old(self).tasks@.len(),
            desired_tasks >= 1,
        ensures
            final(self).wf(),
            final(self).id == old(self).id,
            final(self).mem == old(self).mem,
            final(self).tasks@.len() == old(self).tasks@.len(),
            forall|j: int|
                0 <= j < old(self).tasks@.len() && j != gi ==> final(self).tasks@[j] == old(
                    self).tasks@[j],
            final(self).tasks@[gi as int].chunks_finished == old(self).tasks@[
                gi as int].chunks_finished,
            final(self).tasks@[gi as int].end == old(self).tasks@[gi as int].end,
            final(self).tasks@[gi as int].total == old(self).tasks@[gi as int].total,
            match r {
                Some(c) => {
                    &&& !old(self).tasks@[gi as int].exhausted()
                    &&& c.wf()
                    &&& c.total == old(self).tasks@[gi as int].total
                    &&& c.start == old(self).tasks@[gi as int].start
                    &&& c.end == claim_end(old(self).tasks@[gi as int].start as int,
                        desired_tasks as int, old(self).tasks@[gi as int].end as int)
                    &&& c.end == final(self).tasks@[gi as int].start
                    &&& final(self).tasks@[gi as int].chunks_launched == old(self).tasks@[
                        gi as int].chunks_launched + 1
                },
                None => {
                    &&& old(self).tasks@[gi as int].exhausted()
                    &&& final(self).tasks@ == old(self).tasks@
                },
            },
    {
        let r = self.tasks[gi].get_chunk(desired_tasks);
        proof {
            if r is None {
                assert(final(self).tasks@ =~= old(self).tasks@);
            }
        }
        r
    }

    /// Record that a chunk previously claimed from group `gi` of this
    /// context has completed execution.
    pub fn finish_chunk_in(&mut self, gi: usize)
        requires
            old(self).wf(),
            gi < old(self).tasks@.len(),
            old(self).tasks@[gi as int].chunks_finished < old(self).tasks@[
                gi as int].chunks_launched,
        ensures
            final(self).wf(),
            final(self).id == old(self).id,
            final(self).mem == old(self).mem,
            final(self).tasks@ == old(self).tasks@.update(gi as int,
                final(self).tasks@[gi as int]),
            final(self).tasks@[gi as int].chunks_finished == old(self).tasks@[
                gi as int].chunks_finished + 1,
            final(self).tasks@[gi as int].chunks_launched == old(self).tasks@[
                gi as int].chunks_launched,
            final(self).tasks@[gi as int].start == old(self).tasks@[gi as int].start,
            final(self).tasks@[gi as int].end == old(self).tasks@[gi as int].end,
            final(self).tasks@[gi as int].total == old(self).tasks@[gi as int].total,
    {
        self.tasks[gi].finish_chunk();
    }
}

/// The claim history of one group from a cursor position: the
/// `[start, end)` ranges of the chunks it handed out, in claim order.
/// Each chunk begins exactly where the cursor stood, is never empty, and
/// never passes the extent `total`.
///
/// `Group::get_chunk` guarantees precisely this shape: every returned
/// chunk begins at the cursor's old position and moves the cursor to the
/// chunk's end. So the ranges of any sequence of claims -- from however
/// many threads, in whatever order the atomic cursor serialized them --
/// form such a chain starting at cursor 0.
pub open spec fn chunk_chain_from(ranges: Seq<(int, int)>, cursor: int, total: int) -> bool
    decreases ranges.len(),
{
    if ranges.len() == 0 {
        true
    } else {
        &&& ranges[0].0 == cursor
        &&& cursor < ranges[0].1 <= total
        &&& chunk_chain_from(ranges.drop_first(), ranges[0].1, total)
    }
}

/// The claim history of one group, claimed from a fresh cursor.
pub open spec fn chunk_chain(ranges: Seq<(int, int)>, total: int) -> bool {
    chunk_chain_from(ranges, 0, total)
}

/// Task `id` lies in one of the claimed chunks.
pub open spec fn chain_covers_id(ranges: Seq<(int, int)>, id: int) -> bool {
    exists|i: int| 0 <= i < ranges.len() && (#[trigger] ranges[i]).0 <= id < ranges[i].1
}

/// What a chain of claims guarantees: chunks stay within
/// `[cursor, total)`, earlier chunks lie entirely before later ones, and
/// every index from the cursor up to the last chunk's end is covered.
pub proof fn lemma_chain_from_properties(ranges: Seq<(int, int)>, cursor: int, total: int)
    requires
        chunk_chain_from(ranges, cursor, total),
    ensures
        forall|i: int|
            0 <= i < ranges.len() ==> cursor <= (#[trigger] ranges[i]).0 < ranges[i].1 <= total,
        forall|i: int, j: int|
            0 <= i < j < ranges.len() ==> (#[trigger] ranges[i]).1 <= (#[trigger] ranges[j]).0,
        forall|id: int|
            ranges.len() > 0 && cursor <= id < ranges.last().1 ==> #[trigger] chain_covers_id(
                ranges, id),
    decreases ranges.len(),
{
    if ranges.len() > 0 {
        let rest = ranges.drop_first();
        lemma_chain_from_properties(rest, ranges[0].1, total);
        assert forall|i: int| 0 <= i < ranges.len() implies cursor <= (#[trigger] ranges[i]).0
            < ranges[i].1 <= total by {
            if i > 0 {
                assert(rest[i - 1] == ranges[i]);
            }
        }
        assert forall|i: int, j: int| 0 <= i < j < ranges.len() implies (
        #[trigger] ranges[i]).1 <= (#[trigger] ranges[j]).0 by {
            assert(rest[j - 1] == ranges[j]);
            if i > 0 {
                assert(rest[i - 1] == ranges[i]);
            }
        }
        assert forall|id: int| ranges.len() > 0 && cursor <= id < ranges.last().1
            implies #[trigger] chain_covers_id(ranges, id) by {
            if id < ranges[0].1 {
                assert(ranges[0].0 <= id < ranges[0].1);
            } else {
                assert(rest.len() > 0);
                assert(rest.last() == ranges.last());
                assert(chain_covers_id(rest, id));
                let k = choose|k: int|
                    0 <= k < rest.len() && (#[trigger] rest[k]).0 <= id < rest[k].1;
                assert(rest[k] == ranges[k + 1]);
                assert(ranges[k + 1].0 <= id < ranges[k + 1].1);
            }
        }
    }
}

/// Partition completeness: once a group's claims have exhausted it, the
/// chunks handed out tile the flat index space `[0, total)` exactly --
/// their union is the whole space, and no two of them overlap.
///
/// A group is exhausted exactly when the last chunk's end reached the
/// extent (an empty extent hands out no chunks at all), which is what the
/// second premise states.
pub proof fn lemma_partition_complete(ranges: Seq<(int, int)>, total: int)
    requires
        chunk_chain(ranges, total),
        if ranges.len() == 0 {
            total == 0
        } else {
            ranges.last().1 == total
        },
    ensures
        forall|id: int| 0 <= id < total ==> #[trigger] chain_covers_id(ranges, id),
        forall|i: int, j: int|
            0 <= i < j < ranges.len() ==> (#[trigger] ranges[i]).1 <= (#[trigger] ranges[j]).0,
        forall|i: int|
            0 <= i < ranges.len() ==> 0 <= (#[trigger] ranges[i]).0 < ranges[i].1 <= total,
{
    lemma_chain_from_properties(ranges, 0, total);
}

/// Total number of tasks in `s` that no chunk has claimed yet.
pub open spec fn groups_unclaimed(s: Seq<Group>) -> nat
    decreases s.len(),
{
    if s.len() == 0 {
        0
    } else {
        s[0].unclaimed() + groups_unclaimed(s.drop_first())
    }
}

/// Replacing the group at `i` changes the unclaimed total of the list by
/// exactly the difference between the two groups' unclaimed tasks.
pub proof fn lemma_groups_unclaimed_update(s: Seq<Group>, i: int, g: Group)
    requires
        0 <= i < s.len(),
    ensures
        groups_unclaimed(s.update(i, g)) + s[i].unclaimed() == groups_unclaimed(s)
            + g.unclaimed(),
    decreases s.len(),
{
    if i == 0 {
        assert(s.update(0, g).drop_first() =~= s.drop_first());
    } else {
        assert(s.update(i, g).drop_first() =~= s.drop_first().update(i - 1, g));
        lemma_groups_unclaimed_update(s.drop_first(), i - 1, g);
    }
}

/// The arguments handed to the `k`-th task of chunk `c`.
pub open spec fn chunk_task_arg(c: Chunk, k: int) -> TaskArgs {
    TaskArgs {
        task_index: (c.start + k) as i32,
        task_count: flat_count(c.total) as i32,
        index0: task_x(c.start + k, c.total.0 as int) as i32,
        index1: task_y(c.start + k, c.total.0 as int, c.total.1 as int) as i32,
        index2: task_z(c.start + k, c.total.0 as int, c.total.1 as int) as i32,
        count0: c.total.0,
        count1: c.total.1,
        count2: c.total.2,
    }
}

} // verus!
