//! Fixed-capacity primitives for a firmware runtime that must not allocate:
//! a bounded FIFO job queue for deferring short units of work, and a bounded
//! command-dispatch table (in [`registry`]) for routing numeric command
//! identifiers to handler objects. All storage is sized up front, every
//! failure is an explicit result value, and no operation panics.

use vstd::prelude::*;

pub mod registry;

verus! {

/// The failures the runtime primitives can report. Job bodies report their
/// own failures with the same type, and the queue passes them through
/// unchanged.
#[derive(Clone, Copy, Debug, PartialEq, Eq, Structural)]
pub enum RuntimeError {
    /// `add` was called on a queue already holding `JOB_QUEUE_CAPACITY` jobs.
    JobQueueFull,
    /// `register_handler` was called on a table already holding
    /// `REGISTRY_CAPACITY` entries.
    RegistryFull,
    /// `handle_command` found no handler registered for the requested id.
    HandlerNotFound,
}

/// Number of job slots in a `JobQueue`.
pub const JOB_QUEUE_CAPACITY: usize = 8;

/// The slot `offset` places past `start`, wrapping at the capacity.
/// Meaningful for `0 <= start < JOB_QUEUE_CAPACITY` and
/// `0 <= offset < JOB_QUEUE_CAPACITY`.
spec fn ring_index(start: int, offset: int) -> int {
    if start + offset < JOB_QUEUE_CAPACITY {
        start + offset
    } else {
        start + offset - JOB_QUEUE_CAPACITY
    }
}

/// How many places past `start` the slot `j` lies, wrapping at the capacity:
/// the inverse of `ring_index(start, _)`.
spec fn ring_offset(start: int, j: int) -> int {
    if j >= start {
        j - start
    } else {
        j - start + JOB_QUEUE_CAPACITY
    }
}

/// A fixed-capacity FIFO ring buffer of deferred zero-argument jobs.
///
/// Jobs are enqueued with [`JobQueue::add`] and executed one at a time, in
/// the order they were added, with [`JobQueue::execute_next`]. The
/// full/empty distinction is resolved by slot occupancy: the slot at the
/// write index is occupied exactly when the queue is full, so no separate
/// count field is needed.
pub struct JobQueue<F> {
    /// The ring of job slots, always exactly `JOB_QUEUE_CAPACITY` long.
    slots: Vec<Option<F>>,
    /// Index of the next slot to execute, wraps modulo the capacity.
    next_read: usize,
    /// Index of the next slot to fill, wraps modulo the capacity.
    next_write: usize,
}

impl<F: Fn() -> Result<(), RuntimeError>> JobQueue<F> {
    /// How many jobs are pending. When the read and write indices differ the
    /// count is their circular distance; when they coincide the queue is
    /// either empty or full, told apart by the occupancy of the read slot.
    pub closed spec fn count(self) -> int {
        if self.next_read != self.next_write {
            ring_offset(self.next_read as int, self.next_write as int)
        } else if self.slots[self.next_read as int] is Some {
            JOB_QUEUE_CAPACITY as int
        } else {
            0
        }
    }

    /// Well-formedness: the ring has exactly `JOB_QUEUE_CAPACITY` slots, the
    /// indices are in range, the occupied slots are exactly the circular
    /// window of `count()` slots starting at `next_read`, and every stored
    /// job may be invoked with no arguments.
    pub closed spec fn wf(self) -> bool {
        &&& self.slots.len() == JOB_QUEUE_CAPACITY
        &&& self.next_read < JOB_QUEUE_CAPACITY
        &&& self.next_write < JOB_QUEUE_CAPACITY
        &&& forall|j: int|
            0 <= j < JOB_QUEUE_CAPACITY ==> ((#[trigger] self.slots[j]) is Some <==> ring_offset(
                self.next_read as int,
                j,
            ) < self.count())
        &&& forall|j: int|
            0 <= j < JOB_QUEUE_CAPACITY && (#[trigger] self.slots[j]) is Some ==> call_requires(
                self.slots[j]->Some_0,
                (),
            )
    }

    /// The pending jobs, oldest first: the abstract value of the queue.
    pub closed spec fn pending(self) -> Seq<F> {
        Seq::new(
            self.count() as nat,
            |i: int| self.slots[ring_index(self.next_read as int, i)]->Some_0,
        )
    }

    /// Create a new, empty job queue.
    pub fn new() -> (queue: Self)
        ensures
            queue.wf(),
            queue.pending() == Seq::<F>::empty(),
    {
        let mut slots: Vec<Option<F>> = Vec::new();
        let mut i: usize = 0;
        while i < JOB_QUEUE_CAPACITY
            invariant
                i <= JOB_QUEUE_CAPACITY,
                slots.len() == i,
                forall|j: int| 0 <= j < i ==> (#[trigger] slots[j]) is None,
            decreases JOB_QUEUE_CAPACITY - i,
        {
            slots.push(None);
            i += 1;
        }
        let queue = JobQueue { slots, next_read: 0, next_write: 0 };
        proof {
            assert(queue.pending() =~= Seq::<F>::empty());
        }
        queue
    }

    /// Advance the read index by one, wrapping around at the capacity.
    fn increment_next(&mut self)
        requires
            old(self).next_read < JOB_QUEUE_CAPACITY,
        ensures
            final(self).next_read == ring_index(old(self).next_read as int, 1),
            final(self).next_write == old(self).next_write,
            final(self).slots == old(self).slots,
    {
        self.next_read = (self.next_read + 1) % JOB_QUEUE_CAPACITY;
    }

    /// Advance the write index by one, wrapping around at the capacity.
    fn increment_add(&mut self)
        requires
            old(self).next_write < JOB_QUEUE_CAPACITY,
        ensures
            final(self).next_write == ring_index(old(self).next_write as int, 1),
            final(self).next_read == old(self).next_read,
            final(self).slots == old(self).slots,
    {
        self.next_write = (self.next_write + 1) % JOB_QUEUE_CAPACITY;
    }

    /// Add a job to the back of the queue.
    ///
    /// Succeeds exactly when the queue is not full; a full queue reports
    /// `JobQueueFull` and is left unchanged. The job must be invocable with
    /// no arguments, since `execute_next` will invoke it.
    pub fn add(&mut self, job: F) -> (result: Result<(), RuntimeError>)
        requires
            old(self).wf(),
            call_requires(job, ()),
        ensures
            final(self).wf(),
            old(self).pending().len() < JOB_QUEUE_CAPACITY ==> {
                &&& result == Ok::<(), RuntimeError>(())
                &&& final(self).pending() == old(self).pending().push(job)
            },
            old(self).pending().len() == JOB_QUEUE_CAPACITY ==> {
                &&& result == Err::<(), RuntimeError>(RuntimeError::JobQueueFull)
                &&& *final(self) == *old(self)
            },
    {
        if self.slots[self.next_write].is_some() {
            return Err(RuntimeError::JobQueueFull);
        }
        self.slots[self.next_write] = Some(job);
        self.increment_add();
        proof {
            assert(self.pending() =~= old(self).pending().push(job));
        }
        Ok(())
    }

    /// Execute the oldest pending job, if any.
    ///
    /// On a non-empty queue the front job is removed and invoked exactly
    /// once, and whatever result the job body returns is passed through
    /// unchanged; a failing job is still consumed, never retried. On an
    /// empty queue this is a no-op that returns success.
    pub fn execute_next(&mut self) -> (result: Result<(), RuntimeError>)
        requires
            old(self).wf(),
        ensures
            final(self).wf(),
            old(self).pending().len() == 0 ==> {
                &&& result == Ok::<(), RuntimeError>(())
                &&& *final(self) == *old(self)
            },
            old(self).pending().len() > 0 ==> {
                &&& final(self).pending() == old(self).pending().drop_first()
                &&& call_ensures(old(self).pending()[0], (), result)
            },
    {
        if self.slots[self.next_read].is_some() {
            let job = self.slots[self.next_read].take().unwrap();
            self.increment_next();
            proof {
                assert(self.pending() =~= old(self).pending().drop_first());
            }
            job()
        } else {
            Ok(())
        }
    }
}

/// Law (bounded capacity): a well-formed queue never holds more than
/// `JOB_QUEUE_CAPACITY` pending jobs, so `add` alone decides when the
/// queue is full.
pub proof fn lemma_job_queue_pending_bounded<F: Fn() -> Result<(), RuntimeError>>(
    queue: JobQueue<F>,
)
    requires
        queue.wf(),
    ensures
        queue.pending().len() <= JOB_QUEUE_CAPACITY,
{
}

/// Law (FIFO under interleaving): `add` appends to the back of `pending()`
/// while `execute_next` consumes its front, so an `add` interleaved into a
/// sequence of executions never changes which job runs next, nor the
/// relative order of the jobs already pending. Together with the contracts
/// of `add` and `execute_next` this gives strict first-in-first-out
/// execution for every interleaving that stays within capacity.
pub proof fn lemma_add_never_reorders_pending<F>(jobs: Seq<F>, job: F)
    requires
        jobs.len() > 0,
    ensures
        jobs.push(job)[0] == jobs[0],
        jobs.push(job).drop_first() == jobs.drop_first().push(job),
{
    assert(jobs.push(job).drop_first() =~= jobs.drop_first().push(job));
}

/// Law (wraparound): a queue that has been completely drained — however
/// many fill-and-drain cycles it has been through — is indistinguishable
/// through its interface from a freshly created one. Every contract of the
/// queue is stated over `wf()` and `pending()` alone, and a drained queue
/// agrees on both with a fresh one: each is well formed with no residual
/// pending jobs.
pub proof fn lemma_drained_queue_matches_fresh<F: Fn() -> Result<(), RuntimeError>>(
    drained: JobQueue<F>,
    fresh: JobQueue<F>,
)
    requires
        drained.wf(),
        drained.pending().len() == 0,
        fresh.wf(),
        fresh.pending().len() == 0,
    ensures
        drained.pending() == fresh.pending(),
{
    assert(drained.pending() =~= fresh.pending());
}

} // verus!

