//! The worker-pool core.
//!
//! A pool owns a fixed set of workers and the sending end of a FIFO dispatch
//! queue. Callers submit jobs; idle workers take them off the queue, one at a
//! time and in enqueue order, and run each job exactly once. Shutting down
//! closes the sending end, lets the workers drain what is already queued, and
//! then joins every worker thread exactly once.
//!
//! This module holds the pool's protocol: the lifecycle state machine, the
//! queue bookkeeping, and the decisions the running system takes at each
//! step. A job is opaque to the pool and is represented by a ticket
//! ([`JobId`]); the caller keeps the association between a ticket and the
//! work it stands for. The threads themselves, which Verus cannot reason
//! about, live outside this crate: they perform the blocking receive and the
//! joins, and consult [`Worker::handle_message`] and the pool's transitions
//! for every decision.

use vstd::prelude::*;

verus! {

/// The ticket that stands for one submitted job.
pub type JobId = u64;

/// Returned when a pool is asked for with no workers at all.
#[derive(Debug)]
pub struct PoolCreationError;

impl PoolCreationError {
    /// The human-readable description of the error.
    pub fn message(&self) -> (r: &'static str)
        ensures
            r@ == "Size cannot be 0"@,
    {
        "Size cannot be 0"
    }
}

/// Returned by [`ThreadPool::submit`] once shutdown has begun: the job was
/// not enqueued and will never run.
#[derive(Debug, PartialEq, Eq, Structural)]
pub enum SubmitError {
    PoolClosed,
}

/// The pool's lifecycle. `Running` accepts jobs; `ShuttingDown` is entered by
/// closing the queue's sending side and only drains; `Terminated` is final:
/// every worker has exited and been joined, and no transition leaves it.
#[derive(Debug, Clone, Copy, PartialEq, Eq, Structural)]
pub enum PoolState {
    Running,
    ShuttingDown,
    Terminated,
}

/// What the shared receiving end of the dispatch queue handed to a worker.
pub enum WorkerEvent {
    /// A job arrived; the worker owns it now.
    Received(JobId),
    /// The sending side is closed and the queue is empty.
    Disconnected,
}

/// What a worker does after one receive.
#[derive(Debug, PartialEq, Eq, Structural)]
pub enum WorkerAction {
    /// Run this job to completion (with the queue lock already released),
    /// then go back to receiving.
    Execute(JobId),
    /// Leave the loop; the worker's thread terminates.
    Exit,
}

/// What one attempt to take a job off the queue found.
pub enum RecvOutcome {
    /// The oldest queued job, now delivered to the asking worker.
    Job(JobId),
    /// Nothing queued, but the pool still runs: a worker keeps waiting.
    Empty,
    /// Nothing queued and the sending side is closed: the worker exits.
    Closed,
}

/// One worker of the pool: an index for identity and, while the worker has
/// not been joined, a joinable thread handle. Taking the handle exactly once
/// (leaving none behind) is what rules out a double join.
#[derive(Clone, Copy)]
pub struct Worker {
    id: usize,
    joinable: bool,
}

impl Worker {
    /// The worker's index within its pool.
    pub closed spec fn spec_id(self) -> usize {
        self.id
    }

    /// Whether the worker still holds a joinable thread handle.
    pub closed spec fn joinable(self) -> bool {
        self.joinable
    }

    /// Brings up worker `id`, bound to the pool's shared receiving end.
    pub fn new(id: usize) -> (w: Worker)
        ensures
            w.spec_id() == id,
            w.joinable(),
    {
        Worker { id, joinable: true }
    }

    /// The body of the worker loop, one iteration: a received job is run
    /// exactly once, a disconnect ends the loop. This is the only place a
    /// job changes hands, so a job delivered once is executed once.
    pub fn handle_message(message: WorkerEvent) -> (a: WorkerAction)
        ensures
            (message matches WorkerEvent::Received(job) ==> a == WorkerAction::Execute(job)),
            (message is Disconnected ==> a is Exit),
            (a is Exit ==> message is Disconnected),
    {
        match message {
            WorkerEvent::Received(job) => WorkerAction::Execute(job),
            WorkerEvent::Disconnected => WorkerAction::Exit,
        }
    }
}

/// A fixed-capacity pool of workers sharing one FIFO dispatch queue.
///
/// `queue` holds the jobs accepted but not yet handed to a worker, oldest
/// first; `delivered` the jobs already handed over, in delivery order. The
/// ghost `accepted` sequence records every job `submit` ever accepted, so
/// that the pool's central invariant can be stated: the delivered jobs
/// followed by the still-queued ones are exactly the accepted ones, in
/// acceptance order. Nothing is ever lost, duplicated or reordered.
pub struct ThreadPool {
    state: PoolState,
    queue: Vec<JobId>,
    delivered: Vec<JobId>,
    workers: Vec<Worker>,
    accepted: Ghost<Seq<JobId>>,
}

impl ThreadPool {
    /// The pool's place in its lifecycle.
    pub closed spec fn spec_state(self) -> PoolState {
        self.state
    }

    /// Jobs accepted and not yet handed to a worker, oldest first.
    pub closed spec fn pending(self) -> Seq<JobId> {
        self.queue@
    }

    /// Jobs handed to a worker so far, in delivery order. Each is executed
    /// exactly once by the worker it went to ([`Worker::handle_message`]).
    pub closed spec fn delivered(self) -> Seq<JobId> {
        self.delivered@
    }

    /// Every job `submit` accepted, in acceptance order.
    pub closed spec fn accepted(self) -> Seq<JobId> {
        self.accepted@
    }

    /// The fixed number of workers.
    pub closed spec fn spec_capacity(self) -> nat {
        self.workers@.len()
    }

    /// Whether worker `i` still holds its joinable thread handle.
    pub closed spec fn worker_joinable(self, i: int) -> bool {
        self.workers@[i].joinable()
    }

    /// The pool's invariant. Constructors establish it and every operation
    /// preserves it.
    pub closed spec fn wf(self) -> bool {
        &&& self.accepted@ == self.delivered@ + self.queue@
        &&& self.workers@.len() >= 1
        &&& (forall|i: int|
            0 <= i < self.workers@.len() ==> (#[trigger] self.workers@[i]).spec_id() == i)
        &&& (self.state is Running ==> forall|i: int|
            0 <= i < self.workers@.len() ==> (#[trigger] self.workers@[i]).joinable())
        &&& (self.state is Terminated ==> self.queue@.len() == 0 && forall|i: int|
            0 <= i < self.workers@.len() ==> !(#[trigger] self.workers@[i]).joinable())
    }

    /// Creates a pool of `capacity` workers, all bound to one shared
    /// receiving end, and starts it in the `Running` state. A pool with no
    /// workers at all is a programmer error and is ruled out here; the
    /// fallible alternative is [`ThreadPool::build`].
    pub fn new(capacity: usize) -> (p: ThreadPool)
        requires
            capacity >= 1,
        ensures
            p.wf(),
            p.spec_state() is Running,
            p.spec_capacity() == capacity,
            p.pending() == Seq::<JobId>::empty(),
            p.delivered() == Seq::<JobId>::empty(),
            p.accepted() == Seq::<JobId>::empty(),
    {
        let mut workers: Vec<Worker> = Vec::new();
        let mut id: usize = 0;
        while id < capacity
            invariant
                id <= capacity,
                workers@.len() == id,
                forall|i: int|
                    0 <= i < id ==> (#[trigger] workers@[i]).spec_id() == i
                        && workers@[i].joinable(),
            decreases capacity - id,
        {
            workers.push(Worker::new(id));
            id = id + 1;
        }
        let p = ThreadPool {
            state: PoolState::Running,
            queue: Vec::new(),
            delivered: Vec::new(),
            workers,
            accepted: Ghost(Seq::empty()),
        };
        proof {
            assert(p.accepted@ =~= p.delivered@ + p.queue@);
        }
        p
    }

    /// The fallible constructor: a capacity of zero is reported as a
    /// [`PoolCreationError`] instead of being ruled out up front, and never
    /// yields a zero-worker pool.
    pub fn build(capacity: usize) -> (r: Result<ThreadPool, PoolCreationError>)
        ensures
            r is Ok <==> capacity >= 1,
            r matches Ok(p) ==> {
                &&& p.wf()
                &&& p.spec_state() is Running
                &&& p.spec_capacity() == capacity
                &&& p.pending() == Seq::<JobId>::empty()
                &&& p.delivered() == Seq::<JobId>::empty()
                &&& p.accepted() == Seq::<JobId>::empty()
            },
    {
        if capacity == 0 {
            Err(PoolCreationError)
        } else {
            Ok(ThreadPool::new(capacity))
        }
    }

    /// How one `submit` call relates the pool before it, the pool after it,
    /// the offered job and the result: a running pool appends the job to the
    /// queue and reports success; a closed pool changes nothing and reports
    /// `PoolClosed`. Either way the call returns at once and the job is
    /// never silently dropped.
    pub open spec fn submit_post(
        pre: ThreadPool,
        post: ThreadPool,
        job: JobId,
        r: Result<(), SubmitError>,
    ) -> bool {
        &&& post.spec_state() == pre.spec_state()
        &&& post.spec_capacity() == pre.spec_capacity()
        &&& post.delivered() == pre.delivered()
        &&& (forall|i: int|
            0 <= i < pre.spec_capacity() ==> post.worker_joinable(i) == pre.worker_joinable(i))
        &&& if pre.spec_state() is Running {
            &&& r is Ok
            &&& post.pending() == pre.pending().push(job)
            &&& post.accepted() == pre.accepted().push(job)
        } else {
            &&& r == Err::<(), SubmitError>(SubmitError::PoolClosed)
            &&& post.pending() == pre.pending()
            &&& post.accepted() == pre.accepted()
        }
    }

    /// Offers a job to the pool. Accepted only while the pool is running;
    /// acceptance promises exactly one delivery, in submission order, unless
    /// shutdown begins first — and even then the job is either delivered
    /// during the drain or was rejected here, never lost in between.
    pub fn submit(&mut self, job: JobId) -> (r: Result<(), SubmitError>)
        requires
            old(self).wf(),
        ensures
            final(self).wf(),
            Self::submit_post(*old(self), *final(self), job, r),
    {
        match self.state {
            PoolState::Running => {
                self.queue.push(job);
                proof {
                    self.accepted@ = self.accepted@.push(job);
                    assert(self.accepted@ =~= self.delivered@ + self.queue@);
                }
                Ok(())
            },
            _ => Err(SubmitError::PoolClosed),
        }
    }

    /// Hands a job to the pool that the caller knows it may not refuse: the
    /// pool must still be running. The infallible face of [`ThreadPool::submit`].
    pub fn execute(&mut self, job: JobId)
        requires
            old(self).wf(),
            old(self).spec_state() is Running,
        ensures
            final(self).wf(),
            Self::submit_post(*old(self), *final(self), job, Ok(())),
    {
        let r = self.submit(job);
        proof {
            assert(r is Ok);
        }
    }

    /// How closing the sending side relates the pool before and after: a
    /// running pool moves to `ShuttingDown`, any other pool is left as it
    /// is, and the queue is untouched — closing never discards jobs.
    pub open spec fn close_post(pre: ThreadPool, post: ThreadPool) -> bool {
        &&& post.spec_state() == (if pre.spec_state() is Running {
            PoolState::ShuttingDown
        } else {
            pre.spec_state()
        })
        &&& post.pending() == pre.pending()
        &&& post.delivered() == pre.delivered()
        &&& post.accepted() == pre.accepted()
        &&& post.spec_capacity() == pre.spec_capacity()
        &&& (forall|i: int|
            0 <= i < pre.spec_capacity() ==> post.worker_joinable(i) == pre.worker_joinable(i))
    }

    /// Closes the sending side of the dispatch queue. This is the sole
    /// shutdown signal — there is no separate stop flag — and it is
    /// harmless to repeat: a side already closed stays closed.
    pub fn begin_shutdown(&mut self)
        requires
            old(self).wf(),
        ensures
            final(self).wf(),
            Self::close_post(*old(self), *final(self)),
    {
        match self.state {
            PoolState::Running => {
                self.state = PoolState::ShuttingDown;
            },
            _ => {},
        }
    }

    /// How one receive relates the pool before and after it and the outcome:
    /// a non-empty queue hands out its oldest job, moving it to the
    /// delivered log; an empty queue reports `Empty` while running (the
    /// worker keeps waiting) and `Closed` once shutdown has begun (the
    /// worker exits). Delivery order is enqueue order.
    pub open spec fn recv_post(pre: ThreadPool, post: ThreadPool, r: RecvOutcome) -> bool {
        &&& post.spec_state() == pre.spec_state()
        &&& post.spec_capacity() == pre.spec_capacity()
        &&& post.accepted() == pre.accepted()
        &&& (forall|i: int|
            0 <= i < pre.spec_capacity() ==> post.worker_joinable(i) == pre.worker_joinable(i))
        &&& if pre.pending().len() > 0 {
            &&& r == RecvOutcome::Job(pre.pending()[0])
            &&& post.pending() == pre.pending().skip(1)
            &&& post.delivered() == pre.delivered().push(pre.pending()[0])
        } else {
            &&& post.pending() == pre.pending()
            &&& post.delivered() == pre.delivered()
            &&& (pre.spec_state() is Running ==> r is Empty)
            &&& (!(pre.spec_state() is Running) ==> r is Closed)
        }
    }

    /// One worker's attempt to take the next job: the model of the blocking
    /// receive on the shared, mutually excluded receiving end. The lock is
    /// held for this step only, never while the job runs, so other workers
    /// can receive while this one executes.
    pub fn recv_next(&mut self) -> (r: RecvOutcome)
        requires
            old(self).wf(),
        ensures
            final(self).wf(),
            Self::recv_post(*old(self), *final(self), r),
    {
        if self.queue.len() > 0 {
            let job = self.queue.remove(0);
            self.delivered.push(job);
            proof {
                assert(self.accepted@ =~= self.delivered@ + self.queue@);
            }
            RecvOutcome::Job(job)
        } else {
            match self.state {
                PoolState::Running => RecvOutcome::Empty,
                _ => RecvOutcome::Closed,
            }
        }
    }

    /// Joins worker `id` during shutdown: takes the thread handle, leaving
    /// none behind, and blocks until the thread has exited. A worker whose
    /// handle was already taken is left alone — joining is exactly-once per
    /// worker by construction.
    pub fn join_worker(&mut self, id: usize)
        requires
            old(self).wf(),
            !(old(self).spec_state() is Running),
            id < old(self).spec_capacity(),
        ensures
            final(self).wf(),
            !final(self).worker_joinable(id as int),
            forall|i: int|
                0 <= i < old(self).spec_capacity() && i != id
                    ==> final(self).worker_joinable(i) == old(self).worker_joinable(i),
            final(self).spec_state() == old(self).spec_state(),
            final(self).pending() == old(self).pending(),
            final(self).delivered() == old(self).delivered(),
            final(self).accepted() == old(self).accepted(),
            final(self).spec_capacity() == old(self).spec_capacity(),
    {
        let mut w = self.workers[id];
        w.joinable = false;
        self.workers[id] = w;
    }

    /// How a completed shutdown relates the pool before and after it: the
    /// pool ends `Terminated` with an empty queue, everything that was
    /// queued has been delivered after what was already delivered, nothing
    /// else was accepted meanwhile, and no worker is left joinable.
    pub open spec fn shutdown_post(pre: ThreadPool, post: ThreadPool) -> bool {
        &&& post.spec_state() is Terminated
        &&& post.spec_capacity() == pre.spec_capacity()
        &&& post.pending() == Seq::<JobId>::empty()
        &&& post.delivered() == pre.delivered() + pre.pending()
        &&& post.accepted() == pre.accepted()
        &&& (forall|i: int| 0 <= i < post.spec_capacity() ==> !post.worker_joinable(i))
    }

    /// Shuts the pool down and blocks until it is terminated: closes the
    /// sending side, lets the workers drain every job that was already
    /// queued — a drain, not an abort — and then joins each worker in index
    /// order, each exactly once. Safe to call on a pool that is already
    /// shut down: nothing changes then.
    pub fn shutdown(&mut self)
        requires
            old(self).wf(),
        ensures
            final(self).wf(),
            Self::shutdown_post(*old(self), *final(self)),
            final(self).delivered() == old(self).accepted(),
    {
        self.begin_shutdown();
        // The drain: the workers keep receiving until the queue reports
        // closed-and-empty. Sequentially modelled, in the same order.
        while self.queue.len() > 0
            invariant
                self.wf(),
                !(self.spec_state() is Running),
                self.spec_state() == (if old(self).spec_state() is Running {
                    PoolState::ShuttingDown
                } else {
                    old(self).spec_state()
                }),
                self.delivered() + self.pending() == old(self).delivered() + old(self).pending(),
                self.delivered().len() >= old(self).delivered().len(),
                self.accepted() == old(self).accepted(),
                self.spec_capacity() == old(self).spec_capacity(),
                forall|i: int|
                    0 <= i < old(self).spec_capacity()
                        ==> self.worker_joinable(i) == old(self).worker_joinable(i),
            decreases self.queue.len(),
        {
            let r = self.recv_next();
            proof {
                assert(self.delivered() + self.pending() =~= old(self).delivered()
                    + old(self).pending());
            }
        }
        proof {
            assert(self.delivered() =~= old(self).delivered() + old(self).pending());
        }
        // Join each worker in index order; other workers go on draining (in
        // the running system) while one is being joined.
        let capacity = self.workers.len();
        let mut id: usize = 0;
        while id < capacity
            invariant
                self.wf(),
                !(self.spec_state() is Running),
                capacity == self.spec_capacity(),
                id <= capacity,
                self.pending().len() == 0,
                self.delivered() == old(self).delivered() + old(self).pending(),
                self.accepted() == old(self).accepted(),
                forall|i: int| 0 <= i < id ==> !self.worker_joinable(i),
            decreases capacity - id,
        {
            self.join_worker(id);
            id = id + 1;
        }
        proof {
            assert forall|i: int|
                0 <= i < self.workers@.len() implies !(#[trigger] self.workers@[i]).joinable() by {
                assert(!self.worker_joinable(i));
            }
        }
        self.state = PoolState::Terminated;
        proof {
            assert(self.pending() =~= Seq::<JobId>::empty());
            assert(self.delivered() =~= old(self).accepted());
        }
    }

    // ------------------------------------------------------------------
    // Observers
    // ------------------------------------------------------------------

    /// Whether the pool still accepts jobs.
    pub fn is_running(&self) -> (b: bool)
        ensures
            b == (self.spec_state() is Running),
    {
        matches!(self.state, PoolState::Running)
    }

    /// Whether the pool has fully terminated: drained, every worker joined.
    pub fn is_terminated(&self) -> (b: bool)
        ensures
            b == (self.spec_state() is Terminated),
    {
        matches!(self.state, PoolState::Terminated)
    }

    /// The fixed number of workers.
    pub fn capacity(&self) -> (n: usize)
        ensures
            n == self.spec_capacity(),
    {
        self.workers.len()
    }

    /// How many accepted jobs no worker has taken yet.
    pub fn pending_count(&self) -> (n: usize)
        ensures
            n == self.pending().len(),
    {
        self.queue.len()
    }

    /// The jobs handed to workers so far, in delivery order.
    pub fn delivered_jobs(&self) -> (v: &Vec<JobId>)
        ensures
            v@ == self.delivered(),
    {
        &self.delivered
    }
}

// ----------------------------------------------------------------------
// The pool's laws
// ----------------------------------------------------------------------

/// Exactly-once execution: once a shutdown has completed, the jobs handed to
/// workers are exactly the jobs `submit` ever accepted — each of them once,
/// in acceptance order; none is lost and none runs twice.
pub proof fn lemma_exactly_once(pre: ThreadPool, post: ThreadPool)
    requires
        pre.wf(),
        ThreadPool::shutdown_post(pre, post),
    ensures
        post.delivered() == pre.accepted(),
{
    assert(post.delivered() =~= pre.accepted());
}

/// Delivery follows submission order: at any reachable point, the jobs
/// delivered so far are exactly the first accepted ones, in order.
pub proof fn lemma_delivery_in_order(p: ThreadPool)
    requires
        p.wf(),
    ensures
        p.delivered() == p.accepted().take(p.delivered().len() as int),
{
    assert(p.delivered() =~= p.accepted().take(p.delivered().len() as int));
}

/// Drain before terminate: every job that was queued when shutdown began is
/// delivered before the shutdown completes, right after the jobs that had
/// already been delivered, in queue order.
pub proof fn lemma_drain_before_terminate(pre: ThreadPool, post: ThreadPool)
    requires
        pre.wf(),
        ThreadPool::shutdown_post(pre, post),
    ensures
        post.delivered().skip(pre.delivered().len() as int) == pre.pending(),
        forall|i: int|
            0 <= i < pre.pending().len() ==> post.delivered().contains(pre.pending()[i]),
{
    assert(post.delivered().skip(pre.delivered().len() as int) =~= pre.pending());
    assert forall|i: int|
        0 <= i < pre.pending().len() implies post.delivered().contains(pre.pending()[i]) by {
        assert(post.delivered()[pre.delivered().len() + i] == pre.pending()[i]);
    }
}

/// Closed-pool rejection: from the moment shutdown begins — the pool is no
/// longer `Running` — a submit reports `PoolClosed` and leaves the pool
/// untouched. In particular the rejected job is never accepted, so by
/// exactly-once delivery it never runs.
pub proof fn lemma_closed_pool_rejection(
    pool: ThreadPool,
    post: ThreadPool,
    job: JobId,
    r: Result<(), SubmitError>,
)
    requires
        pool.wf(),
        !(pool.spec_state() is Running),
        ThreadPool::submit_post(pool, post, job, r),
    ensures
        r == Err::<(), SubmitError>(SubmitError::PoolClosed),
        post.pending() == pool.pending(),
        post.delivered() == pool.delivered(),
        post.accepted() == pool.accepted(),
{
}

/// A pool is not restartable: once it has left `Running`, none of its
/// operations — another submit, another close, a receive, a full shutdown —
/// brings it back.
pub proof fn lemma_not_restartable(
    pre: ThreadPool,
    post: ThreadPool,
    job: JobId,
    r: Result<(), SubmitError>,
    out: RecvOutcome,
)
    requires
        pre.wf(),
        !(pre.spec_state() is Running),
        ThreadPool::submit_post(pre, post, job, r) || ThreadPool::close_post(pre, post)
            || ThreadPool::recv_post(pre, post, out) || ThreadPool::shutdown_post(pre, post),
    ensures
        !(post.spec_state() is Running),
{
}

/// Idempotent shutdown: shutting down a pool that a shutdown has already
/// terminated changes nothing — no state moves, no job is delivered again,
/// and no worker is joined a second time.
pub proof fn lemma_shutdown_idempotent(pre: ThreadPool, mid: ThreadPool, post: ThreadPool)
    requires
        pre.wf(),
        ThreadPool::shutdown_post(pre, mid),
        ThreadPool::shutdown_post(mid, post),
    ensures
        post.spec_state() == mid.spec_state(),
        post.pending() == mid.pending(),
        post.delivered() == mid.delivered(),
        post.accepted() == mid.accepted(),
        forall|i: int|
            0 <= i < mid.spec_capacity() ==> post.worker_joinable(i) == mid.worker_joinable(i),
{
    assert(post.delivered() =~= mid.delivered());
}

} // verus!
