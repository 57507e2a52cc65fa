use vstd::prelude::*;

use crate::error::{PoolCreationError, QueueClosed};
use crate::queue::{JobQueue, Next};
use crate::worker::{Worker, WorkerState};

verus! {

/// A fixed set of workers fed from one job queue.
///
/// The pool decides; a host carries out. Each worker's thread asks
/// [`ThreadPool::next_job`] for its next step and runs the job it gets outside
/// any lock. Shutdown closes the queue with [`ThreadPool::begin_shutdown`];
/// the host then waits for the workers in construction order, as
/// [`ThreadPool::next_to_join`] names them, and records each wait with
/// [`ThreadPool::finish_join`].
pub struct ThreadPool<J> {
    workers: Vec<Worker>,
    queue: JobQueue<J>,
    /// Every job the pool ever accepted, in order of submission.
    log: Ghost<Seq<J>>,
    /// How many of those have been handed to a worker.
    dispatched: Ghost<nat>,
}

impl<J> ThreadPool<J> {
    /// The workers, in construction order.
    pub closed spec fn workers_view(&self) -> Seq<Worker> {
        self.workers@
    }

    /// Whether the pool still takes new jobs.
    pub closed spec fn accepting(&self) -> bool {
        !self.queue.is_closed_spec()
    }

    /// Every job accepted so far, in order of submission.
    pub closed spec fn log(&self) -> Seq<J> {
        self.log@
    }

    /// How many accepted jobs have been handed to a worker.
    pub closed spec fn dispatched(&self) -> nat {
        self.dispatched@
    }

    /// The accepted jobs that no worker has taken yet, oldest first.
    pub closed spec fn pending(&self) -> Seq<J> {
        self.queue.pending()
    }

    /// The accepted jobs that have been handed to a worker, in the order
    /// they were handed out.
    pub open spec fn handed_out(&self) -> Seq<J> {
        self.log().take(self.dispatched() as int)
    }

    /// The number of workers.
    pub open spec fn size_spec(&self) -> nat {
        self.workers_view().len()
    }

    /// The state of worker `i`.
    pub open spec fn state_of(&self, i: int) -> WorkerState {
        self.workers_view()[i].state
    }

    /// Every worker has been waited on.
    pub open spec fn all_joined(&self) -> bool {
        forall|i: int| 0 <= i < self.size_spec() ==> #[trigger] self.workers_view()[i].state == WorkerState::Joined
    }

    /// The pool's invariant.
    ///
    /// There is at least one worker, and worker `i` has id `i`. The buffered
    /// jobs are exactly the accepted ones not yet handed out, in order. A
    /// worker leaves its loop only once the queue is closed and drained, and
    /// workers are waited on in construction order.
    pub open spec fn wf(&self) -> bool {
        &&& self.size_spec() > 0
        &&& forall|i: int| 0 <= i < self.size_spec() ==> (#[trigger] self.workers_view()[i]).id == i
        &&& self.dispatched() <= self.log().len()
        &&& self.pending() == self.log().skip(self.dispatched() as int)
        &&& forall|i: int|
            0 <= i < self.size_spec() && !(#[trigger] self.workers_view()[i]).state.is_running()
                ==> !self.accepting() && self.pending().len() == 0
        &&& forall|i: int, k: int|
            0 <= k < i < self.size_spec() && (#[trigger] self.workers_view()[i]).state
                == WorkerState::Joined ==> (#[trigger] self.workers_view()[k]).state
                == WorkerState::Joined
    }

    /// The state of a pool right after construction with `size` workers.
    pub open spec fn fresh(&self, size: nat) -> bool {
        &&& self.wf()
        &&& self.size_spec() == size
        &&& forall|i: int| 0 <= i < size ==> (#[trigger] self.workers_view()[i]).state == WorkerState::Idle
        &&& self.accepting()
        &&& self.log() == Seq::<J>::empty()
        &&& self.dispatched() == 0
    }

    /// A pool of `size` workers with ids `0..size`, all waiting, and an open,
    /// empty queue.
    pub fn new(size: usize) -> (pool: Self)
        requires
            size > 0,
        ensures
            pool.fresh(size as nat),
    {
        let mut workers: Vec<Worker> = Vec::with_capacity(size);
        let mut id: usize = 0;
        while id < size
            invariant
                id <= size,
                workers@.len() == id,
                forall|k: int| 0 <= k < id ==> (#[trigger] workers@[k]).id == k
                    && workers@[k].state == WorkerState::Idle,
            decreases size - id,
        {
            workers.push(Worker::new(id));
            id = id + 1;
        }
        let pool = ThreadPool {
            workers,
            queue: JobQueue::new(),
            log: Ghost(Seq::empty()),
            dispatched: Ghost(0),
        };
        assert(pool.log@.skip(0) =~= pool.log@);
        pool
    }

    /// Like [`ThreadPool::new`], but a size of zero gives an error instead of
    /// a pool.
    pub fn build(size: usize) -> (r: Result<Self, PoolCreationError>)
        ensures
            size == 0 <==> r is Err,
            r matches Ok(pool) ==> pool.fresh(size as nat),
    {
        if size < 1 {
            Err(PoolCreationError)
        } else {
            Ok(Self::new(size))
        }
    }

    /// Queues `job` for some worker. Once shutdown has begun the job is
    /// refused and handed back, and the pool is left as it was.
    pub fn execute(&mut self, job: J) -> (r: Result<(), QueueClosed<J>>)
        requires
            old(self).wf(),
        ensures
            final(self).wf(),
            final(self).workers_view() == old(self).workers_view(),
            final(self).accepting() == old(self).accepting(),
            final(self).dispatched() == old(self).dispatched(),
            old(self).accepting() ==> r is Ok && final(self).log() == old(self).log().push(job),
            !old(self).accepting() ==> r == Err::<(), QueueClosed<J>>(QueueClosed(job))
                && final(self).log() == old(self).log(),
    {
        let r = self.queue.submit(job);
        if r.is_ok() {
            self.log = Ghost(self.log@.push(job));
            assert(self.queue.pending() =~= self.log@.skip(self.dispatched@ as int));
        }
        r
    }

    /// The next step of worker `id`, which is still in its loop.
    ///
    /// With jobs buffered, the worker gets the oldest one and is busy with
    /// it. With none buffered it waits while the pool accepts work, and
    /// stops once shutdown has begun.
    pub fn next_job(&mut self, id: usize) -> (r: Next<J>)
        requires
            old(self).wf(),
            id < old(self).size_spec(),
            old(self).state_of(id as int).is_running(),
        ensures
            final(self).wf(),
            final(self).log() == old(self).log(),
            final(self).accepting() == old(self).accepting(),
            final(self).size_spec() == old(self).size_spec(),
            forall|i: int| 0 <= i < old(self).size_spec() && i != id ==>
                #[trigger] final(self).workers_view()[i] == old(self).workers_view()[i],
            final(self).workers_view()[id as int].id == id,
            old(self).pending().len() > 0 ==> {
                &&& r == Next::Job(old(self).log()[old(self).dispatched() as int])
                &&& final(self).dispatched() == old(self).dispatched() + 1
                &&& final(self).state_of(id as int) == WorkerState::Busy
            },
            old(self).pending().len() == 0 && old(self).accepting() ==> {
                &&& r == Next::<J>::Empty
                &&& final(self).dispatched() == old(self).dispatched()
                &&& final(self).state_of(id as int) == WorkerState::Idle
            },
            old(self).pending().len() == 0 && !old(self).accepting() ==> {
                &&& r == Next::<J>::Closed
                &&& final(self).dispatched() == old(self).dispatched()
                &&& final(self).state_of(id as int) == WorkerState::Stopped
            },
    {
        let r = self.queue.next();
        let state = match &r {
            Next::Job(_) => WorkerState::Busy,
            Next::Empty => WorkerState::Idle,
            Next::Closed => WorkerState::Stopped,
        };
        if let Next::Job(_) = &r {
            assert(self.queue.pending() =~= self.log@.skip(self.dispatched@ + 1 as int));
            self.dispatched = Ghost(self.dispatched@ + 1);
        }
        self.workers.set(id, Worker { id, state });
        r
    }

    /// Starts shutdown: the queue is closed to new jobs, and buffered jobs
    /// stay for the workers to drain. Calling it again changes nothing.
    pub fn begin_shutdown(&mut self)
        requires
            old(self).wf(),
        ensures
            final(self).wf(),
            !final(self).accepting(),
            final(self).workers_view() == old(self).workers_view(),
            final(self).log() == old(self).log(),
            final(self).dispatched() == old(self).dispatched(),
    {
        self.queue.close();
    }

    /// The worker to wait for next during shutdown: the first one, in
    /// construction order, not yet waited on. `None` while the pool still
    /// accepts work, and once every worker has been waited on.
    pub fn next_to_join(&self) -> (r: Option<usize>)
        requires
            self.wf(),
        ensures
            r matches Some(i) ==> {
                &&& !self.accepting()
                &&& i < self.size_spec()
                &&& self.state_of(i as int) != WorkerState::Joined
                &&& forall|k: int| 0 <= k < i ==> (#[trigger] self.workers_view()[k]).state == WorkerState::Joined
            },
            r is None ==> self.accepting() || self.all_joined(),
    {
        if self.queue.is_closed() {
            let mut i: usize = 0;
            while i < self.workers.len()
                invariant
                    !self.accepting(),
                    i <= self.workers@.len(),
                    forall|k: int| 0 <= k < i ==> (#[trigger] self.workers_view()[k]).state == WorkerState::Joined,
                decreases self.workers@.len() - i,
            {
                match self.workers[i].state {
                    WorkerState::Joined => {},
                    _ => return Some(i),
                }
                i = i + 1;
            }
            None
        } else {
            None
        }
    }

    /// Records that the pool has waited for worker `id`, which has left its
    /// loop. Workers are waited on in construction order, each once: a
    /// worker still busy with a job, or already waited on, cannot be.
    pub fn finish_join(&mut self, id: usize)
        requires
            old(self).wf(),
            id < old(self).size_spec(),
            old(self).state_of(id as int) == WorkerState::Stopped,
            forall|k: int| 0 <= k < id ==> (#[trigger] old(self).workers_view()[k]).state
                == WorkerState::Joined,
        ensures
            final(self).wf(),
            final(self).workers_view() == old(self).workers_view().update(
                id as int,
                Worker { id, state: WorkerState::Joined },
            ),
            final(self).accepting() == old(self).accepting(),
            final(self).log() == old(self).log(),
            final(self).dispatched() == old(self).dispatched(),
    {
        self.workers.set(id, Worker { id, state: WorkerState::Joined });
    }

    /// Whether the pool still takes new jobs.
    pub fn is_accepting(&self) -> (r: bool)
        ensures
            r == self.accepting(),
    {
        !self.queue.is_closed()
    }

    /// The number of workers.
    pub fn size(&self) -> (r: usize)
        ensures
            r == self.size_spec(),
    {
        self.workers.len()
    }

    /// The number of jobs accepted and not yet taken by a worker.
    pub fn pending_len(&self) -> (r: usize)
        ensures
            r == self.pending().len(),
    {
        self.queue.len()
    }

    /// Worker `i`.
    pub fn worker(&self, i: usize) -> (r: Worker)
        requires
            i < self.size_spec(),
        ensures
            r == self.workers_view()[i as int],
    {
        self.workers[i]
    }
}

/// No job is lost or handed out twice: every accepted job either has been
/// handed to exactly one worker, in the place it was submitted, or still
/// waits in the queue, in order.
pub proof fn lemma_every_job_accounted_for<J>(pool: &ThreadPool<J>)
    requires
        pool.wf(),
    ensures
        pool.log() == pool.handed_out() + pool.pending(),
{
    assert(pool.log() =~= pool.handed_out() + pool.pending());
}

/// A worker leaves its loop only after shutdown has begun and the queue has
/// been drained.
pub proof fn lemma_stopped_worker_means_drained<J>(pool: &ThreadPool<J>, i: int)
    requires
        pool.wf(),
        0 <= i < pool.size_spec(),
        !pool.workers_view()[i].state.is_running(),
    ensures
        !pool.accepting(),
        pool.pending().len() == 0,
        pool.handed_out() == pool.log(),
{
    assert(pool.log().take(pool.log().len() as int) =~= pool.log());
}

/// Once every worker has been waited on, shutdown has begun, every job the
/// pool ever accepted has been handed out, each once and in submission
/// order, and no worker is still busy with one.
pub proof fn lemma_joined_pool_ran_every_job<J>(pool: &ThreadPool<J>)
    requires
        pool.wf(),
        pool.all_joined(),
    ensures
        !pool.accepting(),
        pool.pending().len() == 0,
        pool.handed_out() == pool.log(),
        forall|i: int|
            0 <= i < pool.size_spec() ==> (#[trigger] pool.workers_view()[i]).state
                != WorkerState::Busy,
{
    assert(pool.workers_view()[0].state == WorkerState::Joined);
    lemma_stopped_worker_means_drained(pool, 0);
}

} // verus!
