use vstd::prelude::*;

verus! {

/// Where a worker is in its life.
///
/// `Idle` and `Busy` are the two faces of a running worker; `Stopped` is
/// reached once, when the worker sees the queue closed and drained; `Joined`
/// once more, when the pool has waited for it.
#[derive(Debug, Clone, Copy, PartialEq, Eq, Structural)]
pub enum WorkerState {
    /// Running, waiting for a job.
    Idle,
    /// Running, executing the job it took last.
    Busy,
    /// Left its loop; its thread is done or about to be.
    Stopped,
    /// Waited on by the pool; its handle is used up.
    Joined,
}

impl WorkerState {
    /// Still in its loop.
    pub open spec fn is_running(self) -> bool {
        self == WorkerState::Idle || self == WorkerState::Busy
    }
}

/// One member of a pool: its id and where it is in its life.
#[derive(Debug, Clone, Copy)]
pub struct Worker {
    pub id: usize,
    pub state: WorkerState,
}

impl Worker {
    /// A fresh worker with the given id, running and waiting for a job.
    pub fn new(id: usize) -> (w: Worker)
        ensures
            w.id == id,
            w.state == WorkerState::Idle,
    {
        Worker { id, state: WorkerState::Idle }
    }

    /// The worker's id.
    pub fn id(&self) -> (r: usize)
        ensures
            r == self.id,
    {
        self.id
    }

    /// Where the worker is in its life.
    pub fn state(&self) -> (r: WorkerState)
        ensures
            r == self.state,
    {
        self.state
    }
}

} // verus!
