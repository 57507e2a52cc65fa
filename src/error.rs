use vstd::prelude::*;

verus! {

/// A pool was asked for with zero workers.
#[derive(Debug, PartialEq, Eq, Structural)]
pub struct PoolCreationError;

impl PoolCreationError {
    /// A short description of the error.
    pub fn message(&self) -> (r: String)
        ensures
            r@ == "a thread pool needs at least one worker"@,
    {
        "a thread pool needs at least one worker".to_owned()
    }
}

/// A job was submitted after the queue was closed; the job is handed back
/// unrun.
#[derive(Debug)]
pub struct QueueClosed<J>(pub J);

impl<J> QueueClosed<J> {
    /// The job that was refused.
    pub fn into_inner(self) -> (r: J)
        ensures
            r == self.0,
    {
        self.0
    }
}

} // verus!
