use std::collections::VecDeque;
use vstd::prelude::*;

use crate::error::QueueClosed;

verus! {

broadcast use vstd::std_specs::vecdeque::group_vec_dequeue_axioms;

/// What a consumer gets when it asks the queue for work.
#[derive(Debug)]
pub enum Next<J> {
    /// The oldest buffered job, now removed from the queue.
    Job(J),
    /// Nothing is buffered, but more may arrive: wait and ask again.
    Empty,
    /// The queue is closed and drained: no job will ever arrive.
    Closed,
}

/// An unbounded FIFO of jobs with a one-way "closed" switch.
///
/// Once closed, the queue refuses new jobs but still hands out those it
/// buffered, in order; after the last one it reports closure for good.
pub struct JobQueue<J> {
    items: VecDeque<J>,
    closed: bool,
}

impl<J> JobQueue<J> {
    /// The buffered jobs, oldest first.
    pub closed spec fn pending(&self) -> Seq<J> {
        self.items@
    }

    /// Whether the producer side has been relinquished.
    pub closed spec fn is_closed_spec(&self) -> bool {
        self.closed
    }

    /// An open, empty queue.
    pub fn new() -> (q: Self)
        ensures
            q.pending() == Seq::<J>::empty(),
            !q.is_closed_spec(),
    {
        JobQueue { items: VecDeque::new(), closed: false }
    }

    /// Appends `job` at the back, unless the queue is closed, in which case
    /// the job is handed back inside the error and the queue is unchanged.
    pub fn submit(&mut self, job: J) -> (r: Result<(), QueueClosed<J>>)
        ensures
            final(self).is_closed_spec() == old(self).is_closed_spec(),
            old(self).is_closed_spec() ==> r == Err::<(), QueueClosed<J>>(QueueClosed(job))
                && final(self).pending() == old(self).pending(),
            !old(self).is_closed_spec() ==> r is Ok
                && final(self).pending() == old(self).pending().push(job),
    {
        if self.closed {
            Err(QueueClosed(job))
        } else {
            self.items.push_back(job);
            Ok(())
        }
    }

    /// Closes the queue for new jobs; buffered jobs stay. Closing a closed
    /// queue changes nothing.
    pub fn close(&mut self)
        ensures
            final(self).is_closed_spec(),
            final(self).pending() == old(self).pending(),
    {
        self.closed = true;
    }

    /// Removes and returns the oldest job; reports `Empty` on an open empty
    /// queue and `Closed` on a closed empty one.
    pub fn next(&mut self) -> (r: Next<J>)
        ensures
            final(self).is_closed_spec() == old(self).is_closed_spec(),
            old(self).pending().len() > 0 ==> r == Next::Job(old(self).pending()[0])
                && final(self).pending() == old(self).pending().drop_first(),
            old(self).pending().len() == 0 ==> final(self).pending() == old(self).pending()
                && r == (if old(self).is_closed_spec() { Next::<J>::Closed } else { Next::<J>::Empty }),
    {
        match self.items.pop_front() {
            Some(job) => Next::Job(job),
            None => if self.closed { Next::Closed } else { Next::Empty },
        }
    }

    /// The number of buffered jobs.
    pub fn len(&self) -> (r: usize)
        ensures
            r == self.pending().len(),
    {
        self.items.len()
    }

    /// Whether the producer side has been relinquished.
    pub fn is_closed(&self) -> (r: bool)
        ensures
            r == self.is_closed_spec(),
    {
        self.closed
    }
}

} // verus!
