//! A fixed-size worker pool, as a verified state machine.
//!
//! The pool hands jobs from one producer to a fixed set of workers through a
//! FIFO queue that can be closed. Threads are not part of this crate: a host
//! runs one thread per worker, asks the pool for that worker's next step, and
//! runs the jobs it is handed outside of any lock.
pub mod error;
pub mod queue;
pub mod worker;
pub mod pool;
pub mod http;

pub use error::{PoolCreationError, QueueClosed};
pub use queue::{JobQueue, Next};
pub use worker::{Worker, WorkerState};
pub use pool::ThreadPool;
pub use http::{route, Route};
