//! A fixed-size worker pool with deterministic, panic-safe shutdown,
//! together with the request/response logic of the small HTTP front end
//! that feeds it.
//!
//! The pool itself is modelled as a verified state machine: the state of
//! every worker, the queue of pending jobs and the record of executed jobs
//! evolve through contracts that pin each transition down exactly. The
//! decisions a live worker thread has to make (run the job, exit on a
//! closed channel, exit on a poisoned lock, carry on after a failed job)
//! are verified functions, so an unverified thread loop only performs
//! actions the verified core has chosen.

pub mod error;
pub mod http;
pub mod laws;
pub mod pool;

pub use error::ServerError;
pub use pool::ThreadPool;
