//! Admission logic of the worker thread pool.
//!
//! The pool's threads, its job channel and the joins on shutdown are
//! operating-system work and live outside this crate. What is verified here
//! is the decision logic that work runs on: whether a pool may be built at
//! all, whether a job may still be handed to the workers, and that a second
//! shutdown request changes nothing.

use vstd::prelude::*;

verus! {

/// Custom errors for thread pool creation.
#[derive(Debug, PartialEq, Eq, Structural)]
pub enum PoolCreationError {
    /// Pool size of 0 requested which is useless.
    ZeroPoolSize,
}

/// The admission state of a thread pool: how many workers it was built with,
/// and whether it is shutting down.
pub struct PoolControl {
    /// Number of worker threads.
    pub size: usize,

    /// Indicates that the thread pool is shutting down.
    pub is_shutting_down: bool,
}

/// The admission state after a shutdown request.
pub open spec fn spec_after_shutdown(state: PoolControl) -> PoolControl {
    PoolControl { size: state.size, is_shutting_down: true }
}

/// Whether a pool in the given state accepts new jobs.
pub open spec fn spec_accepts_jobs(state: PoolControl) -> bool {
    !state.is_shutting_down
}

impl PoolControl {
    /// Admission state of a newly built pool of `size` workers. A pool of
    /// zero workers is refused.
    pub fn build(size: usize) -> (result: Result<PoolControl, PoolCreationError>)
        ensures
            size == 0 <==> result is Err,
            result is Err ==> result->Err_0 == PoolCreationError::ZeroPoolSize,
            result is Ok ==> result->Ok_0 == (PoolControl { size, is_shutting_down: false }),
    {
        if size == 0 {
            Err(PoolCreationError::ZeroPoolSize)
        } else {
            Ok(PoolControl { size, is_shutting_down: false })
        }
    }

    /// A job may be handed to the workers only while the pool is not
    /// shutting down.
    pub fn accepts_jobs(&self) -> (accepts: bool)
        ensures
            accepts == spec_accepts_jobs(*self),
    {
        !self.is_shutting_down
    }

    /// Begins shutdown. Returns whether this call is the one that began it,
    /// so that the teardown of the job channel and the joins on the worker
    /// threads run exactly once.
    pub fn begin_shutdown(&mut self) -> (first: bool)
        ensures
            *final(self) == spec_after_shutdown(*old(self)),
            first == !old(self).is_shutting_down,
    {
        let first = !self.is_shutting_down;
        self.is_shutting_down = true;
        first
    }
}

/// Law: shutting down is idempotent — a second request leaves the state as
/// the first left it — and after a shutdown request no job is accepted.
pub proof fn lemma_shutdown_idempotent(state: PoolControl)
    ensures
        spec_after_shutdown(spec_after_shutdown(state)) == spec_after_shutdown(state),
        !spec_accepts_jobs(spec_after_shutdown(state)),
{
}

} // verus!
