//! The threads that run an isolate.

use crate::error::{ErrorView, RuntimeError, RuntimeResult};
use crate::text::join2;
use vstd::prelude::*;

verus! {

/// How many runtime threads there are.
#[derive(Debug)]
pub struct RuntimeThreads {
    active: usize,
}

/// Held by a runtime thread for as long as it runs.
#[derive(Debug)]
pub struct RuntimeThreadGuard {}

impl View for RuntimeThreads {
    type V = usize;

    closed spec fn view(&self) -> usize {
        self.active
    }
}

/// One thread more; the counter wraps.
pub open spec fn one_more(active: usize) -> usize {
    if active == usize::MAX {
        0
    } else {
        (active + 1) as usize
    }
}

/// One thread fewer; the counter wraps.
pub open spec fn one_fewer(active: usize) -> usize {
    if active == 0 {
        usize::MAX
    } else {
        (active - 1) as usize
    }
}

impl RuntimeThreads {
    pub fn new() -> (threads: Self)
        ensures
            threads@ == 0,
    {
        RuntimeThreads { active: 0 }
    }
}

impl RuntimeThreadGuard {
    /// A runtime thread starts.
    pub fn new(threads: &mut RuntimeThreads) -> (guard: Self)
        ensures
            final(threads)@ == one_more(old(threads)@),
    {
        threads.active = threads.active.wrapping_add(1);
        RuntimeThreadGuard {  }
    }

    /// A runtime thread ends.
    pub fn release(self, threads: &mut RuntimeThreads)
        ensures
            final(threads)@ == one_fewer(old(threads)@),
    {
        threads.active = threads.active.wrapping_sub(1);
    }
}

/// How many runtime threads there are.
pub fn active_runtime_threads(threads: &RuntimeThreads) -> (n: usize)
    ensures
        n == threads@,
{
    threads.active
}

/// The error of a thread that could not be spawned.
pub fn spawn_failure(message: &str) -> (err: RuntimeError)
    ensures
        err@ == ErrorView::Internal("Failed to spawn runtime thread: "@ + message@),
{
    RuntimeError::internal(join2("Failed to spawn runtime thread: ", message))
}

/// What came of the initialization that a runtime thread reports; `None` when it
/// ended without a report.
pub fn initialized<T>(report: Option<RuntimeResult<T>>) -> (result: RuntimeResult<T>)
    ensures
        match report {
            Some(r) => result == r,
            None => result matches Err(err) && err@ == ErrorView::Internal(
                "Runtime thread initialization failed"@,
            ),
        },
{
    match report {
        Some(r) => r,
        None => Err(RuntimeError::internal_text("Runtime thread initialization failed")),
    }
}

/// A thread that ends leaves the count as it was before it started.
pub proof fn law_ended_thread_is_not_counted(active: usize)
    ensures
        one_fewer(one_more(active)) == active,
{
}

} // verus!
