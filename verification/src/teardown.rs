//! What is recorded when the receiver is torn down.
//!
//! Teardown shuts the connection state down, interrupts the descriptor and
//! joins the worker. It cannot fail: whatever went wrong is recorded.

use vstd::prelude::*;
use crate::report::{Failure, Report};

verus! {

/// How the worker's thread ended.
#[derive(Debug, PartialEq, Eq)]
pub enum WorkerExit {
    /// The worker returned this result.
    Finished(Result<(), Failure>),
    /// The thread ended abnormally and returned nothing.
    Panicked,
}

/// What is recorded about a worker that ended with `exit`.
pub open spec fn spec_join_report(exit: WorkerExit) -> Option<Report> {
    match exit {
        WorkerExit::Finished(Ok(_)) => None,
        WorkerExit::Finished(Err(failure)) => Some(Report::WorkerFailed(failure)),
        WorkerExit::Panicked => Some(Report::WorkerPanicked),
    }
}

/// Decides what to record once the worker has been joined: nothing if it
/// ended with success, its failure if it returned one, and that it panicked
/// if it returned nothing.
pub fn join_report(exit: WorkerExit) -> (report: Option<Report>)
    ensures
        report == spec_join_report(exit),
{
    match exit {
        WorkerExit::Finished(Ok(_)) => None,
        WorkerExit::Finished(Err(failure)) => Some(Report::WorkerFailed(failure)),
        WorkerExit::Panicked => Some(Report::WorkerPanicked),
    }
}

} // verus!
