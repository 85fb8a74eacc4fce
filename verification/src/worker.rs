//! The decisions of the worker.
//!
//! The worker blocks on `accept`, then reads frames until it is told to
//! stop. After each blocking call it hands the outcome to one of the
//! functions here, together with the shared state it has locked for that
//! moment, and gets back a [`Step`].

use vstd::prelude::*;
use crate::connection::{ConnectionState, Descriptor};
use crate::message::Message;
use crate::listener::{deliver, delivered, target, Listener};
use crate::report::{Failure, Report};

verus! {

/// What the worker does next.
#[derive(Debug, PartialEq, Eq)]
pub enum Step {
    /// Read the next frame.
    Continue,
    /// Record the report, then read the next frame.
    Record(Report),
    /// Stop, with this as the worker's result.
    Exit(Result<(), Failure>),
}

impl Step {
    /// What the step asks to record, if anything.
    pub open spec fn recorded(self) -> Option<Report> {
        match self {
            Step::Record(report) => Some(report),
            _ => None,
        }
    }
}

/// The state after `accept` returned `outcome` to a worker that found the
/// state `state`.
pub open spec fn state_after_accept(
    state: ConnectionState,
    outcome: Result<Descriptor, String>,
) -> ConnectionState {
    match (state, outcome) {
        (ConnectionState::ShutDown, _) => ConnectionState::ShutDown,
        (_, Ok(fd)) => ConnectionState::Accepted(fd),
        (_, Err(_)) => state,
    }
}

/// The step after `accept` returned `outcome` to a worker that found the
/// state `state`.
pub open spec fn accept_step(state: ConnectionState, outcome: Result<Descriptor, String>) -> Step {
    match (state, outcome) {
        (ConnectionState::ShutDown, _) => Step::Exit(Ok(())),
        (_, Ok(_)) => Step::Continue,
        (_, Err(detail)) => Step::Exit(Err(Failure::Accept(detail))),
    }
}

/// The step after a frame could not be decoded, the reason being `detail`,
/// by a worker that found the state `state`.
pub open spec fn decode_failure_step(state: ConnectionState, detail: String) -> Step {
    match state {
        ConnectionState::ShutDown => Step::Exit(Ok(())),
        _ => Step::Record(Report::DecodeFailed(detail)),
    }
}

/// Decides what follows the return of `accept`.
///
/// `outcome` is the descriptor of the accepted connection, or the reason
/// why none was accepted. If the receiver was shut down in the meantime the
/// worker stops with success, and a connection that was accepted all the
/// same is to be dropped unused. Otherwise a connection is recorded in
/// `state` and the worker goes on to read from it, and a failure ends the
/// worker.
pub fn on_accept(state: &mut ConnectionState, outcome: Result<Descriptor, String>) -> (step: Step)
    ensures
        *final(state) == state_after_accept(*old(state), outcome),
        step == accept_step(*old(state), outcome),
{
    if state.is_shut_down() {
        return Step::Exit(Ok(()));
    }
    match outcome {
        Ok(fd) => {
            *state = ConnectionState::Accepted(fd);
            Step::Continue
        },
        Err(detail) => Step::Exit(Err(Failure::Accept(detail))),
    }
}

/// Decides what follows a frame that could not be decoded.
///
/// A failure seen after the receiver was shut down comes from the interrupt
/// and ends the worker with success. Any other is recorded, and the worker
/// reads on.
pub fn on_decode_failure(state: &ConnectionState, detail: String) -> (step: Step)
    ensures
        step == decode_failure_step(*state, detail),
{
    if state.is_shut_down() {
        Step::Exit(Ok(()))
    } else {
        Step::Record(Report::DecodeFailed(detail))
    }
}

/// The step after a decoded frame left `report` behind: the worker records
/// the report, if there is one, and reads on in any case.
pub open spec fn frame_step(report: Option<Report>) -> Step {
    match report {
        Some(r) => Step::Record(r),
        None => Step::Continue,
    }
}

/// Decides what follows a decoded frame: it is handed to `listener`, the
/// one that was subscribed when the frame arrived, or dropped if there was
/// none, and the worker reads on. A listener that fails is recorded and
/// stops nothing.
pub fn on_frame<T, L: Listener<T>>(listener: Option<&mut L>, message: Message<T>) -> (step: Step)
    ensures
        step == frame_step(step.recorded()),
        delivered(target(listener), message, step.recorded()),
{
    match deliver(listener, message) {
        Some(report) => Step::Record(report),
        None => Step::Continue,
    }
}

/// An accept never moves the state backwards, and never shuts it down.
pub proof fn lemma_accept_moves_forward(state: ConnectionState, outcome: Result<Descriptor, String>)
    ensures
        state.may_become(state_after_accept(state, outcome)),
        state_after_accept(state, outcome) is ShutDown <==> state is ShutDown,
{
}

/// Once the receiver is shut down, the worker stops with success at the
/// next return of `accept`, whatever it returned, and the state stays shut
/// down: a connection accepted too late is never recorded.
pub proof fn lemma_shutdown_stops_accept(outcome: Result<Descriptor, String>)
    ensures
        accept_step(ConnectionState::ShutDown, outcome) == Step::Exit(Ok(())),
        state_after_accept(ConnectionState::ShutDown, outcome) == ConnectionState::ShutDown,
{
}

/// Once the receiver is shut down, the worker stops with success at the
/// next failed read.
pub proof fn lemma_shutdown_stops_read(detail: String)
    ensures
        decode_failure_step(ConnectionState::ShutDown, detail) == Step::Exit(Ok(())),
{
}

/// While the receiver is up, a frame that cannot be decoded is recorded and
/// does not end the worker.
pub proof fn lemma_decode_failure_is_survived(state: ConnectionState, detail: String)
    requires
        !(state is ShutDown),
    ensures
        decode_failure_step(state, detail) == Step::Record(Report::DecodeFailed(detail)),
{
}

/// The worker ends with a failure only where `accept` failed while the
/// receiver was up.
pub proof fn lemma_worker_fails_only_on_accept(
    state: ConnectionState,
    outcome: Result<Descriptor, String>,
    detail: String,
)
    ensures
        accept_step(state, outcome) matches Step::Exit(Err(_)) <==> !(state is ShutDown)
            && outcome is Err,
        !(decode_failure_step(state, detail) matches Step::Exit(Err(_))),
{
}

} // verus!
