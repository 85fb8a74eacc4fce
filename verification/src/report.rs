//! Failures, and what is said about them.
//!
//! Only a failure to construct the receiver reaches the caller. Whatever goes
//! wrong later is recorded: the worker's terminal failure is its result,
//! which is looked at when the worker is joined, and everything else is a
//! [`Report`] for the caller to log.

use vstd::prelude::*;
use vstd::string::*;
use crate::message::MessageKind;

verus! {

/// A failure that ends construction or ends the worker.
#[derive(Debug, PartialEq, Eq)]
pub enum Failure {
    /// The listening socket could not be bound.
    Bind(String),
    /// The address of the bound socket could not be found out.
    LocalAddress(String),
    /// Waiting for a peer failed, and not because the receiver was shut down.
    Accept(String),
}

/// A failure that is recorded and never returned.
#[derive(Debug, PartialEq, Eq)]
pub enum Report {
    /// The socket-shutdown primitive failed during teardown.
    InterruptFailed(String),
    /// A frame could not be decoded while the receiver was still up.
    DecodeFailed(String),
    /// The listener failed to handle a frame of the given kind.
    ListenerFailed { kind: MessageKind, detail: String },
    /// The worker ended with a failure.
    WorkerFailed(Failure),
    /// The worker's thread ended abnormally.
    WorkerPanicked,
}

impl Failure {
    /// The text of the failure.
    pub open spec fn text(self) -> Seq<char> {
        match self {
            Failure::Bind(detail) => "failed to bind TCP socket: "@ + detail@,
            Failure::LocalAddress(detail) => "failed to inquire local address: "@ + detail@,
            Failure::Accept(detail) => "failed to accept connection: "@ + detail@,
        }
    }

    /// Renders the failure as text.
    pub fn message(&self) -> (message: String)
        ensures
            message@ == self.text(),
    {
        match self {
            Failure::Bind(detail) => {
                String::from_str("failed to bind TCP socket: ").concat(detail.as_str())
            },
            Failure::LocalAddress(detail) => {
                String::from_str("failed to inquire local address: ").concat(detail.as_str())
            },
            Failure::Accept(detail) => {
                String::from_str("failed to accept connection: ").concat(detail.as_str())
            },
        }
    }
}

impl Report {
    /// The text of the report.
    pub open spec fn text(self) -> Seq<char> {
        match self {
            Report::InterruptFailed(detail) => {
                "failed to shut down TcpReceiver file descriptor: "@ + detail@
            },
            Report::DecodeFailed(detail) => "failed to deserialize message: "@ + detail@,
            Report::ListenerFailed { kind, detail } => {
                "listener failed to process "@ + kind.spec_name() + " event: "@ + detail@
            },
            Report::WorkerFailed(failure) => {
                "TcpReceiver accept thread failed: "@ + failure.text()
            },
            Report::WorkerPanicked => "TcpReceiver thread has panicked"@,
        }
    }

    /// Renders the report as text.
    pub fn message(&self) -> (message: String)
        ensures
            message@ == self.text(),
    {
        match self {
            Report::InterruptFailed(detail) => {
                String::from_str("failed to shut down TcpReceiver file descriptor: ").concat(
                    detail.as_str(),
                )
            },
            Report::DecodeFailed(detail) => {
                String::from_str("failed to deserialize message: ").concat(detail.as_str())
            },
            Report::ListenerFailed { kind, detail } => {
                String::from_str("listener failed to process ").concat(kind.name()).concat(
                    " event: ",
                ).concat(detail.as_str())
            },
            Report::WorkerFailed(failure) => {
                let inner = failure.message();
                String::from_str("TcpReceiver accept thread failed: ").concat(inner.as_str())
            },
            Report::WorkerPanicked => String::from_str("TcpReceiver thread has panicked"),
        }
    }
}

} // verus!
