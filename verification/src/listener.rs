//! Listeners, and how a frame reaches one.

use vstd::prelude::*;
use crate::message::{Message, MessageKind};
use crate::report::Report;

verus! {

/// What a listener is told about the stream. Any type that answers these
/// four notifications can subscribe.
///
/// A notification may succeed or fail, and a failure is recorded and goes
/// no further. What an implementation does with a notification is its own
/// affair: it says so in `answers`, and one that says nothing there
/// promises nothing.
pub trait Listener<T> {
    /// Whether this listener, as it is, can answer `outcome` on being told
    /// `message`.
    open spec fn answers(&self, message: Message<T>, outcome: Result<(), String>) -> bool {
        true
    }

    /// The stream starts.
    fn on_start(&mut self) -> (outcome: Result<(), String>)
        ensures
            old(self).answers(Message::Start, outcome),
    ;

    /// A batch of records arrived. The records are handed over in the order
    /// in which they were sent and belong to the listener from here on.
    fn on_updates(&mut self, updates: Vec<T>) -> (outcome: Result<(), String>)
        ensures
            old(self).answers(Message::Updates(updates), outcome),
    ;

    /// The batches seen so far are committed.
    fn on_commit(&mut self) -> (outcome: Result<(), String>)
        ensures
            old(self).answers(Message::Commit, outcome),
    ;

    /// The stream is finished.
    fn on_completed(&mut self) -> (outcome: Result<(), String>)
        ensures
            old(self).answers(Message::Complete, outcome),
    ;
}

/// What is recorded after a listener handled a frame of kind `kind` and
/// answered `outcome`: nothing on success, its failure otherwise.
pub open spec fn spec_listener_report(kind: MessageKind, outcome: Result<(), String>) -> Option<
    Report,
> {
    match outcome {
        Ok(_) => None,
        Err(detail) => Some(Report::ListenerFailed { kind, detail }),
    }
}

/// Whether `report` can be what is left of a frame of kind `kind` that met a
/// slot with a listener in it (`subscribed`) or an empty one: nothing at
/// all, or, only where there was a listener, the failure of that listener
/// on a frame of that kind.
pub open spec fn is_delivery_report(
    subscribed: bool,
    kind: MessageKind,
    report: Option<Report>,
) -> bool {
    match report {
        None => true,
        Some(Report::ListenerFailed { kind: failed, detail: _ }) => subscribed && failed == kind,
        Some(_) => false,
    }
}

/// The answer of a listener that `report` stands for: success where
/// nothing was recorded, and the failure that was recorded otherwise.
pub open spec fn answer_in(report: Option<Report>) -> Result<(), String> {
    match report {
        Some(Report::ListenerFailed { kind: _, detail }) => Err(detail),
        _ => Ok(()),
    }
}

/// Whether `report` is what is left of `message` once it met `listener`,
/// the one that was subscribed, if any.
///
/// With nobody subscribed the frame is dropped and nothing is left. Else
/// the listener was told `message`, and what is left is what is recorded
/// about its answer.
pub open spec fn delivered<T, L: Listener<T>>(
    listener: Option<L>,
    message: Message<T>,
    report: Option<Report>,
) -> bool {
    match listener {
        None => report is None,
        Some(l) => l.answers(message, answer_in(report)) && report == spec_listener_report(
            message.spec_kind(),
            answer_in(report),
        ),
    }
}

/// The listener behind an optional reference, as it is when the reference
/// is handed over.
pub open spec fn target<L>(listener: Option<&mut L>) -> Option<L> {
    match listener {
        Some(l) => Some(*l),
        None => None,
    }
}

/// Turns the answer of a listener into what is recorded about it.
pub fn listener_report(kind: MessageKind, outcome: Result<(), String>) -> (report: Option<Report>)
    ensures
        report == spec_listener_report(kind, outcome),
{
    match outcome {
        Ok(_) => None,
        Err(detail) => Some(Report::ListenerFailed { kind, detail }),
    }
}

/// Tells `listener` about `message` through the notification that belongs to
/// the kind of the frame, and returns what the listener answered.
fn notify<T, L: Listener<T>>(listener: &mut L, message: Message<T>) -> (outcome: Result<
    (),
    String,
>)
    ensures
        old(listener).answers(message, outcome),
{
    match message {
        Message::Start => listener.on_start(),
        Message::Updates(updates) => listener.on_updates(updates),
        Message::Commit => listener.on_commit(),
        Message::Complete => listener.on_completed(),
    }
}

/// Hands `message` to `listener`, or drops it if there is none. Returns
/// what is recorded about the listener's answer: nothing if it succeeded,
/// its failure otherwise.
pub fn deliver<T, L: Listener<T>>(listener: Option<&mut L>, message: Message<T>) -> (report: Option<
    Report,
>)
    ensures
        delivered(target(listener), message, report),
{
    let kind = message.kind();
    match listener {
        Some(listener) => {
            let outcome = notify(listener, message);
            proof {
                // There is one way to succeed.
                assert(outcome is Ok ==> outcome->Ok_0 == ());
            }
            listener_report(kind, outcome)
        },
        None => None,
    }
}

/// Whatever the listener does, a frame leaves nothing behind but the
/// failure of the listener it met, on a frame of its own kind.
pub proof fn lemma_delivered_is_delivery_report<T, L: Listener<T>>(
    listener: Option<L>,
    message: Message<T>,
    report: Option<Report>,
)
    requires
        delivered(listener, message, report),
    ensures
        is_delivery_report(listener is Some, message.spec_kind(), report),
{
}

} // verus!
