//! The frames of the wire protocol.

use vstd::prelude::*;

verus! {

/// One decoded frame. `T` is the type of a record.
#[derive(Debug, PartialEq, Eq)]
pub enum Message<T> {
    /// The stream starts.
    Start,
    /// A batch of records, in the order in which they were sent.
    Updates(Vec<T>),
    /// The batches sent so far are committed.
    Commit,
    /// The stream is finished.
    Complete,
}

/// The kind of a frame, without what it carries.
#[derive(Clone, Copy, Debug, PartialEq, Eq, Structural)]
pub enum MessageKind {
    Start,
    Updates,
    Commit,
    Complete,
}

impl<T> Message<T> {
    /// The kind of this frame.
    pub open spec fn spec_kind(&self) -> MessageKind {
        match self {
            Message::Start => MessageKind::Start,
            Message::Updates(_) => MessageKind::Updates,
            Message::Commit => MessageKind::Commit,
            Message::Complete => MessageKind::Complete,
        }
    }

    /// The kind of this frame.
    #[verifier::when_used_as_spec(spec_kind)]
    pub fn kind(&self) -> (kind: MessageKind)
        ensures
            kind == self.spec_kind(),
    {
        match self {
            Message::Start => MessageKind::Start,
            Message::Updates(_) => MessageKind::Updates,
            Message::Commit => MessageKind::Commit,
            Message::Complete => MessageKind::Complete,
        }
    }
}

impl MessageKind {
    /// The name of the kind as it appears in a report.
    pub open spec fn spec_name(self) -> Seq<char> {
        match self {
            MessageKind::Start => "start"@,
            MessageKind::Updates => "updates"@,
            MessageKind::Commit => "commit"@,
            MessageKind::Complete => "complete"@,
        }
    }

    /// The name of the kind as it appears in a report.
    pub fn name(self) -> (name: &'static str)
        ensures
            name@ == self.spec_name(),
    {
        match self {
            MessageKind::Start => "start",
            MessageKind::Updates => "updates",
            MessageKind::Commit => "commit",
            MessageKind::Complete => "complete",
        }
    }
}

} // verus!
