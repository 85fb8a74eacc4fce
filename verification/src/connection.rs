//! The life cycle of the receiver's socket descriptor.
//!
//! The state is shared between the owner and the worker and is read and
//! written under one lock. It only ever moves forward:
//! `Listening -> Accepted -> ShutDown`, or `Listening -> ShutDown`.

use vstd::prelude::*;

verus! {

/// A socket descriptor as the operating system hands it out.
pub type Descriptor = i32;

/// The phase the socket is in, with the descriptor that belongs to it.
#[derive(Clone, Copy, Debug, PartialEq, Eq, Structural)]
pub enum ConnectionState {
    /// The socket is bound and waits for a peer.
    Listening(Descriptor),
    /// A peer is connected; the descriptor is that of the connection.
    Accepted(Descriptor),
    /// The receiver was shut down. No descriptor is kept.
    ShutDown,
}

impl ConnectionState {
    /// The descriptor that an interrupt would have to be issued on.
    pub open spec fn descriptor(self) -> Option<Descriptor> {
        match self {
            ConnectionState::Listening(fd) => Some(fd),
            ConnectionState::Accepted(fd) => Some(fd),
            ConnectionState::ShutDown => None,
        }
    }

    /// How far along its life cycle the state is.
    pub open spec fn rank(self) -> nat {
        match self {
            ConnectionState::Listening(_) => 0,
            ConnectionState::Accepted(_) => 1,
            ConnectionState::ShutDown => 2,
        }
    }

    /// Whether `next` is in the phase of this state or in a later one.
    pub open spec fn may_become(self, next: ConnectionState) -> bool {
        self.rank() <= next.rank()
    }

    /// The state of a freshly bound socket.
    pub fn listening(fd: Descriptor) -> (state: ConnectionState)
        ensures
            state == ConnectionState::Listening(fd),
    {
        ConnectionState::Listening(fd)
    }

    /// Whether the receiver has been shut down.
    pub fn is_shut_down(&self) -> (down: bool)
        ensures
            down == (*self is ShutDown),
    {
        match self {
            ConnectionState::ShutDown => true,
            _ => false,
        }
    }

    /// The descriptor currently held, if any.
    pub fn current_descriptor(&self) -> (fd: Option<Descriptor>)
        ensures
            fd == self.descriptor(),
    {
        match self {
            ConnectionState::Listening(fd) => Some(*fd),
            ConnectionState::Accepted(fd) => Some(*fd),
            ConnectionState::ShutDown => None,
        }
    }

    /// Records that the receiver is shut down and says which descriptor the
    /// caller has to interrupt.
    ///
    /// The state is `ShutDown` when this returns, before any interrupt is
    /// attempted, so the worker stops whether or not the interrupt succeeds.
    /// A state that was already `ShutDown` asks for no interrupt.
    ///
    /// The caller issues the interrupt while it still holds the lock on the
    /// state: the worker closes the descriptor only after it has read the
    /// new state, so until the lock is released the descriptor is alive.
    pub fn shutdown(&mut self) -> (interrupt: Option<Descriptor>)
        ensures
            *final(self) == ConnectionState::ShutDown,
            interrupt == old(self).descriptor(),
    {
        match *self {
            ConnectionState::Listening(fd) | ConnectionState::Accepted(fd) => {
                *self = ConnectionState::ShutDown;
                Some(fd)
            },
            ConnectionState::ShutDown => None,
        }
    }

    /// Whether the status that the socket-shutdown primitive returned stands
    /// for a failure.
    pub fn interrupt_failed(status: i32) -> (failed: bool)
        ensures
            failed == (status != 0),
    {
        status != 0
    }
}

/// A shutdown moves every state forward to `ShutDown`.
pub proof fn lemma_shutdown_moves_forward(state: ConnectionState)
    ensures
        state.may_become(ConnectionState::ShutDown),
{
}

/// `ShutDown` is absorbing: it may only become itself.
pub proof fn lemma_shut_down_is_absorbing(next: ConnectionState)
    ensures
        ConnectionState::ShutDown.may_become(next) <==> next == ConnectionState::ShutDown,
{
}

/// The order of the life cycle is transitive: the phase never moves
/// backwards over any number of steps.
pub proof fn lemma_may_become_is_transitive(
    a: ConnectionState,
    b: ConnectionState,
    c: ConnectionState,
)
    requires
        a.may_become(b),
        b.may_become(c),
    ensures
        a.may_become(c),
{
}

} // verus!
