//! The receiving end of a point-to-point TCP channel, as a set of verified
//! state machines.
//!
//! A receiver accepts exactly one inbound connection, decodes frames from it
//! and hands each frame to the one listener that is subscribed, if any. Two
//! threads take part: the owner, which subscribes, unsubscribes and tears the
//! receiver down, and one worker, which blocks on the socket.
//!
//! This crate holds every decision of that protocol and none of its blocking
//! calls. The caller performs a socket operation, hands its outcome to one of
//! the functions here, and does what the answer says:
//!
//! * [`connection`]: the life cycle of the socket descriptor.
//! * [`message`]: the frames of the wire protocol.
//! * [`listener`]: what a listener is told, and how a frame reaches one.
//! * [`registry`]: the single listener slot.
//! * [`worker`]: what the worker does after `accept` and after a failed read.
//! * [`teardown`]: what is reported once the worker has been joined.
//! * [`report`]: the failures that are recorded rather than returned.

pub mod connection;
pub mod listener;
pub mod message;
pub mod registry;
pub mod report;
pub mod teardown;
pub mod worker;
