//! The single listener slot.
//!
//! At most one listener is subscribed at a time. A frame that arrives while
//! the slot is empty is dropped: delivery is best effort, and nothing is
//! kept for a listener that subscribes later.

use vstd::prelude::*;
use crate::listener::{deliver, delivered, Listener};
use crate::message::Message;
use crate::report::Report;

verus! {

/// The token that a successful subscription hands out.
#[derive(Clone, Copy, Debug, PartialEq, Eq, Structural)]
pub struct Subscription {}

/// A holder for at most one listener.
pub struct ListenerRegistry<L> {
    slot: Option<L>,
}

impl<L> View for ListenerRegistry<L> {
    type V = Option<L>;

    /// The listener that is subscribed, if any.
    closed spec fn view(&self) -> Option<L> {
        self.slot
    }
}

impl<L> ListenerRegistry<L> {
    /// The slot after an attempt to subscribe `listener`.
    pub open spec fn after_subscribe(slot: Option<L>, listener: L) -> Option<L> {
        match slot {
            Some(_) => slot,
            None => Some(listener),
        }
    }

    /// What an attempt to subscribe `listener` returns: the token, or the
    /// listener itself where the slot is taken.
    pub open spec fn subscribe_result(slot: Option<L>, listener: L) -> Result<Subscription, L> {
        match slot {
            Some(_) => Err(listener),
            None => Ok(Subscription {  }),
        }
    }

    /// The slot after an unsubscription: empty.
    pub open spec fn after_unsubscribe(slot: Option<L>) -> Option<L> {
        None
    }

    /// What an unsubscription returns: whoever was in the slot.
    pub open spec fn unsubscribe_result(slot: Option<L>) -> Option<L> {
        slot
    }

    /// A registry with nobody subscribed.
    pub fn new() -> (registry: Self)
        ensures
            registry@ is None,
    {
        ListenerRegistry { slot: None }
    }

    /// Whether a listener is subscribed.
    pub fn is_subscribed(&self) -> (subscribed: bool)
        ensures
            subscribed == (self@ is Some),
    {
        self.slot.is_some()
    }

    /// The listener that is subscribed, if any.
    pub fn occupant(&self) -> (listener: Option<&L>)
        ensures
            listener is Some == (self@ is Some),
            listener matches Some(l) ==> self@ == Some(*l),
    {
        self.slot.as_ref()
    }

    /// Subscribes `listener` if the slot is empty. If it is taken, the slot
    /// stays as it is and the caller gets `listener` back.
    pub fn subscribe(&mut self, listener: L) -> (granted: Result<Subscription, L>)
        ensures
            final(self)@ == Self::after_subscribe(old(self)@, listener),
            granted == Self::subscribe_result(old(self)@, listener),
    {
        if self.slot.is_some() {
            Err(listener)
        } else {
            self.slot = Some(listener);
            Ok(Subscription {  })
        }
    }

    /// Empties the slot and returns the listener that was in it, whoever
    /// subscribed it: with one slot, the token only shows that the caller
    /// once subscribed.
    pub fn unsubscribe(&mut self, subscription: &Subscription) -> (listener: Option<L>)
        ensures
            final(self)@ == Self::after_unsubscribe(old(self)@),
            listener == Self::unsubscribe_result(old(self)@),
    {
        self.slot.take()
    }

    /// Hands `message` to the subscribed listener, or drops it if there is
    /// none. Returns what is recorded about the listener's answer: nothing
    /// if it succeeded, its failure otherwise.
    ///
    /// Whether a listener is subscribed is the same before and after.
    pub fn dispatch<T>(&mut self, message: Message<T>) -> (report: Option<Report>) where
        L: Listener<T>,

        ensures
            final(self)@ is Some == (old(self)@ is Some),
            delivered(old(self)@, message, report),
    {
        deliver(self.slot.as_mut(), message)
    }
}

/// Subscribing to an empty slot succeeds and fills it. While it is filled, a
/// further subscription is rejected: the caller gets its own listener back,
/// and the first one stays where it is.
pub proof fn lemma_one_subscription_at_a_time<L>(first: L, second: L)
    ensures
        ListenerRegistry::<L>::subscribe_result(None, first) is Ok,
        ListenerRegistry::<L>::after_subscribe(None, first) == Some(first),
        ListenerRegistry::<L>::subscribe_result(Some(first), second) == Err::<Subscription, L>(
            second,
        ),
        ListenerRegistry::<L>::after_subscribe(Some(first), second) == Some(first),
{
}

/// A subscription is granted exactly when the slot is empty.
pub proof fn lemma_subscribe_fails_iff_occupied<L>(slot: Option<L>, listener: L)
    ensures
        ListenerRegistry::<L>::subscribe_result(slot, listener) is Err <==> slot is Some,
        ListenerRegistry::<L>::after_subscribe(slot, listener) is Some,
{
}

/// Unsubscribing returns the listener that was subscribed and leaves the
/// slot empty, so that unsubscribing once more returns nothing.
pub proof fn lemma_unsubscribe_empties_the_slot<L>(slot: Option<L>)
    ensures
        ListenerRegistry::<L>::unsubscribe_result(slot) == slot,
        ListenerRegistry::<L>::after_unsubscribe(slot) is None,
        ListenerRegistry::<L>::unsubscribe_result(ListenerRegistry::<L>::after_unsubscribe(slot))
            is None,
{
}

/// After an unsubscription the slot is free again: the next subscription is
/// granted.
pub proof fn lemma_unsubscribe_frees_the_slot<L>(slot: Option<L>, next: L)
    ensures
        ListenerRegistry::<L>::subscribe_result(
            ListenerRegistry::<L>::after_unsubscribe(slot),
            next,
        ) is Ok,
{
}

/// Outside a subscription no frame reaches a listener: the slot is empty
/// until a subscription is granted and after every unsubscription, and a
/// frame that meets an empty slot is told to nobody and leaves nothing
/// behind.
pub proof fn lemma_no_delivery_outside_subscription<T, L: Listener<T>>(
    slot: Option<L>,
    message: Message<T>,
    report: Option<Report>,
)
    ensures
        delivered(None::<L>, message, report) <==> report is None,
        delivered(ListenerRegistry::<L>::after_unsubscribe(slot), message, report)
            <==> report is None,
{
}

} // verus!
