//! The completion bridge: a single-use conduit between the engine's one-shot
//! completion callback and the caller that awaits a read's outcome.
//!
//! Before a read is issued the facade creates a fresh [`CompletionSlot`], the
//! producer end of the conduit. The engine resolves the read either
//! synchronously (the slot is then reclaimed by [`CompletionSlot::close`],
//! delivering nothing) or by invoking the completion callback exactly once,
//! which delivers at most one value through [`CompletionSlot::send`]. Either
//! way the slot ends closed, and [`CompletionSlot::into_receiver`] hands the
//! consumer end back to the caller.
//!
//! Exactly-once delivery is part of the contracts: `send` requires an open,
//! empty slot and leaves it closed, so a second delivery is impossible, and
//! [`Receiver::recv`] empties the receiver, so a value is observed at most
//! once however often `recv` is called.
use vstd::prelude::*;

verus! {

/// The producer end of the completion conduit. At most one value ever enters
/// it; after `send` or `close` the slot is closed for good.
pub struct CompletionSlot<V> {
    value: Option<V>,
    open: bool,
}

/// The consumer end of the completion conduit: yields the delivered value on
/// the first `recv`, and nothing ever after.
pub struct Receiver<V> {
    value: Option<V>,
}

impl<V> CompletionSlot<V> {
    /// The value delivered so far, if any.
    pub closed spec fn delivered(&self) -> Option<V> {
        self.value
    }

    /// Whether the slot still accepts a delivery.
    pub closed spec fn is_open(&self) -> bool {
        self.open
    }

    /// A fresh slot: open, nothing delivered.
    pub fn new() -> (r: Self)
        ensures
            r.delivered() is None,
            r.is_open(),
    {
        CompletionSlot { value: None, open: true }
    }

    /// Deliver the one value this slot will ever carry, and close the slot.
    pub fn send(&mut self, v: V)
        requires
            old(self).is_open(),
            old(self).delivered() is None,
        ensures
            final(self).delivered() == Some(v),
            !final(self).is_open(),
    {
        self.value = Some(v);
        self.open = false;
    }

    /// Reclaim the producer end without a delivery, as after a synchronous
    /// resolution in which the callback is never invoked.
    pub fn close(&mut self)
        requires
            old(self).is_open(),
        ensures
            final(self).delivered() == old(self).delivered(),
            !final(self).is_open(),
    {
        self.open = false;
    }

    /// Turn the resolved conduit into its consumer end.
    pub fn into_receiver(self) -> (r: Receiver<V>)
        requires
            !self.is_open(),
        ensures
            r.pending() == self.delivered(),
    {
        Receiver { value: self.value }
    }
}

impl<V> Receiver<V> {
    /// The value still waiting to be received, if any.
    pub closed spec fn pending(&self) -> Option<V> {
        self.value
    }

    /// Take the delivered value. Yields the value exactly once: every later
    /// call returns `None`, so no receiver ever observes two values.
    pub fn recv(&mut self) -> (r: Option<V>)
        ensures
            r == old(self).pending(),
            final(self).pending() is None,
    {
        self.value.take()
    }
}

} // verus!
