//! The event stream consumed by the dispatch loop, merging keyboard input
//! and periodic ticks.
//!
//! Two producers (a keyboard reader and a ticker) and one consumer share a
//! stream. This module holds the verified state of that stream: a pending
//! queue, first-in first-out, and a stopped flag. The threads, the blocking
//! reads and the sleeping between ticks live in the unverified shell, which
//! calls `offer` from each producer and `poll` from the consumer. Events
//! offered by one producer are handed out in the order they were offered;
//! the interleaving between producers is whatever order the calls arrive in.
//! Once `stop` has run, nothing is pending, nothing more is accepted, and a
//! producer that sees its offer refused is expected to exit silently.

use vstd::prelude::*;

verus! {

/// One event on the stream: a key read from the operator, or a tick fired on
/// a fixed interval regardless of input.
pub enum Event<I> {
    Input(I),
    Tick,
}

/// The merged event stream: the events offered but not yet consumed, oldest
/// first, and whether the stream has been stopped.
pub struct Events<I> {
    queue: Vec<Event<I>>,
    stopped: bool,
}

impl<I> Events<I> {
    /// The events offered but not yet consumed, oldest first.
    pub closed spec fn pending(&self) -> Seq<Event<I>> {
        self.queue@
    }

    /// Whether `stop` has run.
    pub closed spec fn is_stopped(&self) -> bool {
        self.stopped
    }

    /// A stream on which `stop` has run and whose pending events are gone.
    /// `stop` leaves the stream in this state, and `offer` and `poll` both
    /// keep it there, so after `stop` returns no event ever appears on the
    /// stream again.
    pub open spec fn dead(&self) -> bool {
        self.is_stopped() && self.pending().len() == 0
    }

    /// A fresh stream: running, with nothing pending.
    pub fn new() -> (r: Events<I>)
        ensures
            r.pending() == Seq::<Event<I>>::empty(),
            !r.is_stopped(),
    {
        Events { queue: Vec::new(), stopped: false }
    }

    /// A producer hands one event to the stream. A running stream appends it
    /// behind everything already pending; a stopped stream refuses it, and
    /// the refusal tells the producer to exit.
    pub fn offer(&mut self, event: Event<I>) -> (accepted: bool)
        ensures
            accepted == !old(self).is_stopped(),
            final(self).is_stopped() == old(self).is_stopped(),
            accepted ==> final(self).pending() == old(self).pending().push(event),
            !accepted ==> final(self).pending() == old(self).pending(),
            old(self).dead() ==> final(self).dead(),
    {
        if self.stopped {
            false
        } else {
            self.queue.push(event);
            true
        }
    }

    /// The consumer takes the oldest pending event, or learns that nothing
    /// is pending right now.
    pub fn poll(&mut self) -> (r: Option<Event<I>>)
        ensures
            final(self).is_stopped() == old(self).is_stopped(),
            old(self).pending().len() > 0 ==> r == Some(old(self).pending()[0])
                && final(self).pending() == old(self).pending().drop_first(),
            old(self).pending().len() == 0 ==> r is None
                && final(self).pending() == old(self).pending(),
            old(self).dead() ==> final(self).dead() && r is None,
    {
        if self.queue.len() == 0 {
            None
        } else {
            Some(self.queue.remove(0))
        }
    }

    /// Stops the stream: everything still pending is discarded and every
    /// later `offer` is refused, so after `stop` returns a drain by `poll`
    /// yields nothing, however the producers go on.
    pub fn stop(&mut self)
        ensures
            final(self).is_stopped(),
            final(self).pending() == Seq::<Event<I>>::empty(),
            final(self).dead(),
    {
        self.stopped = true;
        self.queue = Vec::new();
    }
}

} // verus!
