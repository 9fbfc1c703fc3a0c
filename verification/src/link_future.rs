//! The future-to-message bridge: how a component hands a deferred unit of
//! asynchronous work to the cooperative scheduler, so that the result
//! comes back through the component's ordinary, serialized update channel
//! rather than from an arbitrary callback context.
//!
//! A deferred unit of work captures, by value, the inputs of one
//! asynchronous operation; it resolves on a later turn of the event loop
//! to exactly one message, or to an ordered batch of messages. If the
//! work itself aborts abnormally, the registration leaks: it is never
//! delivered, never retried and never cleaned up — an accepted, documented
//! limitation. No cancellation primitive exists: scheduling a new unit of
//! work never cancels an older one still in flight.

use vstd::prelude::*;

verus! {

/// The contract of a link that registers deferred work for a component.
pub trait LinkFuture {
    /// The by-value inputs one deferred unit of work captures.
    type Work;

    /// The registered, not yet resolved units of work, oldest first;
    /// `true` tags one that resolves to a batch of messages.
    spec fn pending(&self) -> Seq<(Self::Work, bool)>;

    /// Registers deferred work that resolves to exactly one message.
    /// Returns immediately, without blocking the caller; the message is
    /// delivered on a later turn of the event loop, causing exactly one
    /// state-update pass.
    fn send_future(&mut self, work: Self::Work)
        ensures
            final(self).pending() == old(self).pending().push((work, false)),
    ;

    /// Registers deferred work that resolves to an ordered batch of
    /// messages, each delivered and applied in order.
    fn send_future_batch(&mut self, work: Self::Work)
        ensures
            final(self).pending() == old(self).pending().push((work, true)),
    ;
}

/// The component's handle to the scheduler: it records what was
/// registered and not yet resolved. Completions come back only through
/// the serialized message queue, never by reaching into component state.
pub struct Link<W> {
    queue: Vec<(W, bool)>,
}

impl<W> Link<W> {
    /// A link with nothing registered.
    pub fn new() -> (r: Self)
        ensures
            r.pending() == Seq::<(W, bool)>::empty(),
    {
        Link { queue: Vec::new() }
    }

    /// How many units of work are registered and unresolved.
    pub fn pending_len(&self) -> (n: usize)
        ensures
            n == self.pending().len(),
    {
        self.queue.len()
    }

    /// The registered unit of work at `index`, for the scheduler about to
    /// run it.
    pub fn work_at(&self, index: usize) -> (w: &(W, bool))
        requires
            index < self.pending().len(),
        ensures
            *w == self.pending()[index as int],
    {
        &self.queue[index]
    }

    /// Resolves the registered unit of work at `index`: it leaves the
    /// registration and is handed to the caller, which delivers the
    /// resulting message or batch through the update channel.
    pub fn take(&mut self, index: usize) -> (w: (W, bool))
        requires
            index < old(self).pending().len(),
        ensures
            final(self).pending() == old(self).pending().remove(index as int),
            w == old(self).pending()[index as int],
    {
        self.queue.remove(index)
    }
}

impl<W> LinkFuture for Link<W> {
    type Work = W;

    closed spec fn pending(&self) -> Seq<(W, bool)> {
        self.queue@
    }

    fn send_future(&mut self, work: W) {
        self.queue.push((work, false));
    }

    fn send_future_batch(&mut self, work: W) {
        self.queue.push((work, true));
    }
}

} // verus!
