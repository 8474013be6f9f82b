//! The dead-letter capability: a queue built with it owns a dead-letter
//! buffer into which the next deliverable message can be explicitly
//! evicted; producers never send to that buffer directly.

use vstd::prelude::*;
use crate::error::MSMQError;
use crate::queue::Queue;
use crate::queue::QueueOps;
use crate::store::spec_move_to_dlq;

verus! {

/// Selects whether a queue has a dead-letter target.
pub trait DeadLetterFeature: Sized {
    /// Whether this marker switches dead-lettering on.
    spec fn spec_enabled() -> bool;

    /// The runtime flag the queue core is built with.
    fn enabled(&self) -> (b: bool)
        ensures
            b == Self::spec_enabled(),
    ;
}

/// Marker: the queue has no dead-letter target.
pub struct EmptyDeadletterQueue;

/// Marker: the queue owns a dead-letter buffer for evicted messages.
pub struct DeadletterQueue;

impl DeadLetterFeature for EmptyDeadletterQueue {
    open spec fn spec_enabled() -> bool {
        false
    }

    fn enabled(&self) -> bool {
        false
    }
}

impl DeadLetterFeature for DeadletterQueue {
    open spec fn spec_enabled() -> bool {
        true
    }

    fn enabled(&self) -> bool {
        true
    }
}

impl<J, T, E> Queue<J, T, E, DeadletterQueue> {
    /// Removes the next deliverable message (same order as `receive`)
    /// and hands it to the dead-letter buffer; succeeds without effect
    /// on an empty queue.
    pub fn move_to_dlq(&mut self) -> (r: Result<(), MSMQError>)
        requires
            old(self).model().inv(),
        ensures
            final(self).model() == spec_move_to_dlq(old(self).model()),
            final(self).model().inv(),
            r is Ok,
    {
        self.store_mut().move_to_dlq()
    }

    /// The number of messages evicted into the dead-letter buffer.
    pub fn dlq_count(&self) -> (n: usize)
        ensures
            n == self.model().dlq.len(),
    {
        self.store_ref().dlq_count()
    }
}

} // verus!
