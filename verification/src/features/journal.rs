//! The journaling capability: a journaled queue records a value-copy of
//! every sent and every received message's content as an audit entry.
//! Journal writes are part of the queue operation itself, so no observer
//! can see a message delivered without its audit entry.

use vstd::prelude::*;
use crate::queue::Queue;
use crate::queue::QueueOps;

verus! {

/// Selects whether a queue journals its sends and receives.
pub trait JournalFeature: Sized {
    /// Whether this marker switches journaling on.
    spec fn spec_active() -> bool;

    /// The runtime flag the queue core is built with.
    fn active(&self) -> (b: bool)
        ensures
            b == Self::spec_active(),
    ;
}

/// Marker: the queue keeps no journal.
pub struct EmptyJournal;

/// Marker: the queue records every send and receive in its journal.
pub struct JournaledQueue;

impl JournalFeature for EmptyJournal {
    open spec fn spec_active() -> bool {
        false
    }

    fn active(&self) -> bool {
        false
    }
}

impl JournalFeature for JournaledQueue {
    open spec fn spec_active() -> bool {
        true
    }

    fn active(&self) -> bool {
        true
    }
}

impl<T, E, D> Queue<JournaledQueue, T, E, D> {
    /// The number of audit entries recorded so far: one per send and one
    /// per successful receive.
    pub fn journal_length(&self) -> (n: usize)
        ensures
            n == self.model().journal.len(),
    {
        self.store_ref().journal_length()
    }
}

} // verus!
