//! Local transactions: an ordered, private buffer of sends against named
//! queues. Buffering never touches a queue; `commit` validates every
//! target against the registry and then applies all buffered sends in
//! buffering order, all-or-nothing. Dropping a transaction without
//! committing has no observable effect on any queue.

use vstd::prelude::*;
use crate::error::MSMQError;
use crate::message::Message;
use crate::registry::QueueRegistry;
use crate::registry::first_bad_target;
use crate::registry::spec_apply_sends;

verus! {

/// A local transaction: the sends buffered so far, in order.
pub struct Transaction {
    ops: Vec<(String, Message)>,
}

impl Transaction {
    /// The buffered sends, in the order they were buffered.
    pub closed spec fn view(&self) -> Seq<(String, Message)> {
        self.ops@
    }

    /// Creates an empty transaction.
    pub fn new() -> (t: Transaction)
        ensures
            t@ == Seq::<(String, Message)>::empty(),
    {
        Transaction { ops: Vec::new() }
    }

    /// Buffers a send against the named queue. No queue is touched and
    /// nothing is validated here; existence is checked at commit.
    pub fn send(&mut self, queue_name: String, message: Message)
        ensures
            final(self)@ == old(self)@.push((queue_name, message)),
    {
        self.ops.push((queue_name, message));
    }

    /// Applies every buffered send, in buffering order, to the queues of
    /// the registry — all-or-nothing: if any buffered name is absent
    /// from the registry the commit fails with `QueueNotFound`, if any
    /// target is not transactional it fails with `TargetTypeMismatch`,
    /// and in either case no queue is changed at all. The first offender
    /// in buffering order names the error.
    pub fn commit(self, registry: &mut QueueRegistry) -> (r: Result<(), MSMQError>)
        requires
            old(registry).wf(),
        ensures
            final(registry).wf(),
            match first_bad_target(old(registry)@, self@, true) {
                None => {
                    &&& r is Ok
                    &&& final(registry)@ == spec_apply_sends(old(registry)@, self@)
                },
                Some(bad) => {
                    &&& final(registry)@ == old(registry)@
                    &&& (match r {
                        Ok(_) => false,
                        Err(e) => {
                            if crate::registry::find_store(old(registry)@, self@[bad].0@) is None {
                                e matches MSMQError::QueueNotFound(n) && n@ == self@[bad].0@
                            } else {
                                e matches MSMQError::TargetTypeMismatch(n) && n@ == self@[bad].0@
                            }
                        },
                    })
                },
            },
    {
        registry.apply_sends(&self.ops, true)
    }
}

} // verus!
