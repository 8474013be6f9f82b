//! Multicast groups: a named list of member queues. Sending to the
//! group delivers a copy of the message to every member, through the
//! registry, all-or-nothing: if any member queue is missing, no queue
//! receives anything.

use vstd::prelude::*;
use crate::error::MSMQError;
use crate::message::Message;
use crate::registry::QueueRegistry;
use crate::registry::first_bad_target;
use crate::registry::spec_apply_sends;

verus! {

/// The sends a group delivery performs: one copy of `m` per member, in
/// membership order.
pub open spec fn group_sends(members: Seq<String>, m: Message) -> Seq<(String, Message)> {
    Seq::new(members.len(), |i: int| (members[i], m))
}

/// A named group of member queues.
pub struct MulticastGroup {
    name: String,
    members: Vec<String>,
}

impl MulticastGroup {
    /// The member queue names, in joining order.
    pub closed spec fn view(&self) -> Seq<String> {
        self.members@
    }

    /// The group's name.
    pub closed spec fn spec_name(&self) -> Seq<char> {
        self.name@
    }

    /// Creates an empty group.
    pub fn new(name: &str) -> (g: MulticastGroup)
        ensures
            g.spec_name() == name@,
            g@ == Seq::<String>::empty(),
    {
        MulticastGroup { name: name.to_owned(), members: Vec::new() }
    }

    /// Adds a member queue by name.
    pub fn join(&mut self, queue_name: String)
        ensures
            final(self)@ == old(self)@.push(queue_name),
            final(self).spec_name() == old(self).spec_name(),
    {
        self.members.push(queue_name);
    }

    /// Delivers a copy of `message` to every member queue, in joining
    /// order, all-or-nothing: if any member is absent from the registry
    /// the first such member is reported and no queue is changed.
    pub fn send(&self, message: Message, registry: &mut QueueRegistry) -> (r: Result<
        (),
        MSMQError,
    >)
        requires
            old(registry).wf(),
        ensures
            final(registry).wf(),
            match first_bad_target(old(registry)@, group_sends(self@, message), false) {
                None => {
                    &&& r is Ok
                    &&& final(registry)@ == spec_apply_sends(
                        old(registry)@,
                        group_sends(self@, message),
                    )
                },
                Some(bad) => {
                    &&& final(registry)@ == old(registry)@
                    &&& (match r {
                        Ok(_) => false,
                        Err(e) => e matches MSMQError::QueueNotFound(n) && n@ == self@[bad]@,
                    })
                },
            },
    {
        let n = self.members.len();
        let mut ops: Vec<(String, Message)> = Vec::new();
        let mut j: usize = 0;
        while j < n
            invariant
                j <= n,
                n == self@.len(),
                ops@.len() == j,
                forall|k: int|
                    0 <= k < j ==> (#[trigger] ops@[k]) == (self@[k], message),
            decreases n - j,
        {
            ops.push((self.members[j].clone(), message.clone()));
            j = j + 1;
        }
        proof {
            assert(ops@ =~= group_sends(self@, message));
            match first_bad_target(registry@, ops@, false) {
                Some(_) => {
                    crate::registry::lemma_first_bad_target_is_bad(registry@, ops@, false);
                },
                None => {},
            }
        }
        registry.apply_sends(&ops, false)
    }
}

} // verus!
