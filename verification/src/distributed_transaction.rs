//! The distributed two-phase-commit coordinator. Sends are buffered per
//! participant queue while the coordinator is `Active`; `prepare` asks
//! every participant — through the registry — whether it can apply its
//! buffer, and only if all agree does the coordinator move to `Prepared`.
//! A single refusal aborts the whole transaction with no participant
//! changed. `commit` is valid only from `Prepared` and applies every
//! buffer all-or-nothing; `Committed` and `Aborted` are terminal.

use vstd::prelude::*;
use crate::error::MSMQError;
use crate::message::Message;
use crate::registry::QueueRegistry;
use crate::registry::find_store;
use crate::registry::first_bad_target;
use crate::registry::spec_apply_sends;

verus! {

/// The coordinator's phase.
#[derive(Clone, Copy, PartialEq, Eq, Structural, Debug)]
pub enum TxnPhase {
    /// Accepting buffered sends; neither prepared nor decided.
    Active,
    /// Every participant acknowledged readiness; commit may proceed.
    Prepared,
    /// All buffered sends were applied. Terminal.
    Committed,
    /// A participant refused, or the coordinator gave up. Terminal.
    Aborted,
}

/// A distributed transaction: its phase and the sends buffered against
/// the participant queues, in order.
pub struct DistributedTransaction {
    phase: TxnPhase,
    ops: Vec<(String, Message)>,
}

impl DistributedTransaction {
    /// The buffered sends, in the order they were buffered.
    pub closed spec fn view(&self) -> Seq<(String, Message)> {
        self.ops@
    }

    /// The coordinator's current phase.
    pub closed spec fn spec_phase(&self) -> TxnPhase {
        self.phase
    }

    /// Creates an empty coordinator in the `Active` phase.
    pub fn new() -> (t: DistributedTransaction)
        ensures
            t@ == Seq::<(String, Message)>::empty(),
            t.spec_phase() is Active,
    {
        DistributedTransaction { phase: TxnPhase::Active, ops: Vec::new() }
    }

    /// The coordinator's current phase.
    pub fn phase(&self) -> (p: TxnPhase)
        ensures
            p == self.spec_phase(),
    {
        self.phase
    }

    /// Buffers a send against the named participant queue; refused once
    /// the coordinator has left the `Active` phase.
    pub fn send(&mut self, queue_name: String, message: Message) -> (r: Result<(), MSMQError>)
        ensures
            final(self).spec_phase() == old(self).spec_phase(),
            old(self).spec_phase() is Active ==> {
                &&& r is Ok
                &&& final(self)@ == old(self)@.push((queue_name, message))
            },
            !(old(self).spec_phase() is Active) ==> {
                &&& final(self)@ == old(self)@
                &&& r matches Err(MSMQError::InvalidPhase)
            },
    {
        match self.phase {
            TxnPhase::Active => {
                self.ops.push((queue_name, message));
                Ok(())
            },
            _ => Err(MSMQError::InvalidPhase),
        }
    }

    /// Asks every participant whether it can apply its buffer: each
    /// buffered name must be registered and its queue transactional. If
    /// all agree the coordinator moves to `Prepared`; on the first
    /// refusal it moves to `Aborted` and reports that participant — and
    /// either way no queue is changed, as the registry is only read.
    pub fn prepare(&mut self, registry: &QueueRegistry) -> (r: Result<(), MSMQError>)
        ensures
            final(self)@ == old(self)@,
            !(old(self).spec_phase() is Active) ==> {
                &&& final(self).spec_phase() == old(self).spec_phase()
                &&& r matches Err(MSMQError::InvalidPhase)
            },
            old(self).spec_phase() is Active ==> match first_bad_target(registry@, old(self)@, true) {
                None => {
                    &&& r is Ok
                    &&& final(self).spec_phase() is Prepared
                },
                Some(bad) => {
                    &&& final(self).spec_phase() is Aborted
                    &&& (match r {
                        Ok(_) => false,
                        Err(e) => {
                            if find_store(registry@, old(self)@[bad].0@) is None {
                                e matches MSMQError::QueueNotFound(n) && n@ == old(self)@[bad].0@
                            } else {
                                e matches MSMQError::TargetTypeMismatch(n) && n@ == old(
                                    self,
                                )@[bad].0@
                            }
                        },
                    })
                },
            },
    {
        match self.phase {
            TxnPhase::Active => {
                match registry.check_targets(&self.ops, true) {
                    None => {
                        self.phase = TxnPhase::Prepared;
                        Ok(())
                    },
                    Some(e) => {
                        self.phase = TxnPhase::Aborted;
                        Err(e)
                    },
                }
            },
            _ => Err(MSMQError::InvalidPhase),
        }
    }

    /// Applies every buffered send in order, all-or-nothing; only valid
    /// from `Prepared`. On success the coordinator is `Committed` and
    /// every participant reflects its buffered sends. If a participant
    /// vanished or changed shape since `prepare`, nothing at all is
    /// applied and the coordinator moves to `Aborted` reporting it.
    pub fn commit(&mut self, registry: &mut QueueRegistry) -> (r: Result<(), MSMQError>)
        requires
            old(registry).wf(),
        ensures
            final(registry).wf(),
            final(self)@ == old(self)@,
            !(old(self).spec_phase() is Prepared) ==> {
                &&& final(self).spec_phase() == old(self).spec_phase()
                &&& final(registry)@ == old(registry)@
                &&& r matches Err(MSMQError::InvalidPhase)
            },
            old(self).spec_phase() is Prepared ==> match first_bad_target(
                old(registry)@,
                old(self)@,
                true,
            ) {
                None => {
                    &&& r is Ok
                    &&& final(self).spec_phase() is Committed
                    &&& final(registry)@ == spec_apply_sends(old(registry)@, old(self)@)
                },
                Some(bad) => {
                    &&& final(self).spec_phase() is Aborted
                    &&& final(registry)@ == old(registry)@
                    &&& (match r {
                        Ok(_) => false,
                        Err(e) => {
                            if find_store(old(registry)@, old(self)@[bad].0@) is None {
                                e matches MSMQError::QueueNotFound(n) && n@ == old(self)@[bad].0@
                            } else {
                                e matches MSMQError::TargetTypeMismatch(n) && n@ == old(
                                    self,
                                )@[bad].0@
                            }
                        },
                    })
                },
            },
    {
        match self.phase {
            TxnPhase::Prepared => {
                match registry.apply_sends(&self.ops, true) {
                    Ok(_) => {
                        self.phase = TxnPhase::Committed;
                        Ok(())
                    },
                    Err(e) => {
                        self.phase = TxnPhase::Aborted;
                        Err(e)
                    },
                }
            },
            _ => Err(MSMQError::InvalidPhase),
        }
    }
}

} // verus!
