//! The transactional capability: a queue built with it may take part in
//! local transactions and in distributed two-phase commits. Buffering a
//! transactional send never touches the queue itself; only a commit,
//! through the registry, applies the buffered messages.

use vstd::prelude::*;
use crate::distributed_transaction::DistributedTransaction;
use crate::error::MSMQError;
use crate::message::Message;
use crate::queue::Queue;
use crate::queue::QueueOps;
use crate::transaction::Transaction;

verus! {

/// Selects whether a queue accepts transactional application.
pub trait TransactionalFeature: Sized {
    /// Whether this marker switches transactional application on.
    spec fn spec_enabled() -> bool;

    /// The runtime flag the queue core is built with.
    fn enabled() -> (b: bool)
        ensures
            b == Self::spec_enabled(),
    ;
}

/// Marker: the queue refuses transactional application.
pub struct EmptyTransactionalQueue;

/// Marker: the queue accepts transactional application.
pub struct TransactionalQueue;

impl TransactionalFeature for EmptyTransactionalQueue {
    open spec fn spec_enabled() -> bool {
        false
    }

    fn enabled() -> bool {
        false
    }
}

impl TransactionalFeature for TransactionalQueue {
    open spec fn spec_enabled() -> bool {
        true
    }

    fn enabled() -> bool {
        true
    }
}

impl<J, E, D> Queue<J, TransactionalQueue, E, D> {
    /// Buffers a send of `message` to this queue in the given local
    /// transaction; the queue itself — its pending count included — is
    /// not touched until the transaction commits.
    pub fn send_transactional(&self, message: Message, txn: &mut Transaction) -> (r: Result<
        (),
        MSMQError,
    >)
        ensures
            final(txn)@.len() == old(txn)@.len() + 1,
            final(txn)@.last().0@ == self.model().name,
            final(txn)@.last().1 == message,
            final(txn)@.drop_last() == old(txn)@,
            r is Ok,
    {
        let name = self.store_ref().name().clone();
        txn.send(name, message);
        proof {
            assert(txn@.drop_last() =~= old(txn)@);
        }
        Ok(())
    }

    /// Buffers a send of `message` to this queue in the given distributed
    /// transaction; refused once the coordinator has left the `Active`
    /// phase. The queue itself is not touched until the commit phase.
    pub fn send_distributed_transactional(
        &self,
        message: Message,
        txn: &mut DistributedTransaction,
    ) -> (r: Result<(), MSMQError>)
        ensures
            final(txn).spec_phase() == old(txn).spec_phase(),
            old(txn).spec_phase() is Active ==> {
                &&& r is Ok
                &&& final(txn)@.len() == old(txn)@.len() + 1
                &&& final(txn)@.last().0@ == self.model().name
                &&& final(txn)@.last().1 == message
                &&& final(txn)@.drop_last() == old(txn)@
            },
            !(old(txn).spec_phase() is Active) ==> {
                &&& final(txn)@ == old(txn)@
                &&& r matches Err(MSMQError::InvalidPhase)
            },
    {
        let name = self.store_ref().name().clone();
        let r = txn.send(name, message);
        proof {
            if old(txn).spec_phase() is Active {
                assert(txn@.drop_last() =~= old(txn)@);
            }
        }
        r
    }
}

} // verus!
