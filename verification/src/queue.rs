//! The typed queue façade: `Queue<J, T, E, D>` wraps the concrete engine
//! core and carries its capability selection in its type parameters, so
//! an operation that needs a capability exists only on instantiations
//! whose marker declares it — there is no per-operation runtime check to
//! get wrong. The markers and the concrete flags always agree, because
//! both come from the same construction.

use core::marker::PhantomData;
use vstd::prelude::*;
use crate::error::MSMQError;
use crate::features::dead_letter::DeadLetterFeature;
use crate::features::dead_letter::EmptyDeadletterQueue;
use crate::features::encrypted::AnonymousEncryption;
use crate::features::encrypted::EncryptFeature;
use crate::features::journal::EmptyJournal;
use crate::features::journal::JournalFeature;
use crate::features::transactional::EmptyTransactionalQueue;
use crate::features::transactional::TransactionalFeature;
use crate::message::Message;
use crate::store::QueueStore;
use crate::store::StoreModel;
use crate::store::spec_receive;
use crate::store::spec_send;

verus! {

/// The operations every queue offers, whatever its capability set.
/// Their behavior is pinned to the store model: `send` appends to the
/// right priority bucket (and log, and journal where configured), and
/// `receive` removes the highest-priority earliest-arrived message —
/// returning nothing, never an error, on an empty queue.
pub trait QueueOps: Sized {
    /// The mathematical state of the queue.
    spec fn model(&self) -> StoreModel;

    /// Appends a message; never refused on logical grounds.
    fn send(&mut self, message: Message) -> (r: Result<(), MSMQError>)
        requires
            old(self).model().inv(),
        ensures
            final(self).model() == spec_send(old(self).model(), message),
            final(self).model().inv(),
            r is Ok;

    /// Removes and returns the next deliverable message, if any.
    fn receive(&mut self) -> (r: Option<Message>)
        requires
            old(self).model().inv(),
        ensures
            final(self).model() == spec_receive(old(self).model()).0,
            r == spec_receive(old(self).model()).1,
            final(self).model().inv();

    /// The pending count, reflecting every completed send and receive.
    fn message_count(&self) -> (r: Result<usize, MSMQError>)
        ensures
            (match r {
                Ok(n) => n == self.model().dv().len(),
                Err(_) => self.model().dv().len() > usize::MAX,
            }),
            self.model().dv().len() <= usize::MAX ==> r is Ok;
}

/// A named queue whose capability set — journaling, transactional
/// application, authenticated delivery, dead-lettering — is chosen at
/// construction and carried in the type parameters.
pub struct Queue<
    J = EmptyJournal,
    T = EmptyTransactionalQueue,
    E = AnonymousEncryption,
    D = EmptyDeadletterQueue,
> {
    pub(crate) store: QueueStore,
    pub(crate) marker: PhantomData<(J, T, E, D)>,
}

impl<J, T, E, D> Queue<J, T, E, D> {
    /// Library-internal read access to the wrapped store.
    pub(crate) fn store_ref(&self) -> (s: &QueueStore)
        ensures
            s@ == self.model(),
    {
        &self.store
    }

    /// Library-internal write access to the wrapped store.
    pub(crate) fn store_mut(&mut self) -> (s: &mut QueueStore)
        ensures
            (*s)@ == old(self).model(),
            final(self).model() == (*final(s))@,
    {
        &mut self.store
    }

    /// Releases the wrapped store, for registration in a queue registry.
    pub fn into_store(self) -> (s: QueueStore)
        ensures
            s@ == self.model(),
    {
        self.store
    }

    /// Adds this queue, by name, to a multicast group.
    pub fn join_group(&self, group: &mut crate::multicast_group::MulticastGroup) -> (r: Result<
        (),
        MSMQError,
    >)
        ensures
            final(group)@.len() == old(group)@.len() + 1,
            final(group)@.last()@ == self.model().name,
            final(group)@.drop_last() == old(group)@,
            final(group).spec_name() == old(group).spec_name(),
            r is Ok,
    {
        group.join(self.store.name().clone());
        proof {
            assert(group@.drop_last() =~= old(group)@);
        }
        Ok(())
    }
}

impl<J: JournalFeature, T: TransactionalFeature, E: EncryptFeature, D: DeadLetterFeature> Queue<
    J,
    T,
    E,
    D,
> {
    /// Creates an empty queue whose concrete capability flags are taken
    /// from the marker types and the given feature values.
    pub fn new(name: &str, j: J, e: E, d: D) -> (q: Self)
        ensures
            q.model().inv(),
            q.model().name == name@,
            q.model().highs == Seq::<Message>::empty(),
            q.model().lows == Seq::<Message>::empty(),
            q.model().journal == Seq::<crate::store::JournalEntryModel>::empty(),
            q.model().log == Seq::<crate::store::LogRecord>::empty(),
            q.model().dlq == Seq::<Message>::empty(),
            q.model().journal_on == J::spec_active(),
            q.model().transactional == T::spec_enabled(),
            q.model().credential == e.spec_credential(),
            q.model().dlq_on == D::spec_enabled(),
    {
        let journal_on = j.active();
        let transactional = T::enabled();
        let credential = e.credential();
        let dlq_on = d.enabled();
        Queue {
            store: QueueStore::new(name.to_owned(), journal_on, transactional, credential, dlq_on),
            marker: PhantomData,
        }
    }
}

impl<J, T, E, D> QueueOps for Queue<J, T, E, D> {
    closed spec fn model(&self) -> StoreModel {
        self.store@
    }

    fn send(&mut self, message: Message) -> (r: Result<(), MSMQError>) {
        self.store.send(message)
    }

    fn receive(&mut self) -> (r: Option<Message>) {
        self.store.receive()
    }

    fn message_count(&self) -> (r: Result<usize, MSMQError>) {
        self.store.message_count()
    }
}

} // verus!
