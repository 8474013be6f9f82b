//! The feature composer: a builder that accumulates capability
//! selections one at a time and produces a queue whose type carries
//! exactly the selected capabilities. Operations of unselected
//! capabilities do not exist on the built queue at all; no guard
//! clause is ever consulted at run time.

use core::marker::PhantomData;
use vstd::prelude::*;
use crate::features::dead_letter::DeadLetterFeature;
use crate::features::dead_letter::DeadletterQueue;
use crate::features::dead_letter::EmptyDeadletterQueue;
use crate::features::encrypted::AnonymousEncryption;
use crate::features::encrypted::BasicEncryption;
use crate::features::encrypted::EncryptFeature;
use crate::features::journal::EmptyJournal;
use crate::features::journal::JournaledQueue;
use crate::features::journal::JournalFeature;
use crate::features::transactional::EmptyTransactionalQueue;
use crate::features::transactional::TransactionalFeature;
use crate::features::transactional::TransactionalQueue;
use crate::message::Message;
use crate::queue::Queue;
use crate::queue::QueueOps;
use crate::security::Security;

verus! {

/// Accumulates a queue name and a capability selection; `build` turns
/// the selection into a queue of exactly that shape.
pub struct QueueBuilder<
    J = EmptyJournal,
    T = EmptyTransactionalQueue,
    E = AnonymousEncryption,
    D = EmptyDeadletterQueue,
> {
    name: String,
    journal: J,
    encryption: E,
    dlq: D,
    marker: PhantomData<T>,
}

impl QueueBuilder<EmptyJournal, EmptyTransactionalQueue, AnonymousEncryption, EmptyDeadletterQueue> {
    /// Starts a builder with no capabilities selected: the default build
    /// is a plain best-effort queue without journal, transactions,
    /// credential or dead-letter target.
    pub fn new(name: &str) -> (b: QueueBuilder)
        ensures
            b.spec_name() == name@,
            b.spec_credential() is None,
    {
        QueueBuilder {
            name: name.to_owned(),
            journal: EmptyJournal,
            encryption: AnonymousEncryption,
            dlq: EmptyDeadletterQueue,
            marker: PhantomData,
        }
    }
}

impl<J, T, E: EncryptFeature, D> QueueBuilder<J, T, E, D> {
    /// The name the built queue will carry.
    pub closed spec fn spec_name(&self) -> Seq<char> {
        self.name@
    }

    /// The credential the built queue will be bound to, if any.
    pub closed spec fn spec_credential(&self) -> Option<Security> {
        self.encryption.spec_credential()
    }

    /// Selects journaling.
    pub fn with_journaling(self) -> (b: QueueBuilder<JournaledQueue, T, E, D>)
        ensures
            b.spec_name() == self.spec_name(),
            b.spec_credential() == self.spec_credential(),
    {
        QueueBuilder {
            name: self.name,
            journal: JournaledQueue,
            encryption: self.encryption,
            dlq: self.dlq,
            marker: PhantomData,
        }
    }

    /// Selects transactional application.
    pub fn with_transactional(self) -> (b: QueueBuilder<J, TransactionalQueue, E, D>)
        ensures
            b.spec_name() == self.spec_name(),
            b.spec_credential() == self.spec_credential(),
    {
        QueueBuilder {
            name: self.name,
            journal: self.journal,
            encryption: self.encryption,
            dlq: self.dlq,
            marker: PhantomData,
        }
    }

    /// Binds the queue to a credential for authenticated delivery.
    pub fn with_encryption(self, security: Security) -> (b: QueueBuilder<J, T, BasicEncryption, D>)
        ensures
            b.spec_name() == self.spec_name(),
            b.spec_credential() == Some(security),
    {
        QueueBuilder {
            name: self.name,
            journal: self.journal,
            encryption: BasicEncryption(security),
            dlq: self.dlq,
            marker: PhantomData,
        }
    }

    /// Selects a dead-letter target.
    pub fn with_dlq(self) -> (b: QueueBuilder<J, T, E, DeadletterQueue>)
        ensures
            b.spec_name() == self.spec_name(),
            b.spec_credential() == self.spec_credential(),
    {
        QueueBuilder {
            name: self.name,
            journal: self.journal,
            encryption: self.encryption,
            dlq: DeadletterQueue,
            marker: PhantomData,
        }
    }
}

impl<
    J: JournalFeature,
    T: TransactionalFeature,
    E: EncryptFeature,
    D: DeadLetterFeature,
> QueueBuilder<J, T, E, D> {
    /// Produces an empty queue with exactly the selected capabilities.
    pub fn build(self) -> (q: Queue<J, T, E, D>)
        ensures
            q.model().inv(),
            q.model().name == self.spec_name(),
            q.model().highs == Seq::<Message>::empty(),
            q.model().lows == Seq::<Message>::empty(),
            q.model().journal == Seq::<crate::store::JournalEntryModel>::empty(),
            q.model().log == Seq::<crate::store::LogRecord>::empty(),
            q.model().dlq == Seq::<Message>::empty(),
            q.model().journal_on == J::spec_active(),
            q.model().transactional == T::spec_enabled(),
            q.model().credential == self.spec_credential(),
            q.model().dlq_on == D::spec_enabled(),
    {
        Queue::new(self.name.as_str(), self.journal, self.encryption, self.dlq)
    }
}

} // verus!
