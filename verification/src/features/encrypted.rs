//! The authenticated-delivery capability: a queue built with it is bound
//! to one credential pair. Sends must carry sealed messages, and a
//! receive succeeds only when the caller presents exactly the configured
//! pair — a mismatch yields no message and leaves the queue untouched.

use vstd::prelude::*;
use crate::error::MSMQError;
use crate::message::Message;
use crate::queue::Queue;
use crate::queue::QueueOps;
use crate::security::Security;
use crate::store::credential_matches;
use crate::store::spec_receive;
use crate::store::spec_send;

verus! {

/// Selects whether a queue is bound to a credential.
pub trait EncryptFeature: Sized {
    /// The credential this feature value carries, if any.
    spec fn spec_credential(&self) -> Option<Security>;

    /// The credential the queue core is built with.
    fn credential(self) -> (c: Option<Security>)
        ensures
            c == self.spec_credential(),
    ;
}

/// Marker: the queue has no credential; anyone may send and receive.
pub struct AnonymousEncryption;

/// A credential bound to a queue at construction time.
pub struct BasicEncryption(pub Security);

impl EncryptFeature for AnonymousEncryption {
    open spec fn spec_credential(&self) -> Option<Security> {
        None
    }

    fn credential(self) -> Option<Security> {
        None
    }
}

impl EncryptFeature for BasicEncryption {
    open spec fn spec_credential(&self) -> Option<Security> {
        Some(self.0)
    }

    fn credential(self) -> Option<Security> {
        Some(self.0)
    }
}

impl<J, T, D> Queue<J, T, BasicEncryption, D> {
    /// Accepts a sealed message; queue semantics are those of `send`.
    pub fn send_authenticated(&mut self, message: Message) -> (r: Result<(), MSMQError>)
        requires
            old(self).model().inv(),
            message.spec_security() is Encrypted,
        ensures
            final(self).model() == spec_send(old(self).model(), message),
            final(self).model().inv(),
            r is Ok,
    {
        self.store_mut().send_authenticated(message)
    }

    /// Receives the next deliverable message only if the presented pair
    /// matches the queue's credential; otherwise nothing is returned and
    /// the queue — its pending count included — is unchanged.
    pub fn receive_authenticated(&mut self, username: &str, password: &str) -> (r: Option<
        Message,
    >)
        requires
            old(self).model().inv(),
        ensures
            final(self).model().inv(),
            credential_matches(old(self).model(), username@, password@) ==> {
                &&& final(self).model() == spec_receive(old(self).model()).0
                &&& r == spec_receive(old(self).model()).1
            },
            !credential_matches(old(self).model(), username@, password@) ==> {
                &&& final(self).model() == old(self).model()
                &&& r is None
            },
    {
        self.store_mut().receive_authenticated(username, password)
    }
}

} // verus!
