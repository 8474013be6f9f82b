//! Messages: an immutable payload with a priority and a security tag.
//!
//! A message tagged `Encrypted` keeps its content unreadable through
//! `content` until it is explicitly decrypted; `encrypt` and `decrypt`
//! are pure state transitions that carry the content across unchanged.
//! The tag only gates access to the content; no key is involved and the
//! content itself is never transformed.

use vstd::prelude::*;

verus! {

/// Delivery priority of a message. `High` messages are always delivered
/// before `Low` ones; within one priority delivery is first-in first-out.
#[derive(Clone, Copy, PartialEq, Eq, Structural, Debug)]
pub enum Priority {
    High,
    Low,
}

/// Security tag of a message: either readable (`Plain`) or sealed
/// (`Encrypted`), in which case `content` is not available until
/// the message is decrypted.
#[derive(Clone, Copy, PartialEq, Eq, Structural, Debug)]
pub enum SecurityState {
    Plain,
    Encrypted,
}

/// An immutable message: content, priority and security tag are fixed at
/// construction; `encrypt`/`decrypt` consume the message and return a new
/// one with the same content under the other security tag.
#[derive(Debug)]
pub struct Message {
    content: String,
    priority: Priority,
    security: SecurityState,
}

impl Message {
    /// The character sequence of the message content.
    pub closed spec fn spec_content(&self) -> Seq<char> {
        self.content@
    }

    /// The priority the message was given.
    pub closed spec fn spec_priority(&self) -> Priority {
        self.priority
    }

    /// The security tag of the message.
    pub closed spec fn spec_security(&self) -> SecurityState {
        self.security
    }

    /// Creates a readable message with the default (`Low`) priority.
    pub fn new(content: &str) -> (m: Message)
        ensures
            m.spec_content() == content@,
            m.spec_priority() is Low,
            m.spec_security() is Plain,
    {
        Message { content: content.to_owned(), priority: Priority::Low, security: SecurityState::Plain }
    }

    /// Returns the same message under the given priority.
    pub fn with_priority(self, priority: Priority) -> (m: Message)
        ensures
            m.spec_content() == self.spec_content(),
            m.spec_priority() == priority,
            m.spec_security() == self.spec_security(),
    {
        Message { priority, ..self }
    }

    /// Read access to the content; only a readable message grants it.
    pub fn content(&self) -> (c: &String)
        requires
            self.spec_security() is Plain,
        ensures
            c@ == self.spec_content(),
    {
        &self.content
    }

    /// The priority of the message.
    pub fn priority(&self) -> (p: Priority)
        ensures
            p == self.spec_priority(),
    {
        self.priority
    }

    /// A value-copy of the content for the engine's audit records; the
    /// copy is independent of the live message.
    pub(crate) fn content_copy(&self) -> (c: String)
        ensures
            c@ == self.spec_content(),
    {
        self.content.clone()
    }

    /// Whether the message is currently sealed.
    pub fn is_encrypted(&self) -> (b: bool)
        ensures
            b == (self.spec_security() is Encrypted),
    {
        matches!(self.security, SecurityState::Encrypted)
    }

    /// Seals a readable message; content and priority are unchanged.
    pub fn encrypt(self) -> (m: Message)
        requires
            self.spec_security() is Plain,
        ensures
            m.spec_content() == self.spec_content(),
            m.spec_priority() == self.spec_priority(),
            m.spec_security() is Encrypted,
    {
        Message { security: SecurityState::Encrypted, ..self }
    }

    /// Unseals a sealed message; content and priority are unchanged.
    pub fn decrypt(self) -> (m: Message)
        requires
            self.spec_security() is Encrypted,
        ensures
            m.spec_content() == self.spec_content(),
            m.spec_priority() == self.spec_priority(),
            m.spec_security() is Plain,
    {
        Message { security: SecurityState::Plain, ..self }
    }
}

impl Clone for Message {
    /// A clone is equal to the original, so a value-copy into a journal
    /// or a durable log preserves exactly the recorded message.
    fn clone(&self) -> (m: Self)
        ensures
            m == *self,
    {
        Message { content: self.content.clone(), priority: self.priority, security: self.security }
    }
}

} // verus!
