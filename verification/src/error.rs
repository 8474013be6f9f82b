//! Engine errors. Malformed external requests never reach the engine:
//! the adapter rejects them at its own boundary, so no variant for them
//! appears here. Journal writes cannot fail in this in-process engine,
//! and sends are never refused on logical grounds.

use vstd::prelude::*;
use vstd::string::StringExecFns;

verus! {

/// The failures the engine can surface to a caller.
#[derive(Debug)]
pub enum MSMQError {
    /// A fault described only by its text, such as a pending-message
    /// count that exceeds the machine's addressable range.
    Custom(String),
    /// A commit or lookup referenced a queue name absent from the registry.
    QueueNotFound(String),
    /// A queue with the same name is already registered.
    DuplicateQueueName(String),
    /// A transactional apply reached a queue that was not built with the
    /// transactional capability.
    TargetTypeMismatch(String),
    /// A transaction operation was invoked in a phase that does not allow
    /// it, such as committing a coordinator that never prepared.
    InvalidPhase,
}

impl MSMQError {
    /// The text that `message` renders for this error.
    pub open spec fn spec_message(&self) -> Seq<char> {
        match self {
            MSMQError::Custom(text) => text@,
            MSMQError::QueueNotFound(name) => "Couldn't find queue "@ + name@,
            MSMQError::DuplicateQueueName(name) => "Queue name already registered: "@ + name@,
            MSMQError::TargetTypeMismatch(name) => "Queue is not transactional: "@ + name@,
            MSMQError::InvalidPhase => "Operation not allowed in the transaction's current phase"@,
        }
    }

    /// A human-readable description of the error.
    pub fn message(&self) -> (m: String)
        ensures
            m@ == self.spec_message(),
    {
        match self {
            MSMQError::Custom(text) => text.clone(),
            MSMQError::QueueNotFound(name) => {
                let mut s = "Couldn't find queue ".to_owned();
                s.append(name.as_str());
                s
            },
            MSMQError::DuplicateQueueName(name) => {
                let mut s = "Queue name already registered: ".to_owned();
                s.append(name.as_str());
                s
            },
            MSMQError::TargetTypeMismatch(name) => {
                let mut s = "Queue is not transactional: ".to_owned();
                s.append(name.as_str());
                s
            },
            MSMQError::InvalidPhase => {
                "Operation not allowed in the transaction's current phase".to_owned()
            },
        }
    }
}

} // verus!
