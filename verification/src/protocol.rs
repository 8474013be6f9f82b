//! The engine side of the network protocol: the adapter that owns the
//! sockets decodes requests into plain values, hands them to
//! `handle_request`, and encodes the outcome. All decisions — what a
//! request does to the queue and what is answered — are made here.

use vstd::prelude::*;
use crate::message::Message;
use crate::store::QueueStore;
use crate::store::spec_receive;
use crate::store::spec_send;

verus! {

/// A decoded client request.
pub enum Request {
    /// Append the given content as a plain, low-priority message.
    Enqueue { content: String },
    /// Remove and return the next deliverable message's content.
    Dequeue,
}

/// The engine's answer to a request.
pub enum Response {
    /// The enqueue was applied.
    Success,
    /// The request could not be served; the text names the reason. An
    /// empty queue answers a dequeue this way, with the fixed text
    /// below, which the adapter may render as a distinguishable
    /// "empty" outcome.
    Error { message: String },
    /// The dequeued message's content.
    Dequeued { content: String },
}

/// What a request does to the queue and what it answers: an enqueue
/// appends a plain low-priority message with the given content and
/// succeeds; a dequeue removes the next deliverable message and answers
/// its content, or reports the queue empty without touching it. A
/// sealed message is unsealed before its content is answered, so the
/// answer always carries the content that was enqueued.
pub fn handle_request(store: &mut QueueStore, request: Request) -> (response: Response)
    requires
        old(store)@.inv(),
    ensures
        final(store)@.inv(),
        match request {
            Request::Enqueue { content } => {
                &&& response is Success
                &&& exists|m: Message| {
                    &&& m.spec_content() == content@
                    &&& m.spec_priority() is Low
                    &&& m.spec_security() is Plain
                    &&& final(store)@ == #[trigger] spec_send(old(store)@, m)
                }
            },
            Request::Dequeue => match spec_receive(old(store)@).1 {
                Some(m) => {
                    &&& final(store)@ == spec_receive(old(store)@).0
                    &&& response matches Response::Dequeued { content } && content@
                        == m.spec_content()
                },
                None => {
                    &&& final(store)@ == old(store)@
                    &&& response matches Response::Error { message } && message@
                        == "Queue is empty"@
                },
            },
        },
{
    match request {
        Request::Enqueue { content } => {
            let m = Message::new(content.as_str());
            let _ = store.send(m);
            Response::Success
        },
        Request::Dequeue => {
            match store.receive() {
                Some(m) => {
                    let m = if m.is_encrypted() {
                        m.decrypt()
                    } else {
                        m
                    };
                    Response::Dequeued { content: m.content().clone() }
                },
                None => Response::Error { message: "Queue is empty".to_owned() },
            }
        },
    }
}

} // verus!
