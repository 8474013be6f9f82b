//! An in-process message-queue engine: named queues of priority-ordered
//! messages with composable capabilities (journaling, dead-lettering,
//! transactional buffering, authenticated delivery), a durable operation
//! log per queue, local transactions with all-or-nothing commit, and a
//! two-phase-commit coordinator across several queues.
//!
//! Every operation's contract is stated over the mathematical queue
//! model in `store`; the engine-wide ordering, audit and commit laws
//! are proved in `laws`.

pub mod distributed_transaction;
pub mod error;
pub mod features;
pub mod laws;
pub mod message;
pub mod multicast_group;
pub mod protocol;
pub mod queue;
pub mod queue_builder;
pub mod registry;
pub mod security;
pub mod store;
pub mod transaction;

pub use distributed_transaction::DistributedTransaction;
pub use distributed_transaction::TxnPhase;
pub use error::MSMQError;
pub use message::Message;
pub use message::Priority;
pub use message::SecurityState;
pub use multicast_group::MulticastGroup;
pub use queue::Queue;
pub use queue_builder::QueueBuilder;
pub use queue::QueueOps;
pub use registry::QueueRegistry;
pub use security::Security;
pub use store::QueueStore;
pub use transaction::Transaction;
