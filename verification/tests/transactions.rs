use msmq::DistributedTransaction;
use msmq::MSMQError;
use msmq::Message;
use msmq::QueueBuilder;
use msmq::QueueOps;
use msmq::QueueRegistry;
use msmq::Transaction;
use msmq::TxnPhase;

#[test]
fn test_transactional_operations() {
    let queue = QueueBuilder::new("test_queue").with_transactional().build();

    let message = Message::new("Test message");
    let mut txn = Transaction::new();
    queue.send_transactional(message, &mut txn).unwrap();
    assert_eq!(queue.message_count().unwrap(), 0);

    let mut registry = QueueRegistry::new();
    registry.register(queue.into_store()).unwrap();
    txn.commit(&mut registry).unwrap();
    assert_eq!(registry.message_count("test_queue").unwrap(), 1);
}

#[test]
fn committed_sends_arrive_in_buffering_order() {
    let queue = QueueBuilder::new("ordered_queue").with_transactional().build();
    let mut txn = Transaction::new();
    queue.send_transactional(Message::new("first"), &mut txn).unwrap();
    queue.send_transactional(Message::new("second"), &mut txn).unwrap();
    queue.send_transactional(Message::new("third"), &mut txn).unwrap();

    let mut registry = QueueRegistry::new();
    registry.register(queue.into_store()).unwrap();
    txn.commit(&mut registry).unwrap();
    assert_eq!(registry.message_count("ordered_queue").unwrap(), 3);

    let mut recovered = registry.recover("ordered_queue").unwrap();
    assert_eq!(recovered.receive().unwrap().content(), "first");
    assert_eq!(recovered.receive().unwrap().content(), "second");
    assert_eq!(recovered.receive().unwrap().content(), "third");
}

#[test]
fn dropping_a_transaction_changes_nothing() {
    let queue = QueueBuilder::new("abandoned_queue").with_transactional().build();
    let mut registry = QueueRegistry::new();

    let mut txn = Transaction::new();
    txn.send("abandoned_queue".to_string(), Message::new("never applied"));
    registry.register(queue.into_store()).unwrap();
    drop(txn);

    assert_eq!(registry.message_count("abandoned_queue").unwrap(), 0);
}

#[test]
fn commit_to_missing_queue_fails_without_effect() {
    let present = QueueBuilder::new("present_queue").with_transactional().build();
    let mut registry = QueueRegistry::new();
    registry.register(present.into_store()).unwrap();

    let mut txn = Transaction::new();
    txn.send("present_queue".to_string(), Message::new("kept back"));
    txn.send("missing_queue".to_string(), Message::new("nowhere to go"));

    let err = txn.commit(&mut registry).unwrap_err();
    assert!(matches!(err, MSMQError::QueueNotFound(name) if name == "missing_queue"));
    assert_eq!(registry.message_count("present_queue").unwrap(), 0);
}

#[test]
fn commit_to_non_transactional_queue_fails_without_effect() {
    let plain = QueueBuilder::new("plain_queue").build();
    let mut registry = QueueRegistry::new();
    registry.register(plain.into_store()).unwrap();

    let mut txn = Transaction::new();
    txn.send("plain_queue".to_string(), Message::new("rejected"));

    let err = txn.commit(&mut registry).unwrap_err();
    assert!(matches!(err, MSMQError::TargetTypeMismatch(name) if name == "plain_queue"));
    assert_eq!(registry.message_count("plain_queue").unwrap(), 0);
}

#[test]
fn two_phase_commit_applies_to_both_participants() {
    let q1 = QueueBuilder::new("participant_one").with_transactional().build();
    let q2 = QueueBuilder::new("participant_two").with_transactional().build();
    let mut registry = QueueRegistry::new();

    let mut txn = DistributedTransaction::new();
    q1.send_distributed_transactional(Message::new("for one"), &mut txn).unwrap();
    q2.send_distributed_transactional(Message::new("for two"), &mut txn).unwrap();

    registry.register(q1.into_store()).unwrap();
    registry.register(q2.into_store()).unwrap();

    txn.prepare(&registry).unwrap();
    assert!(matches!(txn.phase(), TxnPhase::Prepared));
    txn.commit(&mut registry).unwrap();
    assert!(matches!(txn.phase(), TxnPhase::Committed));

    assert_eq!(registry.message_count("participant_one").unwrap(), 1);
    assert_eq!(registry.message_count("participant_two").unwrap(), 1);
}

#[test]
fn failed_prepare_aborts_and_leaves_participants_untouched() {
    let q1 = QueueBuilder::new("committed_side").with_transactional().build();
    let mut registry = QueueRegistry::new();

    let mut txn = DistributedTransaction::new();
    q1.send_distributed_transactional(Message::new("for one"), &mut txn).unwrap();
    txn.send("vanished_side".to_string(), Message::new("for nobody")).unwrap();

    registry.register(q1.into_store()).unwrap();

    let err = txn.prepare(&registry).unwrap_err();
    assert!(matches!(err, MSMQError::QueueNotFound(name) if name == "vanished_side"));
    assert!(matches!(txn.phase(), TxnPhase::Aborted));

    assert_eq!(registry.message_count("committed_side").unwrap(), 0);

    // an aborted coordinator refuses to commit
    let err = txn.commit(&mut registry).unwrap_err();
    assert!(matches!(err, MSMQError::InvalidPhase));
    assert_eq!(registry.message_count("committed_side").unwrap(), 0);
}

#[test]
fn commit_before_prepare_is_refused() {
    let mut registry = QueueRegistry::new();
    let mut txn = DistributedTransaction::new();
    let err = txn.commit(&mut registry).unwrap_err();
    assert!(matches!(err, MSMQError::InvalidPhase));
    assert!(matches!(txn.phase(), TxnPhase::Active));
}

#[test]
fn buffering_is_refused_after_prepare() {
    let queue = QueueBuilder::new("sealed_buffer").with_transactional().build();
    let mut registry = QueueRegistry::new();
    let mut txn = DistributedTransaction::new();
    queue.send_distributed_transactional(Message::new("early"), &mut txn).unwrap();
    registry.register(queue.into_store()).unwrap();
    txn.prepare(&registry).unwrap();

    let err = txn.send("sealed_buffer".to_string(), Message::new("late")).unwrap_err();
    assert!(matches!(err, MSMQError::InvalidPhase));
}
