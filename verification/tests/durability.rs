use msmq::MSMQError;
use msmq::Message;
use msmq::MulticastGroup;
use msmq::Priority;
use msmq::QueueBuilder;
use msmq::QueueRegistry;

#[test]
fn recover_restores_an_unreceived_message() {
    let mut registry = QueueRegistry::new();
    let mut queue = QueueBuilder::new("Q").build().into_store();
    queue.send(Message::new("X")).unwrap();
    registry.register(queue).unwrap();

    // simulate a restart: only what the registry persisted survives
    let mut recovered = registry.recover("Q").unwrap();
    let received = recovered.receive().unwrap();
    assert_eq!(received.content(), "X");
    assert!(recovered.receive().is_none());
}

#[test]
fn recover_preserves_order_priority_and_journal() {
    let mut registry = QueueRegistry::new();
    let mut queue = QueueBuilder::new("busy_queue").with_journaling().build().into_store();
    queue.send(Message::new("consumed")).unwrap();
    queue.receive();
    queue.send(Message::new("still low")).unwrap();
    queue.send(Message::new("jumped ahead").with_priority(Priority::High)).unwrap();
    registry.register(queue).unwrap();

    let mut recovered = registry.recover("busy_queue").unwrap();
    assert_eq!(recovered.message_count().unwrap(), 2);
    assert_eq!(recovered.journal_length(), 4);
    assert_eq!(recovered.receive().unwrap().content(), "jumped ahead");
    assert_eq!(recovered.receive().unwrap().content(), "still low");
}

#[test]
fn recover_of_unknown_queue_fails() {
    let registry = QueueRegistry::new();
    let err = registry.recover("nowhere").unwrap_err();
    assert!(matches!(err, MSMQError::QueueNotFound(name) if name == "nowhere"));
}

#[test]
fn duplicate_registration_is_refused() {
    let mut registry = QueueRegistry::new();
    registry.register(QueueBuilder::new("taken").build().into_store()).unwrap();

    let err = registry.register(QueueBuilder::new("taken").build().into_store()).unwrap_err();
    assert!(matches!(err, MSMQError::DuplicateQueueName(name) if name == "taken"));
    assert!(registry.lookup("taken").is_some());
}

#[test]
fn registry_send_and_count_by_name() {
    let mut registry = QueueRegistry::new();
    registry.register(QueueBuilder::new("by_name").build().into_store()).unwrap();

    registry.send("by_name", Message::new("routed")).unwrap();
    assert_eq!(registry.message_count("by_name").unwrap(), 1);

    let err = registry.send("no_such", Message::new("lost")).unwrap_err();
    assert!(matches!(err, MSMQError::QueueNotFound(name) if name == "no_such"));
    let err = registry.message_count("no_such").unwrap_err();
    assert!(matches!(err, MSMQError::QueueNotFound(name) if name == "no_such"));
}

#[test]
fn multicast_delivers_to_every_member() {
    let mut registry = QueueRegistry::new();
    let q1 = QueueBuilder::new("member_one").build();
    let q2 = QueueBuilder::new("member_two").build();

    let mut group = MulticastGroup::new("fanout");
    q1.join_group(&mut group).unwrap();
    q2.join_group(&mut group).unwrap();

    registry.register(q1.into_store()).unwrap();
    registry.register(q2.into_store()).unwrap();

    group.send(Message::new("to all"), &mut registry).unwrap();
    assert_eq!(registry.message_count("member_one").unwrap(), 1);
    assert_eq!(registry.message_count("member_two").unwrap(), 1);
}

#[test]
fn multicast_with_a_missing_member_delivers_to_nobody() {
    let mut registry = QueueRegistry::new();
    let q1 = QueueBuilder::new("reachable").build();

    let mut group = MulticastGroup::new("fanout");
    q1.join_group(&mut group).unwrap();
    group.join("unreachable".to_string());

    registry.register(q1.into_store()).unwrap();

    let err = group.send(Message::new("to all"), &mut registry).unwrap_err();
    assert!(matches!(err, MSMQError::QueueNotFound(name) if name == "unreachable"));
    assert_eq!(registry.message_count("reachable").unwrap(), 0);
}

#[test]
fn error_messages_name_the_offender() {
    assert_eq!(
        MSMQError::QueueNotFound("orders".to_string()).message(),
        "Couldn't find queue orders"
    );
    assert_eq!(
        MSMQError::DuplicateQueueName("orders".to_string()).message(),
        "Queue name already registered: orders"
    );
    assert_eq!(
        MSMQError::TargetTypeMismatch("orders".to_string()).message(),
        "Queue is not transactional: orders"
    );
    assert_eq!(
        MSMQError::InvalidPhase.message(),
        "Operation not allowed in the transaction's current phase"
    );
    assert_eq!(MSMQError::Custom("backend fault".to_string()).message(), "backend fault");
}
