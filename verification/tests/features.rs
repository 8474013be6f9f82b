use msmq::Message;
use msmq::QueueBuilder;
use msmq::QueueOps;
use msmq::Security;

#[test]
fn dead_letter_test_dead_letter_queue() {
    let mut queue = QueueBuilder::new("test_queue").with_dlq().build();

    let message = Message::new("Undeliverable message");
    queue.send(message).unwrap();
    queue.move_to_dlq().unwrap();

    assert_eq!(queue.message_count().unwrap(), 0);
    assert_eq!(queue.dlq_count(), 1);
}

#[test]
fn dead_letter_queued_test_dead_letter_queue() {
    let mut queue = QueueBuilder::new("test_queue").with_dlq().build();

    let message = Message::new("Undeliverable message");
    queue.send(message).unwrap();
    queue.move_to_dlq().unwrap();

    assert_eq!(queue.message_count().unwrap(), 0);
    assert_eq!(queue.dlq_count(), 1);
}

#[test]
fn move_to_dlq_on_empty_queue_is_a_no_op() {
    let mut queue = QueueBuilder::new("empty_dlq_queue").with_dlq().build();
    assert!(queue.move_to_dlq().is_ok());
    assert_eq!(queue.message_count().unwrap(), 0);
    assert_eq!(queue.dlq_count(), 0);
}

#[test]
fn journal_test_journaling() {
    let mut queue = QueueBuilder::new("journal_queue").with_journaling().build();

    queue.send(Message::new("Journaled message")).unwrap();
    queue.receive();

    assert_eq!(queue.journal_length(), 2);
}

#[test]
fn journaled_test_journaling() {
    let mut queue = QueueBuilder::new("journal_queue").with_journaling().build();

    queue.send(Message::new("Journaled message")).unwrap();
    queue.receive();

    assert_eq!(queue.journal_length(), 2);
}

#[test]
fn journal_length_counts_sends_plus_receives() {
    let mut queue = QueueBuilder::new("journal_counts").with_journaling().build();
    queue.send(Message::new("one")).unwrap();
    queue.send(Message::new("two")).unwrap();
    queue.send(Message::new("three")).unwrap();
    queue.receive();
    queue.receive();
    assert_eq!(queue.journal_length(), 5);

    queue.receive();
    assert_eq!(queue.journal_length(), 6);

    // a receive on the now-empty queue returns nothing and is not journaled
    queue.receive();
    assert_eq!(queue.journal_length(), 6);
}

#[test]
fn test_authentication_and_encryption() {
    let mut queue = QueueBuilder::new("test_queue")
        .with_encryption(Security::new("user", "password"))
        .build();

    let message = Message::new("Secure message").encrypt();
    queue.send_authenticated(message).unwrap();

    let received = queue.receive_authenticated("user", "password").unwrap();
    let received = received.decrypt();
    assert_eq!(received.content(), "Secure message");
}

#[test]
fn wrong_credential_receives_nothing_and_changes_nothing() {
    let mut queue = QueueBuilder::new("secured_queue")
        .with_encryption(Security::new("user", "password"))
        .build();
    queue.send_authenticated(Message::new("Secure message").encrypt()).unwrap();

    assert!(queue.receive_authenticated("user", "wrong").is_none());
    assert!(queue.receive_authenticated("intruder", "password").is_none());
    assert_eq!(queue.message_count().unwrap(), 1);

    let received = queue.receive_authenticated("user", "password");
    assert!(received.is_some());
    assert_eq!(queue.message_count().unwrap(), 0);
}
