use msmq::Message;
use msmq::Priority;
use msmq::QueueBuilder;
use msmq::QueueOps;
use msmq::protocol::Request;
use msmq::protocol::Response;
use msmq::protocol::handle_request;

#[test]
fn test_send_message_to_queue() {
    let mut queue = QueueBuilder::new("test_queue").build();
    let message = Message::new("Test message");
    assert!(queue.send(message).is_ok());
}

#[test]
fn test_retrieve_message_from_queue() {
    let mut queue = QueueBuilder::new("test_queue").build();

    let message = Message::new("Test message");
    queue.send(message).unwrap();

    let received = queue.receive();
    assert!(received.is_some());
    assert_eq!(received.unwrap().content(), "Test message");
}

#[test]
fn fifo_order_without_priority_markers() {
    let mut queue = QueueBuilder::new("fifo_queue").build();
    queue.send(Message::new("first")).unwrap();
    queue.send(Message::new("second")).unwrap();
    queue.send(Message::new("third")).unwrap();

    assert_eq!(queue.receive().unwrap().content(), "first");
    assert_eq!(queue.receive().unwrap().content(), "second");
    assert_eq!(queue.receive().unwrap().content(), "third");
}

#[test]
fn high_priority_dequeues_before_earlier_low() {
    let mut queue = QueueBuilder::new("priority_queue").build();
    queue.send(Message::new("waiting low")).unwrap();
    queue.send(Message::new("urgent").with_priority(Priority::High)).unwrap();
    queue.send(Message::new("later low")).unwrap();
    queue.send(Message::new("urgent too").with_priority(Priority::High)).unwrap();

    assert_eq!(queue.receive().unwrap().content(), "urgent");
    assert_eq!(queue.receive().unwrap().content(), "urgent too");
    assert_eq!(queue.receive().unwrap().content(), "waiting low");
    assert_eq!(queue.receive().unwrap().content(), "later low");
}

#[test]
fn receive_on_empty_queue_returns_no_message() {
    let mut queue = QueueBuilder::new("empty_queue").build();
    assert!(queue.receive().is_none());
    assert_eq!(queue.message_count().unwrap(), 0);

    queue.send(Message::new("only")).unwrap();
    assert!(queue.receive().is_some());
    assert!(queue.receive().is_none());
}

#[test]
fn message_count_tracks_sends_and_receives() {
    let mut queue = QueueBuilder::new("count_queue").build();
    assert_eq!(queue.message_count().unwrap(), 0);
    queue.send(Message::new("a")).unwrap();
    queue.send(Message::new("b")).unwrap();
    assert_eq!(queue.message_count().unwrap(), 2);
    queue.receive();
    assert_eq!(queue.message_count().unwrap(), 1);
}

#[test]
fn message_priority_and_security_transitions() {
    let message = Message::new("payload");
    assert!(!message.is_encrypted());
    assert!(matches!(message.priority(), Priority::Low));

    let message = message.with_priority(Priority::High).encrypt();
    assert!(message.is_encrypted());
    assert!(matches!(message.priority(), Priority::High));

    let message = message.decrypt();
    assert!(!message.is_encrypted());
    assert_eq!(message.content(), "payload");
}

#[test]
fn protocol_enqueue_then_dequeue() {
    let mut store = QueueBuilder::new("server_queue").build().into_store();

    let response = handle_request(&mut store, Request::Enqueue { content: "Test message".to_string() });
    assert!(matches!(response, Response::Success));

    let response = handle_request(&mut store, Request::Dequeue);
    assert!(matches!(response, Response::Dequeued { content } if content == "Test message"));

    let response = handle_request(&mut store, Request::Dequeue);
    assert!(matches!(response, Response::Error { message } if message == "Queue is empty"));
}
