use ocpp_client::queue::OutboundQueue;

#[test]
fn frames_leave_in_enqueue_order() {
    let mut q = OutboundQueue::new();
    q.enqueue("a".to_string());
    q.enqueue("b".to_string());
    assert_eq!(q.take_next(), Some("a".to_string()));
    q.enqueue("c".to_string());
    assert_eq!(q.peek(), Some(&"b".to_string()));
    assert_eq!(q.take_next(), Some("b".to_string()));
    assert_eq!(q.take_next(), Some("c".to_string()));
    assert_eq!(q.take_next(), None);
    assert!(q.is_empty());
}

#[test]
fn empty_queue_has_nothing_to_send() {
    let mut q = OutboundQueue::new();
    assert_eq!(q.len(), 0);
    assert_eq!(q.peek(), None);
    assert_eq!(q.take_next(), None);
}
