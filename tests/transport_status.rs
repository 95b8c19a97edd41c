use ocpp_client::correlation::{CorrelationTable, Outcome};
use ocpp_client::transport::{subprotocol, ConnectionError, ConnectionStatus, DrainStep, SendError, WebsocketClient};

#[test]
fn unparseable_address_is_refused() {
    let mut c = WebsocketClient::new("not a uri");
    assert_eq!(c.connect(), Err(ConnectionError::InvalidAddress));
    assert_eq!(c.status(), ConnectionStatus::Disconnected);
}

#[test]
fn connect_then_handshake() {
    let mut c = WebsocketClient::new("ws://127.0.0.1:8000/evse/sim");
    assert_eq!(c.connect(), Ok(()));
    assert_eq!(c.status(), ConnectionStatus::Connecting);
    assert_eq!(c.handshake_finished(true), Ok(()));
    assert_eq!(c.status(), ConnectionStatus::Connected);
    assert_eq!(subprotocol(), "ocpp2.1");
}

#[test]
fn failed_handshake_disconnects() {
    let mut c = WebsocketClient::new("ws://127.0.0.1:8000/evse/sim");
    c.connect().unwrap();
    assert_eq!(c.handshake_finished(false), Err(ConnectionError::HandshakeFailed));
    assert_eq!(c.status(), ConnectionStatus::Disconnected);
}

#[test]
fn send_needs_a_connection() {
    let mut c = WebsocketClient::new("ws://h/p");
    assert_eq!(c.send("x".to_string(), Ok(())), Err(SendError::NotConnected));
    assert_eq!(c.next_frame(), Err(SendError::NotConnected));
    assert_eq!(c.queue().len(), 0);
    c.push_message("buffered".to_string());
    assert_eq!(c.queue().len(), 1);
}

#[test]
fn drain_writes_in_order_and_keeps_frames_on_closure() {
    let mut c = WebsocketClient::new("ws://h/p");
    c.connect().unwrap();
    c.handshake_finished(true).unwrap();
    c.push_message("f1".to_string());
    c.push_message("f2".to_string());
    c.push_message("f3".to_string());
    assert_eq!(c.next_frame(), Ok(Some(&"f1".to_string())));
    assert_eq!(c.frame_written(Ok(())), DrainStep::Continue);
    assert_eq!(c.next_frame(), Ok(Some(&"f2".to_string())));
    assert_eq!(c.frame_written(Err(SendError::TransportClosed)), DrainStep::Disconnected);
    assert_eq!(c.status(), ConnectionStatus::Disconnected);
    assert_eq!(c.queue().len(), 2);
    assert_eq!(c.queue().peek(), Some(&"f2".to_string()));
}

#[test]
fn closure_fails_pending_requests_and_keeps_queue() {
    let mut c = WebsocketClient::new("ws://h/p");
    c.connect().unwrap();
    c.handshake_finished(true).unwrap();
    c.push_message("unsent".to_string());
    let mut t = CorrelationTable::new();
    t.register("r1".to_string(), 0, 30).unwrap();
    t.register("r2".to_string(), 0, 30).unwrap();
    let lost = c.connection_lost(&mut t);
    assert_eq!(lost.len(), 2);
    assert_eq!(lost[0].message_id, "r1");
    assert_eq!(lost[1].message_id, "r2");
    assert!(lost.iter().all(|r| matches!(r.outcome, Outcome::ConnectionLost)));
    assert_eq!(t.len(), 0);
    assert_eq!(c.status(), ConnectionStatus::Disconnected);
    assert_eq!(c.queue().peek(), Some(&"unsent".to_string()));
}

#[test]
fn close_is_idempotent() {
    let mut c = WebsocketClient::new("ws://h/p");
    c.close();
    assert_eq!(c.status(), ConnectionStatus::Disconnected);
    c.connect().unwrap();
    c.handshake_finished(true).unwrap();
    c.close();
    assert_eq!(c.status(), ConnectionStatus::Closing);
    c.closed();
    assert_eq!(c.status(), ConnectionStatus::Disconnected);
}

#[test]
fn direct_send_leaves_the_queue_alone() {
    let mut c = WebsocketClient::new("ws://h/p");
    c.connect().unwrap();
    c.handshake_finished(true).unwrap();
    c.push_message("queued".to_string());
    assert_eq!(c.send("direct".to_string(), Ok(())), Ok(()));
    assert_eq!(c.status(), ConnectionStatus::Connected);
    assert_eq!(c.queue().len(), 1);
    assert_eq!(
        c.send("lost".to_string(), Err(SendError::TransportClosed)),
        Err(SendError::TransportClosed)
    );
    assert_eq!(c.status(), ConnectionStatus::Disconnected);
    assert_eq!(c.queue().peek(), Some(&"queued".to_string()));
}
