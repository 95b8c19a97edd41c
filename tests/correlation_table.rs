use ocpp_client::correlation::{CorrelationError, CorrelationTable, Outcome};

#[test]
fn duplicate_id_is_refused() {
    let mut t = CorrelationTable::new();
    assert!(t.register("abc".to_string(), 0, 30).is_ok());
    assert_eq!(t.register("abc".to_string(), 5, 30), Err(CorrelationError::DuplicateId));
    assert_eq!(t.len(), 1);
}

#[test]
fn resolving_twice_finds_nothing_the_second_time() {
    let mut t = CorrelationTable::new();
    t.register("abc".to_string(), 0, 30).unwrap();
    let first = t.resolve(&"abc".to_string(), Outcome::Response("{}".to_string())).unwrap();
    assert_eq!(first.message_id, "abc");
    assert!(matches!(t.resolve(&"abc".to_string(), Outcome::Timeout), Err(CorrelationError::Unknown)));
    assert!(t.expire(1000).is_empty());
    assert!(t.disconnect().is_empty());
}

#[test]
fn unanswered_request_times_out_alone() {
    let mut t = CorrelationTable::new();
    t.register("old".to_string(), 0, 30).unwrap();
    t.register("new".to_string(), 20, 30).unwrap();
    assert!(t.expire(29).is_empty());
    let expired = t.expire(30);
    assert_eq!(expired.len(), 1);
    assert_eq!(expired[0].message_id, "old");
    assert!(matches!(expired[0].outcome, Outcome::Timeout));
    assert!(!t.contains(&"old".to_string()));
    assert!(t.contains(&"new".to_string()));
}

#[test]
fn disconnection_fails_every_pending_request() {
    let mut t = CorrelationTable::new();
    t.register("one".to_string(), 0, 30).unwrap();
    t.register("two".to_string(), 1, 30).unwrap();
    let lost = t.disconnect();
    assert_eq!(lost.len(), 2);
    assert_eq!(lost[0].message_id, "one");
    assert_eq!(lost[1].message_id, "two");
    assert!(lost.iter().all(|r| matches!(r.outcome, Outcome::ConnectionLost)));
    assert_eq!(t.len(), 0);
}
