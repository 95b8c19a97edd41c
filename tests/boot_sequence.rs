use ocpp_client::correlation::{CorrelationTable, Outcome, Resolution};
use ocpp_client::dispatcher::{dispatch, Dispatched};
use ocpp_client::envelope::{decode, Envelope};
use ocpp_client::evse::{
    plan_on_reconnect, plan_retry, retry_due, AliveEVSE, BaseEVSE, BootPolicy, BootReason,
    BootResponse, BootStatus, BootStep, EVSEProperties, RetryPlan, SessionState,
};
use ocpp_client::errors::EVSEError;

fn station() -> AliveEVSE {
    let props = EVSEProperties::new(
        "SN1".to_string(),
        "ACME".to_string(),
        "X1".to_string(),
        "1.0".to_string(),
        None,
        "ws://127.0.0.1:8000/evse/sim",
    );
    let mut base = BaseEVSE::new(props, "ws://127.0.0.1:8000/evse/sim");
    base.connect_websocket().unwrap();
    base.websocket.handshake_finished(true).unwrap();
    base.into_alive(BootPolicy::standard())
}

fn boot_and_answer(evse: &mut AliveEVSE, status: &str, interval: i32) -> BootStep {
    evse.boot_with_id("abc".to_string(), 0).unwrap();
    let frame = format!(
        "[3,\"abc\",{{\"currentTime\":\"2024-01-01T00:00:00Z\",\"interval\":{},\"status\":\"{}\"}}]",
        interval, status
    );
    match dispatch(&mut evse.table, &frame) {
        Dispatched::Resolved(r) => evse.on_resolution(&r),
        other => panic!("{:?}", other),
    }
}

#[test]
fn boot_sends_one_boot_notification_call() {
    let mut evse = station();
    evse.boot_with_id("abc".to_string(), 7).unwrap();
    assert_eq!(evse.websocket.queue().len(), 1);
    assert!(evse.table.contains(&"abc".to_string()));
    assert!(matches!(evse.state(), SessionState::AwaitingBootResponse(id) if id == "abc"));
    let frame = evse.websocket.queue().peek().unwrap().clone();
    match decode(&frame) {
        Some(Envelope::Call { message_id, action, payload }) => {
            assert_eq!(message_id, "abc");
            assert_eq!(action, "BootNotification");
            assert!(payload.contains("\"serialNumber\":\"SN1\""));
            assert!(payload.contains("\"vendorName\":\"ACME\""));
            assert!(payload.contains("\"model\":\"X1\""));
            assert!(payload.contains("\"firmwareVersion\":\"1.0\""));
            assert!(payload.contains("\"reason\":\"PowerUp\""));
        }
        other => panic!("{:?}", other),
    }
}

#[test]
fn accepted_boot_becomes_operational() {
    let mut evse = station();
    assert_eq!(boot_and_answer(&mut evse, "Accepted", 300), BootStep::Proceed);
    assert!(matches!(evse.state(), SessionState::Operational));
    assert_eq!(evse.table.len(), 0);
}

#[test]
fn pending_boot_retries_after_interval() {
    let mut evse = station();
    assert_eq!(boot_and_answer(&mut evse, "Pending", 30), BootStep::RetryAfter(30));
    assert!(matches!(evse.state(), SessionState::Pending));
}

#[test]
fn rejected_boot_retries_after_default_backoff() {
    let mut evse = station();
    assert_eq!(boot_and_answer(&mut evse, "Rejected", 0), BootStep::RetryAfter(60));
    assert!(matches!(evse.state(), SessionState::Rejected));
    assert_eq!(evse.rejections(), 1);
}

#[test]
fn rejections_past_the_limit_give_up() {
    let mut evse = station();
    evse.policy.max_boot_retries = Some(1);
    let rejected = Some(BootResponse { status: BootStatus::Rejected, interval: 10 });
    assert_eq!(evse.on_boot_response(rejected), BootStep::RetryAfter(10));
    assert_eq!(evse.on_boot_response(rejected), BootStep::GiveUp);
    let accepted = Some(BootResponse { status: BootStatus::Accepted, interval: 10 });
    assert_eq!(evse.on_boot_response(accepted), BootStep::Proceed);
    assert_eq!(evse.rejections(), 0);
}

#[test]
fn unreadable_boot_response_counts_as_rejection() {
    let mut evse = station();
    evse.boot_with_id("abc".to_string(), 0).unwrap();
    let r = Resolution { message_id: "abc".to_string(), outcome: Outcome::Response("{}".to_string()) };
    assert_eq!(evse.on_resolution(&r), BootStep::RetryAfter(60));
    assert!(matches!(evse.state(), SessionState::Rejected));
}

#[test]
fn boot_timeout_retries_after_reconnection() {
    let mut evse = station();
    evse.boot_with_id("abc".to_string(), 0).unwrap();
    let expired = evse.table.expire(30);
    assert_eq!(expired.len(), 1);
    assert_eq!(evse.websocket.queue().len(), 1);
    assert_eq!(evse.on_resolution(&expired[0]), BootStep::RetryWhenConnected(5));
    assert!(matches!(evse.state(), SessionState::Unbooted));
}

#[test]
fn resolutions_of_other_requests_are_ignored() {
    let mut evse = station();
    evse.boot_with_id("abc".to_string(), 0).unwrap();
    let r = Resolution { message_id: "zzz".to_string(), outcome: Outcome::Timeout };
    assert_eq!(evse.on_resolution(&r), BootStep::Ignored);
    assert!(matches!(evse.state(), SessionState::AwaitingBootResponse(_)));
}

#[test]
fn boot_with_fresh_id_registers_it() {
    let mut evse = station();
    evse.boot(0).unwrap();
    assert_eq!(evse.table.len(), 1);
    match evse.state() {
        SessionState::AwaitingBootResponse(id) => {
            assert_eq!(id.len(), 32);
            assert!(evse.table.contains(id));
        }
        other => panic!("{:?}", other),
    }
    let mut t = CorrelationTable::new();
    assert!(t.register("x".to_string(), 0, 1).is_ok());
}

#[test]
fn duplicate_boot_id_changes_nothing() {
    let mut evse = station();
    evse.boot_with_id("abc".to_string(), 0).unwrap();
    assert!(evse.boot_with_id("abc".to_string(), 1).is_err());
    assert_eq!(evse.websocket.queue().len(), 1);
}

#[test]
fn property_error_names_the_type() {
    let e = EVSEError::OcppPropertyError { t: "bool".to_string() };
    assert_eq!(e.requested_type(), "bool");
}

#[test]
fn boot_payload_carries_the_reason() {
    let evse = station();
    let payload = evse.get_boot_notification(BootReason::Watchdog);
    assert!(payload.contains("\"reason\":\"Watchdog\""));
    assert!(payload.contains("\"serialNumber\":\"SN1\""));
}

#[test]
fn retry_plans_follow_boot_steps() {
    assert_eq!(plan_retry(BootStep::RetryAfter(30), 100, None), Some(RetryPlan::At(130)));
    assert_eq!(plan_retry(BootStep::RetryAfter(5), u64::MAX, None), Some(RetryPlan::At(u64::MAX)));
    assert_eq!(plan_retry(BootStep::RetryWhenConnected(5), 100, None), Some(RetryPlan::AfterReconnect(5)));
    assert_eq!(plan_retry(BootStep::Proceed, 100, Some(RetryPlan::At(1))), None);
    assert_eq!(plan_retry(BootStep::GiveUp, 100, Some(RetryPlan::At(1))), None);
    assert_eq!(plan_retry(BootStep::Ignored, 100, Some(RetryPlan::At(1))), Some(RetryPlan::At(1)));
    let waiting = Some(RetryPlan::AfterReconnect(5));
    assert!(!retry_due(waiting, 1000));
    let armed = plan_on_reconnect(waiting, 200);
    assert_eq!(armed, Some(RetryPlan::At(205)));
    assert!(!retry_due(armed, 204));
    assert!(retry_due(armed, 205));
    assert!(!retry_due(None, 205));
}
