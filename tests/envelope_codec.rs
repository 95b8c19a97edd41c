use ocpp_client::envelope::{decode, encode, envelope_from_items, Envelope, JsonItem};

#[test]
fn decodes_each_shape() {
    match decode("[2,\"id1\",\"Heartbeat\",{}]") {
        Some(Envelope::Call { message_id, action, payload }) => {
            assert_eq!(message_id, "id1");
            assert_eq!(action, "Heartbeat");
            assert_eq!(payload, "{}");
        }
        other => panic!("{:?}", other),
    }
    match decode("[3, \"id2\", {\"a\": 1}]") {
        Some(Envelope::CallResult { message_id, payload }) => {
            assert_eq!(message_id, "id2");
            assert_eq!(payload, "{\"a\":1}");
        }
        other => panic!("{:?}", other),
    }
    match decode("[4,\"id3\",\"NotImplemented\",\"no\",{}]") {
        Some(Envelope::CallError { message_id, error_code, error_description, details }) => {
            assert_eq!(message_id, "id3");
            assert_eq!(error_code, "NotImplemented");
            assert_eq!(error_description, "no");
            assert_eq!(details, "{}");
        }
        other => panic!("{:?}", other),
    }
}

#[test]
fn rejects_malformed_frames() {
    assert!(decode("not json").is_none());
    assert!(decode("{\"a\":1}").is_none());
    assert!(decode("[5,\"id\",{}]").is_none());
    assert!(decode("[2,\"id\",{}]").is_none());
    assert!(decode("[3,7,{}]").is_none());
}

#[test]
fn items_with_the_wrong_kinds_give_no_envelope() {
    let items = vec![
        JsonItem::Other("3".to_string()),
        JsonItem::Text("x".to_string()),
        JsonItem::Text("payload".to_string()),
    ];
    assert!(envelope_from_items(&items).is_none());
    let items = vec![
        JsonItem::Other("3".to_string()),
        JsonItem::Text("x".to_string()),
        JsonItem::Other("{}".to_string()),
    ];
    assert!(matches!(envelope_from_items(&items), Some(Envelope::CallResult { .. })));
}

#[test]
fn encodes_with_quoted_strings() {
    let call = Envelope::Call {
        message_id: "a\"b".to_string(),
        action: "Heartbeat".to_string(),
        payload: "{}".to_string(),
    };
    assert_eq!(encode(&call), "[2,\"a\\\"b\",\"Heartbeat\",{}]");
    let result = Envelope::CallResult { message_id: "x".to_string(), payload: "{\"k\":1}".to_string() };
    assert_eq!(encode(&result), "[3,\"x\",{\"k\":1}]");
    let error = Envelope::CallError {
        message_id: "x".to_string(),
        error_code: "InternalError".to_string(),
        error_description: "bad".to_string(),
        details: "{}".to_string(),
    };
    assert_eq!(encode(&error), "[4,\"x\",\"InternalError\",\"bad\",{}]");
}

#[test]
fn encoded_frames_decode_back() {
    let call = Envelope::Call {
        message_id: "m\\1".to_string(),
        action: "Authorize".to_string(),
        payload: "{\"idToken\":{}}".to_string(),
    };
    match decode(&encode(&call)) {
        Some(Envelope::Call { message_id, action, payload }) => {
            assert_eq!(message_id, "m\\1");
            assert_eq!(action, "Authorize");
            assert_eq!(payload, "{\"idToken\":{}}");
        }
        other => panic!("{:?}", other),
    }
}

#[test]
fn control_characters_are_escaped() {
    let result = Envelope::CallResult {
        message_id: "a\nb\u{1}\t\\\u{8}\u{c}\r\u{1f}é".to_string(),
        payload: "{}".to_string(),
    };
    assert_eq!(
        encode(&result),
        "[3,\"a\\nb\\u0001\\t\\\\\\b\\f\\r\\u001fé\",{}]"
    );
}

#[test]
fn frames_not_opening_an_array_are_malformed() {
    assert!(decode("").is_none());
    assert!(decode(" [3,\"x\",{}]").is_none());
    assert!(decode("[3,\"x\",{}]").is_some());
}
