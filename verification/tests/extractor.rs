//! The operation-handle extractor: classification of response bodies.

use mieli::handle::classify;
use mieli::json::{decode_body, extract_handle};
use mieli::OperationHandle;

fn parsed(bytes: &[u8]) -> serde_json::Value {
    decode_body(bytes.to_vec())
        .expect("the body must parse")
        .expect("the body must not be empty")
}

#[test]
fn classify_uid_only() {
    let h = classify(Some(3), None, None);
    assert_eq!(h, OperationHandle::TaskRef { uid: 3 });
}

#[test]
fn classify_task_uid_only() {
    let h = classify(None, Some(12), None);
    assert_eq!(h, OperationHandle::TaskRef { uid: 12 });
}

#[test]
fn classify_update_id_only() {
    let h = classify(None, None, Some(7));
    assert_eq!(h, OperationHandle::LegacyUpdateRef { update_id: 7 });
}

#[test]
fn classify_nothing_is_direct() {
    assert_eq!(classify(None, None, None), OperationHandle::Direct);
}

#[test]
fn uid_takes_precedence_over_update_id() {
    let h = classify(Some(1), None, Some(9));
    assert_eq!(h, OperationHandle::TaskRef { uid: 1 });
    let h = classify(Some(1), Some(2), Some(9));
    assert_eq!(h, OperationHandle::TaskRef { uid: 1 });
    let h = classify(None, Some(2), Some(9));
    assert_eq!(h, OperationHandle::TaskRef { uid: 2 });
}

#[test]
fn extract_uid_from_json() {
    let v = parsed(br#"{"uid": 42, "status": "enqueued"}"#);
    assert_eq!(extract_handle(&v), OperationHandle::TaskRef { uid: 42 });
}

#[test]
fn extract_task_uid_from_json() {
    let v = parsed(br#"{"taskUid": 9}"#);
    assert_eq!(extract_handle(&v), OperationHandle::TaskRef { uid: 9 });
}

#[test]
fn extract_update_id_from_json() {
    let v = parsed(br#"{"updateId": 7}"#);
    assert_eq!(extract_handle(&v), OperationHandle::LegacyUpdateRef { update_id: 7 });
}

#[test]
fn extract_prefers_uid_in_json() {
    let v = parsed(br#"{"updateId": 7, "uid": 1}"#);
    assert_eq!(extract_handle(&v), OperationHandle::TaskRef { uid: 1 });
}

#[test]
fn extract_direct_when_no_identifier() {
    let v = parsed(br#"{"hits": [], "query": "x"}"#);
    assert_eq!(extract_handle(&v), OperationHandle::Direct);
}

#[test]
fn extract_ignores_non_integer_identifier() {
    // A `uid` that is not an integer does not count as one.
    let v = parsed(br#"{"uid": "not a number", "updateId": 3}"#);
    assert_eq!(extract_handle(&v), OperationHandle::LegacyUpdateRef { update_id: 3 });
}

#[test]
fn extract_on_non_object_is_direct() {
    let v = parsed(br#"[1, 2, 3]"#);
    assert_eq!(extract_handle(&v), OperationHandle::Direct);
}
