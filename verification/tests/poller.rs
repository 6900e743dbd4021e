//! The polling loop: terminal detection, short-circuits, and the two
//! end-to-end scenarios.

use mieli::json::{decode_body, extract_handle, poll_reply_of};
use mieli::poller::{decision, progress_batch, run_script, should_poll};
use mieli::{Meilisearch, OperationHandle, PollReply, PollStep, Status};

fn config() -> Meilisearch {
    Meilisearch {
        verbose: 0,
        addr: "http://localhost:7700".to_string(),
        fire_and_forget: false,
        index: "mieli".to_string(),
        key: None,
        user_agent: "mieli/test".to_string(),
        custom_header: None,
        interval: 200,
    }
}

fn parsed(bytes: &[u8]) -> serde_json::Value {
    decode_body(bytes.to_vec())
        .expect("the body must parse")
        .expect("the body must not be empty")
}

#[test]
fn terminal_sequence_succeeded() {
    // Three scripted replies: two waiting states, then success. The
    // triggering response costs the first render; the three replies cost
    // one render each and a sleep after each non-terminal one.
    let h = OperationHandle::TaskRef { uid: 42 };
    let script = vec![
        Some(Status::Enqueued),
        Some(Status::Processing),
        Some(Status::Succeeded),
    ];
    let stats = run_script(&h, false, &script);
    assert_eq!(stats.polls, 3);
    assert_eq!(stats.renders, 1 + 3);
    assert_eq!(stats.sleeps, 2);
}

#[test]
fn terminal_sequence_failed() {
    // A failure is terminal like a success: the loop returns, it does not
    // error.
    let h = OperationHandle::TaskRef { uid: 42 };
    let script = vec![Some(Status::Enqueued), Some(Status::Failed)];
    let stats = run_script(&h, false, &script);
    assert_eq!(stats.polls, 2);
    assert_eq!(stats.renders, 1 + 2);
    assert_eq!(stats.sleeps, 1);
}

#[test]
fn canceled_is_terminal() {
    let h = OperationHandle::TaskRef { uid: 1 };
    let script = vec![Some(Status::Canceled)];
    let stats = run_script(&h, false, &script);
    assert_eq!(stats.polls, 1);
    assert_eq!(stats.sleeps, 0);
}

#[test]
fn absent_status_stops_without_sleep() {
    // A reply with no status field stops at once: one fetch, one render of
    // that reply, no sleep — whatever would have come afterwards.
    let h = OperationHandle::TaskRef { uid: 42 };
    let script = vec![None, Some(Status::Enqueued), Some(Status::Enqueued)];
    let stats = run_script(&h, false, &script);
    assert_eq!(stats.polls, 1);
    assert_eq!(stats.renders, 2);
    assert_eq!(stats.sleeps, 0);
}

#[test]
fn fire_and_forget_short_circuits() {
    // One render of the triggering response and nothing else, though the
    // body carried a uid and the server had answers ready.
    let h = OperationHandle::TaskRef { uid: 42 };
    let script = vec![Some(Status::Enqueued), Some(Status::Succeeded)];
    let stats = run_script(&h, true, &script);
    assert_eq!(stats.renders, 1);
    assert_eq!(stats.polls, 0);
    assert_eq!(stats.sleeps, 0);
    assert!(!should_poll(&h, true));
}

#[test]
fn direct_result_is_not_polled() {
    let script = vec![Some(Status::Enqueued)];
    let stats = run_script(&OperationHandle::Direct, false, &script);
    assert_eq!(stats.renders, 1);
    assert_eq!(stats.polls, 0);
    assert!(!should_poll(&OperationHandle::Direct, false));
}

#[test]
fn unknown_status_keeps_polling() {
    // A recognised-as-string but unknown status is non-terminal.
    let reply = PollReply { status: Some(Status::Other), batch_uid: None };
    assert_eq!(decision(&reply), PollStep::Continue);
    let h = OperationHandle::TaskRef { uid: 3 };
    let script = vec![Some(Status::Other), Some(Status::Succeeded)];
    let stats = run_script(&h, false, &script);
    assert_eq!(stats.polls, 2);
    assert_eq!(stats.sleeps, 1);
}

#[test]
fn processed_is_terminal() {
    // The legacy update model reports `processed` instead of `succeeded`.
    let reply = PollReply { status: Some(Status::Processed), batch_uid: None };
    assert_eq!(decision(&reply), PollStep::Stop);
}

#[test]
fn decision_ignores_batch_fields() {
    // Batch progress is best-effort: whatever became of the batch fetch,
    // the decision is the same.
    let with_batch = PollReply { status: Some(Status::Processing), batch_uid: Some(5) };
    let without_batch = PollReply { status: Some(Status::Processing), batch_uid: None };
    assert_eq!(decision(&with_batch), decision(&without_batch));
    let stopped_with = PollReply { status: Some(Status::Failed), batch_uid: Some(5) };
    let stopped_without = PollReply { status: Some(Status::Failed), batch_uid: None };
    assert_eq!(decision(&stopped_with), decision(&stopped_without));
}

#[test]
fn progress_only_for_task_refs() {
    let reply = PollReply { status: Some(Status::Processing), batch_uid: Some(5) };
    let task = OperationHandle::TaskRef { uid: 1 };
    let legacy = OperationHandle::LegacyUpdateRef { update_id: 1 };
    assert_eq!(progress_batch(&task, &reply), Some(5));
    assert_eq!(progress_batch(&legacy, &reply), None);
    let bare = PollReply { status: Some(Status::Processing), batch_uid: None };
    assert_eq!(progress_batch(&task, &bare), None);
}

#[test]
fn poll_reply_extraction() {
    let v = parsed(br#"{"status": "processing", "batchUid": 8}"#);
    let reply = poll_reply_of(&v);
    assert_eq!(reply.status, Some(Status::Processing));
    assert_eq!(reply.batch_uid, Some(8));

    let v = parsed(br#"{"details": {}}"#);
    let reply = poll_reply_of(&v);
    assert_eq!(reply.status, None);
    assert_eq!(reply.batch_uid, None);

    // A non-string status counts as absent.
    let v = parsed(br#"{"status": 3}"#);
    assert_eq!(poll_reply_of(&v).status, None);
}

#[test]
fn scenario_task_enqueued_then_succeeded() {
    // The request returns {"taskUid": 42, "status": "enqueued"}; the poll
    // of /tasks/42 returns {"status": "succeeded"}. Two renders in all.
    let meili = config();
    let body = parsed(br#"{"taskUid": 42, "status": "enqueued"}"#);
    let handle = extract_handle(&body);
    assert_eq!(handle, OperationHandle::TaskRef { uid: 42 });
    assert_eq!(
        meili.poll_url(&handle),
        Some("http://localhost:7700/tasks/42".to_string())
    );

    let poll_body = parsed(br#"{"status": "succeeded"}"#);
    let script = vec![poll_reply_of(&poll_body).status];
    let stats = run_script(&handle, false, &script);
    assert_eq!(stats.renders, 2);
    assert_eq!(stats.polls, 1);
    assert_eq!(stats.sleeps, 0);
}

#[test]
fn scenario_legacy_update_without_status() {
    // The request returns {"updateId": 7} with no status key. The handle is
    // still a legacy update, so one poll goes to the updates resource; its
    // reply carries no status either, so the loop stops after that render.
    let meili = config();
    let body = parsed(br#"{"updateId": 7}"#);
    let handle = extract_handle(&body);
    assert_eq!(handle, OperationHandle::LegacyUpdateRef { update_id: 7 });
    assert_eq!(
        meili.poll_url(&handle),
        Some("http://localhost:7700/indexes/mieli/updates/7".to_string())
    );

    let poll_body = parsed(br#"{"processed": true}"#);
    let script = vec![poll_reply_of(&poll_body).status];
    let stats = run_script(&handle, false, &script);
    assert_eq!(stats.renders, 2);
    assert_eq!(stats.polls, 1);
    assert_eq!(stats.sleeps, 0);
}
