//! The operation handle: what a response body says about the asynchronous
//! operation the server enqueued, if any.
//!
//! A handle is extracted once per response and lives only for the polling
//! loop that consumes it. Classification looks at three integer fields of the
//! body: `uid`, then `taskUid`, then `updateId`; a `uid` or `taskUid` wins
//! over an `updateId`.

use vstd::prelude::*;

verus! {

/// What kind of asynchronous operation a response body refers to.
#[derive(Clone, Copy, Debug, PartialEq, Eq, Structural)]
pub enum OperationHandle {
    /// A task in the server's task queue, watched at `/tasks/{uid}`.
    TaskRef { uid: i64 },
    /// A legacy per-index update, watched at `/indexes/{index}/updates/{id}`.
    LegacyUpdateRef { update_id: i64 },
    /// The response is a direct, synchronous result; there is nothing to poll.
    Direct,
}

/// Classification of a body from its three identifier fields, each given as
/// the field's integer value or `None` when the field is absent (or not an
/// integer): `uid` first, then `taskUid`, then `updateId`.
pub open spec fn spec_classify(
    uid: Option<i64>,
    task_uid: Option<i64>,
    update_id: Option<i64>,
) -> OperationHandle {
    if uid is Some {
        OperationHandle::TaskRef { uid: uid->0 }
    } else if task_uid is Some {
        OperationHandle::TaskRef { uid: task_uid->0 }
    } else if update_id is Some {
        OperationHandle::LegacyUpdateRef { update_id: update_id->0 }
    } else {
        OperationHandle::Direct
    }
}

/// Classifies a response body from its identifier fields.
pub fn classify(uid: Option<i64>, task_uid: Option<i64>, update_id: Option<i64>) -> (h:
    OperationHandle)
    ensures
        h == spec_classify(uid, task_uid, update_id),
{
    match uid {
        Some(u) => OperationHandle::TaskRef { uid: u },
        None => match task_uid {
            Some(u) => OperationHandle::TaskRef { uid: u },
            None => match update_id {
                Some(id) => OperationHandle::LegacyUpdateRef { update_id: id },
                None => OperationHandle::Direct,
            },
        },
    }
}

/// A body that carries exactly one of the three identifier fields is
/// classified as the matching variant, and one that carries none of them as
/// `Direct`.
pub proof fn lemma_classification_single(
    uid: Option<i64>,
    task_uid: Option<i64>,
    update_id: Option<i64>,
)
    ensures
        uid is Some && task_uid is None && update_id is None ==> spec_classify(
            uid,
            task_uid,
            update_id,
        ) == (OperationHandle::TaskRef { uid: uid->0 }),
        uid is None && task_uid is Some && update_id is None ==> spec_classify(
            uid,
            task_uid,
            update_id,
        ) == (OperationHandle::TaskRef { uid: task_uid->0 }),
        uid is None && task_uid is None && update_id is Some ==> spec_classify(
            uid,
            task_uid,
            update_id,
        ) == (OperationHandle::LegacyUpdateRef { update_id: update_id->0 }),
        uid is None && task_uid is None && update_id is None ==> spec_classify(
            uid,
            task_uid,
            update_id,
        ) == OperationHandle::Direct,
{
}

/// A present `uid` always wins: whatever the other fields hold, the body is
/// classified as a task reference, never as a legacy update.
pub proof fn lemma_uid_precedence(uid: i64, task_uid: Option<i64>, update_id: Option<i64>)
    ensures
        spec_classify(Some(uid), task_uid, update_id) == (OperationHandle::TaskRef { uid }),
        !(spec_classify(Some(uid), task_uid, update_id) is LegacyUpdateRef),
{
}

} // verus!
