//! The polling orchestrator, as a pure state machine.
//!
//! After a mutating request, the client renders the response once and then —
//! unless fire-and-forget is set or the body yielded no operation handle —
//! repeatedly fetches the operation's status, rendering every reply, until a
//! reply stops the loop. All decisions live here and are pure; the binary
//! around the library performs the fetches, sleeps and renders the library
//! asks for.

use vstd::prelude::*;
use crate::handle::OperationHandle;
use crate::status::{is_terminal, spec_is_terminal, Status};

verus! {

/// What one status fetch reported back: the operation's `status` field, when
/// present and a recognised string shape, and the batch the task belongs to,
/// when the payload names one. A missing or non-string `status` field is
/// `None`.
#[derive(Clone, Copy, Debug, PartialEq, Eq)]
pub struct PollReply {
    pub status: Option<Status>,
    pub batch_uid: Option<i64>,
}

/// What the poller owes after rendering one poll reply.
#[derive(Clone, Copy, Debug, PartialEq, Eq, Structural)]
pub enum PollStep {
    /// Sleep for the configured interval, then fetch the status again.
    Continue,
    /// Stop watching: the operation reached a terminal state, or reported no
    /// status at all (the resource finished silently or disappeared).
    Stop,
}

/// The decision a reply's status field dictates: no status stops the loop at
/// once, a terminal status stops it, anything else keeps polling.
pub open spec fn spec_decision(status: Option<Status>) -> PollStep {
    match status {
        Option::None => PollStep::Stop,
        Option::Some(st) => if spec_is_terminal(st) {
            PollStep::Stop
        } else {
            PollStep::Continue
        },
    }
}

/// Decides from one poll reply. Only the `status` field is consulted: the
/// batch/progress side of a reply is display-only and can never stop or
/// prolong the loop.
pub fn decision(reply: &PollReply) -> (d: PollStep)
    ensures
        d == spec_decision(reply.status),
{
    match reply.status {
        Option::None => PollStep::Stop,
        Option::Some(st) => {
            if is_terminal(st) {
                PollStep::Stop
            } else {
                PollStep::Continue
            }
        },
    }
}

/// Whether the loop runs at all: never in fire-and-forget mode, and never
/// when the triggering body yielded no handle.
pub open spec fn spec_should_poll(handle: OperationHandle, fire_and_forget: bool) -> bool {
    !fire_and_forget && handle != OperationHandle::Direct
}

/// Whether the loop runs at all.
pub fn should_poll(handle: &OperationHandle, fire_and_forget: bool) -> (r: bool)
    ensures
        r == spec_should_poll(*handle, fire_and_forget),
{
    if fire_and_forget {
        false
    } else {
        match handle {
            OperationHandle::Direct => false,
            _ => true,
        }
    }
}

/// Which batch to fetch progress from alongside a poll reply: only the task
/// variant reports batch progress, and only when the task payload names a
/// batch. The fetch is best-effort; its failure never reaches the loop.
pub open spec fn spec_progress_batch(handle: OperationHandle, reply_batch: Option<i64>) -> Option<
    i64,
> {
    if handle is TaskRef {
        reply_batch
    } else {
        Option::None
    }
}

/// Which batch to fetch progress from alongside a poll reply.
pub fn progress_batch(handle: &OperationHandle, reply: &PollReply) -> (b: Option<i64>)
    ensures
        b == spec_progress_batch(*handle, reply.batch_uid),
{
    match handle {
        OperationHandle::TaskRef { .. } => reply.batch_uid,
        _ => Option::None,
    }
}

/// How many scripted replies the loop consumes: every reply up to and
/// including the first one that stops it, or the whole script when none does.
pub open spec fn spec_consumed(script: Seq<Option<Status>>) -> nat
    decreases script.len(),
{
    if script.len() == 0 {
        0
    } else if spec_decision(script[0]) == PollStep::Stop {
        1
    } else {
        1 + spec_consumed(script.drop_first())
    }
}

/// Whether some scripted reply stops the loop.
pub open spec fn spec_stopped(script: Seq<Option<Status>>) -> bool
    decreases script.len(),
{
    if script.len() == 0 {
        false
    } else if spec_decision(script[0]) == PollStep::Stop {
        true
    } else {
        spec_stopped(script.drop_first())
    }
}

/// The render, poll and sleep counts of one whole response handling: the
/// triggering response is rendered once; then, only if the loop runs, each
/// consumed reply costs one poll and one render, and each consumed reply that
/// does not stop the loop costs one sleep.
pub open spec fn spec_run(
    handle: OperationHandle,
    fire_and_forget: bool,
    script: Seq<Option<Status>>,
) -> (nat, nat, nat) {
    if spec_should_poll(handle, fire_and_forget) {
        (
            1 + spec_consumed(script),
            spec_consumed(script),
            (spec_consumed(script) - if spec_stopped(script) {
                1int
            } else {
                0int
            }) as nat,
        )
    } else {
        (1nat, 0nat, 0nat)
    }
}

/// What one replayed run performed: renders (the triggering response plus one
/// per consumed reply), status fetches, and sleeps.
#[derive(Clone, Copy, Debug, PartialEq, Eq, Structural)]
pub struct RunStats {
    pub renders: usize,
    pub polls: usize,
    pub sleeps: usize,
}

proof fn lemma_consumed_prefix(script: Seq<Option<Status>>, k: int)
    requires
        0 <= k <= script.len(),
        forall|j: int| 0 <= j < k ==> spec_decision(script[j]) == PollStep::Continue,
    ensures
        k == script.len() ==> spec_consumed(script) == k && !spec_stopped(script),
        k < script.len() && spec_decision(script[k]) == PollStep::Stop ==> spec_consumed(script)
            == k + 1 && spec_stopped(script),
    decreases script.len(),
{
    if k == 0 {
    } else {
        let rest = script.drop_first();
        assert forall|j: int| 0 <= j < k - 1 implies spec_decision(rest[j])
            == PollStep::Continue by {
            assert(rest[j] == script[j + 1]);
        }
        lemma_consumed_prefix(rest, k - 1);
        if k < script.len() {
            assert(rest[k - 1] == script[k]);
        }
    }
}

/// Replays the poller against a scripted sequence of poll replies, each given
/// as the reply's status field, and counts what the live loop would perform:
/// one render of the triggering response; then, unless fire-and-forget is set
/// or there is no handle, one fetch and one render per scripted reply until a
/// reply stops the loop or the script runs out, with a sleep after every
/// reply that does not stop it.
pub fn run_script(
    handle: &OperationHandle,
    fire_and_forget: bool,
    script: &Vec<Option<Status>>,
) -> (stats: RunStats)
    requires
        script@.len() < usize::MAX,
    ensures
        (stats.renders as nat, stats.polls as nat, stats.sleeps as nat) == spec_run(
            *handle,
            fire_and_forget,
            script@,
        ),
{
    let mut renders: usize = 1;
    let mut polls: usize = 0;
    let mut sleeps: usize = 0;
    if should_poll(handle, fire_and_forget) {
        let n = script.len();
        let mut i: usize = 0;
        let mut stopped: bool = false;
        while i < n && !stopped
            invariant
                n == script@.len(),
                n < usize::MAX,
                i <= n,
                !stopped ==> forall|j: int|
                    0 <= j < i ==> spec_decision(script@[j]) == PollStep::Continue,
                !stopped ==> polls == i && renders == 1 + i && sleeps == i,
                stopped ==> 0 < i && spec_decision(script@[i - 1]) == PollStep::Stop,
                stopped ==> forall|j: int|
                    0 <= j < i - 1 ==> spec_decision(script@[j]) == PollStep::Continue,
                stopped ==> polls == i && renders == 1 + i && sleeps == i - 1,
            decreases n - i,
        {
            let reply = PollReply { status: script[i], batch_uid: Option::None };
            polls = polls + 1;
            renders = renders + 1;
            match decision(&reply) {
                PollStep::Stop => {
                    stopped = true;
                },
                PollStep::Continue => {
                    sleeps = sleeps + 1;
                },
            }
            i = i + 1;
        }
        proof {
            if stopped {
                lemma_consumed_prefix(script@, i - 1);
            } else {
                lemma_consumed_prefix(script@, i as int);
            }
        }
    }
    RunStats { renders, polls, sleeps }
}

/// Fire-and-forget short-circuits: whatever the handle and whatever the
/// server would have answered, the triggering response is rendered once and
/// no status fetch and no sleep ever happen.
pub proof fn lemma_fire_and_forget(handle: OperationHandle, script: Seq<Option<Status>>)
    ensures
        spec_run(handle, true, script) == (1nat, 0nat, 0nat),
{
}

/// A body with no handle is a direct result: the response is rendered once
/// and nothing is polled.
pub proof fn lemma_direct_no_polling(fire_and_forget: bool, script: Seq<Option<Status>>)
    ensures
        spec_run(OperationHandle::Direct, fire_and_forget, script) == (1nat, 0nat, 0nat),
{
}

/// Terminal detection: when the first stopping reply is the `k`-th one (all
/// earlier replies continue), the loop renders exactly `k + 1` replies and
/// sleeps exactly `k` times, then returns — whatever terminal status, or
/// absence of status, stopped it.
pub proof fn lemma_terminal_detection(
    handle: OperationHandle,
    script: Seq<Option<Status>>,
    k: int,
)
    requires
        handle != OperationHandle::Direct,
        0 <= k < script.len(),
        spec_decision(script[k]) == PollStep::Stop,
        forall|j: int| 0 <= j < k ==> spec_decision(script[j]) == PollStep::Continue,
    ensures
        spec_run(handle, false, script) == (((k + 2) as nat), ((k + 1) as nat), (k as nat)),
{
    lemma_consumed_prefix(script, k);
}

/// A poll reply with no status stops the loop immediately: one fetch, one
/// render of that reply, and no sleep, whatever the script would have
/// answered afterwards.
pub proof fn lemma_absent_status_stops(handle: OperationHandle, script: Seq<Option<Status>>)
    requires
        handle != OperationHandle::Direct,
        script.len() > 0,
        script[0] is None,
    ensures
        spec_run(handle, false, script) == (2nat, 1nat, 0nat),
{
    lemma_consumed_prefix(script, 0);
}

/// Batch progress is best-effort: two replies that agree on the status field
/// — whatever their batch fields, and so whatever became of any progress
/// fetch — dictate the same decision.
pub proof fn lemma_progress_best_effort(r1: PollReply, r2: PollReply)
    requires
        r1.status == r2.status,
    ensures
        spec_decision(r1.status) == spec_decision(r2.status),
{
}

} // verus!
