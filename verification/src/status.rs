//! The server-reported status of an asynchronous operation, and which of its
//! values end the polling loop.

use vstd::prelude::*;
use crate::text::str_eq;

verus! {

/// A task or legacy-update status, as the server enumerates it. Any other
/// string the server may report is carried as `Other` and treated as
/// non-terminal, so the loop keeps watching it.
#[derive(Clone, Copy, Debug, PartialEq, Eq, Structural)]
pub enum Status {
    Enqueued,
    Processing,
    Succeeded,
    Processed,
    Failed,
    Canceled,
    Other,
}

/// The status a given status string denotes.
pub open spec fn spec_status_of(s: Seq<char>) -> Status {
    if s == "enqueued"@ {
        Status::Enqueued
    } else if s == "processing"@ {
        Status::Processing
    } else if s == "succeeded"@ {
        Status::Succeeded
    } else if s == "processed"@ {
        Status::Processed
    } else if s == "failed"@ {
        Status::Failed
    } else if s == "canceled"@ {
        Status::Canceled
    } else {
        Status::Other
    }
}

/// Parses a status string as the server spells it.
pub fn status_of(s: &str) -> (st: Status)
    ensures
        st == spec_status_of(s@),
{
    if str_eq(s, "enqueued") {
        Status::Enqueued
    } else if str_eq(s, "processing") {
        Status::Processing
    } else if str_eq(s, "succeeded") {
        Status::Succeeded
    } else if str_eq(s, "processed") {
        Status::Processed
    } else if str_eq(s, "failed") {
        Status::Failed
    } else if str_eq(s, "canceled") {
        Status::Canceled
    } else {
        Status::Other
    }
}

/// Whether a status ends the polling loop: `succeeded`/`processed`, `failed`
/// and `canceled` are terminal; everything else is looped on.
pub open spec fn spec_is_terminal(st: Status) -> bool {
    st == Status::Succeeded || st == Status::Processed || st == Status::Failed || st
        == Status::Canceled
}

/// Whether a status ends the polling loop.
pub fn is_terminal(st: Status) -> (r: bool)
    ensures
        r == spec_is_terminal(st),
{
    match st {
        Status::Succeeded => true,
        Status::Processed => true,
        Status::Failed => true,
        Status::Canceled => true,
        _ => false,
    }
}

} // verus!
