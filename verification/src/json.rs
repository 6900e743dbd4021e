//! The JSON boundary: response bodies are parsed by `serde_json`, and the
//! library reads single fields of the parsed value through a few trusted
//! probes. Everything that decides on those fields is verified here against
//! the probes' contracts.

use vstd::prelude::*;
use crate::handle::{classify, spec_classify, OperationHandle};
use crate::poller::PollReply;
use crate::status::{spec_status_of, status_of, Status};

verus! {

#[verifier::external_type_specification]
#[verifier::external_body]
pub struct ExValue(serde_json::Value);

#[verifier::external_type_specification]
#[verifier::external_body]
pub struct ExJsonError(serde_json::Error);

/// The integer-valued fields of a parsed JSON value: the map from field name
/// to value over all fields of a JSON object that hold an integer
/// representable as an `i64`. Empty on anything that is not an object.
pub uninterp spec fn int_fields(v: serde_json::Value) -> Map<Seq<char>, i64>;

/// The string-valued fields of a parsed JSON value, as `int_fields` but for
/// fields that hold a string.
pub uninterp spec fn str_fields(v: serde_json::Value) -> Map<Seq<char>, Seq<char>>;

/// Whether a byte sequence parses as a single JSON value; a function of the
/// bytes alone.
pub uninterp spec fn json_parses(bytes: Seq<u8>) -> bool;

/// The integer value of a field, or `None` when the field is absent or does
/// not hold an integer.
pub open spec fn spec_int_field(v: serde_json::Value, name: Seq<char>) -> Option<i64> {
    if int_fields(v).dom().contains(name) {
        Option::Some(int_fields(v)[name])
    } else {
        Option::None
    }
}

/// The string value of a field, or `None` when the field is absent or does
/// not hold a string.
pub open spec fn spec_str_field(v: serde_json::Value, name: Seq<char>) -> Option<Seq<char>> {
    if str_fields(v).dom().contains(name) {
        Option::Some(str_fields(v)[name])
    } else {
        Option::None
    }
}

/// Relies on `serde_json::Value::get` and `Value::as_i64`: looking a field up
/// by name yields its value if the value is an object and has the field, and
/// `as_i64` yields the held integer exactly when the field holds one that
/// fits an `i64`.
#[verifier::external_body]
fn get_int_field(v: &serde_json::Value, name: &str) -> (r: Option<i64>)
    ensures
        int_fields(*v).dom().contains(name@) ==> r == Option::Some(int_fields(*v)[name@]),
        !int_fields(*v).dom().contains(name@) ==> r is None,
{
    v.get(name).and_then(serde_json::Value::as_i64)
}

/// Relies on `serde_json::Value::get` and `Value::as_str`: looking a field up
/// by name yields its value if the value is an object and has the field, and
/// `as_str` yields the held string exactly when the field holds one.
#[verifier::external_body]
fn get_str_field(v: &serde_json::Value, name: &str) -> (r: Option<String>)
    ensures
        r is Some <==> str_fields(*v).dom().contains(name@),
        r is Some ==> (r->0)@ == str_fields(*v)[name@],
{
    v.get(name).and_then(serde_json::Value::as_str).map(str::to_owned)
}

/// Relies on `serde_json::from_slice::<Value>`: it returns `Ok` exactly when
/// the bytes are one well-formed JSON value, and that depends on the bytes
/// alone.
#[verifier::external_body]
fn parse_json(bytes: &[u8]) -> (r: Result<serde_json::Value, serde_json::Error>)
    ensures
        r is Ok <==> json_parses(bytes@),
{
    serde_json::from_slice(bytes)
}

/// A response body that was expected to be JSON but did not parse. The raw
/// bytes are kept for diagnosis.
#[derive(Debug)]
pub struct InvalidJson {
    pub bytes: Vec<u8>,
}

/// Decodes a response body: an empty body stands for no value at all (it is
/// never parsed and never an error), any other body must parse as JSON, and
/// a body that does not is a hard error carrying the raw bytes.
pub fn decode_body(bytes: Vec<u8>) -> (r: Result<Option<serde_json::Value>, InvalidJson>)
    ensures
        bytes@.len() == 0 ==> (r matches Ok(v) && v is None),
        bytes@.len() > 0 && json_parses(bytes@) ==> (r matches Ok(v) && v is Some),
        bytes@.len() > 0 && !json_parses(bytes@) ==> (r matches Err(e) && e.bytes@ == bytes@),
{
    if bytes.len() == 0 {
        return Result::Ok(Option::None);
    }
    match parse_json(bytes.as_slice()) {
        Result::Ok(v) => Result::Ok(Option::Some(v)),
        Result::Err(_) => Result::Err(InvalidJson { bytes }),
    }
}

/// Reads the string value of a field of a parsed body, by name.
pub fn str_field(v: &serde_json::Value, name: &str) -> (r: Option<String>)
    ensures
        r is Some <==> spec_str_field(*v, name@) is Some,
        r matches Some(s) ==> spec_str_field(*v, name@) == Option::Some(s@),
{
    get_str_field(v, name)
}

/// The operation handle a parsed body yields: its `uid` field first, then
/// `taskUid`, then `updateId`.
pub open spec fn spec_handle_of(v: serde_json::Value) -> OperationHandle {
    spec_classify(
        spec_int_field(v, "uid"@),
        spec_int_field(v, "taskUid"@),
        spec_int_field(v, "updateId"@),
    )
}

/// Extracts the operation handle from a parsed response body.
pub fn extract_handle(v: &serde_json::Value) -> (h: OperationHandle)
    ensures
        h == spec_handle_of(*v),
{
    let uid = get_int_field(v, "uid");
    let task_uid = get_int_field(v, "taskUid");
    let update_id = get_int_field(v, "updateId");
    classify(uid, task_uid, update_id)
}

/// The status field of a poll reply body, parsed into the status enumeration;
/// `None` when the field is absent or not a string.
pub open spec fn spec_reply_status(v: serde_json::Value) -> Option<Status> {
    match spec_str_field(v, "status"@) {
        Option::Some(s) => Option::Some(spec_status_of(s)),
        Option::None => Option::None,
    }
}

/// Reads one poll reply out of a parsed body: its `status` field, and the
/// `batchUid` field that names the batch to fetch progress from.
pub fn poll_reply_of(v: &serde_json::Value) -> (r: PollReply)
    ensures
        r.status == spec_reply_status(*v),
        r.batch_uid == spec_int_field(*v, "batchUid"@),
{
    let status = match get_str_field(v, "status") {
        Option::Some(s) => Option::Some(status_of(s.as_str())),
        Option::None => Option::None,
    };
    let batch_uid = get_int_field(v, "batchUid");
    PollReply { status, batch_uid }
}

} // verus!
