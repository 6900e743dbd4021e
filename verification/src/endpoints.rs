//! The client configuration and the exact URL of every endpoint the client
//! talks to. Every builder pins its result character for character, so a
//! request can only ever go to the address the command stands for.

use vstd::prelude::*;
use crate::handle::OperationHandle;
use crate::text::{i64_to_dec, spec_dec_int, spec_dec_nat, u64_to_dec};

verus! {

/// The immutable client configuration, constructed once at start-up and
/// passed down by reference: server address, default index, credentials,
/// verbosity, the polling interval in milliseconds, and the fire-and-forget
/// switch (the `--async` flag) that disables all polling.
#[derive(Clone, Debug)]
pub struct Meilisearch {
    pub verbose: u8,
    pub addr: String,
    pub fire_and_forget: bool,
    pub index: String,
    pub key: Option<String>,
    pub user_agent: String,
    pub custom_header: Option<String>,
    pub interval: usize,
}

impl Meilisearch {
    /// `{addr}/tasks/{uid}`: where a task reference is watched.
    pub fn task_url(&self, uid: i64) -> (r: String)
        ensures
            r@ == self.addr@ + "/tasks/"@ + spec_dec_int(uid as int),
    {
        let mut r = self.addr.clone();
        r.append("/tasks/");
        let d = i64_to_dec(uid);
        r.append(d.as_str());
        proof {
            assert(r@ =~= self.addr@ + "/tasks/"@ + spec_dec_int(uid as int));
        }
        r
    }

    /// `{addr}/indexes/{index}/updates/{id}`: where a legacy update is
    /// watched.
    pub fn legacy_update_url(&self, update_id: i64) -> (r: String)
        ensures
            r@ == self.addr@ + "/indexes/"@ + self.index@ + "/updates/"@ + spec_dec_int(
                update_id as int,
            ),
    {
        let mut r = self.addr.clone();
        r.append("/indexes/");
        r.append(self.index.as_str());
        r.append("/updates/");
        let d = i64_to_dec(update_id);
        r.append(d.as_str());
        proof {
            assert(r@ =~= self.addr@ + "/indexes/"@ + self.index@ + "/updates/"@ + spec_dec_int(
                update_id as int,
            ));
        }
        r
    }

    /// `{addr}/batches/{uid}`: where a batch's progress is fetched.
    pub fn batch_url(&self, batch_uid: i64) -> (r: String)
        ensures
            r@ == self.addr@ + "/batches/"@ + spec_dec_int(batch_uid as int),
    {
        let mut r = self.addr.clone();
        r.append("/batches/");
        let d = i64_to_dec(batch_uid);
        r.append(d.as_str());
        proof {
            assert(r@ =~= self.addr@ + "/batches/"@ + spec_dec_int(batch_uid as int));
        }
        r
    }

    /// The status endpoint a handle is watched at: tasks for a task
    /// reference, the per-index updates resource for a legacy update, and
    /// nothing for a direct result.
    pub fn poll_url(&self, handle: &OperationHandle) -> (r: Option<String>)
        ensures
            handle matches OperationHandle::TaskRef { uid } ==> (r matches Some(u) && u@
                == self.addr@ + "/tasks/"@ + spec_dec_int(uid as int)),
            handle matches OperationHandle::LegacyUpdateRef { update_id } ==> (r matches Some(u)
                && u@ == self.addr@ + "/indexes/"@ + self.index@ + "/updates/"@ + spec_dec_int(
                update_id as int,
            )),
            handle is Direct ==> r is None,
    {
        match handle {
            OperationHandle::TaskRef { uid } => Option::Some(self.task_url(*uid)),
            OperationHandle::LegacyUpdateRef { update_id } => Option::Some(
                self.legacy_update_url(*update_id),
            ),
            OperationHandle::Direct => Option::None,
        }
    }

    /// `{addr}{suffix}`: the fixed endpoints.
    fn simple_url(&self, suffix: &str) -> (r: String)
        ensures
            r@ == self.addr@ + suffix@,
    {
        let mut r = self.addr.clone();
        r.append(suffix);
        r
    }

    /// `{addr}/tasks{query}`: the task list, filtered by the query string.
    pub fn tasks_url(&self, query: &str) -> (r: String)
        ensures
            r@ == self.addr@ + "/tasks"@ + query@,
    {
        let mut r = self.simple_url("/tasks");
        r.append(query);
        proof {
            assert(r@ =~= self.addr@ + "/tasks"@ + query@);
        }
        r
    }

    /// `{addr}/tasks/cancel{query}`: cancels the tasks the query selects.
    pub fn tasks_cancel_url(&self, query: &str) -> (r: String)
        ensures
            r@ == self.addr@ + "/tasks/cancel"@ + query@,
    {
        let mut r = self.simple_url("/tasks/cancel");
        r.append(query);
        proof {
            assert(r@ =~= self.addr@ + "/tasks/cancel"@ + query@);
        }
        r
    }

    /// `{addr}/batches/{uid}` for one batch, by numeric uid.
    pub fn batch_by_id_url(&self, id: u32) -> (r: String)
        ensures
            r@ == self.addr@ + "/batches/"@ + spec_dec_nat(id as int),
    {
        let mut r = self.simple_url("/batches/");
        let d = u64_to_dec(id as u64);
        r.append(d.as_str());
        proof {
            assert(r@ =~= self.addr@ + "/batches/"@ + spec_dec_nat(id as int));
        }
        r
    }

    /// `{addr}/tasks/{id}` for one task, by numeric id.
    pub fn task_by_id_url(&self, id: u32) -> (r: String)
        ensures
            r@ == self.addr@ + "/tasks/"@ + spec_dec_nat(id as int),
    {
        let mut r = self.simple_url("/tasks/");
        let d = u64_to_dec(id as u64);
        r.append(d.as_str());
        proof {
            assert(r@ =~= self.addr@ + "/tasks/"@ + spec_dec_nat(id as int));
        }
        r
    }

    /// `{addr}/batches{query}`: the batch list, filtered by the query string.
    pub fn batches_url(&self, query: &str) -> (r: String)
        ensures
            r@ == self.addr@ + "/batches"@ + query@,
    {
        let mut r = self.simple_url("/batches");
        r.append(query);
        proof {
            assert(r@ =~= self.addr@ + "/batches"@ + query@);
        }
        r
    }

    /// `{addr}/indexes{query}`: the index list.
    pub fn indexes_url(&self, query: &str) -> (r: String)
        ensures
            r@ == self.addr@ + "/indexes"@ + query@,
    {
        let mut r = self.simple_url("/indexes");
        r.append(query);
        proof {
            assert(r@ =~= self.addr@ + "/indexes"@ + query@);
        }
        r
    }

    /// `{addr}/indexes/{index}` for one index.
    pub fn index_url(&self, index: &str) -> (r: String)
        ensures
            r@ == self.addr@ + "/indexes/"@ + index@,
    {
        let mut r = self.simple_url("/indexes/");
        r.append(index);
        proof {
            assert(r@ =~= self.addr@ + "/indexes/"@ + index@);
        }
        r
    }

    /// `{addr}/indexes/{index}{suffix}`: an endpoint scoped to the
    /// configured index.
    fn index_scoped_url(&self, suffix: &str) -> (r: String)
        ensures
            r@ == self.addr@ + "/indexes/"@ + self.index@ + suffix@,
    {
        let mut r = self.simple_url("/indexes/");
        r.append(self.index.as_str());
        r.append(suffix);
        proof {
            assert(r@ =~= self.addr@ + "/indexes/"@ + self.index@ + suffix@);
        }
        r
    }

    /// `{addr}/indexes/{index}/search`.
    pub fn search_url(&self) -> (r: String)
        ensures
            r@ == self.addr@ + "/indexes/"@ + self.index@ + "/search"@,
    {
        self.index_scoped_url("/search")
    }

    /// `{addr}/indexes/{index}/settings`.
    pub fn settings_url(&self) -> (r: String)
        ensures
            r@ == self.addr@ + "/indexes/"@ + self.index@ + "/settings"@,
    {
        self.index_scoped_url("/settings")
    }

    /// `{addr}/indexes/{index}/documents{query}`.
    pub fn documents_url(&self, query: &str) -> (r: String)
        ensures
            r@ == self.addr@ + "/indexes/"@ + self.index@ + "/documents"@ + query@,
    {
        let mut r = self.index_scoped_url("/documents");
        r.append(query);
        proof {
            assert(r@ =~= self.addr@ + "/indexes/"@ + self.index@ + "/documents"@ + query@);
        }
        r
    }

    /// `{addr}/indexes/{index}/documents/{id}{query}` for one document.
    pub fn document_url(&self, id: &str, query: &str) -> (r: String)
        ensures
            r@ == self.addr@ + "/indexes/"@ + self.index@ + "/documents/"@ + id@ + query@,
    {
        let mut r = self.index_scoped_url("/documents/");
        r.append(id);
        r.append(query);
        proof {
            assert(r@ =~= self.addr@ + "/indexes/"@ + self.index@ + "/documents/"@ + id@
                + query@);
        }
        r
    }

    /// `{addr}/indexes/{index}/documents/fetch`.
    pub fn documents_fetch_url(&self) -> (r: String)
        ensures
            r@ == self.addr@ + "/indexes/"@ + self.index@ + "/documents/fetch"@,
    {
        self.index_scoped_url("/documents/fetch")
    }

    /// `{addr}/indexes/{index}/documents/delete-batch`.
    pub fn documents_delete_batch_url(&self) -> (r: String)
        ensures
            r@ == self.addr@ + "/indexes/"@ + self.index@ + "/documents/delete-batch"@,
    {
        self.index_scoped_url("/documents/delete-batch")
    }

    /// `{addr}/indexes/{index}/documents/delete`: deletion by filter.
    pub fn documents_delete_url(&self) -> (r: String)
        ensures
            r@ == self.addr@ + "/indexes/"@ + self.index@ + "/documents/delete"@,
    {
        self.index_scoped_url("/documents/delete")
    }

    /// `{addr}/indexes/{index}/edit`: edits documents by function.
    pub fn edit_documents_url(&self) -> (r: String)
        ensures
            r@ == self.addr@ + "/indexes/"@ + self.index@ + "/edit"@,
    {
        self.index_scoped_url("/edit")
    }

    /// `{addr}/keys`.
    pub fn keys_url(&self) -> (r: String)
        ensures
            r@ == self.addr@ + "/keys"@,
    {
        self.simple_url("/keys")
    }

    /// `{addr}/keys/{key}` for one API key.
    pub fn key_url(&self, key: &str) -> (r: String)
        ensures
            r@ == self.addr@ + "/keys/"@ + key@,
    {
        let mut r = self.simple_url("/keys/");
        r.append(key);
        proof {
            assert(r@ =~= self.addr@ + "/keys/"@ + key@);
        }
        r
    }

    /// `{addr}/dumps`.
    pub fn dumps_url(&self) -> (r: String)
        ensures
            r@ == self.addr@ + "/dumps"@,
    {
        self.simple_url("/dumps")
    }

    /// `{addr}/snapshots`.
    pub fn snapshots_url(&self) -> (r: String)
        ensures
            r@ == self.addr@ + "/snapshots"@,
    {
        self.simple_url("/snapshots")
    }

    /// `{addr}/health`.
    pub fn health_url(&self) -> (r: String)
        ensures
            r@ == self.addr@ + "/health"@,
    {
        self.simple_url("/health")
    }

    /// `{addr}/version`.
    pub fn version_url(&self) -> (r: String)
        ensures
            r@ == self.addr@ + "/version"@,
    {
        self.simple_url("/version")
    }

    /// `{addr}/stats`.
    pub fn stats_url(&self) -> (r: String)
        ensures
            r@ == self.addr@ + "/stats"@,
    {
        self.simple_url("/stats")
    }

    /// `{addr}/experimental-features`.
    pub fn experimental_url(&self) -> (r: String)
        ensures
            r@ == self.addr@ + "/experimental-features"@,
    {
        self.simple_url("/experimental-features")
    }

    /// `{addr}/logs/stream`.
    pub fn logs_stream_url(&self) -> (r: String)
        ensures
            r@ == self.addr@ + "/logs/stream"@,
    {
        self.simple_url("/logs/stream")
    }

    /// `{addr}/logs/stderr`.
    pub fn logs_stderr_url(&self) -> (r: String)
        ensures
            r@ == self.addr@ + "/logs/stderr"@,
    {
        self.simple_url("/logs/stderr")
    }
}

/// An explicitly given name, or the configured default.
pub open spec fn spec_or_default(given: Option<String>, dflt: Seq<char>) -> Seq<char> {
    match given {
        Option::Some(s) => s@,
        Option::None => dflt,
    }
}

/// The index a command addresses: the explicitly given one, or the
/// configured default index.
pub fn effective_index(meili: &Meilisearch, index: &Option<String>) -> (r: String)
    ensures
        r@ == spec_or_default(*index, meili.index@),
{
    match index {
        Option::Some(s) => s.clone(),
        Option::None => meili.index.clone(),
    }
}

/// The API key a key lookup addresses: the explicitly given one, or the
/// configured credential; `None` when neither exists.
pub fn effective_key(meili: &Meilisearch, key: &Option<String>) -> (r: Option<String>)
    ensures
        key matches Some(k) ==> (r matches Some(s) && s@ == k@),
        key is None ==> (meili.key matches Some(k) ==> (r matches Some(s) && s@ == k@)),
        key is None && meili.key is None ==> r is None,
{
    match key {
        Option::Some(s) => Option::Some(s.clone()),
        Option::None => match &meili.key {
            Option::Some(s) => Option::Some(s.clone()),
            Option::None => Option::None,
        },
    }
}

/// Whether a response's status asks for the method fallback: older servers
/// answer Method Not Allowed to `PATCH`, and the client then retries the
/// same request with `POST`.
pub fn retry_with_post(status: u16) -> (r: bool)
    ensures
        r == (status == 405),
{
    status == 405
}

/// Splits a custom header argument at its first `:` into name and value;
/// an argument with no `:` is ignored.
pub fn split_header(h: &str) -> (r: Option<(String, String)>)
    ensures
        r is None ==> forall|i: int| 0 <= i < h@.len() ==> h@[i] != ':',
        (r matches Some(kv) ==> exists|k: int|
            0 <= k < h@.len() && h@[k] == ':' && (forall|j: int| 0 <= j < k ==> h@[j] != ':')
                && kv.0@ == h@.subrange(0, k) && kv.1@ == h@.subrange(k + 1, h@.len() as int)),
{
    let len = h.unicode_len();
    let mut i: usize = 0;
    while i < len
        invariant
            i <= len,
            len == h@.len(),
            forall|j: int| 0 <= j < i ==> h@[j] != ':',
        decreases len - i,
    {
        if h.get_char(i) == ':' {
            let name = String::from_str(h.substring_char(0, i));
            let value = String::from_str(h.substring_char(i + 1, len));
            return Option::Some((name, value));
        }
        i += 1;
    }
    Option::None
}

} // verus!
