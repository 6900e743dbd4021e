//! The command surface, as plain data, and what request each command stands
//! for. Query strings and JSON bodies are serialized outside the library and
//! handed in as plain strings; everything that is decided here — which
//! endpoint, which method, which fallback — is verified.

use vstd::prelude::*;
use vstd::string::StringSliceAdditionalSpecFns;
use crate::endpoints::{effective_index, effective_key, spec_or_default, Meilisearch};
use crate::json::{str_field, str_fields};
use crate::text::{spec_dec_nat, str_eq};

verus! {

/// The HTTP method of a planned request.
#[derive(Clone, Copy, Debug, PartialEq, Eq, Structural)]
pub enum HttpMethod {
    Get,
    Post,
    Put,
    Patch,
    Delete,
}

/// A fully decided request: the method and the exact URL. Whatever body or
/// extra headers a command needs are attached outside the library.
#[derive(Clone, Debug)]
pub struct RequestPlan {
    pub method: HttpMethod,
    pub url: String,
}

/// How a task listing is paginated.
#[derive(Clone, Debug, PartialEq, Eq)]
pub struct TaskPagination {
    /// Number of tasks to return.
    pub limit: Option<u32>,
    /// `uid` of the first task returned.
    pub from: Option<u32>,
    /// If true, results come in reverse order, from oldest to most recent.
    pub reverse: Option<bool>,
}

/// How tasks are selected, for listing, cancelling or deleting. Each field
/// is a comma-separated list, kept as the user wrote it.
#[derive(Clone, Debug, PartialEq, Eq)]
pub struct TaskFilter {
    pub uids: Option<String>,
    pub batch_uids: Option<String>,
    pub statuses: Option<String>,
    pub types: Option<String>,
    pub index_uids: Option<String>,
    pub canceled_by: Option<String>,
    pub before_enqueued_at: Option<String>,
    pub after_enqueued_at: Option<String>,
    pub before_started_at: Option<String>,
    pub after_started_at: Option<String>,
    pub before_finished_at: Option<String>,
    pub after_finished_at: Option<String>,
}

/// Pagination and filter of a task or batch listing.
#[derive(Clone, Debug, PartialEq, Eq)]
pub struct TaskListParameters {
    pub pagination: TaskPagination,
    pub filter: TaskFilter,
}

/// The task-queue commands.
#[derive(Clone, Debug, PartialEq, Eq)]
pub enum TasksCommand {
    /// List tasks, or get a single task when an id is given (the filter is
    /// then ignored).
    List { params: TaskListParameters, id: Option<u32> },
    /// Cancel the tasks the filter selects.
    Cancel(TaskFilter),
    /// Delete the finished tasks the filter selects.
    Delete(TaskFilter),
}

impl TasksCommand {
    /// The request this command stands for; `query` is the serialized
    /// filter/pagination query string (empty, or starting with `?`).
    pub fn plan(&self, meili: &Meilisearch, query: &str) -> (p: RequestPlan)
        ensures
            (self matches TasksCommand::List { id: Some(id), .. } ==> p.method == HttpMethod::Get
                && p.url@ == meili.addr@ + "/tasks/"@ + spec_dec_nat(id as int)),
            (self matches TasksCommand::List { id: None, .. } ==> p.method == HttpMethod::Get
                && p.url@ == meili.addr@ + "/tasks"@ + query@),
            (self is Cancel ==> p.method == HttpMethod::Post && p.url@ == meili.addr@
                + "/tasks/cancel"@ + query@),
            (self is Delete ==> p.method == HttpMethod::Delete && p.url@ == meili.addr@ + "/tasks"@
                + query@),
    {
        match self {
            TasksCommand::List { id: Option::Some(id), .. } => RequestPlan {
                method: HttpMethod::Get,
                url: meili.task_by_id_url(*id),
            },
            TasksCommand::List { id: Option::None, .. } => RequestPlan {
                method: HttpMethod::Get,
                url: meili.tasks_url(query),
            },
            TasksCommand::Cancel(_) => RequestPlan {
                method: HttpMethod::Post,
                url: meili.tasks_cancel_url(query),
            },
            TasksCommand::Delete(_) => RequestPlan {
                method: HttpMethod::Delete,
                url: meili.tasks_url(query),
            },
        }
    }
}

/// The batch commands.
#[derive(Clone, Debug, PartialEq, Eq)]
pub enum BatchesCommand {
    /// List batches, or get a single batch when an id is given (the filter
    /// is then ignored).
    List { params: TaskListParameters, id: Option<u32> },
}

impl BatchesCommand {
    /// The request this command stands for; `query` as in
    /// [`TasksCommand::plan`].
    pub fn plan(&self, meili: &Meilisearch, query: &str) -> (p: RequestPlan)
        ensures
            (self matches BatchesCommand::List { id: Some(id), .. } ==> p.method
                == HttpMethod::Get && p.url@ == meili.addr@ + "/batches/"@ + spec_dec_nat(
                id as int,
            )),
            (self matches BatchesCommand::List { id: None, .. } ==> p.method == HttpMethod::Get
                && p.url@ == meili.addr@ + "/batches"@ + query@),
    {
        match self {
            BatchesCommand::List { id: Option::Some(id), .. } => RequestPlan {
                method: HttpMethod::Get,
                url: meili.batch_by_id_url(*id),
            },
            BatchesCommand::List { id: Option::None, .. } => RequestPlan {
                method: HttpMethod::Get,
                url: meili.batches_url(query),
            },
        }
    }
}

/// Pagination of the index listing.
#[derive(Clone, Debug, PartialEq, Eq)]
pub struct ListIndexes {
    /// Number of indexes to skip.
    pub offset: Option<u32>,
    /// Number of indexes to return.
    pub limit: Option<u32>,
}

/// The index commands; where no index is given, the configured default
/// index is addressed.
#[derive(Clone, Debug, PartialEq, Eq)]
pub enum IndexesCommand {
    List(ListIndexes),
    Get { index: Option<String> },
    Create { index: Option<String>, primary: Option<String> },
    Update { index: Option<String>, primary: Option<String> },
    Delete { index: Option<String> },
}

impl IndexesCommand {
    /// The request this command stands for; `query` is the serialized
    /// pagination of a listing. A creation posts to the index collection
    /// and an update patches the index; their JSON bodies are attached
    /// outside. An update that is answered with Method Not Allowed is
    /// retried with `POST` by the caller (see
    /// [`crate::endpoints::retry_with_post`]).
    pub fn plan(&self, meili: &Meilisearch, query: &str) -> (p: RequestPlan)
        ensures
            (self is List ==> p.method == HttpMethod::Get && p.url@ == meili.addr@ + "/indexes"@
                + query@),
            (self matches IndexesCommand::Get { index } ==> p.method == HttpMethod::Get && p.url@
                == meili.addr@ + "/indexes/"@ + spec_or_default(*index, meili.index@)),
            (self is Create ==> p.method == HttpMethod::Post && p.url@ == meili.addr@
                + "/indexes"@),
            (self matches IndexesCommand::Update { index, .. } ==> p.method == HttpMethod::Patch
                && p.url@ == meili.addr@ + "/indexes/"@ + spec_or_default(*index, meili.index@)),
            (self matches IndexesCommand::Delete { index } ==> p.method == HttpMethod::Delete
                && p.url@ == meili.addr@ + "/indexes/"@ + spec_or_default(*index, meili.index@)),
    {
        match self {
            IndexesCommand::List(_) => RequestPlan {
                method: HttpMethod::Get,
                url: meili.indexes_url(query),
            },
            IndexesCommand::Get { index } => {
                let name = effective_index(meili, index);
                RequestPlan { method: HttpMethod::Get, url: meili.index_url(name.as_str()) }
            },
            IndexesCommand::Create { .. } => {
                let url = meili.indexes_url("");
                proof {
                    reveal_strlit("");
                    assert(url@ =~= meili.addr@ + "/indexes"@);
                }
                RequestPlan { method: HttpMethod::Post, url }
            },
            IndexesCommand::Update { index, .. } => {
                let name = effective_index(meili, index);
                RequestPlan { method: HttpMethod::Patch, url: meili.index_url(name.as_str()) }
            },
            IndexesCommand::Delete { index } => {
                let name = effective_index(meili, index);
                RequestPlan { method: HttpMethod::Delete, url: meili.index_url(name.as_str()) }
            },
        }
    }
}

/// A document payload to add or replace: its content type, primary key,
/// CSV delimiter, and the path of the file to send (standard input when
/// absent).
#[derive(Clone, Debug, PartialEq, Eq)]
pub struct AddOrUpdate {
    pub content_type: Option<String>,
    pub primary: Option<String>,
    pub csv_delimiter: Option<String>,
    pub file: Option<String>,
}

/// Field selection of a document fetch.
#[derive(Clone, Debug, PartialEq, Eq)]
pub struct GetDocumentBaseParameter {
    pub fields: Option<String>,
    pub retrieve_vectors: Option<String>,
}

/// Pagination and filtering of a document listing.
#[derive(Clone, Debug, PartialEq, Eq)]
pub struct GetDocumentExtraParameter {
    pub offset: Option<usize>,
    pub limit: Option<usize>,
    pub filter: Option<String>,
}

/// The document commands.
#[derive(Clone, Debug, PartialEq, Eq)]
pub enum DocumentsCommand {
    /// Get one document by id, or list documents; `by_post` lists through
    /// the fetch route with a JSON payload instead of query parameters.
    Get {
        id: Option<String>,
        by_post: bool,
        base_params: GetDocumentBaseParameter,
        extra_params: GetDocumentExtraParameter,
    },
    /// Add documents (`POST`).
    Add(AddOrUpdate),
    /// Replace documents (`PUT`).
    Update(AddOrUpdate),
    /// Edit documents by function; the payload comes on standard input.
    Edit,
    /// Delete documents: all of them, by ids, or by filter.
    Delete { ids: Option<Vec<String>>, filter: Option<String> },
}

/// The content type sent for a document payload, inferred from the file
/// extension when none was given explicitly: `csv` means CSV, the JSON-lines
/// extensions mean newline-delimited JSON, and anything else means JSON.
pub open spec fn spec_content_type(ext: Option<Seq<char>>) -> Seq<char> {
    match ext {
        Option::Some(e) => if e == "csv"@ {
            "text/csv"@
        } else if e == "jsonl"@ || e == "ndjson"@ || e == "jsonlines"@ {
            "application/x-ndjson"@
        } else {
            "application/json"@
        },
        Option::None => "application/json"@,
    }
}

/// Infers the content type of a document payload from a file extension.
pub fn content_type_for(ext: Option<&str>) -> (r: &'static str)
    ensures
        r@ == spec_content_type(
            match ext {
                Option::Some(e) => Option::Some(e@),
                Option::None => Option::None,
            },
        ),
{
    match ext {
        Option::Some(e) => {
            if str_eq(e, "csv") {
                "text/csv"
            } else if str_eq(e, "jsonl") || str_eq(e, "ndjson") || str_eq(e, "jsonlines") {
                "application/x-ndjson"
            } else {
                "application/json"
            }
        },
        Option::None => "application/json",
    }
}

impl DocumentsCommand {
    /// The request this command stands for; `query` is the serialized
    /// parameters of a get or listing (empty, or starting with `?`). Bodies
    /// — the payload of an add or replace, the id list of a batch delete,
    /// the filter object, the edit function — are attached outside; an add
    /// or replace also carries its primary key as a query parameter
    /// attached outside.
    pub fn plan(&self, meili: &Meilisearch, query: &str) -> (p: RequestPlan)
        ensures
            (self matches DocumentsCommand::Get { id: Some(id), .. } ==> p.method
                == HttpMethod::Get && p.url@ == meili.addr@ + "/indexes/"@ + meili.index@
                + "/documents/"@ + id@ + query@),
            (self matches DocumentsCommand::Get { id: None, by_post, .. } ==> (if *by_post {
                p.method == HttpMethod::Post && p.url@ == meili.addr@ + "/indexes/"@ + meili.index@
                    + "/documents/fetch"@
            } else {
                p.method == HttpMethod::Get && p.url@ == meili.addr@ + "/indexes/"@ + meili.index@
                    + "/documents"@ + query@
            })),
            (self is Add ==> p.method == HttpMethod::Post && p.url@ == meili.addr@ + "/indexes/"@
                + meili.index@ + "/documents"@),
            (self is Update ==> p.method == HttpMethod::Put && p.url@ == meili.addr@ + "/indexes/"@
                + meili.index@ + "/documents"@),
            (self is Edit ==> p.method == HttpMethod::Post && p.url@ == meili.addr@ + "/indexes/"@
                + meili.index@ + "/edit"@),
            (self matches DocumentsCommand::Delete { ids: Some(ids), .. } ==> (if ids@.len()
                == 0 {
                p.method == HttpMethod::Delete && p.url@ == meili.addr@ + "/indexes/"@
                    + meili.index@ + "/documents"@
            } else if ids@.len() == 1 {
                p.method == HttpMethod::Delete && p.url@ == meili.addr@ + "/indexes/"@
                    + meili.index@ + "/documents/"@ + ids@[0]@
            } else {
                p.method == HttpMethod::Post && p.url@ == meili.addr@ + "/indexes/"@ + meili.index@
                    + "/documents/delete-batch"@
            })),
            (self matches DocumentsCommand::Delete { ids: None, filter: Some(f) } ==> p.method
                == HttpMethod::Post && p.url@ == meili.addr@ + "/indexes/"@ + meili.index@
                + "/documents/delete"@),
            (self matches DocumentsCommand::Delete { ids: None, filter: None } ==> p.method
                == HttpMethod::Delete && p.url@ == meili.addr@ + "/indexes/"@ + meili.index@
                + "/documents"@),
    {
        proof {
            reveal_strlit("");
        }
        match self {
            DocumentsCommand::Get { id: Option::Some(id), .. } => RequestPlan {
                method: HttpMethod::Get,
                url: meili.document_url(id.as_str(), query),
            },
            DocumentsCommand::Get { id: Option::None, by_post: true, .. } => RequestPlan {
                method: HttpMethod::Post,
                url: meili.documents_fetch_url(),
            },
            DocumentsCommand::Get { id: Option::None, by_post: false, .. } => RequestPlan {
                method: HttpMethod::Get,
                url: meili.documents_url(query),
            },
            DocumentsCommand::Add(_) => {
                let url = meili.documents_url("");
                proof {
                    assert(url@ =~= meili.addr@ + "/indexes/"@ + meili.index@ + "/documents"@);
                }
                RequestPlan { method: HttpMethod::Post, url }
            },
            DocumentsCommand::Update(_) => {
                let url = meili.documents_url("");
                proof {
                    assert(url@ =~= meili.addr@ + "/indexes/"@ + meili.index@ + "/documents"@);
                }
                RequestPlan { method: HttpMethod::Put, url }
            },
            DocumentsCommand::Edit => RequestPlan {
                method: HttpMethod::Post,
                url: meili.edit_documents_url(),
            },
            DocumentsCommand::Delete { ids: Option::Some(ids), .. } => {
                if ids.len() == 0 {
                    let url = meili.documents_url("");
                    proof {
                        assert(url@ =~= meili.addr@ + "/indexes/"@ + meili.index@ + "/documents"@);
                    }
                    RequestPlan { method: HttpMethod::Delete, url }
                } else if ids.len() == 1 {
                    let url = meili.document_url(ids[0].as_str(), "");
                    proof {
                        assert(url@ =~= meili.addr@ + "/indexes/"@ + meili.index@ + "/documents/"@
                            + ids@[0]@);
                    }
                    RequestPlan { method: HttpMethod::Delete, url }
                } else {
                    RequestPlan {
                        method: HttpMethod::Post,
                        url: meili.documents_delete_batch_url(),
                    }
                }
            },
            DocumentsCommand::Delete { ids: Option::None, filter: Option::Some(_) } => RequestPlan {
                method: HttpMethod::Post,
                url: meili.documents_delete_url(),
            },
            DocumentsCommand::Delete { ids: Option::None, filter: Option::None } => RequestPlan {
                method: HttpMethod::Delete,
                url: meili.documents_url(""),
            },
        }
    }
}

/// Why a key command cannot be planned.
#[derive(Clone, Copy, Debug, PartialEq, Eq, Structural)]
pub enum KeyError {
    /// No key was given, and the configuration holds none either.
    NoKeyToRetrieve,
    /// No key was given, and the piped payload carries no string `key`
    /// field.
    NoKeyInPayload,
}

impl KeyError {
    /// The diagnostic the command prints for this error.
    pub fn message(&self) -> (r: &'static str)
        ensures
            self is NoKeyToRetrieve ==> r@ == "No key to retrieve"@,
            self is NoKeyInPayload ==> r@
                == "You need to provide a key either in the json or as an argument"@,
    {
        match self {
            KeyError::NoKeyToRetrieve => "No key to retrieve",
            KeyError::NoKeyInPayload => "You need to provide a key either in the json or as an argument",
        }
    }
}

/// The API-key commands.
#[derive(Clone, Debug, PartialEq, Eq)]
pub enum Key {
    /// List all keys.
    List,
    /// Get a key; without an argument, the configured credential.
    Get { k: Option<String> },
    /// Create a key from the piped JSON.
    Create,
    /// Update a key from the piped JSON; the key itself may come as the
    /// argument or as the payload's `key` field.
    Update { k: Option<String> },
    /// Delete a key.
    Delete { k: String },
    /// Show an example of a valid key payload; no request is made.
    Template,
}

impl Key {
    /// The request this command stands for: `Ok(None)` when the command is
    /// local (the template), an error when no key can be determined, and
    /// the planned request otherwise. `body` is the piped JSON of an
    /// update, when one was read; create and update attach it outside.
    pub fn plan(&self, meili: &Meilisearch, body: Option<&serde_json::Value>) -> (r: Result<
        Option<RequestPlan>,
        KeyError,
    >)
        ensures
            (self is List ==> (r matches Ok(p) && p matches Some(p) && p.method == HttpMethod::Get
                && p.url@ == meili.addr@ + "/keys"@)),
            (self matches Key::Get { k } ==> (match (k, meili.key) {
                (Option::Some(key), _) => r matches Ok(p) && p matches Some(p) && p.method
                    == HttpMethod::Get && p.url@ == meili.addr@ + "/keys/"@ + key@,
                (Option::None, Option::Some(key)) => r matches Ok(p) && p matches Some(p)
                    && p.method == HttpMethod::Get && p.url@ == meili.addr@ + "/keys/"@ + key@,
                (Option::None, Option::None) => r matches Err(e) && e == KeyError::NoKeyToRetrieve,
            })),
            (self is Create ==> (r matches Ok(p) && p matches Some(p) && p.method
                == HttpMethod::Post && p.url@ == meili.addr@ + "/keys"@)),
            (self matches Key::Update { k: Some(key) } ==> (r matches Ok(p) && p matches Some(p)
                && p.method == HttpMethod::Patch && p.url@ == meili.addr@ + "/keys/"@ + key@)),
            (self matches Key::Update { k: None } ==> (match body {
                Option::Some(v) => if str_fields(*v).dom().contains("key"@) {
                    r matches Ok(p) && p matches Some(p) && p.method == HttpMethod::Patch && p.url@
                        == meili.addr@ + "/keys/"@ + str_fields(*v)["key"@]
                } else {
                    r matches Err(e) && e == KeyError::NoKeyInPayload
                },
                Option::None => r matches Err(e) && e == KeyError::NoKeyInPayload,
            })),
            (self matches Key::Delete { k } ==> (r matches Ok(p) && p matches Some(p) && p.method
                == HttpMethod::Delete && p.url@ == meili.addr@ + "/keys/"@ + k@)),
            (self is Template ==> (r matches Ok(p) && p is None)),
    {
        match self {
            Key::List => Result::Ok(
                Option::Some(RequestPlan { method: HttpMethod::Get, url: meili.keys_url() }),
            ),
            Key::Get { k } => match effective_key(meili, k) {
                Option::Some(key) => Result::Ok(
                    Option::Some(
                        RequestPlan {
                            method: HttpMethod::Get,
                            url: meili.key_url(key.as_str()),
                        },
                    ),
                ),
                Option::None => Result::Err(KeyError::NoKeyToRetrieve),
            },
            Key::Create => Result::Ok(
                Option::Some(RequestPlan { method: HttpMethod::Post, url: meili.keys_url() }),
            ),
            Key::Update { k: Option::Some(key) } => Result::Ok(
                Option::Some(
                    RequestPlan { method: HttpMethod::Patch, url: meili.key_url(key.as_str()) },
                ),
            ),
            Key::Update { k: Option::None } => match body {
                Option::Some(v) => match str_field(v, "key") {
                    Option::Some(key) => Result::Ok(
                        Option::Some(
                            RequestPlan {
                                method: HttpMethod::Patch,
                                url: meili.key_url(key.as_str()),
                            },
                        ),
                    ),
                    Option::None => Result::Err(KeyError::NoKeyInPayload),
                },
                Option::None => Result::Err(KeyError::NoKeyInPayload),
            },
            Key::Delete { k } => Result::Ok(
                Option::Some(
                    RequestPlan { method: HttpMethod::Delete, url: meili.key_url(k.as_str()) },
                ),
            ),
            Key::Template => Result::Ok(Option::None),
        }
    }
}

/// The log commands.
#[derive(Clone, Debug, PartialEq, Eq)]
pub enum Log {
    /// Stream the logs; mode and target travel in the JSON body.
    Stream { mode: String, target: String },
    /// Stop streaming the logs.
    Remove,
    /// Update the log target of the logs written to the server's error
    /// stream.
    Stderr { target: String },
    /// Stream a profiling trace; the target travels in the JSON body.
    Profile { target: String },
}

impl Log {
    /// The request this command stands for; JSON bodies are attached
    /// outside.
    pub fn plan(&self, meili: &Meilisearch) -> (p: RequestPlan)
        ensures
            (self is Stream ==> p.method == HttpMethod::Post && p.url@ == meili.addr@
                + "/logs/stream"@),
            (self is Remove ==> p.method == HttpMethod::Delete && p.url@ == meili.addr@
                + "/logs/stream"@),
            (self is Stderr ==> p.method == HttpMethod::Post && p.url@ == meili.addr@
                + "/logs/stderr"@),
            (self is Profile ==> p.method == HttpMethod::Post && p.url@ == meili.addr@
                + "/logs/stream"@),
    {
        match self {
            Log::Stream { .. } => RequestPlan {
                method: HttpMethod::Post,
                url: meili.logs_stream_url(),
            },
            Log::Remove => RequestPlan {
                method: HttpMethod::Delete,
                url: meili.logs_stream_url(),
            },
            Log::Stderr { .. } => RequestPlan {
                method: HttpMethod::Post,
                url: meili.logs_stderr_url(),
            },
            Log::Profile { .. } => RequestPlan {
                method: HttpMethod::Post,
                url: meili.logs_stream_url(),
            },
        }
    }
}

/// The experimental-features commands.
#[derive(Clone, Debug, PartialEq, Eq)]
pub enum Experimental {
    /// Get the experimental features.
    Get,
    /// Update the experimental features; interactively, the current
    /// features are fetched first, edited, and then patched back.
    Update { interactive: bool },
}

impl Experimental {
    /// The first request this command stands for: a plain update patches
    /// the piped payload; an interactive update starts by fetching the
    /// current features (the later patch goes to the same URL).
    pub fn plan(&self, meili: &Meilisearch) -> (p: RequestPlan)
        ensures
            (self is Get ==> p.method == HttpMethod::Get),
            (self matches Experimental::Update { interactive } ==> p.method == (if *interactive {
                HttpMethod::Get
            } else {
                HttpMethod::Patch
            })),
            p.url@ == meili.addr@ + "/experimental-features"@,
    {
        match self {
            Experimental::Get => RequestPlan {
                method: HttpMethod::Get,
                url: meili.experimental_url(),
            },
            Experimental::Update { interactive: false } => RequestPlan {
                method: HttpMethod::Patch,
                url: meili.experimental_url(),
            },
            Experimental::Update { interactive: true } => RequestPlan {
                method: HttpMethod::Get,
                url: meili.experimental_url(),
            },
        }
    }
}

/// The self-management commands.
#[derive(Clone, Debug, PartialEq, Eq)]
pub enum Inner {
    /// Generate the autocomplete file for a shell.
    AutoComplete { shell: Option<String> },
    /// Download and install the latest released build.
    Upgrade,
    /// Print the current version.
    Version,
    /// Print the stats of a local index store.
    Stats { path: String },
}

/// Why a shell-completion command cannot proceed.
#[derive(Clone, Copy, Debug, PartialEq, Eq, Structural)]
pub enum ShellError {
    /// The named shell is not one of the supported ones.
    UnsupportedShell,
    /// The completion-file location of this shell is unknown.
    UnknownCompletionPath,
}

/// A shell a completion file can be generated for.
#[derive(Clone, Copy, Debug, PartialEq, Eq, Structural)]
pub enum Shell {
    Bash,
    Zsh,
    Fish,
    Elvish,
}

impl Shell {
    /// The shell's name, as it appears in `$SHELL` and in messages.
    pub fn name(&self) -> (r: &'static str)
        ensures
            self is Bash ==> r@ == "bash"@,
            self is Zsh ==> r@ == "zsh"@,
            self is Fish ==> r@ == "fish"@,
            self is Elvish ==> r@ == "elvish"@,
    {
        match self {
            Shell::Bash => "bash",
            Shell::Zsh => "zsh",
            Shell::Fish => "fish",
            Shell::Elvish => "elvish",
        }
    }

    /// Where this shell expects its completion file, under the given home
    /// directory; no location is known for elvish.
    pub fn completion_path(&self, home: &str) -> (r: Result<String, ShellError>)
        ensures
            (self is Bash ==> (r matches Ok(p) && p@ == home@
                + "/.bash_completion.d/mieli-completion.bash"@)),
            (self is Zsh ==> (r matches Ok(p) && p@ == home@ + "/.zfunc/_mieli"@)),
            (self is Fish ==> (r matches Ok(p) && p@ == home@
                + "/.config/fish/completions/mieli.fish"@)),
            (self is Elvish ==> (r matches Err(e) && e == ShellError::UnknownCompletionPath)),
    {
        let suffix: &str = match self {
            Shell::Bash => "/.bash_completion.d/mieli-completion.bash",
            Shell::Zsh => "/.zfunc/_mieli",
            Shell::Fish => "/.config/fish/completions/mieli.fish",
            Shell::Elvish => {
                return Result::Err(ShellError::UnknownCompletionPath);
            },
        };
        let mut p = String::from_str(home);
        p.append(suffix);
        Result::Ok(p)
    }
}

/// The part of a string after its last `/`: the shell name at the end of a
/// `$SHELL` path (the whole string when it has no `/`).
pub open spec fn spec_tail_after_slash(s: Seq<char>) -> Seq<char>
    decreases s.len(),
{
    if s.len() == 0 {
        Seq::empty()
    } else if s.last() == '/' {
        Seq::empty()
    } else {
        spec_tail_after_slash(s.drop_last()).push(s.last())
    }
}

proof fn lemma_tail_whole(s: Seq<char>)
    requires
        forall|j: int| 0 <= j < s.len() ==> s[j] != '/',
    ensures
        spec_tail_after_slash(s) == s,
    decreases s.len(),
{
    if s.len() > 0 {
        lemma_tail_whole(s.drop_last());
        assert(spec_tail_after_slash(s.drop_last()).push(s.last()) =~= s);
    } else {
        assert(spec_tail_after_slash(s) =~= s);
    }
}

proof fn lemma_tail_subrange(s: Seq<char>, k: int)
    requires
        0 <= k < s.len(),
        s[k] == '/',
        forall|j: int| k < j < s.len() ==> s[j] != '/',
    ensures
        spec_tail_after_slash(s) == s.subrange(k + 1, s.len() as int),
    decreases s.len(),
{
    if k == s.len() - 1 {
        assert(spec_tail_after_slash(s) =~= s.subrange(k + 1, s.len() as int));
    } else {
        lemma_tail_subrange(s.drop_last(), k);
        assert(s.drop_last().subrange(k + 1, s.len() - 1).push(s.last()) =~= s.subrange(
            k + 1,
            s.len() as int,
        ));
    }
}

/// The part of a string after its last `/` (the whole string when it has
/// none).
pub fn tail_after_last_slash(s: &str) -> (r: String)
    ensures
        r@ == spec_tail_after_slash(s@),
{
    let len = s.unicode_len();
    let mut i: usize = len;
    while i > 0
        invariant
            i <= len,
            len == s@.len(),
            forall|j: int| i <= j < len ==> s@[j] != '/',
        decreases i,
    {
        if s.get_char(i - 1) == '/' {
            proof {
                lemma_tail_subrange(s@, i - 1);
            }
            return String::from_str(s.substring_char(i, len));
        }
        i -= 1;
    }
    proof {
        lemma_tail_whole(s@);
    }
    String::from_str(s)
}

/// The shell a name denotes, if it is a supported one.
pub open spec fn spec_shell_of(name: Seq<char>) -> Option<Shell> {
    if name == "bash"@ {
        Option::Some(Shell::Bash)
    } else if name == "zsh"@ {
        Option::Some(Shell::Zsh)
    } else if name == "fish"@ {
        Option::Some(Shell::Fish)
    } else if name == "elvish"@ {
        Option::Some(Shell::Elvish)
    } else {
        Option::None
    }
}

/// Recognises a shell from a `$SHELL`-style path: the name after the last
/// `/` must be one of the supported shells.
pub fn shell_from_path(s: &str) -> (r: Result<Shell, ShellError>)
    ensures
        (spec_shell_of(spec_tail_after_slash(s@)) matches Some(sh) ==> (r matches Ok(x) && x
            == sh)),
        spec_shell_of(spec_tail_after_slash(s@)) is None ==> (r matches Err(e) && e
            == ShellError::UnsupportedShell),
{
    let tail = tail_after_last_slash(s);
    let name = tail.as_str();
    if str_eq(name, "bash") {
        Result::Ok(Shell::Bash)
    } else if str_eq(name, "zsh") {
        Result::Ok(Shell::Zsh)
    } else if str_eq(name, "fish") {
        Result::Ok(Shell::Fish)
    } else if str_eq(name, "elvish") {
        Result::Ok(Shell::Elvish)
    } else {
        Result::Err(ShellError::UnsupportedShell)
    }
}

/// The size totals of one local database.
#[derive(Clone, Copy, Debug, PartialEq, Eq, Structural)]
pub struct Stats {
    pub number_of_entries: u64,
    pub size_of_keys: u64,
    pub size_of_data: u64,
    pub size_of_entries: u64,
}

/// Saturating 64-bit addition.
pub open spec fn spec_sat_add(a: int, b: int) -> int {
    if a + b > u64::MAX {
        u64::MAX as int
    } else {
        a + b
    }
}

/// The saturating sum of the key sizes of a list of `(key size, data size)`
/// entries.
pub open spec fn spec_sum_keys(entries: Seq<(u64, u64)>) -> int
    decreases entries.len(),
{
    if entries.len() == 0 {
        0
    } else {
        spec_sat_add(spec_sum_keys(entries.drop_last()), entries.last().0 as int)
    }
}

/// The saturating sum of the data sizes.
pub open spec fn spec_sum_data(entries: Seq<(u64, u64)>) -> int
    decreases entries.len(),
{
    if entries.len() == 0 {
        0
    } else {
        spec_sat_add(spec_sum_data(entries.drop_last()), entries.last().1 as int)
    }
}

/// Totals the entries of one local database, given each entry's key and
/// data size in bytes; sizes saturate instead of wrapping.
pub fn compute_stats(entries: &Vec<(u64, u64)>) -> (s: Stats)
    ensures
        s.number_of_entries == entries@.len(),
        s.size_of_keys == spec_sum_keys(entries@),
        s.size_of_data == spec_sum_data(entries@),
        s.size_of_entries == spec_sat_add(s.size_of_keys as int, s.size_of_data as int),
{
    let n = entries.len();
    let mut size_of_keys: u64 = 0;
    let mut size_of_data: u64 = 0;
    let mut i: usize = 0;
    while i < n
        invariant
            i <= n,
            n == entries@.len(),
            size_of_keys == spec_sum_keys(entries@.take(i as int)),
            size_of_data == spec_sum_data(entries@.take(i as int)),
        decreases n - i,
    {
        let (k, d) = entries[i];
        size_of_keys = size_of_keys.saturating_add(k);
        size_of_data = size_of_data.saturating_add(d);
        proof {
            assert(entries@.take(i + 1).drop_last() =~= entries@.take(i as int));
            assert(entries@.take(i + 1).last() == entries@[i as int]);
        }
        i += 1;
    }
    proof {
        assert(entries@.take(n as int) =~= entries@);
    }
    Stats {
        number_of_entries: n as u64,
        size_of_keys,
        size_of_data,
        size_of_entries: size_of_keys.saturating_add(size_of_data),
    }
}

/// Whether the running build is already at least the latest released
/// version, in the byte-lexicographic order version tags are compared in.
pub fn upgrade_not_needed(current: &str, latest: &str) -> (r: bool)
    ensures
        r == crate::render::spec_bytes_le(latest.spec_bytes(), current.spec_bytes()),
{
    let current_bytes = current.as_bytes_vec();
    let latest_bytes = latest.as_bytes_vec();
    crate::render::bytes_le(&latest_bytes, &current_bytes)
}

/// A released version tag with any leading `v` removed, as release tags
/// are written `v1.2.3`.
pub fn strip_leading_v(tag: &str) -> (r: String)
    ensures
        tag@.len() > 0 && tag@[0] == 'v' ==> r@ == tag@.drop_first(),
        !(tag@.len() > 0 && tag@[0] == 'v') ==> r@ == tag@,
{
    let len = tag.unicode_len();
    if len > 0 && tag.get_char(0) == 'v' {
        let rest = tag.substring_char(1, len);
        proof {
            assert(rest@ =~= tag@.drop_first());
        }
        String::from_str(rest)
    } else {
        String::from_str(tag)
    }
}

/// One whole invocation: the configuration and the command to run.
#[derive(Clone, Debug)]
pub struct Options {
    pub meilisearch: Meilisearch,
    pub command: Command,
}

/// Every command the client knows, shortcuts included.
#[derive(Clone, Debug, PartialEq, Eq)]
pub enum Command {
    /// Modify the installation itself.
    Inner(Inner),
    /// Manipulate indexes.
    Index(IndexesCommand),
    /// Manipulate documents.
    Documents(DocumentsCommand),
    /// Shortcut to add documents.
    Da(AddOrUpdate),
    /// Shortcut to delete documents.
    Dd { ids: Option<Vec<String>>, filter: Option<String> },
    /// Create a dump.
    Dump,
    /// Create a snapshot.
    Snapshot,
    /// Inspect the task queue.
    Tasks(TasksCommand),
    /// Shortcut to list the tasks.
    Tl { params: TaskListParameters, id: Option<u32> },
    /// Inspect the batches.
    Batches(BatchesCommand),
    /// Do a healthcheck.
    Health,
    /// The version of the running server.
    Version,
    /// The stats of the indexes.
    Stats,
    /// Search; piped JSON configures the request, the terms replace `q`.
    Search { search_terms: Vec<String>, interactive: bool },
    /// Get or update the settings of the configured index.
    Settings,
    /// Get or update the API keys.
    Key(Key),
    /// Get or update the logs.
    Log(Log),
    /// Get or update the experimental features.
    Experimental(Experimental),
}

impl Command {
    /// Replaces each shortcut by the command it abbreviates: `da` adds
    /// documents, `dd` deletes documents, `tl` lists tasks. Every other
    /// command is returned unchanged.
    pub fn normalize(self) -> (c: Command)
        ensures
            (self matches Command::Da(params) ==> c == Command::Documents(
                DocumentsCommand::Add(params),
            )),
            (self matches Command::Dd { ids, filter } ==> c == Command::Documents(
                DocumentsCommand::Delete { ids, filter },
            )),
            (self matches Command::Tl { params, id } ==> c == Command::Tasks(
                TasksCommand::List { params, id },
            )),
            !(self is Da) && !(self is Dd) && !(self is Tl) ==> c == self,
    {
        match self {
            Command::Da(params) => Command::Documents(DocumentsCommand::Add(params)),
            Command::Dd { ids, filter } => Command::Documents(
                DocumentsCommand::Delete { ids, filter },
            ),
            Command::Tl { params, id } => Command::Tasks(TasksCommand::List { params, id }),
            other => other,
        }
    }
}

} // verus!
