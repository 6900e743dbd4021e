//! A verified core for a Meilisearch command-line client.
//!
//! The library holds everything the client decides or computes: how a JSON
//! response body is classified into an asynchronous operation handle, how the
//! status-polling loop advances and stops, which output the renderer owes for
//! a given response, and the exact URL of every endpoint the client talks to.
//! The surrounding binary only moves bytes: it sends the requests, feeds the
//! responses back in as plain values, and prints what the library hands out.

pub mod commands;
pub mod endpoints;
pub mod handle;
pub mod json;
pub mod poller;
pub mod render;
pub mod status;
pub mod text;

pub use commands::{
    AddOrUpdate, BatchesCommand, Command, DocumentsCommand, Experimental, GetDocumentBaseParameter,
    GetDocumentExtraParameter, HttpMethod, IndexesCommand, Inner, Key, KeyError, ListIndexes, Log,
    Options, RequestPlan, Shell, ShellError, Stats, TaskFilter, TaskListParameters, TaskPagination,
    TasksCommand,
};
pub use endpoints::Meilisearch;
pub use handle::OperationHandle;
pub use json::InvalidJson;
pub use poller::{PollReply, PollStep, RunStats};
pub use status::Status;
