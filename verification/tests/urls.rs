//! Endpoint URLs and request planning, command by command.

use mieli::commands::{
    compute_stats, content_type_for, shell_from_path, tail_after_last_slash, upgrade_not_needed,
};
use mieli::endpoints::{effective_index, effective_key, retry_with_post, split_header};
use mieli::json::decode_body;
use mieli::{
    AddOrUpdate, BatchesCommand, Command, DocumentsCommand, Experimental, GetDocumentBaseParameter,
    GetDocumentExtraParameter, HttpMethod, IndexesCommand, Key, KeyError, ListIndexes, Log,
    Meilisearch, Shell, ShellError, TaskFilter, TaskListParameters, TaskPagination, TasksCommand,
};

fn config() -> Meilisearch {
    Meilisearch {
        verbose: 0,
        addr: "http://localhost:7700".to_string(),
        fire_and_forget: false,
        index: "mieli".to_string(),
        key: None,
        user_agent: "mieli/test".to_string(),
        custom_header: None,
        interval: 200,
    }
}

fn empty_filter() -> TaskFilter {
    TaskFilter {
        uids: None,
        batch_uids: None,
        statuses: None,
        types: None,
        index_uids: None,
        canceled_by: None,
        before_enqueued_at: None,
        after_enqueued_at: None,
        before_started_at: None,
        after_started_at: None,
        before_finished_at: None,
        after_finished_at: None,
    }
}

fn empty_params() -> TaskListParameters {
    TaskListParameters {
        pagination: TaskPagination { limit: None, from: None, reverse: None },
        filter: empty_filter(),
    }
}

#[test]
fn fixed_urls() {
    let m = config();
    assert_eq!(m.dumps_url(), "http://localhost:7700/dumps");
    assert_eq!(m.snapshots_url(), "http://localhost:7700/snapshots");
    assert_eq!(m.health_url(), "http://localhost:7700/health");
    assert_eq!(m.version_url(), "http://localhost:7700/version");
    assert_eq!(m.stats_url(), "http://localhost:7700/stats");
    assert_eq!(m.keys_url(), "http://localhost:7700/keys");
    assert_eq!(
        m.experimental_url(),
        "http://localhost:7700/experimental-features"
    );
    assert_eq!(m.logs_stream_url(), "http://localhost:7700/logs/stream");
    assert_eq!(m.logs_stderr_url(), "http://localhost:7700/logs/stderr");
    assert_eq!(m.search_url(), "http://localhost:7700/indexes/mieli/search");
    assert_eq!(
        m.settings_url(),
        "http://localhost:7700/indexes/mieli/settings"
    );
}

#[test]
fn poll_urls_by_handle_kind() {
    let m = config();
    assert_eq!(m.task_url(42), "http://localhost:7700/tasks/42");
    assert_eq!(m.task_url(0), "http://localhost:7700/tasks/0");
    assert_eq!(
        m.legacy_update_url(7),
        "http://localhost:7700/indexes/mieli/updates/7"
    );
    assert_eq!(m.batch_url(19), "http://localhost:7700/batches/19");
    // The decimal rendering handles big and negative identifiers exactly.
    assert_eq!(
        m.task_url(i64::MAX),
        "http://localhost:7700/tasks/9223372036854775807"
    );
    assert_eq!(
        m.task_url(i64::MIN),
        "http://localhost:7700/tasks/-9223372036854775808"
    );
}

#[test]
fn tasks_plans() {
    let m = config();
    let p = TasksCommand::List { params: empty_params(), id: None }.plan(&m, "?limit=10");
    assert_eq!(p.method, HttpMethod::Get);
    assert_eq!(p.url, "http://localhost:7700/tasks?limit=10");

    let p = TasksCommand::List { params: empty_params(), id: Some(5) }.plan(&m, "?ignored=1");
    assert_eq!(p.method, HttpMethod::Get);
    assert_eq!(p.url, "http://localhost:7700/tasks/5");

    let p = TasksCommand::Cancel(empty_filter()).plan(&m, "?uids=1,2");
    assert_eq!(p.method, HttpMethod::Post);
    assert_eq!(p.url, "http://localhost:7700/tasks/cancel?uids=1,2");

    let p = TasksCommand::Delete(empty_filter()).plan(&m, "?uids=1");
    assert_eq!(p.method, HttpMethod::Delete);
    assert_eq!(p.url, "http://localhost:7700/tasks?uids=1");
}

#[test]
fn batches_plans() {
    let m = config();
    let p = BatchesCommand::List { params: empty_params(), id: None }.plan(&m, "");
    assert_eq!(p.method, HttpMethod::Get);
    assert_eq!(p.url, "http://localhost:7700/batches");

    let p = BatchesCommand::List { params: empty_params(), id: Some(3) }.plan(&m, "");
    assert_eq!(p.url, "http://localhost:7700/batches/3");
}

#[test]
fn indexes_plans() {
    let m = config();
    let p = IndexesCommand::List(ListIndexes { offset: None, limit: None }).plan(&m, "?limit=2");
    assert_eq!(p.method, HttpMethod::Get);
    assert_eq!(p.url, "http://localhost:7700/indexes?limit=2");

    let p = IndexesCommand::Get { index: None }.plan(&m, "");
    assert_eq!(p.url, "http://localhost:7700/indexes/mieli");

    let p = IndexesCommand::Get { index: Some("movies".to_string()) }.plan(&m, "");
    assert_eq!(p.url, "http://localhost:7700/indexes/movies");

    let p = IndexesCommand::Create { index: None, primary: None }.plan(&m, "");
    assert_eq!(p.method, HttpMethod::Post);
    assert_eq!(p.url, "http://localhost:7700/indexes");

    let p = IndexesCommand::Update { index: Some("movies".to_string()), primary: None }
        .plan(&m, "");
    assert_eq!(p.method, HttpMethod::Patch);
    assert_eq!(p.url, "http://localhost:7700/indexes/movies");

    let p = IndexesCommand::Delete { index: None }.plan(&m, "");
    assert_eq!(p.method, HttpMethod::Delete);
    assert_eq!(p.url, "http://localhost:7700/indexes/mieli");
}

fn base_params() -> GetDocumentBaseParameter {
    GetDocumentBaseParameter { fields: None, retrieve_vectors: None }
}

fn extra_params() -> GetDocumentExtraParameter {
    GetDocumentExtraParameter { offset: None, limit: None, filter: None }
}

fn payload() -> AddOrUpdate {
    AddOrUpdate { content_type: None, primary: None, csv_delimiter: None, file: None }
}

#[test]
fn documents_plans() {
    let m = config();
    let p = DocumentsCommand::Get {
        id: Some("123".to_string()),
        by_post: false,
        base_params: base_params(),
        extra_params: extra_params(),
    }
    .plan(&m, "?fields=title");
    assert_eq!(p.method, HttpMethod::Get);
    assert_eq!(
        p.url,
        "http://localhost:7700/indexes/mieli/documents/123?fields=title"
    );

    let p = DocumentsCommand::Get {
        id: None,
        by_post: false,
        base_params: base_params(),
        extra_params: extra_params(),
    }
    .plan(&m, "?limit=5");
    assert_eq!(p.method, HttpMethod::Get);
    assert_eq!(p.url, "http://localhost:7700/indexes/mieli/documents?limit=5");

    let p = DocumentsCommand::Get {
        id: None,
        by_post: true,
        base_params: base_params(),
        extra_params: extra_params(),
    }
    .plan(&m, "");
    assert_eq!(p.method, HttpMethod::Post);
    assert_eq!(p.url, "http://localhost:7700/indexes/mieli/documents/fetch");

    let p = DocumentsCommand::Add(payload()).plan(&m, "");
    assert_eq!(p.method, HttpMethod::Post);
    assert_eq!(p.url, "http://localhost:7700/indexes/mieli/documents");

    let p = DocumentsCommand::Update(payload()).plan(&m, "");
    assert_eq!(p.method, HttpMethod::Put);
    assert_eq!(p.url, "http://localhost:7700/indexes/mieli/documents");

    let p = DocumentsCommand::Edit.plan(&m, "");
    assert_eq!(p.method, HttpMethod::Post);
    assert_eq!(p.url, "http://localhost:7700/indexes/mieli/edit");
}

#[test]
fn documents_delete_dispatch() {
    let m = config();
    let p = DocumentsCommand::Delete { ids: None, filter: None }.plan(&m, "");
    assert_eq!(p.method, HttpMethod::Delete);
    assert_eq!(p.url, "http://localhost:7700/indexes/mieli/documents");

    let p = DocumentsCommand::Delete { ids: Some(vec![]), filter: None }.plan(&m, "");
    assert_eq!(p.method, HttpMethod::Delete);
    assert_eq!(p.url, "http://localhost:7700/indexes/mieli/documents");

    let p = DocumentsCommand::Delete { ids: Some(vec!["9".to_string()]), filter: None }
        .plan(&m, "");
    assert_eq!(p.method, HttpMethod::Delete);
    assert_eq!(p.url, "http://localhost:7700/indexes/mieli/documents/9");

    let p = DocumentsCommand::Delete {
        ids: Some(vec!["9".to_string(), "10".to_string()]),
        filter: None,
    }
    .plan(&m, "");
    assert_eq!(p.method, HttpMethod::Post);
    assert_eq!(
        p.url,
        "http://localhost:7700/indexes/mieli/documents/delete-batch"
    );

    let p = DocumentsCommand::Delete { ids: None, filter: Some("id > 3".to_string()) }
        .plan(&m, "");
    assert_eq!(p.method, HttpMethod::Post);
    assert_eq!(p.url, "http://localhost:7700/indexes/mieli/documents/delete");
}

#[test]
fn content_type_inference() {
    assert_eq!(content_type_for(Some("csv")), "text/csv");
    assert_eq!(content_type_for(Some("jsonl")), "application/x-ndjson");
    assert_eq!(content_type_for(Some("ndjson")), "application/x-ndjson");
    assert_eq!(content_type_for(Some("jsonlines")), "application/x-ndjson");
    assert_eq!(content_type_for(Some("txt")), "application/json");
    assert_eq!(content_type_for(None), "application/json");
}

#[test]
fn key_plans() {
    let m = config();
    let p = Key::List.plan(&m, None).unwrap().unwrap();
    assert_eq!(p.method, HttpMethod::Get);
    assert_eq!(p.url, "http://localhost:7700/keys");

    let p = Key::Create.plan(&m, None).unwrap().unwrap();
    assert_eq!(p.method, HttpMethod::Post);
    assert_eq!(p.url, "http://localhost:7700/keys");

    let p = Key::Delete { k: "abc".to_string() }.plan(&m, None).unwrap().unwrap();
    assert_eq!(p.method, HttpMethod::Delete);
    assert_eq!(p.url, "http://localhost:7700/keys/abc");

    assert!(Key::Template.plan(&m, None).unwrap().is_none());
}

#[test]
fn key_get_falls_back_to_configured_credential() {
    let mut m = config();
    let p = Key::Get { k: Some("abc".to_string()) }.plan(&m, None).unwrap().unwrap();
    assert_eq!(p.url, "http://localhost:7700/keys/abc");

    m.key = Some("SECRET-REDACTED".to_string());
    let p = Key::Get { k: None }.plan(&m, None).unwrap().unwrap();
    assert_eq!(p.url, "http://localhost:7700/keys/SECRET-REDACTED");

    m.key = None;
    let e = Key::Get { k: None }.plan(&m, None).unwrap_err();
    assert_eq!(e, KeyError::NoKeyToRetrieve);
    assert_eq!(e.message(), "No key to retrieve");
}

#[test]
fn key_update_takes_key_from_payload() {
    let m = config();
    let body = decode_body(br#"{"key": "abc", "description": "x"}"#.to_vec())
        .unwrap()
        .unwrap();
    let p = Key::Update { k: None }.plan(&m, Some(&body)).unwrap().unwrap();
    assert_eq!(p.method, HttpMethod::Patch);
    assert_eq!(p.url, "http://localhost:7700/keys/abc");

    // An explicit argument wins over the payload.
    let p = Key::Update { k: Some("xyz".to_string()) }
        .plan(&m, Some(&body))
        .unwrap()
        .unwrap();
    assert_eq!(p.url, "http://localhost:7700/keys/xyz");

    let no_key = decode_body(br#"{"description": "x"}"#.to_vec()).unwrap().unwrap();
    let e = Key::Update { k: None }.plan(&m, Some(&no_key)).unwrap_err();
    assert_eq!(e, KeyError::NoKeyInPayload);
    assert_eq!(
        e.message(),
        "You need to provide a key either in the json or as an argument"
    );
    let e = Key::Update { k: None }.plan(&m, None).unwrap_err();
    assert_eq!(e, KeyError::NoKeyInPayload);
}

#[test]
fn log_plans() {
    let m = config();
    let p = Log::Stream { mode: "human".to_string(), target: "info".to_string() }.plan(&m);
    assert_eq!(p.method, HttpMethod::Post);
    assert_eq!(p.url, "http://localhost:7700/logs/stream");

    let p = Log::Remove.plan(&m);
    assert_eq!(p.method, HttpMethod::Delete);
    assert_eq!(p.url, "http://localhost:7700/logs/stream");

    let p = Log::Stderr { target: "debug".to_string() }.plan(&m);
    assert_eq!(p.method, HttpMethod::Post);
    assert_eq!(p.url, "http://localhost:7700/logs/stderr");

    let p = Log::Profile { target: "trace".to_string() }.plan(&m);
    assert_eq!(p.method, HttpMethod::Post);
    assert_eq!(p.url, "http://localhost:7700/logs/stream");
}

#[test]
fn experimental_plans() {
    let m = config();
    let p = Experimental::Get.plan(&m);
    assert_eq!(p.method, HttpMethod::Get);
    assert_eq!(p.url, "http://localhost:7700/experimental-features");

    let p = Experimental::Update { interactive: false }.plan(&m);
    assert_eq!(p.method, HttpMethod::Patch);

    let p = Experimental::Update { interactive: true }.plan(&m);
    assert_eq!(p.method, HttpMethod::Get);
}

#[test]
fn method_fallback_on_method_not_allowed() {
    assert!(retry_with_post(405));
    assert!(!retry_with_post(200));
    assert!(!retry_with_post(404));
}

#[test]
fn effective_names() {
    let m = config();
    assert_eq!(effective_index(&m, &None), "mieli");
    assert_eq!(effective_index(&m, &Some("movies".to_string())), "movies");
    assert_eq!(effective_key(&m, &None), None);
    assert_eq!(
        effective_key(&m, &Some("k1".to_string())),
        Some("k1".to_string())
    );
}

#[test]
fn custom_header_splitting() {
    assert_eq!(
        split_header("x-client: turbo/42"),
        Some(("x-client".to_string(), " turbo/42".to_string()))
    );
    assert_eq!(
        split_header("a:b:c"),
        Some(("a".to_string(), "b:c".to_string()))
    );
    assert_eq!(split_header("no-colon-here"), None);
    assert_eq!(split_header(""), None);
}

#[test]
fn shell_recognition() {
    assert_eq!(shell_from_path("/usr/bin/zsh"), Ok(Shell::Zsh));
    assert_eq!(shell_from_path("bash"), Ok(Shell::Bash));
    assert_eq!(shell_from_path("/opt/fish"), Ok(Shell::Fish));
    assert_eq!(shell_from_path("elvish"), Ok(Shell::Elvish));
    assert_eq!(
        shell_from_path("/bin/tcsh"),
        Err(ShellError::UnsupportedShell)
    );
    assert_eq!(shell_from_path(""), Err(ShellError::UnsupportedShell));
    assert_eq!(tail_after_last_slash("/a/b/c"), "c");
    assert_eq!(tail_after_last_slash("plain"), "plain");
    assert_eq!(tail_after_last_slash("trailing/"), "");
}

#[test]
fn completion_paths() {
    assert_eq!(
        Shell::Bash.completion_path("/home/u"),
        Ok("/home/u/.bash_completion.d/mieli-completion.bash".to_string())
    );
    assert_eq!(
        Shell::Zsh.completion_path("/home/u"),
        Ok("/home/u/.zfunc/_mieli".to_string())
    );
    assert_eq!(
        Shell::Fish.completion_path("/home/u"),
        Ok("/home/u/.config/fish/completions/mieli.fish".to_string())
    );
    assert_eq!(
        Shell::Elvish.completion_path("/home/u"),
        Err(ShellError::UnknownCompletionPath)
    );
    assert_eq!(Shell::Bash.name(), "bash");
    assert_eq!(Shell::Elvish.name(), "elvish");
}

#[test]
fn version_comparison() {
    assert!(upgrade_not_needed("0.20.0", "0.20.0"));
    assert!(upgrade_not_needed("0.21.0", "0.20.9"));
    assert!(!upgrade_not_needed("0.19.9", "0.20.0"));
}

#[test]
fn database_stats_totals() {
    let entries = vec![(1u64, 2u64), (3, 4)];
    let s = compute_stats(&entries);
    assert_eq!(s.number_of_entries, 2);
    assert_eq!(s.size_of_keys, 4);
    assert_eq!(s.size_of_data, 6);
    assert_eq!(s.size_of_entries, 10);

    // Sizes saturate instead of wrapping.
    let s = compute_stats(&vec![(u64::MAX, 1), (5, 2)]);
    assert_eq!(s.size_of_keys, u64::MAX);
    assert_eq!(s.size_of_data, 3);
    assert_eq!(s.size_of_entries, u64::MAX);

    let s = compute_stats(&Vec::new());
    assert_eq!(s.number_of_entries, 0);
    assert_eq!(s.size_of_entries, 0);
}

#[test]
fn shortcut_normalization() {
    let da = Command::Da(payload()).normalize();
    assert_eq!(da, Command::Documents(DocumentsCommand::Add(payload())));

    let dd = Command::Dd { ids: Some(vec!["1".to_string()]), filter: None }.normalize();
    assert_eq!(
        dd,
        Command::Documents(DocumentsCommand::Delete {
            ids: Some(vec!["1".to_string()]),
            filter: None
        })
    );

    let tl = Command::Tl { params: empty_params(), id: Some(2) }.normalize();
    assert_eq!(
        tl,
        Command::Tasks(TasksCommand::List { params: empty_params(), id: Some(2) })
    );

    assert_eq!(Command::Health.normalize(), Command::Health);
    assert_eq!(Command::Dump.normalize(), Command::Dump);
}
