//! Wire shape of every tool's request (method, URL, query string, bearer
//! token, JSON body) and the mapping of worker failures to errors.

use ref_files_mcp_server_rs::tools::HttpMethod;
use ref_files_mcp_server_rs::types::{
    FileDeleteArgs, FileGetArgs, FileHistoryArgs, FileMoveArgs, FilePutArgs, FileSearchArgs,
    FolderCreateArgs, FolderListArgs, RepoInitArgs,
};
use ref_files_mcp_server_rs::worker_client::{
    check_response, error_for_status, reported_fields, worker_error, WorkerConfig, WorkerError,
    WorkerRequest, INTERNAL_ERROR, INVALID_PARAMS,
};

const BASE: &str = "http://127.0.0.1:4321";

fn config(url: &str) -> WorkerConfig {
    WorkerConfig {
        base_url: url.to_string(),
        jwt: "test-jwt".into(),
    }
}

fn json(text: &str) -> serde_json::Value {
    serde_json::from_str(text).expect("valid JSON")
}

fn pairs(q: &[(&str, &str)]) -> Vec<(String, String)> {
    q.iter().map(|(k, v)| (k.to_string(), v.to_string())).collect()
}

fn assert_wire(req: &WorkerRequest, method: HttpMethod, path: &str) {
    assert_eq!(req.method, method);
    assert_eq!(req.url, format!("{BASE}{path}"));
    assert_eq!(req.bearer, "test-jwt");
}

#[test]
fn repo_init_posts_to_v1_repos() {
    let req = config(BASE).repo_init_request(&RepoInitArgs { name: "nb".into() });
    assert_wire(&req, HttpMethod::Post, "/v1/repos");
    assert!(req.query.is_empty());
    assert_eq!(req.body.as_deref(), Some(r#"{"name":"nb"}"#));
    assert!(check_response(201, br#"{"id":"r1","owner_login":"alice","name":"nb","created_at":"2026-01-01T00:00:00Z","updated_at":"2026-01-01T00:00:00Z"}"#).is_ok());
}

#[test]
fn folder_create_posts_to_v1_folders() {
    let req = config(BASE).folder_create_request(&FolderCreateArgs {
        repo_id: "r1".into(),
        path: "a".into(),
    });
    assert_wire(&req, HttpMethod::Post, "/v1/folders");
    assert!(req.query.is_empty());
    assert_eq!(req.body.as_deref(), Some(r#"{"repo_id":"r1","path":"a"}"#));
    assert!(check_response(201, br#"{"id":"f1","repo_id":"r1","parent_id":null,"name":"a","path":"a","created_at":"2026-01-01T00:00:00Z"}"#).is_ok());
}

#[test]
fn folder_list_passes_query_params() {
    let req = config(BASE).folder_list_request(&FolderListArgs {
        repo_id: "r1".into(),
        path: "docs".into(),
        recursive: true,
    });
    assert_wire(&req, HttpMethod::Get, "/v1/folders");
    assert_eq!(req.query, pairs(&[("repo_id", "r1"), ("path", "docs"), ("recursive", "true")]));
    assert!(req.body.is_none());
    assert!(check_response(200, br#"{"folders":[],"files":[]}"#).is_ok());
}

#[test]
fn folder_list_omits_path_when_empty() {
    let req = config(BASE).folder_list_request(&FolderListArgs {
        repo_id: "r1".into(),
        path: "".into(),
        recursive: false,
    });
    assert_wire(&req, HttpMethod::Get, "/v1/folders");
    assert_eq!(req.query, pairs(&[("repo_id", "r1")]));
    assert!(req.body.is_none());
}

#[test]
fn file_put_returns_revision() {
    let req = config(BASE).file_put_request(&FilePutArgs {
        repo_id: "r1".into(),
        path: "a.txt".into(),
        content_base64: "aGk=".into(),
        mime: None,
        message: None,
    });
    assert_wire(&req, HttpMethod::Post, "/v1/files");
    assert!(req.query.is_empty());
    assert_eq!(
        req.body.as_deref(),
        Some(r#"{"repo_id":"r1","path":"a.txt","content_base64":"aGk=","mime":null,"message":null}"#)
    );
    assert!(check_response(201, br#"{"file":{"id":"fi","repo_id":"r1","folder_id":null,"name":"a.txt","path":"a.txt","current_revision_id":"rv","current_revision_number":1,"size":2,"mime":null,"created_at":"2026-01-01T00:00:00Z","updated_at":"2026-01-01T00:00:00Z","deleted_at":null},"revision":{"id":"rv","file_id":"fi","rev_number":1,"blob_key":"files/r1/fi/1","size":2,"sha256":"deadbeef","mime":null,"author_login":"alice","message":null,"created_at":"2026-01-01T00:00:00Z"},"content_base64":""}"#).is_ok());
}

#[test]
fn file_put_sends_mime_and_message() {
    let req = config(BASE).file_put_request(&FilePutArgs {
        repo_id: "r1".into(),
        path: "n/m.md".into(),
        content_base64: "".into(),
        mime: Some("text/markdown".into()),
        message: Some("first \"draft\"".into()),
    });
    assert_eq!(
        req.body.as_deref().unwrap(),
        r#"{"repo_id":"r1","path":"n/m.md","content_base64":"","mime":"text/markdown","message":"first \"draft\""}"#
    );
}

#[test]
fn file_get_includes_revision_when_specified() {
    let req = config(BASE).file_get_request(&FileGetArgs {
        repo_id: "r1".into(),
        path: "a.txt".into(),
        revision: Some(2),
    });
    assert_wire(&req, HttpMethod::Get, "/v1/files");
    assert_eq!(req.query, pairs(&[("repo_id", "r1"), ("path", "a.txt"), ("revision", "2")]));
    assert!(req.body.is_none());
}

#[test]
fn file_get_omits_revision_when_latest() {
    let req = config(BASE).file_get_request(&FileGetArgs {
        repo_id: "r1".into(),
        path: "a.txt".into(),
        revision: None,
    });
    assert_eq!(req.query, pairs(&[("repo_id", "r1"), ("path", "a.txt")]));
}

#[test]
fn file_history_passes_limit() {
    let req = config(BASE).file_history_request(&FileHistoryArgs {
        repo_id: "r1".into(),
        path: "a.txt".into(),
        limit: Some(5),
    });
    assert_wire(&req, HttpMethod::Get, "/v1/files/history");
    assert_eq!(req.query, pairs(&[("repo_id", "r1"), ("path", "a.txt"), ("limit", "5")]));
    assert!(req.body.is_none());
    assert!(check_response(200, br#"{"revisions":[]}"#).is_ok());
}

#[test]
fn file_move_posts_to_move_endpoint() {
    let req = config(BASE).file_move_request(&FileMoveArgs {
        repo_id: "r1".into(),
        from_path: "a.txt".into(),
        to_path: "b.txt".into(),
    });
    assert_wire(&req, HttpMethod::Post, "/v1/files/move");
    assert!(req.query.is_empty());
    assert_eq!(
        req.body.as_deref(),
        Some(r#"{"repo_id":"r1","from_path":"a.txt","to_path":"b.txt"}"#)
    );
    assert!(check_response(200, br#"{"id":"fi","repo_id":"r1","folder_id":null,"name":"b.txt","path":"b.txt","current_revision_id":"rv","current_revision_number":1,"size":2,"mime":null,"created_at":"2026-01-01T00:00:00Z","updated_at":"2026-01-02T00:00:00Z","deleted_at":null}"#).is_ok());
}

#[test]
fn file_delete_sends_delete_with_query() {
    let req = config(BASE).file_delete_request(&FileDeleteArgs {
        repo_id: "r1".into(),
        path: "a.txt".into(),
    });
    assert_wire(&req, HttpMethod::Delete, "/v1/files");
    assert_eq!(req.query, pairs(&[("repo_id", "r1"), ("path", "a.txt")]));
    assert!(req.body.is_none());
}

#[test]
fn file_search_passes_all_optional_params() {
    let req = config(BASE).file_search_request(&FileSearchArgs {
        repo_id: "r1".into(),
        query: "readme".into(),
        under_path: Some("docs".into()),
        include_deleted: true,
        limit: Some(10),
    });
    assert_wire(&req, HttpMethod::Get, "/v1/files/search");
    assert_eq!(
        req.query,
        pairs(&[
            ("repo_id", "r1"),
            ("query", "readme"),
            ("under_path", "docs"),
            ("include_deleted", "true"),
            ("limit", "10"),
        ])
    );
    assert!(req.body.is_none());
    assert!(check_response(200, br#"{"files":[]}"#).is_ok());
}

#[test]
fn file_search_omits_defaults() {
    let req = config(BASE).file_search_request(&FileSearchArgs {
        repo_id: "r1".into(),
        query: "x".into(),
        under_path: None,
        include_deleted: false,
        limit: None,
    });
    assert_eq!(req.query, pairs(&[("repo_id", "r1"), ("query", "x")]));
}

#[test]
fn worker_4xx_maps_to_invalid_params_with_reason() {
    let err = check_response(404, br#"{"error":"not_found","reason":"file"}"#)
        .expect_err("should fail");
    assert_eq!(err.code, INVALID_PARAMS);
    let msg = err.message.to_string();
    assert!(msg.contains("not_found"), "msg = {msg}");
    assert!(msg.contains("\"reason\":\"file\""), "msg = {msg}");
    assert_eq!(msg, r#"{"error":"not_found","reason":"file","status":404}"#);
}

#[test]
fn worker_5xx_maps_to_internal_error() {
    let err = check_response(500, br#"{"error":"internal_error"}"#).expect_err("should fail");
    assert!(err.message.contains("internal_error"));
    assert_eq!(err.code, INTERNAL_ERROR);
    assert_eq!(err.message, r#"{"error":"internal_error","status":500}"#);
}

#[test]
fn unparsable_failure_body_is_worker_error() {
    let err = worker_error(502, b"<html>bad gateway</html>");
    assert_eq!(err.code, INTERNAL_ERROR);
    assert_eq!(err.message, r#"{"error":"worker_error","status":502}"#);
}

#[test]
fn non_string_error_field_is_worker_error() {
    let err = worker_error(409, br#"{"error":7,"reason":["x"]}"#);
    assert_eq!(err.code, INVALID_PARAMS);
    assert_eq!(err.message, r#"{"error":"worker_error","status":409}"#);
    let err = worker_error(400, br#""conflict""#);
    assert_eq!(err.message, r#"{"error":"worker_error","status":400}"#);
}

#[test]
fn status_classes() {
    for s in [200u16, 201, 204, 299] {
        assert!(check_response(s, b"").is_ok(), "{s}");
    }
    for s in [199u16, 300, 301, 399, 500, 503, 600, 999] {
        assert_eq!(check_response(s, b"").unwrap_err().code, INTERNAL_ERROR, "{s}");
    }
    for s in [400u16, 401, 403, 404, 409, 499] {
        assert_eq!(check_response(s, b"").unwrap_err().code, INVALID_PARAMS, "{s}");
    }
}

#[test]
fn reported_fields_of_parsed_values() {
    let (e, r) = reported_fields(&Some(json(r#"{"error":"forbidden","reason":"owner"}"#)));
    assert_eq!(e, "forbidden");
    assert_eq!(r.as_deref(), Some("owner"));
    let (e, r) = reported_fields(&Some(json(r#"[1,2]"#)));
    assert_eq!(e, "worker_error");
    assert_eq!(r, None);
    let (e, r) = reported_fields(&None);
    assert_eq!(e, "worker_error");
    assert_eq!(r, None);
}

#[test]
fn error_message_omits_absent_reason() {
    let err = error_for_status(503, "unavailable".into(), None);
    assert_eq!(err.message, r#"{"error":"unavailable","status":503}"#);
    let parsed = json(&err.message);
    assert!(parsed.get("reason").is_none());
    assert!(parsed.get("status").is_some());
}

#[test]
fn error_message_escapes_strings() {
    let err = error_for_status(418, "a\"b".into(), Some("line\nbreak".into()));
    assert_eq!(err.code, INVALID_PARAMS);
    assert_eq!(err.message, r#"{"error":"a\"b","reason":"line\nbreak","status":418}"#);
}

#[test]
fn transport_and_parse_errors() {
    let e = WorkerError::internal("connection refused".into());
    assert_eq!(e.code, INTERNAL_ERROR);
    assert_eq!(e.message, "connection refused");
    let e = WorkerError::response_parse("expected value at line 1 column 1");
    assert_eq!(e.code, INTERNAL_ERROR);
    assert_eq!(e.message, "worker_response_parse: expected value at line 1 column 1");
}

#[test]
fn trailing_slashes_on_base_url_are_ignored() {
    for base in ["http://w", "http://w/", "http://w///"] {
        let cfg = config(base);
        assert_eq!(cfg.endpoint_url("/v1/repos"), "http://w/v1/repos");
        let req = cfg.repo_init_request(&RepoInitArgs { name: "x".into() });
        assert_eq!(req.url, "http://w/v1/repos");
    }
    assert_eq!(config("").endpoint_url("/v1/files"), "/v1/files");
    assert_eq!(config("///").endpoint_url("/v1/files"), "/v1/files");
}
