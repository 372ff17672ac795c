//! The tool table: names, endpoints, and the instructions text.

use ref_files_mcp_server_rs::tools::{server_instructions, tool_names, HttpMethod, Tool};

#[test]
fn tool_table_lists_all_nine_tools() {
    let mut names: Vec<String> = tool_names().into_iter().map(|t| t.to_string()).collect();
    names.sort();
    assert_eq!(
        names,
        vec![
            "file_delete",
            "file_get",
            "file_history",
            "file_move",
            "file_put",
            "file_search",
            "folder_create",
            "folder_list",
            "repo_init",
        ]
    );
}

#[test]
fn server_handler_get_info_smoke() {
    let prose = server_instructions();
    assert!(prose.contains("ref-files-worker"));
    assert!(prose.contains("repo_init"));
}

#[test]
fn instructions_mention_every_tool() {
    let prose = server_instructions();
    for name in tool_names() {
        assert!(prose.contains(name), "missing {name}");
    }
}

#[test]
fn tool_endpoint_table() {
    let expected = [
        (Tool::RepoInit, "repo_init", HttpMethod::Post, "/v1/repos"),
        (Tool::FolderCreate, "folder_create", HttpMethod::Post, "/v1/folders"),
        (Tool::FolderList, "folder_list", HttpMethod::Get, "/v1/folders"),
        (Tool::FilePut, "file_put", HttpMethod::Post, "/v1/files"),
        (Tool::FileGet, "file_get", HttpMethod::Get, "/v1/files"),
        (Tool::FileHistory, "file_history", HttpMethod::Get, "/v1/files/history"),
        (Tool::FileMove, "file_move", HttpMethod::Post, "/v1/files/move"),
        (Tool::FileDelete, "file_delete", HttpMethod::Delete, "/v1/files"),
        (Tool::FileSearch, "file_search", HttpMethod::Get, "/v1/files/search"),
    ];
    assert_eq!(Tool::all().len(), expected.len());
    for (tool, (t, name, method, path)) in Tool::all().into_iter().zip(expected) {
        assert_eq!(tool, t);
        assert_eq!(tool.name(), name);
        assert_eq!(tool.method(), method);
        assert_eq!(tool.path(), path);
    }
}

#[test]
fn tool_names_are_distinct() {
    let mut names = tool_names();
    names.sort();
    names.dedup();
    assert_eq!(names.len(), 9);
}
