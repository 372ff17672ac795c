//! The nine MCP tools, the worker endpoint each one calls, and the text the
//! server advertises to MCP clients.
use vstd::prelude::*;

verus! {

/// HTTP methods the worker API uses.
#[derive(Debug, Clone, Copy, PartialEq, Eq, Structural)]
pub enum HttpMethod {
    Get,
    Post,
    Delete,
}

/// One MCP tool of the server.
#[derive(Debug, Clone, Copy, PartialEq, Eq, Structural)]
pub enum Tool {
    RepoInit,
    FolderCreate,
    FolderList,
    FilePut,
    FileGet,
    FileHistory,
    FileMove,
    FileDelete,
    FileSearch,
}

impl Tool {
    /// The tool's MCP name.
    pub open spec fn spec_name(self) -> Seq<char> {
        match self {
            Tool::RepoInit => "repo_init"@,
            Tool::FolderCreate => "folder_create"@,
            Tool::FolderList => "folder_list"@,
            Tool::FilePut => "file_put"@,
            Tool::FileGet => "file_get"@,
            Tool::FileHistory => "file_history"@,
            Tool::FileMove => "file_move"@,
            Tool::FileDelete => "file_delete"@,
            Tool::FileSearch => "file_search"@,
        }
    }

    /// The HTTP method of the worker endpoint behind the tool.
    pub open spec fn spec_method(self) -> HttpMethod {
        match self {
            Tool::RepoInit | Tool::FolderCreate | Tool::FilePut | Tool::FileMove => HttpMethod::Post,
            Tool::FolderList | Tool::FileGet | Tool::FileHistory | Tool::FileSearch => HttpMethod::Get,
            Tool::FileDelete => HttpMethod::Delete,
        }
    }

    /// The path of the worker endpoint behind the tool.
    pub open spec fn spec_path(self) -> Seq<char> {
        match self {
            Tool::RepoInit => "/v1/repos"@,
            Tool::FolderCreate | Tool::FolderList => "/v1/folders"@,
            Tool::FilePut | Tool::FileGet | Tool::FileDelete => "/v1/files"@,
            Tool::FileHistory => "/v1/files/history"@,
            Tool::FileMove => "/v1/files/move"@,
            Tool::FileSearch => "/v1/files/search"@,
        }
    }

    pub fn name(&self) -> (r: &'static str)
        ensures
            r@ == self.spec_name(),
    {
        match self {
            Tool::RepoInit => "repo_init",
            Tool::FolderCreate => "folder_create",
            Tool::FolderList => "folder_list",
            Tool::FilePut => "file_put",
            Tool::FileGet => "file_get",
            Tool::FileHistory => "file_history",
            Tool::FileMove => "file_move",
            Tool::FileDelete => "file_delete",
            Tool::FileSearch => "file_search",
        }
    }

    pub fn method(&self) -> (r: HttpMethod)
        ensures
            r == self.spec_method(),
    {
        match self {
            Tool::RepoInit | Tool::FolderCreate | Tool::FilePut | Tool::FileMove => HttpMethod::Post,
            Tool::FolderList | Tool::FileGet | Tool::FileHistory | Tool::FileSearch => HttpMethod::Get,
            Tool::FileDelete => HttpMethod::Delete,
        }
    }

    pub fn path(&self) -> (r: &'static str)
        ensures
            r@ == self.spec_path(),
    {
        match self {
            Tool::RepoInit => "/v1/repos",
            Tool::FolderCreate | Tool::FolderList => "/v1/folders",
            Tool::FilePut | Tool::FileGet | Tool::FileDelete => "/v1/files",
            Tool::FileHistory => "/v1/files/history",
            Tool::FileMove => "/v1/files/move",
            Tool::FileSearch => "/v1/files/search",
        }
    }

    /// Every tool, in the order the server composes its routers.
    pub open spec fn spec_all() -> Seq<Tool> {
        seq![
            Tool::RepoInit,
            Tool::FolderCreate,
            Tool::FolderList,
            Tool::FilePut,
            Tool::FileGet,
            Tool::FileHistory,
            Tool::FileMove,
            Tool::FileDelete,
            Tool::FileSearch,
        ]
    }

    pub fn all() -> (r: Vec<Tool>)
        ensures
            r@ == Tool::spec_all(),
    {
        let r = vec![
            Tool::RepoInit,
            Tool::FolderCreate,
            Tool::FolderList,
            Tool::FilePut,
            Tool::FileGet,
            Tool::FileHistory,
            Tool::FileMove,
            Tool::FileDelete,
            Tool::FileSearch,
        ];
        assert(r@ =~= Tool::spec_all());
        r
    }
}

/// The names of all tools the server exposes, in router order.
pub fn tool_names() -> (r: Vec<&'static str>)
    ensures
        r@.len() == Tool::spec_all().len(),
        forall|i: int| 0 <= i < r@.len() ==> #[trigger] r@[i]@ == Tool::spec_all()[i].spec_name(),
{
    let tools = Tool::all();
    let mut names: Vec<&'static str> = Vec::new();
    for i in 0..tools.len()
        invariant
            tools@ == Tool::spec_all(),
            names@.len() == i,
            forall|j: int| 0 <= j < i ==> #[trigger] names@[j]@ == Tool::spec_all()[j].spec_name(),
    {
        names.push(tools[i].name());
    }
    names
}

/// The instructions text the server advertises to MCP clients.
pub open spec fn spec_instructions() -> Seq<char> {
    "Reference file storage MCP server. Persistence lives in ref-files-worker (Cloudflare Worker, D1 + R2). Tools: repo_init, folder_create, folder_list, file_put, file_get, file_history, file_move, file_delete, file_search. All paths are POSIX-style with no leading slash; `\"\"` denotes repo root. Binary content is base64-encoded in file_put / file_get."@
}

pub fn server_instructions() -> (r: String)
    ensures
        r@ == spec_instructions(),
{
    "Reference file storage MCP server. Persistence lives in ref-files-worker (Cloudflare Worker, D1 + R2). Tools: repo_init, folder_create, folder_list, file_put, file_get, file_history, file_move, file_delete, file_search. All paths are POSIX-style with no leading slash; `\"\"` denotes repo root. Binary content is base64-encoded in file_put / file_get.".to_owned()
}

/// No two tools share a name, so the server exposes nine distinct tools.
pub proof fn lemma_tool_names_distinct(a: Tool, b: Tool)
    ensures
        a.spec_name() == b.spec_name() <==> a == b,
{
    lemma_name_signature(a);
    lemma_name_signature(b);
    if a.spec_name() == b.spec_name() {
        assert(name_signature(a) == name_signature(b));
    }
}

/// Length, first character and sixth character of each tool name; they
/// already tell the names apart.
spec fn name_signature(t: Tool) -> (nat, char, char) {
    match t {
        Tool::RepoInit => (9, 'r', 'i'),
        Tool::FolderCreate => (13, 'f', 'r'),
        Tool::FolderList => (11, 'f', 'r'),
        Tool::FilePut => (8, 'f', 'p'),
        Tool::FileGet => (8, 'f', 'g'),
        Tool::FileHistory => (12, 'f', 'h'),
        Tool::FileMove => (9, 'f', 'm'),
        Tool::FileDelete => (11, 'f', 'd'),
        Tool::FileSearch => (11, 'f', 's'),
    }
}

proof fn lemma_name_signature(t: Tool)
    ensures
        t.spec_name().len() == name_signature(t).0,
        t.spec_name()[0] == name_signature(t).1,
        t.spec_name()[5] == name_signature(t).2,
{
    reveal_strlit("repo_init");
    reveal_strlit("folder_create");
    reveal_strlit("folder_list");
    reveal_strlit("file_put");
    reveal_strlit("file_get");
    reveal_strlit("file_history");
    reveal_strlit("file_move");
    reveal_strlit("file_delete");
    reveal_strlit("file_search");
}

} // verus!
