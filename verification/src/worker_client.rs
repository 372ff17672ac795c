//! How each tool call becomes one HTTP request to ref-files-worker, and how
//! the worker's reply becomes a result or a structured error.
//!
//! The request itself is sent by the caller; this module decides its method,
//! URL, `Authorization: Bearer` token, query string and JSON body, and reads
//! the status and bytes that come back.
use vstd::prelude::*;

use crate::json::{
    distinct_keys, entries_view, json_as_str, json_from_u16, json_get, json_null, json_object, json_string,
    json_text, json_to_string, join_members, member_text, object_text, json_parse_bytes, json_view, opt_str_view, opt_string_view,
    pairs_to_map, parse_json, str_field, JsonView,
};
use crate::text::{decimal, decimal_string, trim_trailing_slashes};
use crate::tools::{HttpMethod, Tool};
use crate::types::{
    FileDeleteArgs, FileGetArgs, FileHistoryArgs, FileMoveArgs, FilePutArgs, FileSearchArgs,
    FolderCreateArgs, FolderListArgs, RepoInitArgs,
};

verus! {

/// JSON-RPC error code for a request the caller can fix (worker 4xx).
pub const INVALID_PARAMS: i32 = -32602i32;

/// JSON-RPC error code for every other failure.
pub const INTERNAL_ERROR: i32 = -32603i32;

/// Configuration fixed at startup.
#[derive(Debug, Clone)]
pub struct WorkerConfig {
    /// Base URL of ref-files-worker; trailing slashes are ignored.
    pub base_url: String,
    /// Token forwarded as `Authorization: Bearer <jwt>`.
    pub jwt: String,
}

/// A request to the worker, ready to be sent.
pub struct WorkerRequest {
    pub method: HttpMethod,
    pub url: String,
    /// Sent as `Authorization: Bearer <bearer>`.
    pub bearer: String,
    /// Query-string pairs, in order.
    pub query: Vec<(String, String)>,
    /// JSON text sent as the body with `Content-Type: application/json`.
    pub body: Option<String>,
}

/// The mathematical content of a `WorkerRequest`.
pub struct RequestView {
    pub method: HttpMethod,
    pub url: Seq<char>,
    pub bearer: Seq<char>,
    pub query: Seq<(Seq<char>, Seq<char>)>,
    pub body: Option<Seq<char>>,
}

/// The view of query-string pairs.
pub open spec fn pairs_view(q: Seq<(String, String)>) -> Seq<(Seq<char>, Seq<char>)> {
    q.map_values(|p: (String, String)| (p.0@, p.1@))
}

impl View for WorkerRequest {
    type V = RequestView;

    open spec fn view(&self) -> RequestView {
        RequestView {
            method: self.method,
            url: self.url@,
            bearer: self.bearer@,
            query: pairs_view(self.query@),
            body: opt_string_view(self.body),
        }
    }
}

/// A failure to hand back to the MCP caller: a JSON-RPC error code and a
/// message.
#[derive(Debug, Clone)]
pub struct WorkerError {
    pub code: i32,
    pub message: String,
}

impl WorkerConfig {
    /// The URL of an endpoint: the base URL without trailing slashes, then `path`.
    pub open spec fn spec_url(self, path: Seq<char>) -> Seq<char> {
        trim_trailing_slashes(self.base_url@) + path
    }

    /// The request that calls `tool` with this query string and body.
    pub open spec fn spec_request(
        self,
        tool: Tool,
        query: Seq<(Seq<char>, Seq<char>)>,
        body: Option<Seq<char>>,
    ) -> RequestView {
        RequestView {
            method: tool.spec_method(),
            url: self.spec_url(tool.spec_path()),
            bearer: self.jwt@,
            query: query,
            body: body,
        }
    }

    pub fn endpoint_url(&self, path: &str) -> (r: String)
        ensures
            r@ == self.spec_url(path@),
    {
        let base = self.base_url.as_str();
        let mut end = base.unicode_len();
        proof {
            assert(base@.subrange(0, end as int) =~= base@);
        }
        while end > 0 && base.get_char(end - 1) == '/'
            invariant
                end <= base@.len(),
                trim_trailing_slashes(base@) == trim_trailing_slashes(base@.subrange(0, end as int)),
            decreases end,
        {
            assert(base@.subrange(0, end as int).drop_last() =~= base@.subrange(0, end - 1));
            end = end - 1;
        }
        let trimmed = base.substring_char(0, end);
        String::from_str(trimmed).concat(path)
    }

    fn assemble(&self, tool: Tool, query: Vec<(String, String)>, body: Option<String>) -> (r:
        WorkerRequest)
        ensures
            r@ == self.spec_request(tool, pairs_view(query@), opt_string_view(body)),
    {
        let url = self.endpoint_url(tool.path());
        WorkerRequest {
            method: tool.method(),
            url,
            bearer: self.jwt.clone(),
            query,
            body,
        }
    }

    /// `repo_init`: `POST /v1/repos` with the arguments as the body.
    pub fn repo_init_request(&self, args: &RepoInitArgs) -> (r: WorkerRequest)
        ensures
            r@ == self.spec_request(Tool::RepoInit, Seq::empty(), Some(args.wire_body())),
            r@.method == HttpMethod::Post,
            r@.url == self.spec_url("/v1/repos"@),
            r@.bearer == self.jwt@,
            r@.body is Some <==> r@.method == HttpMethod::Post,
    {
        let body = repo_init_body(args);
        let r = self.assemble(Tool::RepoInit, Vec::new(), Some(body));
        assert(r@.query =~= Seq::<(Seq<char>, Seq<char>)>::empty());
        r
    }

    /// `folder_create`: `POST /v1/folders` with the arguments as the body.
    pub fn folder_create_request(&self, args: &FolderCreateArgs) -> (r: WorkerRequest)
        ensures
            r@ == self.spec_request(
                Tool::FolderCreate,
                Seq::empty(),
                Some(args.wire_body()),
            ),
            r@.method == HttpMethod::Post,
            r@.url == self.spec_url("/v1/folders"@),
            r@.bearer == self.jwt@,
            r@.body is Some <==> r@.method == HttpMethod::Post,
    {
        let body = folder_create_body(args);
        let r = self.assemble(Tool::FolderCreate, Vec::new(), Some(body));
        assert(r@.query =~= Seq::<(Seq<char>, Seq<char>)>::empty());
        r
    }

    /// `folder_list`: `GET /v1/folders` with the arguments in the query string.
    pub fn folder_list_request(&self, args: &FolderListArgs) -> (r: WorkerRequest)
        ensures
            r@ == self.spec_request(Tool::FolderList, args.wire_query(), None),
            r@.method == HttpMethod::Get,
            r@.url == self.spec_url("/v1/folders"@),
            r@.bearer == self.jwt@,
            r@.body is Some <==> r@.method == HttpMethod::Post,
    {
        let q = folder_list_query(args);
        self.assemble(Tool::FolderList, q, None)
    }

    /// `file_put`: `POST /v1/files` with the arguments as the body.
    pub fn file_put_request(&self, args: &FilePutArgs) -> (r: WorkerRequest)
        ensures
            r@ == self.spec_request(Tool::FilePut, Seq::empty(), Some(args.wire_body())),
            r@.method == HttpMethod::Post,
            r@.url == self.spec_url("/v1/files"@),
            r@.bearer == self.jwt@,
            r@.body is Some <==> r@.method == HttpMethod::Post,
    {
        let body = file_put_body(args);
        let r = self.assemble(Tool::FilePut, Vec::new(), Some(body));
        assert(r@.query =~= Seq::<(Seq<char>, Seq<char>)>::empty());
        r
    }

    /// `file_get`: `GET /v1/files` with the arguments in the query string.
    pub fn file_get_request(&self, args: &FileGetArgs) -> (r: WorkerRequest)
        ensures
            r@ == self.spec_request(Tool::FileGet, args.wire_query(), None),
            r@.method == HttpMethod::Get,
            r@.url == self.spec_url("/v1/files"@),
            r@.bearer == self.jwt@,
            r@.body is Some <==> r@.method == HttpMethod::Post,
    {
        let q = file_get_query(args);
        self.assemble(Tool::FileGet, q, None)
    }

    /// `file_history`: `GET /v1/files/history` with the arguments in the query string.
    pub fn file_history_request(&self, args: &FileHistoryArgs) -> (r: WorkerRequest)
        ensures
            r@ == self.spec_request(Tool::FileHistory, args.wire_query(), None),
            r@.method == HttpMethod::Get,
            r@.url == self.spec_url("/v1/files/history"@),
            r@.bearer == self.jwt@,
            r@.body is Some <==> r@.method == HttpMethod::Post,
    {
        let q = file_history_query(args);
        self.assemble(Tool::FileHistory, q, None)
    }

    /// `file_move`: `POST /v1/files/move` with the arguments as the body.
    pub fn file_move_request(&self, args: &FileMoveArgs) -> (r: WorkerRequest)
        ensures
            r@ == self.spec_request(Tool::FileMove, Seq::empty(), Some(args.wire_body())),
            r@.method == HttpMethod::Post,
            r@.url == self.spec_url("/v1/files/move"@),
            r@.bearer == self.jwt@,
            r@.body is Some <==> r@.method == HttpMethod::Post,
    {
        let body = file_move_body(args);
        let r = self.assemble(Tool::FileMove, Vec::new(), Some(body));
        assert(r@.query =~= Seq::<(Seq<char>, Seq<char>)>::empty());
        r
    }

    /// `file_delete`: `DELETE /v1/files` with the arguments in the query string.
    pub fn file_delete_request(&self, args: &FileDeleteArgs) -> (r: WorkerRequest)
        ensures
            r@ == self.spec_request(Tool::FileDelete, args.wire_query(), None),
            r@.method == HttpMethod::Delete,
            r@.url == self.spec_url("/v1/files"@),
            r@.bearer == self.jwt@,
            r@.body is Some <==> r@.method == HttpMethod::Post,
    {
        let q = file_delete_query(args);
        self.assemble(Tool::FileDelete, q, None)
    }

    /// `file_search`: `GET /v1/files/search` with the arguments in the query string.
    pub fn file_search_request(&self, args: &FileSearchArgs) -> (r: WorkerRequest)
        ensures
            r@ == self.spec_request(Tool::FileSearch, args.wire_query(), None),
            r@.method == HttpMethod::Get,
            r@.url == self.spec_url("/v1/files/search"@),
            r@.bearer == self.jwt@,
            r@.body is Some <==> r@.method == HttpMethod::Post,
    {
        let q = file_search_query(args);
        self.assemble(Tool::FileSearch, q, None)
    }
}

fn entry(key: &str, value: serde_json::Value) -> (r: (String, serde_json::Value))
    ensures
        r.0@ == key@,
        r.1 == value,
{
    (key.to_owned(), value)
}

fn opt_json(o: &Option<String>) -> (r: serde_json::Value)
    ensures
        json_view(r) == opt_str_view(opt_string_view(*o)),
{
    match o {
        Some(s) => json_string(s.clone()),
        None => json_null(),
    }
}

fn text_pair(key: &str, value: &String) -> (r: (String, String))
    ensures
        r.0@ == key@,
        r.1@ == value@,
{
    (key.to_owned(), value.clone())
}

/// The text of all members, in order.
pub open spec fn strings_view(v: Seq<String>) -> Seq<Seq<char>> {
    v.map_values(|m: String| m@)
}

fn member(key: &str, value: &serde_json::Value) -> (r: String)
    ensures
        r@ == member_text(key@, json_view(*value)),
{
    let text = json_to_string(value);
    proof {
        reveal_strlit("\"");
        reveal_strlit("\":");
    }
    let r = String::from_str("\"").concat(key).concat("\":").concat(text.as_str());
    assert(r@ =~= member_text(key@, json_view(*value)));
    r
}

fn object_of(members: &Vec<String>) -> (r: String)
    ensures
        r@ == object_text(strings_view(members@)),
{
    proof {
        reveal_strlit("{");
        reveal_strlit(",");
        reveal_strlit("}");
    }
    let ghost ms = strings_view(members@);
    let mut out = String::from_str("{");
    assert(ms.take(0) =~= Seq::<Seq<char>>::empty());
    for i in 0..members.len()
        invariant
            ms == strings_view(members@),
            out@ == seq!['{'] + join_members(ms.take(i as int)),
    {
        proof {
            reveal_strlit(",");
        }
        assert(ms.take(i + 1).drop_last() =~= ms.take(i as int));
        assert(ms.take(i + 1).last() == members@[i as int]@);
        if i > 0 {
            out.append(",");
        } else {
            assert(ms.take(1) =~= seq![ms[0]]);
        }
        out.append(members[i].as_str());
        if i > 0 {
            assert(join_members(ms.take(i + 1)) == join_members(ms.take(i as int)) + seq![','] + ms.take(i + 1).last());
        }
        assert(out@ =~= seq!['{'] + join_members(ms.take(i + 1)));
    }
    assert(ms.take(members.len() as int) =~= ms);
    out.append("}");
    assert(out@ =~= object_text(ms));
    out
}

fn repo_init_body(args: &RepoInitArgs) -> (r: String)
    ensures
        r@ == args.wire_body(),
{
    let mut members: Vec<String> = Vec::new();
    members.push(member("name", &json_string(args.name.clone())));
    assert(strings_view(members@) =~= seq![member_text("name"@, JsonView::Str(args.name@))]);
    object_of(&members)
}

fn folder_create_body(args: &FolderCreateArgs) -> (r: String)
    ensures
        r@ == args.wire_body(),
{
    let mut members: Vec<String> = Vec::new();
    members.push(member("repo_id", &json_string(args.repo_id.clone())));
    members.push(member("path", &json_string(args.path.clone())));
    assert(strings_view(members@) =~= seq![
        member_text("repo_id"@, JsonView::Str(args.repo_id@)),
        member_text("path"@, JsonView::Str(args.path@)),
    ]);
    object_of(&members)
}

fn file_put_body(args: &FilePutArgs) -> (r: String)
    ensures
        r@ == args.wire_body(),
{
    let mut members: Vec<String> = Vec::new();
    members.push(member("repo_id", &json_string(args.repo_id.clone())));
    members.push(member("path", &json_string(args.path.clone())));
    members.push(member("content_base64", &json_string(args.content_base64.clone())));
    members.push(member("mime", &opt_json(&args.mime)));
    members.push(member("message", &opt_json(&args.message)));
    assert(strings_view(members@) =~= seq![
        member_text("repo_id"@, JsonView::Str(args.repo_id@)),
        member_text("path"@, JsonView::Str(args.path@)),
        member_text("content_base64"@, JsonView::Str(args.content_base64@)),
        member_text("mime"@, opt_str_view(opt_string_view(args.mime))),
        member_text("message"@, opt_str_view(opt_string_view(args.message))),
    ]);
    object_of(&members)
}

fn file_move_body(args: &FileMoveArgs) -> (r: String)
    ensures
        r@ == args.wire_body(),
{
    let mut members: Vec<String> = Vec::new();
    members.push(member("repo_id", &json_string(args.repo_id.clone())));
    members.push(member("from_path", &json_string(args.from_path.clone())));
    members.push(member("to_path", &json_string(args.to_path.clone())));
    assert(strings_view(members@) =~= seq![
        member_text("repo_id"@, JsonView::Str(args.repo_id@)),
        member_text("from_path"@, JsonView::Str(args.from_path@)),
        member_text("to_path"@, JsonView::Str(args.to_path@)),
    ]);
    object_of(&members)
}

fn folder_list_query(args: &FolderListArgs) -> (q: Vec<(String, String)>)
    ensures
        pairs_view(q@) == args.wire_query(),
{
    let mut q: Vec<(String, String)> = Vec::new();
    q.push(text_pair("repo_id", &args.repo_id));
    let ghost q1 = pairs_view(q@);
    assert(q1 =~= seq![("repo_id"@, args.repo_id@)]);
    if !args.path.as_str().is_empty() {
        q.push(text_pair("path", &args.path));
    }
    let ghost q2 = pairs_view(q@);
    assert(q2 =~= q1 + (if args.path@.len() > 0 {
        seq![("path"@, args.path@)]
    } else {
        Seq::empty()
    }));
    if args.recursive {
        q.push(text_pair("recursive", &"true".to_owned()));
    }
    assert(pairs_view(q@) =~= q2 + (if args.recursive {
        seq![("recursive"@, "true"@)]
    } else {
        Seq::empty()
    }));
    q
}

fn push_opt_number(q: &mut Vec<(String, String)>, key: &str, n: Option<u32>)
    ensures
        pairs_view(final(q)@) == pairs_view(old(q)@) + crate::types::file::opt_number_pair(key@, n),
{
    let ghost before = pairs_view(q@);
    match n {
        Some(v) => {
            q.push((key.to_owned(), decimal_string(v)));
        },
        None => {},
    }
    assert(pairs_view(q@) =~= before + crate::types::file::opt_number_pair(key@, n));
}

fn file_get_query(args: &FileGetArgs) -> (q: Vec<(String, String)>)
    ensures
        pairs_view(q@) == args.wire_query(),
{
    let mut q: Vec<(String, String)> = Vec::new();
    q.push(text_pair("repo_id", &args.repo_id));
    q.push(text_pair("path", &args.path));
    assert(pairs_view(q@) =~= seq![("repo_id"@, args.repo_id@), ("path"@, args.path@)]);
    push_opt_number(&mut q, "revision", args.revision);
    q
}

fn file_history_query(args: &FileHistoryArgs) -> (q: Vec<(String, String)>)
    ensures
        pairs_view(q@) == args.wire_query(),
{
    let mut q: Vec<(String, String)> = Vec::new();
    q.push(text_pair("repo_id", &args.repo_id));
    q.push(text_pair("path", &args.path));
    assert(pairs_view(q@) =~= seq![("repo_id"@, args.repo_id@), ("path"@, args.path@)]);
    push_opt_number(&mut q, "limit", args.limit);
    q
}

fn file_delete_query(args: &FileDeleteArgs) -> (q: Vec<(String, String)>)
    ensures
        pairs_view(q@) == args.wire_query(),
{
    let mut q: Vec<(String, String)> = Vec::new();
    q.push(text_pair("repo_id", &args.repo_id));
    q.push(text_pair("path", &args.path));
    assert(pairs_view(q@) =~= seq![("repo_id"@, args.repo_id@), ("path"@, args.path@)]);
    q
}

fn file_search_query(args: &FileSearchArgs) -> (q: Vec<(String, String)>)
    ensures
        pairs_view(q@) == args.wire_query(),
{
    let mut q: Vec<(String, String)> = Vec::new();
    q.push(text_pair("repo_id", &args.repo_id));
    q.push(text_pair("query", &args.query));
    let ghost q1 = pairs_view(q@);
    assert(q1 =~= seq![("repo_id"@, args.repo_id@), ("query"@, args.query@)]);
    match &args.under_path {
        Some(p) => {
            q.push(text_pair("under_path", p));
        },
        None => {},
    }
    let ghost q2 = pairs_view(q@);
    assert(q2 =~= q1 + (match args.under_path {
        Some(p) => seq![("under_path"@, p@)],
        None => Seq::empty(),
    }));
    if args.include_deleted {
        q.push(text_pair("include_deleted", &"true".to_owned()));
    }
    let ghost q3 = pairs_view(q@);
    assert(q3 =~= q2 + (if args.include_deleted {
        seq![("include_deleted"@, "true"@)]
    } else {
        Seq::empty()
    }));
    push_opt_number(&mut q, "limit", args.limit);
    q
}

/// A 2xx status.
pub open spec fn is_success_status(status: u16) -> bool {
    200 <= status < 300
}

/// A 4xx status.
pub open spec fn is_client_error_status(status: u16) -> bool {
    400 <= status < 500
}

/// 4xx maps to `INVALID_PARAMS` (the caller can fix it); 5xx and anything
/// else to `INTERNAL_ERROR`.
pub open spec fn error_code_for(status: u16) -> i32 {
    if is_client_error_status(status) {
        INVALID_PARAMS
    } else {
        INTERNAL_ERROR
    }
}

/// The worker's `error` string from a failure body `{ error, reason? }`;
/// `"worker_error"` when the body is not JSON or has no string `error`.
pub open spec fn reported_error(body: Seq<u8>) -> Seq<char> {
    match json_parse_bytes(body) {
        Some(v) => match str_field(v, "error"@) {
            Some(e) => e,
            None => "worker_error"@,
        },
        None => "worker_error"@,
    }
}

/// The worker's `reason` string from a failure body, if it has one.
pub open spec fn reported_reason(body: Seq<u8>) -> Option<Seq<char>> {
    match json_parse_bytes(body) {
        Some(v) => str_field(v, "reason"@),
        None => None,
    }
}

/// The JSON object that the error message carries for this reply.
pub open spec fn error_body(status: u16, body: Seq<u8>) -> JsonView {
    error_object(status, reported_error(body), reported_reason(body))
}

impl WorkerError {
    /// A failure to reach the worker or to read its reply.
    pub fn internal(message: String) -> (e: WorkerError)
        ensures
            e.code == INTERNAL_ERROR,
            e.message@ == message@,
    {
        WorkerError { code: INTERNAL_ERROR, message }
    }

    /// A 2xx reply whose body is not the expected JSON.
    pub fn response_parse(detail: &str) -> (e: WorkerError)
        ensures
            e.code == INTERNAL_ERROR,
            e.message@ == "worker_response_parse: "@ + detail@,
    {
        WorkerError { code: INTERNAL_ERROR, message: "worker_response_parse: ".to_owned().concat(detail) }
    }
}

/// The `error` and `reason` strings of a failure body once `serde_json` has
/// parsed it (`None`: it did not parse): `"worker_error"` and no reason
/// where the body does not carry them as strings.
pub fn reported_fields(parsed: &Option<serde_json::Value>) -> (r: (String, Option<String>))
    ensures
        r.0@ == (match *parsed {
            Some(v) => match str_field(json_view(v), "error"@) {
                Some(e) => e,
                None => "worker_error"@,
            },
            None => "worker_error"@,
        }),
        opt_string_view(r.1) == (match *parsed {
            Some(v) => str_field(json_view(v), "reason"@),
            None => None,
        }),
{
    let mut error = "worker_error".to_owned();
    let mut reason: Option<String> = None;
    match parsed {
        Some(v) => {
            match json_get(v, "error") {
                Some(x) => match json_as_str(x) {
                    Some(s) => {
                        error = s.to_owned();
                    },
                    None => {},
                },
                None => {},
            }
            match json_get(v, "reason") {
                Some(x) => match json_as_str(x) {
                    Some(s) => {
                        reason = Some(s.to_owned());
                    },
                    None => {},
                },
                None => {},
            }
        },
        None => {},
    }
    (error, reason)
}

/// The JSON object that an error message carries:
/// `{ status, error, reason? }`, with `reason` only when there is one.
pub open spec fn error_object(status: u16, error: Seq<char>, reason: Option<Seq<char>>) -> JsonView {
    JsonView::Object(pairs_to_map(error_entries(status, error, reason)))
}

/// The entries of an error object, in the order the code adds them.
pub open spec fn error_entries(status: u16, error: Seq<char>, reason: Option<Seq<char>>) -> Seq<
    (Seq<char>, JsonView),
> {
    seq![("status"@, JsonView::Number(decimal(status as nat))), ("error"@, JsonView::Str(error))]
        + match reason {
        Some(r) => seq![("reason"@, JsonView::Str(r))],
        None => Seq::empty(),
    }
}

/// The error for a failed reply with this status, error string and reason.
pub fn error_for_status(status: u16, error: String, reason: Option<String>) -> (e: WorkerError)
    ensures
        e.code == error_code_for(status),
        e.message@ == json_text(error_object(status, error@, opt_string_view(reason))),
{
    let ghost err = error@;
    let ghost rs = opt_string_view(reason);
    let mut fields: Vec<(String, serde_json::Value)> = Vec::new();
    fields.push(entry("status", json_from_u16(status)));
    fields.push(entry("error", json_string(error)));
    match reason {
        Some(r) => {
            fields.push(entry("reason", json_string(r)));
        },
        None => {},
    }
    proof {
        reveal_strlit("status");
        reveal_strlit("error");
        reveal_strlit("reason");
    }
    assert(entries_view(fields@) =~= error_entries(status, err, rs));
    assert(distinct_keys(entries_view(fields@))) by {
        assert("status"@.len() == 6 && "status"@[0] == 's');
        assert("error"@.len() == 5);
        assert("reason"@.len() == 6 && "reason"@[0] == 'r');
    }
    let obj = json_object(fields);
    let code = if 400 <= status && status < 500 {
        INVALID_PARAMS
    } else {
        INTERNAL_ERROR
    };
    WorkerError { code, message: json_to_string(&obj) }
}

/// The error for a non-2xx reply with this status and body: the worker's
/// structured failure `{ error, reason? }` is kept so that callers can tell
/// (say) `not_found` from `conflict` without parsing prose.
pub fn worker_error(status: u16, body: &[u8]) -> (e: WorkerError)
    ensures
        e.code == error_code_for(status),
        e.message@ == json_text(error_body(status, body@)),
{
    let parsed = parse_json(body);
    let (error, reason) = reported_fields(&parsed);
    assert(error_object(status, error@, opt_string_view(reason)) == error_body(status, body@));
    error_for_status(status, error, reason)
}

/// Accepts a 2xx reply (whose body the caller then decodes) and turns any
/// other status into the worker's structured error.
pub fn check_response(status: u16, body: &[u8]) -> (r: Result<(), WorkerError>)
    ensures
        r is Ok <==> is_success_status(status),
        r matches Err(e) ==> e.code == error_code_for(status) && e.message@ == json_text(
            error_body(status, body@),
        ),
{
    if 200 <= status && status < 300 {
        Ok(())
    } else {
        Err(worker_error(status, body))
    }
}

/// Worker failures are classified by status: every 4xx becomes
/// `INVALID_PARAMS`, every 5xx becomes `INTERNAL_ERROR`, and a 2xx is never
/// a failure.
pub proof fn lemma_status_classes(status: u16)
    ensures
        400 <= status < 500 ==> error_code_for(status) == INVALID_PARAMS,
        !(400 <= status < 500) ==> error_code_for(status) == INTERNAL_ERROR,
        is_success_status(status) <==> 200 <= status < 300,
        is_success_status(status) ==> !is_client_error_status(status),
{
}

/// The object an error message carries always holds the status (as a JSON
/// number in decimal) and the worker's error string, and holds `reason`
/// exactly when the worker sent a reason string; it holds nothing else.
pub proof fn law_error_object(status: u16, error: Seq<char>, reason: Option<Seq<char>>)
    ensures
        error_object(status, error, reason) matches JsonView::Object(m) && {
            &&& m.contains_key("status"@)
            &&& m["status"@] == JsonView::Number(decimal(status as nat))
            &&& m.contains_key("error"@)
            &&& m["error"@] == JsonView::Str(error)
            &&& (m.contains_key("reason"@) <==> reason is Some)
            &&& (reason matches Some(r) ==> m["reason"@] == JsonView::Str(r))
            &&& m.dom() =~= (if reason is Some {
                set!["status"@, "error"@, "reason"@]
            } else {
                set!["status"@, "error"@]
            })
        },
{
    reveal_strlit("status");
    reveal_strlit("error");
    reveal_strlit("reason");
    assert("status"@.len() == 6 && "error"@.len() == 5 && "reason"@.len() == 6);
    assert("status"@[0] == 's' && "reason"@[0] == 'r');
    let es = error_entries(status, error, reason);
    let n = JsonView::Number(decimal(status as nat));
    let e = JsonView::Str(error);
    let base = seq![("status"@, n), ("error"@, e)];
    let m2 = Map::<Seq<char>, JsonView>::empty().insert("status"@, n).insert("error"@, e);
    assert(base.drop_last().drop_last() =~= Seq::<(Seq<char>, JsonView)>::empty());
    assert(base.drop_last() =~= seq![("status"@, n)]);
    assert(pairs_to_map(seq![("status"@, n)]) == pairs_to_map(Seq::<(Seq<char>, JsonView)>::empty()).insert("status"@, n));
    assert(pairs_to_map(base) == pairs_to_map(base.drop_last()).insert("error"@, e));
    assert(pairs_to_map(base) =~= m2);
    match reason {
        Some(r) => {
            assert(es.drop_last() =~= base);
            assert(pairs_to_map(es) == m2.insert("reason"@, JsonView::Str(r)));
        },
        None => {
            assert(es =~= base);
        },
    }
}

/// Every request to the worker carries the configured JWT as its bearer
/// token, whatever the tool, query or body.
pub proof fn lemma_every_request_carries_jwt(
    cfg: WorkerConfig,
    tool: Tool,
    query: Seq<(Seq<char>, Seq<char>)>,
    body: Option<Seq<char>>,
)
    ensures
        cfg.spec_request(tool, query, body).bearer == cfg.jwt@,
        cfg.spec_request(tool, query, body).method == tool.spec_method(),
{
}

/// A trailing slash on the base URL changes no endpoint URL, and the base
/// part of an endpoint URL never ends in a slash.
pub proof fn lemma_base_url_trailing_slash(base: Seq<char>, path: Seq<char>)
    ensures
        trim_trailing_slashes(base.push('/')) + path == trim_trailing_slashes(base) + path,
        trim_trailing_slashes(base).len() == 0 || trim_trailing_slashes(base).last() != '/',
{
    crate::text::lemma_trim_ignores_added_slash(base);
    crate::text::lemma_trim_trailing_slashes(base);
}

/// The worker's structured failure `{ "error": e, "reason": r }` reaches the
/// caller unchanged.
pub proof fn lemma_structured_failure_kept(body: Seq<u8>, m: Map<Seq<char>, JsonView>, e: Seq<char>, r: Seq<char>)
    requires
        json_parse_bytes(body) == Some(JsonView::Object(m)),
        m.contains_key("error"@),
        m["error"@] == JsonView::Str(e),
        m.contains_key("reason"@),
        m["reason"@] == JsonView::Str(r),
    ensures
        reported_error(body) == e,
        reported_reason(body) == Some(r),
{
}

/// A failure body that is not JSON is reported as `worker_error`, with no
/// reason.
pub proof fn lemma_unparsable_failure(body: Seq<u8>)
    requires
        json_parse_bytes(body) is None,
    ensures
        reported_error(body) == "worker_error"@,
        reported_reason(body) is None,
{
}

} // verus!
