# ref_files_mcp_server_rs

Verified core of a Model Context Protocol server whose nine tools
(`repo_init`, `folder_create`, `folder_list`, `file_put`, `file_get`,
`file_history`, `file_move`, `file_delete`, `file_search`) store reference
files in ref-files-worker over HTTP.

- `src/` is checked by Verus:
  - `types/`: the DTOs shared with the worker and the JSON body / query string
    in which each tool's arguments travel;
  - `tools.rs`: the tool table (name, HTTP method, endpoint path) and the
    server instructions;
  - `worker_client.rs`: the request each tool call becomes (URL without
    doubled slashes, bearer token, query, body) and the mapping of worker
    replies to results or JSON-RPC errors (4xx: invalid params, otherwise
    internal error; the message is `{ status, error, reason? }`);
  - `json.rs`: the JSON model and the trusted calls into `serde_json`;
  - `text.rs`: decimal rendering and trailing-slash trimming.
- `app/` is the binary (`gen-ts` as first argument writes the TypeScript
  declarations of the DTOs): CLI, the rmcp server and its `#[tool]` handlers, the
  reqwest client that sends the planned requests, and serde copies of the DTOs.
- `tests/` exercises the library on concrete values.
