//! Verified core of the ref-files MCP server: the shared DTOs, the table of
//! MCP tools and the worker endpoints they call, how each tool call becomes
//! an HTTP request to ref-files-worker, and how the worker's replies become
//! results or structured errors.
pub mod json;
pub mod laws;
pub mod text;
pub mod tools;
pub mod types;
pub mod worker_client;
