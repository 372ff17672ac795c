//! `revisions`: the append-only history of a file's bytes.
use vstd::prelude::*;

verus! {

#[derive(Debug, Clone)]
pub struct Revision {
    pub id: String,
    pub file_id: String,
    /// 1-indexed, monotonic per file.
    pub rev_number: u32,
    /// Blob key, `files/{repo_id}/{file_id}/{rev_number}`.
    pub blob_key: String,
    pub size: u64,
    /// Lowercase hex SHA-256 of the raw bytes.
    pub sha256: String,
    pub mime: Option<String>,
    /// Login that produced this revision.
    pub author_login: String,
    pub message: Option<String>,
    pub created_at: String,
}

#[derive(Debug, Clone)]
pub struct RevisionList {
    pub revisions: Vec<Revision>,
}

} // verus!
