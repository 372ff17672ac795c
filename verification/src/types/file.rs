//! `files`: a logical file pointing at its current revision. Deletes are
//! soft (`deleted_at`), so history walks still succeed.
use vstd::prelude::*;

use crate::json::{member_text, object_text, opt_str_view, opt_string_view, JsonView};
use crate::text::decimal;
use crate::types::revision::Revision;

verus! {

#[derive(Debug, Clone)]
pub struct File {
    pub id: String,
    pub repo_id: String,
    /// `None`: the file sits at the repo root.
    pub folder_id: Option<String>,
    pub name: String,
    /// `folder.path + "/" + name`, no leading slash.
    pub path: String,
    /// Id of the latest revision.
    pub current_revision_id: String,
    /// 1 for the initial revision, incremented by every `file_put`.
    pub current_revision_number: u32,
    pub size: u64,
    pub mime: Option<String>,
    pub created_at: String,
    pub updated_at: String,
    /// RFC 3339 when soft-deleted, `None` for live files.
    pub deleted_at: Option<String>,
}

/// Arguments of `file_put`.
#[derive(Debug, Clone)]
pub struct FilePutArgs {
    pub repo_id: String,
    /// Full path inside the repo; intermediate folders are created.
    pub path: String,
    /// Base64-encoded payload.
    pub content_base64: String,
    pub mime: Option<String>,
    /// Optional message attached to the new revision.
    pub message: Option<String>,
}

/// Arguments of `file_get`.
#[derive(Debug, Clone)]
pub struct FileGetArgs {
    pub repo_id: String,
    pub path: String,
    /// `None`: latest; `Some(n)`: revision number `n`.
    pub revision: Option<u32>,
}

/// What `file_put` and `file_get` return.
#[derive(Debug, Clone)]
pub struct FileGetResponse {
    pub file: File,
    pub revision: Revision,
    pub content_base64: String,
}

/// Arguments of `file_history`.
#[derive(Debug, Clone)]
pub struct FileHistoryArgs {
    pub repo_id: String,
    pub path: String,
    /// `1..=100` (checked by the worker), default 20.
    pub limit: Option<u32>,
}

/// Arguments of `file_move`.
#[derive(Debug, Clone)]
pub struct FileMoveArgs {
    pub repo_id: String,
    pub from_path: String,
    pub to_path: String,
}

/// Arguments of `file_delete`.
#[derive(Debug, Clone)]
pub struct FileDeleteArgs {
    pub repo_id: String,
    pub path: String,
}

/// Arguments of `file_search`.
#[derive(Debug, Clone)]
pub struct FileSearchArgs {
    pub repo_id: String,
    /// Substring matched against path and name.
    pub query: String,
    /// Restrict to this folder subtree.
    pub under_path: Option<String>,
    /// Include soft-deleted files.
    pub include_deleted: bool,
    /// `1..=100` (checked by the worker), default 20.
    pub limit: Option<u32>,
}

/// What `file_search` returns.
#[derive(Debug, Clone)]
pub struct FileSearchResult {
    pub files: Vec<File>,
}

/// A query pair `(key, decimal text of n)` when `n` is present, nothing otherwise.
pub open spec fn opt_number_pair(key: Seq<char>, n: Option<u32>) -> Seq<(Seq<char>, Seq<char>)> {
    match n {
        Some(v) => seq![(key, decimal(v as nat))],
        None => Seq::empty(),
    }
}

impl FilePutArgs {
    /// The JSON body, members in field order, `null` for an absent `mime`
    /// or `message`.
    pub open spec fn wire_body(self) -> Seq<char> {
        object_text(
            seq![
                member_text("repo_id"@, JsonView::Str(self.repo_id@)),
                member_text("path"@, JsonView::Str(self.path@)),
                member_text("content_base64"@, JsonView::Str(self.content_base64@)),
                member_text("mime"@, opt_str_view(opt_string_view(self.mime))),
                member_text("message"@, opt_str_view(opt_string_view(self.message))),
            ],
        )
    }
}

impl FileMoveArgs {
    /// The JSON body, members in field order:
    /// `{"repo_id":..,"from_path":..,"to_path":..}`.
    pub open spec fn wire_body(self) -> Seq<char> {
        object_text(
            seq![
                member_text("repo_id"@, JsonView::Str(self.repo_id@)),
                member_text("from_path"@, JsonView::Str(self.from_path@)),
                member_text("to_path"@, JsonView::Str(self.to_path@)),
            ],
        )
    }
}

impl FileGetArgs {
    /// The query string: `repo_id`, `path`, then `revision` when one is asked for.
    pub open spec fn wire_query(self) -> Seq<(Seq<char>, Seq<char>)> {
        seq![("repo_id"@, self.repo_id@), ("path"@, self.path@)] + opt_number_pair(
            "revision"@,
            self.revision,
        )
    }
}

impl FileHistoryArgs {
    /// The query string: `repo_id`, `path`, then `limit` when given.
    pub open spec fn wire_query(self) -> Seq<(Seq<char>, Seq<char>)> {
        seq![("repo_id"@, self.repo_id@), ("path"@, self.path@)] + opt_number_pair(
            "limit"@,
            self.limit,
        )
    }
}

impl FileDeleteArgs {
    /// The query string: `repo_id` and `path`.
    pub open spec fn wire_query(self) -> Seq<(Seq<char>, Seq<char>)> {
        seq![("repo_id"@, self.repo_id@), ("path"@, self.path@)]
    }
}

impl FileSearchArgs {
    /// The query string: `repo_id`, `query`, then `under_path` when given,
    /// `include_deleted=true` only when asked, and `limit` when given.
    pub open spec fn wire_query(self) -> Seq<(Seq<char>, Seq<char>)> {
        seq![("repo_id"@, self.repo_id@), ("query"@, self.query@)] + (match self.under_path {
            Some(p) => seq![("under_path"@, p@)],
            None => Seq::empty(),
        }) + (if self.include_deleted {
            seq![("include_deleted"@, "true"@)]
        } else {
            Seq::empty()
        }) + opt_number_pair("limit"@, self.limit)
    }
}

} // verus!
