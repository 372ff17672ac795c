//! `folders`: the directory tree inside a repo. `path` is POSIX-style, with
//! no leading slash; the repo root is `""`.
use vstd::prelude::*;

use crate::json::{member_text, object_text, JsonView};
use crate::types::file::File;

verus! {

#[derive(Debug, Clone)]
pub struct Folder {
    pub id: String,
    pub repo_id: String,
    /// `None` only for the implicit root folder.
    pub parent_id: Option<String>,
    /// Single-segment name.
    pub name: String,
    /// Full path from the repo root, no leading slash; root is `""`.
    pub path: String,
    pub created_at: String,
}

/// Arguments of `folder_create` (missing ancestors are created too).
#[derive(Debug, Clone)]
pub struct FolderCreateArgs {
    pub repo_id: String,
    pub path: String,
}

/// Arguments of `folder_list`.
#[derive(Debug, Clone)]
pub struct FolderListArgs {
    pub repo_id: String,
    /// Empty string is the repo root.
    pub path: String,
    /// Recurse into subfolders.
    pub recursive: bool,
}

/// What `folder_list` returns: folders and files at (or under) a path.
#[derive(Debug, Clone)]
pub struct FolderListing {
    pub folders: Vec<Folder>,
    pub files: Vec<File>,
}

impl FolderCreateArgs {
    /// The JSON body, members in field order: `{"repo_id":..,"path":..}`.
    pub open spec fn wire_body(self) -> Seq<char> {
        object_text(
            seq![
                member_text("repo_id"@, JsonView::Str(self.repo_id@)),
                member_text("path"@, JsonView::Str(self.path@)),
            ],
        )
    }
}

impl FolderListArgs {
    /// The query string: `repo_id`, then `path` unless it is empty, then
    /// `recursive=true` only when recursing.
    pub open spec fn wire_query(self) -> Seq<(Seq<char>, Seq<char>)> {
        seq![("repo_id"@, self.repo_id@)] + (if self.path@.len() > 0 {
            seq![("path"@, self.path@)]
        } else {
            Seq::empty()
        }) + (if self.recursive {
            seq![("recursive"@, "true"@)]
        } else {
            Seq::empty()
        })
    }
}

} // verus!
