//! DTOs shared with ref-files-worker, and the JSON / query-string shape in
//! which each tool's arguments travel to the worker.
//!
//! All IDs are opaque strings generated worker-side.
pub mod file;
pub mod folder;
pub mod repo;
pub mod revision;

pub use file::{
    File, FileDeleteArgs, FileGetArgs, FileGetResponse, FileHistoryArgs, FileMoveArgs,
    FilePutArgs, FileSearchArgs, FileSearchResult,
};
pub use folder::{Folder, FolderCreateArgs, FolderListArgs, FolderListing};
pub use repo::{Repo, RepoInitArgs};
pub use revision::{Revision, RevisionList};
