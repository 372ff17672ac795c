//! `repos`: the top-level container that scopes folders and files. One repo
//! per `(owner_login, name)`; the owner is resolved by the worker from the
//! caller's JWT.
use vstd::prelude::*;

use crate::json::{member_text, object_text, JsonView};

verus! {

#[derive(Debug, Clone)]
pub struct Repo {
    pub id: String,
    pub owner_login: String,
    pub name: String,
    /// RFC 3339, set by the worker on insert.
    pub created_at: String,
    /// RFC 3339, updated by the worker on rename or metadata edit.
    pub updated_at: String,
}

/// Arguments of `repo_init`. Idempotent on the worker side: an existing repo
/// with the same name is returned rather than an error.
#[derive(Debug, Clone)]
pub struct RepoInitArgs {
    /// Repository slug, validated by the worker.
    pub name: String,
}

impl RepoInitArgs {
    /// The JSON body that carries these arguments: `{"name":..}`.
    pub open spec fn wire_body(self) -> Seq<char> {
        object_text(seq![member_text("name"@, JsonView::Str(self.name@))])
    }
}

} // verus!
