//! What every tool call puts on the wire, stated over all arguments: which
//! query pairs appear (and where), and which members the JSON body carries.
use vstd::prelude::*;

use crate::json::{
    contains_segment, lemma_object_text_has_member, member_text, opt_str_view, opt_string_view,
    JsonView,
};
use crate::text::decimal;
use crate::types::{
    FileDeleteArgs, FileGetArgs, FileHistoryArgs, FileMoveArgs, FilePutArgs, FileSearchArgs,
    FolderCreateArgs, FolderListArgs, RepoInitArgs,
};

verus! {

/// Some pair of `q` has key `k`.
pub open spec fn has_key(q: Seq<(Seq<char>, Seq<char>)>, k: Seq<char>) -> bool {
    exists|i: int| 0 <= i < q.len() && (#[trigger] q[i]).0 == k
}

/// `folder_list` always names the repo first; it sends `path` exactly when
/// the path is not the repo root (whether or not it recurses), and
/// `recursive=true` exactly when asked to recurse.
pub proof fn law_folder_list_query(args: FolderListArgs)
    ensures
        args.wire_query().len() == 1 + (if args.path@.len() > 0 { 1int } else { 0 }) + (if args.recursive {
            1int
        } else {
            0
        }),
        args.wire_query()[0] == ("repo_id"@, args.repo_id@),
        args.path@.len() > 0 ==> args.wire_query()[1] == ("path"@, args.path@),
        args.path@.len() > 0 <==> has_key(args.wire_query(), "path"@),
        args.recursive <==> args.wire_query().contains(("recursive"@, "true"@)),
        args.recursive ==> args.wire_query().last() == ("recursive"@, "true"@),
{
    reveal_strlit("repo_id");
    reveal_strlit("path");
    reveal_strlit("recursive");
    let q = args.wire_query();
    assert("repo_id"@.len() == 7 && "path"@.len() == 4 && "recursive"@.len() == 9);
    if args.path@.len() > 0 {
        assert(q[1].0 == "path"@);
    }
    if args.recursive {
        assert(q[q.len() - 1] == ("recursive"@, "true"@));
    }
}

/// `file_get` always sends `repo_id` then `path`; a requested revision `n`
/// (any `n`) is sent last as `revision=<n in decimal>`, and no revision
/// means exactly those two pairs.
pub proof fn law_file_get_query(args: FileGetArgs)
    ensures
        args.wire_query().len() >= 2,
        args.wire_query()[0] == ("repo_id"@, args.repo_id@),
        args.wire_query()[1] == ("path"@, args.path@),
        match args.revision {
            Some(n) => args.wire_query().len() == 3 && args.wire_query()[2] == (
                "revision"@,
                decimal(n as nat),
            ),
            None => args.wire_query().len() == 2,
        },
{
}

/// `file_history` always sends `repo_id` then `path`, whatever the limit;
/// a limit `n` is sent last as `limit=<n in decimal>`.
pub proof fn law_file_history_query(args: FileHistoryArgs)
    ensures
        args.wire_query().len() >= 2,
        args.wire_query()[0] == ("repo_id"@, args.repo_id@),
        args.wire_query()[1] == ("path"@, args.path@),
        match args.limit {
            Some(n) => args.wire_query().len() == 3 && args.wire_query()[2] == (
                "limit"@,
                decimal(n as nat),
            ),
            None => args.wire_query().len() == 2,
        },
{
}

/// `file_delete` sends exactly `repo_id` then `path`.
pub proof fn law_file_delete_query(args: FileDeleteArgs)
    ensures
        args.wire_query().len() == 2,
        args.wire_query()[0] == ("repo_id"@, args.repo_id@),
        args.wire_query()[1] == ("path"@, args.path@),
{
}

/// `file_search` always sends `repo_id` then `query`; `under_path` exactly
/// when a subtree is given, `include_deleted=true` exactly when deleted
/// files are asked for (whatever the other options), and the limit last
/// when one is given.
pub proof fn law_file_search_query(args: FileSearchArgs)
    ensures
        args.wire_query().len() == 2 + (if args.under_path is Some { 1int } else { 0 }) + (
        if args.include_deleted {
            1int
        } else {
            0
        }) + (if args.limit is Some { 1int } else { 0 }),
        args.wire_query()[0] == ("repo_id"@, args.repo_id@),
        args.wire_query()[1] == ("query"@, args.query@),
        args.under_path matches Some(p) ==> args.wire_query()[2] == ("under_path"@, p@),
        args.under_path is Some <==> has_key(args.wire_query(), "under_path"@),
        args.include_deleted <==> args.wire_query().contains(("include_deleted"@, "true"@)),
        match args.limit {
            Some(n) => args.wire_query().last() == ("limit"@, decimal(n as nat)),
            None => !has_key(args.wire_query(), "limit"@),
        },
{
    reveal_strlit("repo_id");
    reveal_strlit("query");
    reveal_strlit("under_path");
    reveal_strlit("include_deleted");
    reveal_strlit("limit");
    let q = args.wire_query();
    assert("repo_id"@.len() == 7 && "query"@.len() == 5 && "under_path"@.len() == 10);
    assert("include_deleted"@.len() == 15 && "limit"@.len() == 5);
    assert("query"@[0] == 'q' && "limit"@[0] == 'l');
    assert("true"@.len() == 4) by {
        reveal_strlit("true");
    }
    if args.under_path is Some {
        assert(q[2].0 == "under_path"@);
    }
    if args.include_deleted {
        let k = if args.under_path is Some { 3int } else { 2int };
        assert(q[k] == ("include_deleted"@, "true"@));
    }
    if args.limit is Some {
        assert(q[q.len() - 1].0 == "limit"@);
    }
}

/// The `repo_init` body is a JSON object carrying `"name":<name>`.
pub proof fn law_repo_init_body(args: RepoInitArgs)
    ensures
        contains_segment(args.wire_body(), member_text("name"@, JsonView::Str(args.name@))),
        args.wire_body()[0] == '{',
        args.wire_body().last() == '}',
{
    let ms = seq![member_text("name"@, JsonView::Str(args.name@))];
    lemma_object_text_has_member(ms, 0);
}

/// The `folder_create` body carries the repo id and the path.
pub proof fn law_folder_create_body(args: FolderCreateArgs)
    ensures
        contains_segment(args.wire_body(), member_text("repo_id"@, JsonView::Str(args.repo_id@))),
        contains_segment(args.wire_body(), member_text("path"@, JsonView::Str(args.path@))),
        args.wire_body()[0] == '{',
        args.wire_body().last() == '}',
{
    let ms = seq![
        member_text("repo_id"@, JsonView::Str(args.repo_id@)),
        member_text("path"@, JsonView::Str(args.path@)),
    ];
    lemma_object_text_has_member(ms, 0);
    lemma_object_text_has_member(ms, 1);
}

/// The `file_put` body carries every argument: repo id, path, content, and
/// `mime` and `message` each as its own string or `null` when absent,
/// whatever the other arguments are.
pub proof fn law_file_put_body(args: FilePutArgs)
    ensures
        contains_segment(args.wire_body(), member_text("repo_id"@, JsonView::Str(args.repo_id@))),
        contains_segment(args.wire_body(), member_text("path"@, JsonView::Str(args.path@))),
        contains_segment(
            args.wire_body(),
            member_text("content_base64"@, JsonView::Str(args.content_base64@)),
        ),
        contains_segment(
            args.wire_body(),
            member_text("mime"@, opt_str_view(opt_string_view(args.mime))),
        ),
        contains_segment(
            args.wire_body(),
            member_text("message"@, opt_str_view(opt_string_view(args.message))),
        ),
        args.wire_body()[0] == '{',
        args.wire_body().last() == '}',
{
    let ms = seq![
        member_text("repo_id"@, JsonView::Str(args.repo_id@)),
        member_text("path"@, JsonView::Str(args.path@)),
        member_text("content_base64"@, JsonView::Str(args.content_base64@)),
        member_text("mime"@, opt_str_view(opt_string_view(args.mime))),
        member_text("message"@, opt_str_view(opt_string_view(args.message))),
    ];
    lemma_object_text_has_member(ms, 0);
    lemma_object_text_has_member(ms, 1);
    lemma_object_text_has_member(ms, 2);
    lemma_object_text_has_member(ms, 3);
    lemma_object_text_has_member(ms, 4);
}

/// The `file_move` body carries the repo id and both paths.
pub proof fn law_file_move_body(args: FileMoveArgs)
    ensures
        contains_segment(args.wire_body(), member_text("repo_id"@, JsonView::Str(args.repo_id@))),
        contains_segment(
            args.wire_body(),
            member_text("from_path"@, JsonView::Str(args.from_path@)),
        ),
        contains_segment(args.wire_body(), member_text("to_path"@, JsonView::Str(args.to_path@))),
        args.wire_body()[0] == '{',
        args.wire_body().last() == '}',
{
    let ms = seq![
        member_text("repo_id"@, JsonView::Str(args.repo_id@)),
        member_text("from_path"@, JsonView::Str(args.from_path@)),
        member_text("to_path"@, JsonView::Str(args.to_path@)),
    ];
    lemma_object_text_has_member(ms, 0);
    lemma_object_text_has_member(ms, 1);
    lemma_object_text_has_member(ms, 2);
}

} // verus!
