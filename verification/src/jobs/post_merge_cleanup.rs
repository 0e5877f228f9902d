//! Tidying up after two posts were found to be one: what refers to the post that
//! goes is made to refer to the one that stays.

use crate::decimal;
use crate::text;
use vstd::prelude::*;

verus! {

/// A column that refers to posts.
pub struct PostReference {
    pub table: &'static str,
    pub column: &'static str,
}

/// A column of posts that refers to posts, and the column in which they are
/// counted.
pub struct CountedReference {
    pub column: &'static str,
    pub count_column: &'static str,
}

/// The names of the columns that refer to posts.
pub open spec fn reference_names(v: Seq<PostReference>) -> Seq<(Seq<char>, Seq<char>)> {
    v.map_values(|r: PostReference| (r.table@, r.column@))
}

/// The names of the columns that refer to posts and are counted.
pub open spec fn counted_names(v: Seq<CountedReference>) -> Seq<(Seq<char>, Seq<char>)> {
    v.map_values(|r: CountedReference| (r.column@, r.count_column@))
}

/// The columns that refer to posts and are changed as they are. Attachments and
/// link cards are not among them: the post that stays has its own.
pub fn reparent_simple() -> (r: Vec<PostReference>)
    ensures
        reference_names(r@) == seq![
            ("bsky_convo_links"@, "thread_root_post_id"@),
            ("dm_read_states"@, "last_read_post_id"@),
            ("dm_read_states"@, "thread_root_post_id"@),
            ("notifications"@, "note_id"@),
            ("pinned_posts"@, "post_id"@),
            ("poll_votes"@, "post_id"@),
            ("post_hashtags"@, "post_id"@),
            ("post_recipients"@, "post_id"@),
            ("posts"@, "parent_original_post_id"@),
            ("posts"@, "thread_root_post_id"@),
            ("reactions"@, "post_id"@),
            ("reports"@, "subject_post_id"@),
        ],
{
    let r: Vec<PostReference> = vec![
        PostReference { table: "bsky_convo_links", column: "thread_root_post_id" },
        PostReference { table: "dm_read_states", column: "last_read_post_id" },
        PostReference { table: "dm_read_states", column: "thread_root_post_id" },
        PostReference { table: "notifications", column: "note_id" },
        PostReference { table: "pinned_posts", column: "post_id" },
        PostReference { table: "poll_votes", column: "post_id" },
        PostReference { table: "post_hashtags", column: "post_id" },
        PostReference { table: "post_recipients", column: "post_id" },
        PostReference { table: "posts", column: "parent_original_post_id" },
        PostReference { table: "posts", column: "thread_root_post_id" },
        PostReference { table: "reactions", column: "post_id" },
        PostReference { table: "reports", column: "subject_post_id" },
    ];
    r
}

/// The columns that refer to posts and are counted at the post they refer to.
pub fn reparent_counted() -> (r: Vec<CountedReference>)
    ensures
        counted_names(r@) == seq![
            ("reply_to_post_id"@, "reply_count"@),
            ("quote_of_post_id"@, "quote_count"@),
            ("repost_of_post_id"@, "repost_count"@),
        ],
{
    let r: Vec<CountedReference> = vec![
        CountedReference { column: "reply_to_post_id", count_column: "reply_count" },
        CountedReference { column: "quote_of_post_id", count_column: "quote_count" },
        CountedReference { column: "repost_of_post_id", count_column: "repost_count" },
    ];
    r
}

/// The statement that changes a column. Its first parameter is the post that
/// stays, its second the one that goes.
pub fn reparent_sql(r: &PostReference) -> (s: String)
    ensures
        s@ == "UPDATE "@ + r.table@ + " SET "@ + r.column@ + " = $1 WHERE "@ + r.column@
            + " = $2"@,
{
    let head: String = text::cat4("UPDATE ", r.table, " SET ", r.column);
    let s: String = text::cat4(head.as_str(), " = $1 WHERE ", r.column, " = $2");
    assert(s@ =~= "UPDATE "@ + r.table@ + " SET "@ + r.column@ + " = $1 WHERE "@ + r.column@
        + " = $2"@);
    s
}

/// The statement that changes a counted column and counts what it changed at the
/// post that stays.
pub fn reparent_counted_sql(r: &CountedReference) -> (s: String)
    ensures
        s@ == "WITH moved AS (UPDATE posts SET "@ + r.column@ + " = $1 WHERE "@ + r.column@
            + " = $2 RETURNING id) UPDATE posts SET "@ + r.count_column@ + " = "@
            + r.count_column@
            + " + (SELECT count(*) FROM moved) WHERE id = $1 AND EXISTS (SELECT 1 FROM moved)"@,
{
    let head: String = text::cat4(
        "WITH moved AS (UPDATE posts SET ",
        r.column,
        " = $1 WHERE ",
        r.column,
    );
    let s: String = text::cat6(
        head.as_str(),
        " = $2 RETURNING id) UPDATE posts SET ",
        r.count_column,
        " = ",
        r.count_column,
        " + (SELECT count(*) FROM moved) WHERE id = $1 AND EXISTS (SELECT 1 FROM moved)",
    );
    assert(s@ =~= "WITH moved AS (UPDATE posts SET "@ + r.column@ + " = $1 WHERE "@ + r.column@
        + " = $2 RETURNING id) UPDATE posts SET "@ + r.count_column@ + " = "@ + r.count_column@
        + " + (SELECT count(*) FROM moved) WHERE id = $1 AND EXISTS (SELECT 1 FROM moved)"@);
    s
}

/// Whether there is something to tidy up. `deleted` tells whether the post that
/// goes is marked as deleted; it is none where the post is gone already. A post
/// that is not marked is never removed.
pub fn check_doomed(doomed_post_id: i64, deleted: Option<bool>) -> (r: Result<bool, String>)
    ensures
        match deleted {
            Some(true) => r == Ok::<bool, String>(true),
            None => r == Ok::<bool, String>(false),
            Some(false) => r matches Err(e) && e@ == "doomed_post_id="@ + decimal::int_text(
                doomed_post_id as int,
            ) + " はまだ論理削除されていません（finalize_post_merge未実行の可能性）"@,
        },
{
    match deleted {
        Some(true) => Ok(true),
        None => Ok(false),
        Some(false) => Err(
            text::cat3(
                "doomed_post_id=",
                decimal::format_i64(doomed_post_id).as_str(),
                " はまだ論理削除されていません（finalize_post_merge未実行の可能性）",
            ),
        ),
    }
}

} // verus!
