//! Entity mapping: one flat joined row (post columns followed by the
//! creator's columns) becomes a post with its embedded creator. List views
//! truncate long bodies to a fixed-length preview; the detail view keeps the
//! body whole.

use vstd::prelude::*;
use vstd::string::StrSliceExecFns;
use vstd::string::StringExecFns;
use crate::models::Post;
use crate::models::Tag;
use crate::models::User;

verus! {

/// Bodies longer than this many characters are cut down for list views.
pub const BODY_PREVIEW_CHARS: usize = 200;

/// The body as a list view shows it: the first 200 characters followed by a
/// truncation marker when the body is longer, the body unchanged otherwise.
/// Lengths count Unicode scalar values, not bytes.
pub open spec fn truncated_body_spec(b: Seq<char>) -> Seq<char> {
    if b.len() > 200 {
        b.subrange(0, 200) + seq!['.', '.', '.']
    } else {
        b
    }
}

/// Cuts a body down to its list-view preview.
pub fn truncate_body(b: &str) -> (r: String)
    ensures
        r@ == truncated_body_spec(b@),
{
    let n = b.unicode_len();
    if n > BODY_PREVIEW_CHARS {
        let prefix = b.substring_char(0, BODY_PREVIEW_CHARS);
        let mut out = prefix.to_owned();
        out.append("...");
        proof {
            reveal_strlit("...");
            assert(out@ =~= b@.subrange(0, 200) + seq!['.', '.', '.']);
        }
        out
    } else {
        b.to_owned()
    }
}

/// One row of the joined data query, as plain column values: the post's
/// columns followed by the joined creator's id and username.
pub struct PostRow {
    pub id: u128,
    pub title: String,
    pub body: Option<String>,
    pub created_by: u128,
    pub slug: String,
    pub photo_url: Option<String>,
    pub created_at: i64,
    pub updated_at: i64,
    pub deleted_at: Option<i64>,
    pub published: bool,
    pub view_count: i64,
    pub like_count: i64,
    pub user_id: u128,
    pub username: String,
}

/// How a mapped post relates to its row: every column carried over, the
/// creator embedded from the joined columns, the body truncated exactly when
/// a list view asked for it, and the tag list left empty for the hydrator.
pub open spec fn mapped_post(p: Post, row: PostRow, truncate: bool) -> bool {
    &&& p.id == row.id
    &&& p.title == row.title
    &&& (if truncate {
        &&& (p.body is Some <==> row.body is Some)
        &&& (row.body is Some ==> p.body->Some_0@ == truncated_body_spec(row.body->Some_0@))
    } else {
        p.body == row.body
    })
    &&& p.created_by == row.created_by
    &&& p.slug == row.slug
    &&& p.photo_url == row.photo_url
    &&& p.created_at == row.created_at
    &&& p.updated_at == row.updated_at
    &&& p.deleted_at == row.deleted_at
    &&& p.published == row.published
    &&& p.view_count == row.view_count
    &&& p.like_count == row.like_count
    &&& p.creator.id == row.user_id
    &&& p.creator.username == row.username
    &&& p.tags@ == Seq::<Tag>::empty()
}

/// Converts one joined row into a post with its embedded creator. With
/// `truncate` set the body is cut to its list-view preview; the detail view
/// passes `false` and keeps the body whole. The tag list is left empty at
/// this stage.
pub fn map_post_row(row: PostRow, truncate: bool) -> (p: Post)
    ensures
        mapped_post(p, row, truncate),
{
    let body = if truncate {
        match row.body {
            Some(b) => Some(truncate_body(b.as_str())),
            None => None,
        }
    } else {
        row.body
    };
    Post {
        id: row.id,
        title: row.title,
        body,
        created_by: row.created_by,
        slug: row.slug,
        photo_url: row.photo_url,
        created_at: row.created_at,
        updated_at: row.updated_at,
        deleted_at: row.deleted_at,
        published: row.published,
        view_count: row.view_count,
        like_count: row.like_count,
        creator: User { id: row.user_id, username: row.username },
        tags: Vec::new(),
    }
}

/// Converts one row of a tag query into a tag.
pub fn tag_from_columns(id: i32, name: String, created_at: Option<i64>) -> (t: Tag)
    ensures
        t.id == id,
        t.name == name,
        t.created_at == created_at,
{
    Tag { id, name, created_at }
}

} // verus!
