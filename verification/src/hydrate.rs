//! Tag hydration: a page of already-mapped posts gets its tag lists filled
//! from the rows of one batched tag query, keyed by post identifier. Each
//! post's list is replaced whole — never appended to — so hydrating twice
//! changes nothing, and no tag leaks from one post onto another.

use vstd::prelude::*;
use crate::models::Post;
use crate::models::Tag;
use crate::models::clone_tag;

verus! {

/// One row of the batched tag query: a tag together with the post it
/// belongs to.
pub struct TagRow {
    pub post_id: u128,
    pub tag: Tag,
}

/// The tags a batch of rows carries for one post, in row order: exactly the
/// rows keyed by that post, nothing else.
pub open spec fn tags_for(rows: Seq<TagRow>, post_id: u128) -> Seq<Tag>
    decreases rows.len(),
{
    if rows.len() == 0 {
        Seq::empty()
    } else {
        tags_for(rows.drop_last(), post_id) + (if rows.last().post_id == post_id {
            seq![rows.last().tag]
        } else {
            Seq::<Tag>::empty()
        })
    }
}

/// How a hydrated post relates to the post it came from: every field kept,
/// and the tag list replaced by exactly the rows keyed by the post's
/// identifier.
pub open spec fn hydrated(after: Post, before: Post, rows: Seq<TagRow>) -> bool {
    &&& after.id == before.id
    &&& after.title == before.title
    &&& after.body == before.body
    &&& after.created_by == before.created_by
    &&& after.slug == before.slug
    &&& after.photo_url == before.photo_url
    &&& after.created_at == before.created_at
    &&& after.updated_at == before.updated_at
    &&& after.deleted_at == before.deleted_at
    &&& after.published == before.published
    &&& after.view_count == before.view_count
    &&& after.like_count == before.like_count
    &&& after.creator == before.creator
    &&& after.tags@ == tags_for(rows, before.id)
}

/// Collects, in row order, the tags keyed by one post identifier.
fn collect_tags_for(rows: &Vec<TagRow>, post_id: u128) -> (r: Vec<Tag>)
    ensures
        r@ == tags_for(rows@, post_id),
{
    let mut out: Vec<Tag> = Vec::new();
    let mut j: usize = 0;
    while j < rows.len()
        invariant
            0 <= j <= rows@.len(),
            out@ == tags_for(rows@.subrange(0, j as int), post_id),
        decreases rows@.len() - j,
    {
        if rows[j].post_id == post_id {
            out.push(clone_tag(&rows[j].tag));
        }
        proof {
            assert(rows@.subrange(0, j + 1).drop_last() =~= rows@.subrange(0, j as int));
            assert(rows@.subrange(0, j + 1).last() == rows@[j as int]);
        }
        j = j + 1;
    }
    proof {
        assert(rows@.subrange(0, rows@.len() as int) =~= rows@);
    }
    out
}

/// Distributes the rows of one batched tag query back onto a page of posts:
/// each post's tag list becomes exactly the rows keyed by its identifier,
/// in row order, and every other field is left alone. An empty page needs
/// no rows and comes back empty.
pub fn hydrate_tags(posts: Vec<Post>, rows: &Vec<TagRow>) -> (r: Vec<Post>)
    ensures
        r@.len() == posts@.len(),
        forall|i: int| 0 <= i < posts@.len() ==> hydrated(#[trigger] r@[i], posts@[i], rows@),
{
    let ghost orig = posts@;
    let mut posts = posts;
    let mut out: Vec<Post> = Vec::new();
    while posts.len() > 0
        invariant
            out@.len() + posts@.len() == orig.len(),
            posts@ == orig.subrange(out@.len() as int, orig.len() as int),
            forall|i: int| 0 <= i < out@.len() ==> hydrated(#[trigger] out@[i], orig[i], rows@),
        decreases posts@.len(),
    {
        let mut p = posts.remove(0);
        let tags = collect_tags_for(rows, p.id);
        p.tags = tags;
        out.push(p);
        proof {
            assert(posts@ =~= orig.subrange(out@.len() as int, orig.len() as int));
        }
    }
    out
}

/// Hydration is idempotent: because each tag list is replaced whole, a
/// second pass over the same rows leaves every field, the tag list
/// included, exactly as the first pass left it.
pub proof fn lemma_hydrate_twice(first: Post, again: Post, before: Post, rows: Seq<TagRow>)
    requires
        hydrated(first, before, rows),
        hydrated(again, first, rows),
    ensures
        again.tags@ == first.tags@,
        again.id == first.id,
        again.title == first.title,
        again.body == first.body,
        again.created_by == first.created_by,
        again.slug == first.slug,
        again.photo_url == first.photo_url,
        again.created_at == first.created_at,
        again.updated_at == first.updated_at,
        again.deleted_at == first.deleted_at,
        again.published == first.published,
        again.view_count == first.view_count,
        again.like_count == first.like_count,
        again.creator == first.creator,
{
}

} // verus!
