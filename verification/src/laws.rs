//! The laws the retrieval operations obey, stated over the same spec
//! functions their contracts use and proved once and for all: pagination
//! never bends the total, unknown sort fields act like omitted ones, the
//! lookup is deterministic, and an unknown tag yields an empty listing
//! rather than an error.

use vstd::prelude::*;
use crate::models::Post;
use crate::query::OrderDirection;
use crate::query::OrderField;
use crate::query::clamp0_spec;
use crate::query::direction_spec;
use crate::query::order_field_spec;
use crate::query::whitelisted_field;
use crate::services::find_detail;
use crate::services::lemma_find_detail_found;
use crate::services::list_result;
use crate::services::listed_post;
use crate::services::lookup_result;
use crate::services::page_of;
use crate::store::PostRecord;
use crate::store::Store;
use crate::store::has_tag_named;
use crate::store::lemma_select_where_pred;
use crate::store::lemma_sort_recs_len;
use crate::store::lemma_sort_recs_ordered;
use crate::store::lemma_sort_tags_ordered;
use crate::store::listing_pred;
use crate::store::rec_le;
use crate::store::selected_records;
use crate::store::sort_recs;
use crate::store::tags_of_post;
use crate::store::tags_ordered;
use crate::text::seq_char_le;

verus! {

/// The requested order, read off two returned posts.
pub open spec fn post_le(a: Post, b: Post, f: OrderField, d: OrderDirection) -> bool {
    let ascending = match f {
        OrderField::Id => a.id <= b.id,
        OrderField::Title => seq_char_le(a.title@, b.title@),
        OrderField::CreatedAt => a.created_at <= b.created_at,
        OrderField::UpdatedAt => a.updated_at <= b.updated_at,
        OrderField::ViewCount => a.view_count <= b.view_count,
        OrderField::LikeCount => a.like_count <= b.like_count,
    };
    let descending = match f {
        OrderField::Id => b.id <= a.id,
        OrderField::Title => seq_char_le(b.title@, a.title@),
        OrderField::CreatedAt => b.created_at <= a.created_at,
        OrderField::UpdatedAt => b.updated_at <= a.updated_at,
        OrderField::ViewCount => b.view_count <= a.view_count,
        OrderField::LikeCount => b.like_count <= a.like_count,
    };
    match d {
        OrderDirection::Asc => ascending,
        OrderDirection::Desc => descending,
    }
}

/// Every page comes back in the requested order: adjacent posts of a
/// listing stand in the validated sort field and direction.
pub proof fn lemma_listing_is_ordered(
    store: Store,
    tag: Option<&str>,
    offset: i64,
    limit: i64,
    search: Option<&str>,
    order_by: Option<&str>,
    order_direction: Option<OrderDirection>,
    posts: Seq<Post>,
    total: i64,
)
    requires
        list_result(store, tag, offset, limit, search, order_by, order_direction, posts, total),
    ensures
        forall|i: int|
            0 <= i < posts.len() - 1 ==> #[trigger] post_le(
                posts[i],
                posts[i + 1],
                order_field_spec(order_by),
                direction_spec(order_direction),
            ),
{
    let f = order_field_spec(order_by);
    let d = direction_spec(order_direction);
    let sel = selected_records(store, tag, search);
    let sorted = sort_recs(sel, f, d);
    let page = page_of(sorted, offset, limit);
    lemma_sort_recs_ordered(sel, f, d);
    assert forall|i: int| 0 <= i < posts.len() - 1 implies #[trigger] post_le(
        posts[i],
        posts[i + 1],
        f,
        d,
    ) by {
        let o = clamp0_spec(offset) as int;
        let start = if o > sorted.len() {
            sorted.len() as int
        } else {
            o
        };
        assert(page[i] == sorted[start + i] && page[i + 1] == sorted[start + i + 1]);
        assert(rec_le(sorted[start + i], sorted[start + i + 1], f, d));
        assert(listed_post(posts[i], page[i], store, true));
        assert(listed_post(posts[i + 1], page[i + 1], store, true));
    }
}

/// Every tag list a returned post carries is ordered by tag name.
pub proof fn lemma_result_tags_ordered(p: Post, rec: PostRecord, store: Store, truncate: bool)
    requires
        listed_post(p, rec, store, truncate),
    ensures
        tags_ordered(p.tags@),
{
    lemma_sort_tags_ordered(tags_of_post(store, rec.id));
}

/// For a fixed filter, the total a listing reports does not depend on the
/// pagination window, and a page never exceeds its clamped limit.
pub proof fn lemma_pagination_bounds(
    store: Store,
    tag: Option<&str>,
    search: Option<&str>,
    order_by: Option<&str>,
    order_direction: Option<OrderDirection>,
    offset1: i64,
    limit1: i64,
    posts1: Seq<Post>,
    total1: i64,
    offset2: i64,
    limit2: i64,
    posts2: Seq<Post>,
    total2: i64,
)
    requires
        list_result(store, tag, offset1, limit1, search, order_by, order_direction, posts1, total1),
        list_result(store, tag, offset2, limit2, search, order_by, order_direction, posts2, total2),
    ensures
        total1 == total2,
        posts1.len() <= clamp0_spec(limit1),
        posts2.len() <= clamp0_spec(limit2),
{
}

/// A sort field outside the whitelist acts exactly like omitting the sort
/// field: the two listings admit the same results.
pub proof fn lemma_unknown_order_by_defaults(
    store: Store,
    tag: Option<&str>,
    offset: i64,
    limit: i64,
    search: Option<&str>,
    bad: &str,
    order_direction: Option<OrderDirection>,
)
    requires
        whitelisted_field(bad@) is None,
    ensures
        order_field_spec(Some(bad)) == order_field_spec(None),
        forall|posts: Seq<Post>, total: i64|
            #[trigger] list_result(
                store,
                tag,
                offset,
                limit,
                search,
                Some(bad),
                order_direction,
                posts,
                total,
            ) == list_result(
                store,
                tag,
                offset,
                limit,
                search,
                None,
                order_direction,
                posts,
                total,
            ),
{
}

/// The two fields a repeated lookup could differ in beyond plain equality
/// are its strings and its tag vector; this spells out that every field
/// agrees, the tag lists as sequences.
pub open spec fn same_post(p1: Post, p2: Post) -> bool {
    &&& p1.id == p2.id
    &&& p1.title == p2.title
    &&& p1.body == p2.body
    &&& p1.created_by == p2.created_by
    &&& p1.slug == p2.slug
    &&& p1.photo_url == p2.photo_url
    &&& p1.created_at == p2.created_at
    &&& p1.updated_at == p2.updated_at
    &&& p1.deleted_at == p2.deleted_at
    &&& p1.published == p2.published
    &&& p1.view_count == p2.view_count
    &&& p1.like_count == p2.like_count
    &&& p1.creator == p2.creator
    &&& p1.tags@ == p2.tags@
}

/// The single-post lookup is idempotent: against unchanged data, two
/// lookups with the same key find a value together and agree on every
/// field of it.
pub proof fn lemma_lookup_idempotent(
    store: Store,
    username: &str,
    slug: &str,
    r1: Option<Post>,
    r2: Option<Post>,
)
    requires
        lookup_result(store, username, slug, r1),
        lookup_result(store, username, slug, r2),
    ensures
        (r1 is Some) == (r2 is Some),
        r1 matches Some(p1) ==> (r2 matches Some(p2) ==> same_post(p1, p2)),
{
}

/// Whatever the lookup returns is a published post: the key only ever
/// matches visible rows.
pub proof fn lemma_lookup_returns_published(
    store: Store,
    username: &str,
    slug: &str,
    r: Option<Post>,
)
    requires
        lookup_result(store, username, slug, r),
    ensures
        r matches Some(p) ==> p.published,
{
    lemma_find_detail_found(store.posts@, store.users@, username, slug);
}

/// Filtering by a tag name no stored tag carries yields an empty listing
/// with a zero total — never an error.
pub proof fn lemma_unknown_tag_empty(
    store: Store,
    tag: &str,
    offset: i64,
    limit: i64,
    search: Option<&str>,
    order_by: Option<&str>,
    order_direction: Option<OrderDirection>,
)
    requires
        forall|k: int| 0 <= k < store.tags@.len() ==> (#[trigger] store.tags@[k]).name@ != tag@,
    ensures
        selected_records(store, Some(tag), search).len() == 0,
        forall|posts: Seq<Post>, total: i64|
            #[trigger] list_result(
                store,
                Some(tag),
                offset,
                limit,
                search,
                order_by,
                order_direction,
                posts,
                total,
            ) ==> total == 0 && posts.len() == 0,
{
    let pred = listing_pred(store, Some(tag), search);
    let sel = selected_records(store, Some(tag), search);
    lemma_select_where_pred(store.posts@, pred);
    if sel.len() > 0 {
        assert(pred(sel[0]));
        assert(has_tag_named(store, sel[0].id, tag));
        let k = choose|k: int|
            0 <= k < store.tags@.len() && (#[trigger] store.tags@[k]).name@ == tag@
                && crate::store::has_link(store.post_tags@, sel[0].id, store.tags@[k].id);
        assert(false);
    }
    assert forall|posts: Seq<Post>, total: i64|
        #[trigger] list_result(
            store,
            Some(tag),
            offset,
            limit,
            search,
            order_by,
            order_direction,
            posts,
            total,
        ) implies total == 0 && posts.len() == 0 by {
        lemma_sort_recs_len(
            sel,
            order_field_spec(order_by),
            crate::query::direction_spec(order_direction),
        );
    }
}

} // verus!
