//! The retrieval operations, verified against the in-memory store: the
//! general listing, the tag-filtered listing, the random sample, the
//! single-post lookup, and the tag listing. Each operation's result is
//! pinned, row for row and field for field, to a spec-level pipeline:
//! select the visible rows, order them, cut the page, map each row to a
//! post with its embedded creator, and fill its tag list.

use vstd::prelude::*;
use crate::mapper::PostRow;
use crate::mapper::map_post_row;
use crate::mapper::truncated_body_spec;
use crate::models::Post;
use crate::models::Tag;
use crate::models::clone_tag;
use crate::query::OrderDirection;
use crate::query::OrderField;
use crate::query::clamp0_spec;
use crate::query::clamp_non_negative;
use crate::query::direction_spec;
use crate::query::order_field_spec;
use crate::query::validate_order_direction;
use crate::query::validate_order_field;
use crate::store::PostRecord;
use crate::store::Store;
use crate::store::clone_post_record;
use crate::store::lemma_select_where_len;
use crate::store::lemma_select_where_members;
use crate::store::lemma_select_where_pred;
use crate::store::lemma_sort_recs_len;
use crate::store::lemma_sort_recs_members;
use crate::store::listing_pred;
use crate::store::lookup_username;
use crate::store::post_tags_sorted;
use crate::store::select_posts;
use crate::store::selected_records;
use crate::store::sort_post_records;
use crate::store::sort_recs;
use crate::store::sort_tag_records;
use crate::store::sort_tags;
use crate::store::sorted_tags_of;
use crate::store::user_exists;
use crate::store::username_string_of;
use crate::store::visible_record;
use crate::text::str_eq;

verus! {

/// The page a pagination window cuts from the ordered rows: up to `limit`
/// rows starting at `offset`, both clamped to be non-negative, shrunk at
/// the end of the data.
pub open spec fn page_of(s: Seq<PostRecord>, offset: i64, limit: i64) -> Seq<PostRecord> {
    let o = clamp0_spec(offset) as int;
    let l = clamp0_spec(limit) as int;
    let start = if o > s.len() {
        s.len() as int
    } else {
        o
    };
    let end = if o + l > s.len() {
        s.len() as int
    } else {
        o + l
    };
    s.subrange(start, end)
}

/// Cuts the pagination window out of the ordered rows.
fn page_records(recs: &Vec<PostRecord>, offset: i64, limit: i64) -> (r: Vec<PostRecord>)
    ensures
        r@ == page_of(recs@, offset, limit),
{
    let len = recs.len();
    let o = clamp_non_negative(offset);
    let l = clamp_non_negative(limit);
    let start: usize = if (o as u64) > (len as u64) {
        len
    } else {
        o as usize
    };
    let remaining = len - start;
    let take: usize = if (l as u64) > (remaining as u64) {
        remaining
    } else {
        l as usize
    };
    let end = start + take;
    let mut out: Vec<PostRecord> = Vec::new();
    let mut j: usize = start;
    while j < end
        invariant
            start <= j <= end <= recs@.len(),
            out@ == recs@.subrange(start as int, j as int),
        decreases end - j,
    {
        out.push(clone_post_record(&recs[j]));
        proof {
            assert(recs@.subrange(start as int, j + 1) =~= recs@.subrange(start as int, j as int)
                + seq![recs@[j as int]]);
        }
        j = j + 1;
    }
    proof {
        assert(out@ =~= page_of(recs@, offset, limit));
    }
    out
}

/// How a returned post relates to the stored row it came from: every
/// column carried over (the body as its list preview when `truncate`
/// holds, whole otherwise), the creator resolved and embedded, and the
/// post's tags, ordered by name, as its tag list.
pub open spec fn listed_post(p: Post, rec: PostRecord, store: Store, truncate: bool) -> bool {
    &&& p.id == rec.id
    &&& p.title == rec.title
    &&& (if truncate {
        &&& (p.body is Some <==> rec.body is Some)
        &&& (rec.body is Some ==> p.body->Some_0@ == truncated_body_spec(rec.body->Some_0@))
    } else {
        p.body == rec.body
    })
    &&& p.created_by == rec.created_by
    &&& p.slug == rec.slug
    &&& p.photo_url == rec.photo_url
    &&& p.created_at == rec.created_at
    &&& p.updated_at == rec.updated_at
    &&& p.deleted_at == rec.deleted_at
    &&& p.published == rec.published
    &&& p.view_count == rec.view_count
    &&& p.like_count == rec.like_count
    &&& p.creator.id == rec.created_by
    &&& p.creator.username == username_string_of(store.users@, rec.created_by)
    &&& p.tags@ == sorted_tags_of(store, rec.id)
}

/// Maps one stored row to the post the operation returns: resolves the
/// creator, maps the columns, and fills the tag list.
fn build_post(store: &Store, rec: PostRecord, truncate: bool) -> (p: Post)
    requires
        user_exists(store.users@, rec.created_by),
    ensures
        listed_post(p, rec, *store, truncate),
{
    let username = lookup_username(&store.users, rec.created_by);
    let tags = post_tags_sorted(store, rec.id);
    let row = PostRow {
        id: rec.id,
        title: rec.title,
        body: rec.body,
        created_by: rec.created_by,
        slug: rec.slug,
        photo_url: rec.photo_url,
        created_at: rec.created_at,
        updated_at: rec.updated_at,
        deleted_at: rec.deleted_at,
        published: rec.published,
        view_count: rec.view_count,
        like_count: rec.like_count,
        user_id: rec.created_by,
        username,
    };
    let mut p = map_post_row(row, truncate);
    p.tags = tags;
    p
}

/// What a paginated listing returns: the total is the number of selected
/// rows — independent of the pagination window — and the posts are, in
/// order, the rows of the page cut from the sorted selection, each mapped
/// with its body truncated for the list view.
pub open spec fn list_result(
    store: Store,
    tag: Option<&str>,
    offset: i64,
    limit: i64,
    search: Option<&str>,
    order_by: Option<&str>,
    order_direction: Option<OrderDirection>,
    posts: Seq<Post>,
    total: i64,
) -> bool {
    let sel = selected_records(store, tag, search);
    let page = page_of(
        sort_recs(sel, order_field_spec(order_by), direction_spec(order_direction)),
        offset,
        limit,
    );
    &&& total as int == sel.len()
    &&& posts.len() == page.len()
    &&& forall|i: int|
        0 <= i < page.len() ==> listed_post(#[trigger] posts[i], page[i], store, true)
}

/// Every row of the page is a selected row: it satisfies the listing
/// predicate and its creator exists in the store.
proof fn lemma_page_members(
    store: Store,
    tag: Option<&str>,
    search: Option<&str>,
    f: OrderField,
    d: OrderDirection,
    offset: i64,
    limit: i64,
)
    requires
        store.wf(),
    ensures
        forall|i: int|
            0 <= i < page_of(sort_recs(selected_records(store, tag, search), f, d), offset, limit).len()
                ==> {
                let rec = #[trigger] page_of(
                    sort_recs(selected_records(store, tag, search), f, d),
                    offset,
                    limit,
                )[i];
                &&& listing_pred(store, tag, search)(rec)
                &&& user_exists(store.users@, rec.created_by)
            },
{
    let pred = listing_pred(store, tag, search);
    let sel = selected_records(store, tag, search);
    let sorted = sort_recs(sel, f, d);
    let page = page_of(sorted, offset, limit);
    lemma_sort_recs_members(sel, f, d);
    lemma_select_where_members(store.posts@, pred);
    lemma_select_where_pred(store.posts@, pred);
    assert forall|i: int| #![trigger page[i]] 0 <= i < page.len() implies {
        let rec = page[i];
        &&& pred(rec)
        &&& user_exists(store.users@, rec.created_by)
    } by {
        let rec = page[i];
        assert(sorted.contains(rec));
        assert(sel.contains(rec));
        let j = choose|j: int| 0 <= j < sel.len() && sel[j] == rec;
        assert(pred(sel[j]));
        assert(store.posts@.contains(rec));
        let k = choose|k: int| 0 <= k < store.posts@.len() && store.posts@[k] == rec;
        assert(user_exists(store.users@, store.posts@[k].created_by));
    }
}

/// The shared listing pipeline: select, count, sort, page, map.
fn list_posts(
    store: &Store,
    tag: Option<&str>,
    offset: i64,
    limit: i64,
    search: Option<&str>,
    order_by: Option<&str>,
    order_direction: Option<OrderDirection>,
) -> (r: (Vec<Post>, i64))
    requires
        store.wf(),
        store.posts@.len() <= i64::MAX,
    ensures
        list_result(*store, tag, offset, limit, search, order_by, order_direction, r.0@, r.1),
        r.0@.len() <= clamp0_spec(limit),
        forall|i: int| 0 <= i < r.0@.len() ==> (#[trigger] r.0@[i]).published,
{
    let ghost pred = listing_pred(*store, tag, search);
    let ghost f = order_field_spec(order_by);
    let ghost d = direction_spec(order_direction);
    let sel = select_posts(store, tag, search);
    proof {
        lemma_select_where_len(store.posts@, pred);
    }
    let total = sel.len() as i64;
    let ghost sel_view = sel@;
    let field = validate_order_field(order_by);
    let dir = validate_order_direction(order_direction);
    let sorted = sort_post_records(sel, field, dir);
    let page = page_records(&sorted, offset, limit);
    let ghost page_view = page@;
    proof {
        lemma_page_members(*store, tag, search, f, d, offset, limit);
        lemma_sort_recs_len(sel_view, f, d);
    }
    let mut page = page;
    let mut out: Vec<Post> = Vec::new();
    while page.len() > 0
        invariant
            store.wf(),
            out@.len() + page@.len() == page_view.len(),
            page@ == page_view.subrange(out@.len() as int, page_view.len() as int),
            forall|k: int|
                0 <= k < page_view.len() ==> {
                    let rec = #[trigger] page_view[k];
                    &&& listing_pred(*store, tag, search)(rec)
                    &&& user_exists(store.users@, rec.created_by)
                },
            forall|k: int|
                0 <= k < out@.len() ==> listed_post(#[trigger] out@[k], page_view[k], *store, true),
        decreases page@.len(),
    {
        let rec = page.remove(0);
        proof {
            assert(rec == page_view[out@.len() as int]);
            assert(listing_pred(*store, tag, search)(rec));
        }
        let p = build_post(store, rec, true);
        out.push(p);
        proof {
            assert(page@ =~= page_view.subrange(out@.len() as int, page_view.len() as int));
        }
    }
    proof {
        assert forall|i: int| 0 <= i < out@.len() implies (#[trigger] out@[i]).published by {
            assert(listing_pred(*store, tag, search)(page_view[i]));
            assert(visible_record(page_view[i]));
        }
    }
    (out, total)
}

/// Lists published posts matching the optional search filter, under the
/// validated sort, paginated. Returns the page and the total count of
/// matching posts.
pub fn get_all_posts(
    store: &Store,
    offset: i64,
    limit: i64,
    search: Option<&str>,
    order_by: Option<&str>,
    order_direction: Option<OrderDirection>,
) -> (r: (Vec<Post>, i64))
    requires
        store.wf(),
        store.posts@.len() <= i64::MAX,
    ensures
        list_result(*store, None, offset, limit, search, order_by, order_direction, r.0@, r.1),
        r.0@.len() <= clamp0_spec(limit),
        forall|i: int| 0 <= i < r.0@.len() ==> (#[trigger] r.0@[i]).published,
{
    list_posts(store, None, offset, limit, search, order_by, order_direction)
}

/// Lists published posts carrying the given tag (exact name match),
/// otherwise as `get_all_posts`. The total counts distinct posts, not
/// post-tag pairs.
pub fn get_posts_by_tag(
    store: &Store,
    tag_name: &str,
    offset: i64,
    limit: i64,
    search: Option<&str>,
    order_by: Option<&str>,
    order_direction: Option<OrderDirection>,
) -> (r: (Vec<Post>, i64))
    requires
        store.wf(),
        store.posts@.len() <= i64::MAX,
    ensures
        list_result(
            *store,
            Some(tag_name),
            offset,
            limit,
            search,
            order_by,
            order_direction,
            r.0@,
            r.1,
        ),
        r.0@.len() <= clamp0_spec(limit),
        forall|i: int| 0 <= i < r.0@.len() ==> (#[trigger] r.0@[i]).published,
{
    list_posts(store, Some(tag_name), offset, limit, search, order_by, order_direction)
}

/// The post is one selected row of the store, mapped for a list view.
pub open spec fn sample_member(p: Post, store: Store) -> bool {
    exists|j: int|
        0 <= j < selected_records(store, None, None).len() && listed_post(
            p,
            selected_records(store, None, None)[j],
            store,
            true,
        )
}

/// Returns up to `limit` published posts in a seed-driven pseudo-random
/// order: never more than the store holds, never a post twice, never an
/// unpublished or soft-deleted post. The caller supplies the entropy; no
/// determinism is promised across seeds, and none is taken away for a
/// fixed seed.
pub fn get_random_posts(store: &Store, limit: i64, seed: u64) -> (r: Vec<Post>)
    requires
        store.wf(),
    ensures
        r@.len() == if clamp0_spec(limit) as int <= selected_records(*store, None, None).len() {
            clamp0_spec(limit) as int
        } else {
            selected_records(*store, None, None).len() as int
        },
        forall|i: int| 0 <= i < r@.len() ==> sample_member(#[trigger] r@[i], *store),
        forall|i: int| 0 <= i < r@.len() ==> (#[trigger] r@[i]).published,
        forall|i: int, j: int| 0 <= i < j < r@.len() ==> r@[i].id != r@[j].id,
{
    let ghost pred = listing_pred(*store, None, None);
    let mut pool = select_posts(store, None, None);
    let ghost sel = pool@;
    proof {
        lemma_select_where_pred(store.posts@, pred);
        lemma_select_where_members(store.posts@, pred);
        crate::store::lemma_select_where_distinct_ids(store.posts@, pred);
        assert forall|k: int| 0 <= k < sel.len() implies sel.contains(#[trigger] sel[k]) by {}
    }
    let n = pool.len();
    let lim = clamp_non_negative(limit);
    let count: usize = if (lim as u64) < (n as u64) {
        lim as usize
    } else {
        n
    };
    let mut state = seed;
    let mut out: Vec<Post> = Vec::new();
    while out.len() < count
        invariant
            store.wf(),
            count <= sel.len(),
            out@.len() <= count,
            pool@.len() + out@.len() == sel.len(),
            forall|k: int| 0 <= k < pool@.len() ==> sel.contains(#[trigger] pool@[k]),
            forall|k: int, l: int| 0 <= k < l < pool@.len() ==> pool@[k].id != pool@[l].id,
            forall|k: int| 0 <= k < out@.len() ==> sample_member(#[trigger] out@[k], *store),
            forall|k: int| 0 <= k < out@.len() ==> (#[trigger] out@[k]).published,
            forall|k: int, l: int| 0 <= k < l < out@.len() ==> out@[k].id != out@[l].id,
            forall|k: int, l: int|
                0 <= k < out@.len() && 0 <= l < pool@.len() ==> (#[trigger] out@[k]).id != (
                #[trigger] pool@[l]).id,
            sel == selected_records(*store, None, None),
        decreases count - out@.len(),
    {
        let remaining = pool.len();
        let idx = (state % (remaining as u64)) as usize;
        state = state ^ (state << 13u64);
        state = state ^ (state >> 7u64);
        state = state ^ (state << 17u64);
        let ghost before = pool@;
        let rec = pool.remove(idx);
        proof {
            lemma_select_where_pred(store.posts@, listing_pred(*store, None, None));
            lemma_select_where_members(store.posts@, listing_pred(*store, None, None));
            assert(pool@ =~= before.subrange(0, idx as int) + before.subrange(
                idx + 1,
                before.len() as int,
            ));
            assert(sel.contains(rec));
            let j = choose|j: int| 0 <= j < sel.len() && sel[j] == rec;
            assert(listing_pred(*store, None, None)(sel[j]));
            assert(store.posts@.contains(rec));
            let k = choose|k: int| 0 <= k < store.posts@.len() && store.posts@[k] == rec;
            assert(user_exists(store.users@, store.posts@[k].created_by));
            assert forall|l: int| 0 <= l < pool@.len() implies sel.contains(#[trigger] pool@[l])
                && pool@[l].id != rec.id by {
                if l < idx {
                    assert(pool@[l] == before[l]);
                } else {
                    assert(pool@[l] == before[l + 1]);
                }
            }
        }
        let ghost j = choose|j: int| 0 <= j < sel.len() && sel[j] == rec;
        let p = build_post(store, rec, true);
        out.push(p);
        proof {
            assert(listed_post(out@.last(), sel[j], *store, true));
            assert(sample_member(out@.last(), *store));
        }
    }
    out
}

/// The lookup key matches one stored row: visible, the creator's username
/// equal to the given one, the slug equal to the given one. Both matches
/// are exact.
pub open spec fn detail_match(
    rec: PostRecord,
    users: Seq<crate::models::User>,
    username: &str,
    slug: &str,
) -> bool {
    &&& visible_record(rec)
    &&& username_string_of(users, rec.created_by)@ == username@
    &&& rec.slug@ == slug@
}

/// The first stored row the lookup key matches, if any.
pub open spec fn find_detail(
    posts: Seq<PostRecord>,
    users: Seq<crate::models::User>,
    username: &str,
    slug: &str,
) -> Option<PostRecord>
    decreases posts.len(),
{
    if posts.len() == 0 {
        None
    } else if detail_match(posts[0], users, username, slug) {
        Some(posts[0])
    } else {
        find_detail(posts.drop_first(), users, username, slug)
    }
}

/// Skipping non-matching rows leaves the lookup unchanged.
proof fn lemma_find_detail_skip(
    posts: Seq<PostRecord>,
    users: Seq<crate::models::User>,
    username: &str,
    slug: &str,
    i: int,
)
    requires
        0 <= i <= posts.len(),
        forall|k: int| 0 <= k < i ==> !detail_match(#[trigger] posts[k], users, username, slug),
    ensures
        find_detail(posts, users, username, slug) == find_detail(
            posts.skip(i),
            users,
            username,
            slug,
        ),
    decreases i,
{
    if i > 0 {
        lemma_find_detail_skip(posts.drop_first(), users, username, slug, i - 1);
        assert(posts.drop_first().skip(i - 1) =~= posts.skip(i));
    } else {
        assert(posts.skip(0) =~= posts);
    }
}

/// The lookup returned a value exactly when some visible row matches the
/// key, and then the first such row, mapped for the detail view: body
/// whole, tags ordered by name.
pub open spec fn lookup_result(store: Store, username: &str, slug: &str, r: Option<Post>) -> bool {
    &&& (r is Some) == (find_detail(store.posts@, store.users@, username, slug) is Some)
    &&& (r matches Some(p) ==> listed_post(
        p,
        find_detail(store.posts@, store.users@, username, slug)->Some_0,
        store,
        false,
    ))
}

/// The row the lookup finds, when it finds one, matches the key and is a
/// stored row.
pub proof fn lemma_find_detail_found(
    posts: Seq<PostRecord>,
    users: Seq<crate::models::User>,
    username: &str,
    slug: &str,
)
    ensures
        find_detail(posts, users, username, slug) matches Some(rec) ==> detail_match(
            rec,
            users,
            username,
            slug,
        ) && posts.contains(rec),
    decreases posts.len(),
{
    if posts.len() > 0 && !detail_match(posts[0], users, username, slug) {
        lemma_find_detail_found(posts.drop_first(), users, username, slug);
        let found = find_detail(posts, users, username, slug);
        if found is Some {
            let rec = found->Some_0;
            assert(posts.drop_first().contains(rec));
            let k = choose|k: int|
                0 <= k < posts.drop_first().len() && posts.drop_first()[k] == rec;
            assert(posts[k + 1] == rec);
        }
    }
}

/// Resolves at most one published post by its creator's username and its
/// slug. Absence is a result, not an error: `None` exactly when no visible
/// row matches. The body comes back whole — this is the detail view — and
/// the tags ordered by name.
pub fn get_post_by_username_and_slug(store: &Store, username: &str, slug: &str) -> (r: Option<
    Post,
>)
    requires
        store.wf(),
    ensures
        lookup_result(*store, username, slug, r),
{
    let mut i: usize = 0;
    while i < store.posts.len()
        invariant
            store.wf(),
            0 <= i <= store.posts@.len(),
            forall|k: int|
                0 <= k < i ==> !detail_match(
                    #[trigger] store.posts@[k],
                    store.users@,
                    username,
                    slug,
                ),
        decreases store.posts@.len() - i,
    {
        let rec = &store.posts[i];
        if rec.published && rec.deleted_at.is_none() {
            let creator_name = lookup_username(&store.users, rec.created_by);
            if str_eq(creator_name.as_str(), username) && str_eq(rec.slug.as_str(), slug) {
                proof {
                    lemma_find_detail_skip(store.posts@, store.users@, username, slug, i as int);
                    assert(store.posts@.skip(i as int)[0] == store.posts@[i as int]);
                }
                let owned = clone_post_record(rec);
                return Some(build_post(store, owned, false));
            }
        }
        i = i + 1;
    }
    proof {
        lemma_find_detail_skip(
            store.posts@,
            store.users@,
            username,
            slug,
            store.posts@.len() as int,
        );
        assert(store.posts@.skip(store.posts@.len() as int).len() == 0);
    }
    None
}

/// Lists every tag, ordered by name, unpaginated.
pub fn get_all_tags(store: &Store) -> (r: Vec<Tag>)
    ensures
        r@ == sort_tags(store.tags@),
{
    let mut all: Vec<Tag> = Vec::new();
    let mut i: usize = 0;
    while i < store.tags.len()
        invariant
            0 <= i <= store.tags@.len(),
            all@ == store.tags@.subrange(0, i as int),
        decreases store.tags@.len() - i,
    {
        all.push(clone_tag(&store.tags[i]));
        proof {
            assert(store.tags@.subrange(0, i + 1) =~= store.tags@.subrange(0, i as int) + seq![
                store.tags@[i as int],
            ]);
        }
        i = i + 1;
    }
    proof {
        assert(all@ =~= store.tags@);
    }
    sort_tag_records(all)
}

} // verus!
