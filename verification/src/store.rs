//! The relational data the retrieval operations read, held in memory as
//! plain rows: posts, users, tags and the post-tag join relation. The
//! retrieval semantics — which rows are visible, what a search matches,
//! how a page is cut — are spec functions over these rows, and the
//! executable helpers here are proved to compute them exactly.

use vstd::prelude::*;
use vstd::multiset::Multiset;
use crate::models::Tag;
use crate::models::User;
use crate::models::clone_opt_string;
use crate::text::contains_ci;
use crate::text::seq_char_le;
use crate::text::str_contains_ci;
use crate::text::str_le;
use crate::query::OrderDirection;
use crate::query::OrderField;

verus! {

/// One stored post row, without its joined creator or tags.
pub struct PostRecord {
    pub id: u128,
    pub title: String,
    pub body: Option<String>,
    pub created_by: u128,
    pub slug: String,
    pub photo_url: Option<String>,
    pub created_at: i64,
    pub updated_at: i64,
    pub deleted_at: Option<i64>,
    pub published: bool,
    pub view_count: i64,
    pub like_count: i64,
}

/// One row of the many-to-many relation between posts and tags.
pub struct PostTagLink {
    pub post_id: u128,
    pub tag_id: i32,
}

/// The relational store the retrieval operations read: four tables of
/// plain rows.
pub struct Store {
    pub users: Vec<User>,
    pub posts: Vec<PostRecord>,
    pub tags: Vec<Tag>,
    pub post_tags: Vec<PostTagLink>,
}

/// Some user carries the given identifier.
pub open spec fn user_exists(users: Seq<User>, id: u128) -> bool {
    exists|k: int| 0 <= k < users.len() && users[k].id == id
}

impl Store {
    /// Referential integrity the schema promises: every post's creator
    /// exists, and post identifiers are unique.
    pub open spec fn wf(self) -> bool {
        &&& forall|i: int|
            0 <= i < self.posts@.len() ==> user_exists(
                self.users@,
                (#[trigger] self.posts@[i]).created_by,
            )
        &&& forall|i: int, j: int|
            0 <= i < j < self.posts@.len() ==> self.posts@[i].id != self.posts@[j].id
    }
}

/// The username of the first user carrying the given identifier.
pub open spec fn username_string_of(users: Seq<User>, id: u128) -> String
    decreases users.len(),
{
    if users.len() == 0 {
        arbitrary()
    } else if users[0].id == id {
        users[0].username
    } else {
        username_string_of(users.drop_first(), id)
    }
}

/// Skipping non-matching users leaves the lookup unchanged.
proof fn lemma_username_of_skip(users: Seq<User>, id: u128, i: int)
    requires
        0 <= i <= users.len(),
        forall|k: int| 0 <= k < i ==> users[k].id != id,
    ensures
        username_string_of(users, id) == username_string_of(users.skip(i), id),
    decreases i,
{
    if i > 0 {
        lemma_username_of_skip(users.drop_first(), id, i - 1);
        assert(users.drop_first().skip(i - 1) =~= users.skip(i));
    } else {
        assert(users.skip(0) =~= users);
    }
}

/// Resolves a creator identifier to its username: the embedded-creator
/// column pair of the join.
pub fn lookup_username(users: &Vec<User>, id: u128) -> (r: String)
    requires
        user_exists(users@, id),
    ensures
        r == username_string_of(users@, id),
{
    let mut i: usize = 0;
    while i < users.len()
        invariant
            user_exists(users@, id),
            0 <= i <= users@.len(),
            forall|k: int| 0 <= k < i ==> users@[k].id != id,
        decreases users@.len() - i,
    {
        if users[i].id == id {
            proof {
                lemma_username_of_skip(users@, id, i as int);
                assert(users@.skip(i as int)[0] == users@[i as int]);
            }
            return users[i].username.clone();
        }
        i = i + 1;
    }
    proof {
        assert(false);
    }
    String::new()
}

/// An exact copy of a stored post row.
pub fn clone_post_record(r: &PostRecord) -> (c: PostRecord)
    ensures
        c == *r,
{
    PostRecord {
        id: r.id,
        title: r.title.clone(),
        body: clone_opt_string(&r.body),
        created_by: r.created_by,
        slug: r.slug.clone(),
        photo_url: clone_opt_string(&r.photo_url),
        created_at: r.created_at,
        updated_at: r.updated_at,
        deleted_at: r.deleted_at,
        published: r.published,
        view_count: r.view_count,
        like_count: r.like_count,
    }
}

/// The elements of a sequence satisfying a predicate, in order.
pub open spec fn select_where<A>(s: Seq<A>, pred: spec_fn(A) -> bool) -> Seq<A>
    decreases s.len(),
{
    if s.len() == 0 {
        Seq::empty()
    } else {
        select_where(s.drop_last(), pred) + (if pred(s.last()) {
            seq![s.last()]
        } else {
            Seq::<A>::empty()
        })
    }
}

/// A selection never grows.
pub proof fn lemma_select_where_len<A>(s: Seq<A>, pred: spec_fn(A) -> bool)
    ensures
        select_where(s, pred).len() <= s.len(),
    decreases s.len(),
{
    if s.len() > 0 {
        lemma_select_where_len(s.drop_last(), pred);
    }
}

/// Every selected element satisfies the predicate.
pub proof fn lemma_select_where_pred<A>(s: Seq<A>, pred: spec_fn(A) -> bool)
    ensures
        forall|i: int| 0 <= i < select_where(s, pred).len() ==> pred(
            #[trigger] select_where(s, pred)[i],
        ),
    decreases s.len(),
{
    if s.len() > 0 {
        lemma_select_where_pred(s.drop_last(), pred);
        let out = select_where(s, pred);
        let sub = select_where(s.drop_last(), pred);
        assert forall|i: int| 0 <= i < out.len() implies pred(out[i]) by {
            if i < sub.len() {
                assert(out[i] == sub[i]);
            } else {
                assert(out[i] == s.last());
            }
        }
    }
}

/// Every selected element occurs in the source.
pub proof fn lemma_select_where_members<A>(s: Seq<A>, pred: spec_fn(A) -> bool)
    ensures
        forall|x: A| select_where(s, pred).contains(x) ==> s.contains(x),
    decreases s.len(),
{
    if s.len() > 0 {
        lemma_select_where_members(s.drop_last(), pred);
        assert forall|x: A| select_where(s, pred).contains(x) implies s.contains(x) by {
            if select_where(s.drop_last(), pred).contains(x) {
                assert(s.drop_last().contains(x));
                let j = choose|j: int|
                    0 <= j < s.drop_last().len() && s.drop_last()[j] == x;
                assert(s[j] == x);
            } else {
                assert(x == s.last());
            }
        }
    }
}

/// Selecting from rows with pairwise-distinct post identifiers yields rows
/// with pairwise-distinct post identifiers.
pub proof fn lemma_select_where_distinct_ids(s: Seq<PostRecord>, pred: spec_fn(PostRecord) -> bool)
    requires
        forall|i: int, j: int| 0 <= i < j < s.len() ==> s[i].id != s[j].id,
    ensures
        forall|i: int, j: int|
            0 <= i < j < select_where(s, pred).len() ==> select_where(s, pred)[i].id
                != select_where(s, pred)[j].id,
    decreases s.len(),
{
    if s.len() > 0 {
        let rest = s.drop_last();
        lemma_select_where_distinct_ids(rest, pred);
        lemma_select_where_members(rest, pred);
        let out = select_where(s, pred);
        let sub = select_where(rest, pred);
        assert forall|i: int, j: int| 0 <= i < j < out.len() implies out[i].id != out[j].id by {
            if j < sub.len() {
            } else {
                assert(out[j] == s.last());
                assert(sub.contains(sub[i]));
                assert(rest.contains(sub[i]));
                let k = choose|k: int| 0 <= k < rest.len() && rest[k] == sub[i];
                assert(s[k] == sub[i]);
                assert(s[k].id != s[s.len() - 1].id);
            }
        }
    }
}

/// A stored row list/lookup queries may return at all: published and not
/// soft-deleted.
pub open spec fn visible_record(p: PostRecord) -> bool {
    p.published && p.deleted_at is None
}

/// What an optional search filter means for one row: no filter passes
/// everything; a search text must occur, case-insensitively and literally,
/// in the title, the body, or the creator's username.
pub open spec fn search_matches(users: Seq<User>, p: PostRecord, search: Option<&str>) -> bool {
    match search {
        None => true,
        Some(s) => contains_ci(p.title@, s@) || (p.body is Some && contains_ci(
            p.body->Some_0@,
            s@,
        )) || contains_ci(username_string_of(users, p.created_by)@, s@),
    }
}

/// Whether the search filter passes one row.
fn record_matches_search(users: &Vec<User>, p: &PostRecord, search: Option<&str>) -> (r: bool)
    requires
        user_exists(users@, p.created_by),
    ensures
        r == search_matches(users@, *p, search),
{
    match search {
        None => true,
        Some(s) => {
            if str_contains_ci(p.title.as_str(), s) {
                return true;
            }
            let body_hit = match &p.body {
                Some(b) => str_contains_ci(b.as_str(), s),
                None => false,
            };
            if body_hit {
                return true;
            }
            let username = lookup_username(users, p.created_by);
            str_contains_ci(username.as_str(), s)
        },
    }
}

/// Some link row joins the given post to the given tag.
pub open spec fn has_link(links: Seq<PostTagLink>, post_id: u128, tag_id: i32) -> bool {
    exists|k: int| 0 <= k < links.len() && links[k].post_id == post_id && links[k].tag_id == tag_id
}

/// Whether a link row joins the given post to the given tag.
fn link_exists(links: &Vec<PostTagLink>, post_id: u128, tag_id: i32) -> (r: bool)
    ensures
        r == has_link(links@, post_id, tag_id),
{
    let mut i: usize = 0;
    while i < links.len()
        invariant
            0 <= i <= links@.len(),
            forall|k: int|
                0 <= k < i ==> !((#[trigger] links@[k]).post_id == post_id && links@[k].tag_id
                    == tag_id),
        decreases links@.len() - i,
    {
        if links[i].post_id == post_id && links[i].tag_id == tag_id {
            return true;
        }
        i = i + 1;
    }
    false
}

/// The post carries a tag with exactly the given name.
pub open spec fn has_tag_named(store: Store, post_id: u128, name: &str) -> bool {
    exists|k: int|
        0 <= k < store.tags@.len() && (#[trigger] store.tags@[k]).name@ == name@ && has_link(
            store.post_tags@,
            post_id,
            store.tags@[k].id,
        )
}

/// Whether the post carries a tag with exactly the given name.
fn record_has_tag(store: &Store, post_id: u128, name: &str) -> (r: bool)
    ensures
        r == has_tag_named(*store, post_id, name),
{
    let mut i: usize = 0;
    while i < store.tags.len()
        invariant
            0 <= i <= store.tags@.len(),
            forall|k: int|
                0 <= k < i ==> !((#[trigger] store.tags@[k]).name@ == name@ && has_link(
                    store.post_tags@,
                    post_id,
                    store.tags@[k].id,
                )),
        decreases store.tags@.len() - i,
    {
        if crate::text::str_eq(store.tags[i].name.as_str(), name) {
            if link_exists(&store.post_tags, post_id, store.tags[i].id) {
                return true;
            }
        }
        i = i + 1;
    }
    false
}

/// Whether one row is drawn from by a list operation: visible, carrying the
/// requested tag when the listing is tag-filtered, and passing the search
/// filter.
pub open spec fn listing_pred(store: Store, tag: Option<&str>, search: Option<&str>) -> spec_fn(
    PostRecord,
) -> bool {
    |p: PostRecord|
        visible_record(p) && (match tag {
            None => true,
            Some(t) => has_tag_named(store, p.id, t),
        }) && search_matches(store.users@, p, search)
}

/// The rows one list operation draws from, in stored order. The page is
/// cut from these rows, and their number is the operation's total — so the
/// total is independent of the pagination window.
pub open spec fn selected_records(store: Store, tag: Option<&str>, search: Option<&str>) -> Seq<
    PostRecord,
> {
    select_where(store.posts@, listing_pred(store, tag, search))
}

/// Collects the rows a list operation draws from, in stored order.
pub fn select_posts(store: &Store, tag: Option<&str>, search: Option<&str>) -> (r: Vec<PostRecord>)
    requires
        store.wf(),
    ensures
        r@ == selected_records(*store, tag, search),
{
    let ghost pred = listing_pred(*store, tag, search);
    let mut out: Vec<PostRecord> = Vec::new();
    let mut i: usize = 0;
    while i < store.posts.len()
        invariant
            store.wf(),
            0 <= i <= store.posts@.len(),
            out@ == select_where(store.posts@.subrange(0, i as int), pred),
            pred == listing_pred(*store, tag, search),
        decreases store.posts@.len() - i,
    {
        let p = &store.posts[i];
        let visible = p.published && p.deleted_at.is_none();
        let keep = if visible {
            let tag_ok = match tag {
                None => true,
                Some(t) => record_has_tag(store, p.id, t),
            };
            if tag_ok {
                record_matches_search(&store.users, p, search)
            } else {
                false
            }
        } else {
            false
        };
        if keep {
            out.push(clone_post_record(p));
        }
        proof {
            assert(store.posts@.subrange(0, i + 1).drop_last() =~= store.posts@.subrange(
                0,
                i as int,
            ));
            assert(store.posts@.subrange(0, i + 1).last() == store.posts@[i as int]);
            assert(keep == pred(store.posts@[i as int]));
        }
        i = i + 1;
    }
    proof {
        assert(store.posts@.subrange(0, store.posts@.len() as int) =~= store.posts@);
    }
    out
}

/// The tags linked to one post, in stored order.
pub open spec fn tags_of_post(store: Store, post_id: u128) -> Seq<Tag> {
    select_where(store.tags@, |t: Tag| has_link(store.post_tags@, post_id, t.id))
}

/// Collects the tags linked to one post, in stored order.
pub fn collect_post_tags(store: &Store, post_id: u128) -> (r: Vec<Tag>)
    ensures
        r@ == tags_of_post(*store, post_id),
{
    let ghost pred = |t: Tag| has_link(store.post_tags@, post_id, t.id);
    let mut out: Vec<Tag> = Vec::new();
    let mut i: usize = 0;
    while i < store.tags.len()
        invariant
            0 <= i <= store.tags@.len(),
            out@ == select_where(store.tags@.subrange(0, i as int), pred),
            pred == (|t: Tag| has_link(store.post_tags@, post_id, t.id)),
        decreases store.tags@.len() - i,
    {
        if link_exists(&store.post_tags, post_id, store.tags[i].id) {
            out.push(crate::models::clone_tag(&store.tags[i]));
        }
        proof {
            assert(store.tags@.subrange(0, i + 1).drop_last() =~= store.tags@.subrange(0, i as int));
            assert(store.tags@.subrange(0, i + 1).last() == store.tags@[i as int]);
        }
        i = i + 1;
    }
    proof {
        assert(store.tags@.subrange(0, store.tags@.len() as int) =~= store.tags@);
    }
    out
}

/// The deterministic order one list operation sorts by: the whitelisted
/// column compared ascending or descending, text columns by code point.
pub open spec fn rec_le(a: PostRecord, b: PostRecord, f: OrderField, d: OrderDirection) -> bool {
    let ascending = match f {
        OrderField::Id => a.id <= b.id,
        OrderField::Title => seq_char_le(a.title@, b.title@),
        OrderField::CreatedAt => a.created_at <= b.created_at,
        OrderField::UpdatedAt => a.updated_at <= b.updated_at,
        OrderField::ViewCount => a.view_count <= b.view_count,
        OrderField::LikeCount => a.like_count <= b.like_count,
    };
    let descending = match f {
        OrderField::Id => b.id <= a.id,
        OrderField::Title => seq_char_le(b.title@, a.title@),
        OrderField::CreatedAt => b.created_at <= a.created_at,
        OrderField::UpdatedAt => b.updated_at <= a.updated_at,
        OrderField::ViewCount => b.view_count <= a.view_count,
        OrderField::LikeCount => b.like_count <= a.like_count,
    };
    match d {
        OrderDirection::Asc => ascending,
        OrderDirection::Desc => descending,
    }
}

/// Compares two rows under the requested order.
fn rec_le_exec(a: &PostRecord, b: &PostRecord, f: OrderField, d: OrderDirection) -> (r: bool)
    ensures
        r == rec_le(*a, *b, f, d),
{
    match d {
        OrderDirection::Asc => match f {
            OrderField::Id => a.id <= b.id,
            OrderField::Title => str_le(a.title.as_str(), b.title.as_str()),
            OrderField::CreatedAt => a.created_at <= b.created_at,
            OrderField::UpdatedAt => a.updated_at <= b.updated_at,
            OrderField::ViewCount => a.view_count <= b.view_count,
            OrderField::LikeCount => a.like_count <= b.like_count,
        },
        OrderDirection::Desc => match f {
            OrderField::Id => b.id <= a.id,
            OrderField::Title => str_le(b.title.as_str(), a.title.as_str()),
            OrderField::CreatedAt => b.created_at <= a.created_at,
            OrderField::UpdatedAt => b.updated_at <= a.updated_at,
            OrderField::ViewCount => b.view_count <= a.view_count,
            OrderField::LikeCount => b.like_count <= a.like_count,
        },
    }
}

/// A row placed before the first already-sorted row it precedes.
pub open spec fn insert_rec_sorted(
    x: PostRecord,
    s: Seq<PostRecord>,
    f: OrderField,
    d: OrderDirection,
) -> Seq<PostRecord>
    decreases s.len(),
{
    if s.len() == 0 {
        seq![x]
    } else if rec_le(x, s[0], f, d) {
        seq![x] + s
    } else {
        seq![s[0]] + insert_rec_sorted(x, s.drop_first(), f, d)
    }
}

/// The rows in the requested order: insertion sort, written as a recursive
/// spec so that every list operation's result is a function of its inputs.
pub open spec fn sort_recs(s: Seq<PostRecord>, f: OrderField, d: OrderDirection) -> Seq<PostRecord>
    decreases s.len(),
{
    if s.len() == 0 {
        s
    } else {
        insert_rec_sorted(s[0], sort_recs(s.drop_first(), f, d), f, d)
    }
}

/// Insertion adds exactly one row.
pub proof fn lemma_insert_rec_len(x: PostRecord, s: Seq<PostRecord>, f: OrderField, d: OrderDirection)
    ensures
        insert_rec_sorted(x, s, f, d).len() == s.len() + 1,
    decreases s.len(),
{
    if s.len() > 0 && !rec_le(x, s[0], f, d) {
        lemma_insert_rec_len(x, s.drop_first(), f, d);
    }
}

/// Sorting keeps the number of rows.
pub proof fn lemma_sort_recs_len(s: Seq<PostRecord>, f: OrderField, d: OrderDirection)
    ensures
        sort_recs(s, f, d).len() == s.len(),
    decreases s.len(),
{
    if s.len() > 0 {
        lemma_sort_recs_len(s.drop_first(), f, d);
        lemma_insert_rec_len(s[0], sort_recs(s.drop_first(), f, d), f, d);
    }
}

/// Insertion introduces no row beyond the inserted one.
pub proof fn lemma_insert_rec_members(
    x: PostRecord,
    s: Seq<PostRecord>,
    f: OrderField,
    d: OrderDirection,
)
    ensures
        forall|y: PostRecord|
            insert_rec_sorted(x, s, f, d).contains(y) ==> y == x || s.contains(y),
    decreases s.len(),
{
    if s.len() > 0 && !rec_le(x, s[0], f, d) {
        lemma_insert_rec_members(x, s.drop_first(), f, d);
        let out = insert_rec_sorted(x, s, f, d);
        let sub = insert_rec_sorted(x, s.drop_first(), f, d);
        assert forall|y: PostRecord| out.contains(y) implies y == x || s.contains(y) by {
            let j = choose|j: int| 0 <= j < out.len() && out[j] == y;
            if j == 0 {
                assert(s.contains(s[0]));
            } else {
                assert(sub.contains(out[j]));
                if s.drop_first().contains(y) {
                    let k = choose|k: int|
                        0 <= k < s.drop_first().len() && s.drop_first()[k] == y;
                    assert(s[k + 1] == y);
                }
            }
        }
    }
}

/// Every sorted row comes from the input.
pub proof fn lemma_sort_recs_members(s: Seq<PostRecord>, f: OrderField, d: OrderDirection)
    ensures
        forall|y: PostRecord| sort_recs(s, f, d).contains(y) ==> s.contains(y),
    decreases s.len(),
{
    if s.len() > 0 {
        lemma_sort_recs_members(s.drop_first(), f, d);
        lemma_insert_rec_members(s[0], sort_recs(s.drop_first(), f, d), f, d);
        assert forall|y: PostRecord| sort_recs(s, f, d).contains(y) implies s.contains(y) by {
            if y == s[0] {
                assert(s.contains(s[0]));
            } else if sort_recs(s.drop_first(), f, d).contains(y) {
                if s.drop_first().contains(y) {
                    let k = choose|k: int|
                        0 <= k < s.drop_first().len() && s.drop_first()[k] == y;
                    assert(s[k + 1] == y);
                }
            }
        }
    }
}

/// Insertion adds exactly the inserted row to the contents.
proof fn lemma_insert_rec_multiset(
    x: PostRecord,
    s: Seq<PostRecord>,
    f: OrderField,
    d: OrderDirection,
)
    ensures
        insert_rec_sorted(x, s, f, d).to_multiset() =~= s.to_multiset().insert(x),
    decreases s.len(),
{
    broadcast use vstd::seq_lib::group_to_multiset_ensures;

    let out = insert_rec_sorted(x, s, f, d);
    if s.len() == 0 {
        assert(out =~= Seq::<PostRecord>::empty().push(x));
        assert(Seq::<PostRecord>::empty().to_multiset() =~= Multiset::<PostRecord>::empty());
    } else if rec_le(x, s[0], f, d) {
        assert(out =~= seq![x] + s);
        vstd::seq_lib::lemma_multiset_commutative(seq![x], s);
        assert(seq![x].to_multiset() =~= Multiset::<PostRecord>::empty().insert(x));
    } else {
        let rest = s.drop_first();
        lemma_insert_rec_multiset(x, rest, f, d);
        let sub = insert_rec_sorted(x, rest, f, d);
        assert(out =~= seq![s[0]] + sub);
        vstd::seq_lib::lemma_multiset_commutative(seq![s[0]], sub);
        assert(seq![s[0]].to_multiset() =~= Multiset::<PostRecord>::empty().insert(s[0]));
        assert(s =~= seq![s[0]] + rest);
        vstd::seq_lib::lemma_multiset_commutative(seq![s[0]], rest);
    }
}

/// Sorting permutes the rows: the sorted sequence holds exactly the input
/// rows, duplicates included.
pub proof fn lemma_sort_recs_multiset(s: Seq<PostRecord>, f: OrderField, d: OrderDirection)
    ensures
        sort_recs(s, f, d).to_multiset() =~= s.to_multiset(),
    decreases s.len(),
{
    broadcast use vstd::seq_lib::group_to_multiset_ensures;

    if s.len() > 0 {
        let rest = s.drop_first();
        lemma_sort_recs_multiset(rest, f, d);
        lemma_insert_rec_multiset(s[0], sort_recs(rest, f, d), f, d);
        assert(s =~= seq![s[0]] + rest);
        vstd::seq_lib::lemma_multiset_commutative(seq![s[0]], rest);
        assert(seq![s[0]].to_multiset() =~= Multiset::<PostRecord>::empty().insert(s[0]));
    }
}

/// Places one row into an already-sorted vector of rows.
fn insert_post_record(
    x: PostRecord,
    s: Vec<PostRecord>,
    f: OrderField,
    d: OrderDirection,
) -> (r: Vec<PostRecord>)
    ensures
        r@ == insert_rec_sorted(x, s@, f, d),
    decreases s@.len(),
{
    let mut s = s;
    if s.len() == 0 {
        s.push(x);
        proof {
            assert(s@ =~= seq![x]);
        }
        s
    } else if rec_le_exec(&x, &s[0], f, d) {
        let ghost before = s@;
        s.insert(0, x);
        proof {
            assert(s@ =~= seq![x] + before);
        }
        s
    } else {
        let ghost before = s@;
        let first = s.remove(0);
        proof {
            assert(s@ =~= before.drop_first());
        }
        let mut r = insert_post_record(x, s, f, d);
        let ghost mid = r@;
        r.insert(0, first);
        proof {
            assert(r@ =~= seq![first] + mid);
        }
        r
    }
}

/// Sorts the rows under the requested order.
pub fn sort_post_records(s: Vec<PostRecord>, f: OrderField, d: OrderDirection) -> (r: Vec<
    PostRecord,
>)
    ensures
        r@ == sort_recs(s@, f, d),
    decreases s@.len(),
{
    let mut s = s;
    if s.len() == 0 {
        s
    } else {
        let ghost before = s@;
        let first = s.remove(0);
        proof {
            assert(s@ =~= before.drop_first());
        }
        let sorted = sort_post_records(s, f, d);
        insert_post_record(first, sorted, f, d)
    }
}

/// The listing order is total: any two rows compare one way or the other
/// under every whitelisted field and direction.
pub proof fn lemma_rec_le_total(a: PostRecord, b: PostRecord, f: OrderField, d: OrderDirection)
    ensures
        rec_le(a, b, f, d) || rec_le(b, a, f, d),
{
    if f is Title {
        crate::text::lemma_seq_char_le_total(a.title@, b.title@);
    }
}

/// Adjacent rows of the sequence stand in the listing order.
pub open spec fn recs_ordered(s: Seq<PostRecord>, f: OrderField, d: OrderDirection) -> bool {
    forall|i: int| 0 <= i < s.len() - 1 ==> #[trigger] rec_le(s[i], s[i + 1], f, d)
}

/// Inserting into an ordered sequence keeps it ordered.
proof fn lemma_insert_rec_ordered(x: PostRecord, s: Seq<PostRecord>, f: OrderField, d: OrderDirection)
    requires
        recs_ordered(s, f, d),
    ensures
        recs_ordered(insert_rec_sorted(x, s, f, d), f, d),
    decreases s.len(),
{
    let out = insert_rec_sorted(x, s, f, d);
    if s.len() == 0 {
    } else if rec_le(x, s[0], f, d) {
        assert(out =~= seq![x] + s);
        assert forall|i: int| 0 <= i < out.len() - 1 implies #[trigger] rec_le(
            out[i],
            out[i + 1],
            f,
            d,
        ) by {
            if i > 0 {
                assert(rec_le(s[i - 1], s[i - 1 + 1], f, d));
            }
        }
    } else {
        let rest = s.drop_first();
        assert forall|i: int| 0 <= i < rest.len() - 1 implies #[trigger] rec_le(
            rest[i],
            rest[i + 1],
            f,
            d,
        ) by {
            assert(rec_le(s[i + 1], s[i + 1 + 1], f, d));
        }
        lemma_insert_rec_ordered(x, rest, f, d);
        let sub = insert_rec_sorted(x, rest, f, d);
        assert(out =~= seq![s[0]] + sub);
        lemma_rec_le_total(x, s[0], f, d);
        assert forall|i: int| 0 <= i < out.len() - 1 implies #[trigger] rec_le(
            out[i],
            out[i + 1],
            f,
            d,
        ) by {
            if i == 0 {
                if rest.len() == 0 || rec_le(x, rest[0], f, d) {
                    assert(sub[0] == x);
                    assert(rec_le(s[0], x, f, d));
                } else {
                    assert(sub[0] == rest[0]);
                    assert(rec_le(s[0], s[1], f, d));
                }
            } else {
                assert(rec_le(sub[i - 1], sub[i - 1 + 1], f, d));
            }
        }
    }
}

/// The listing sort orders its output: adjacent rows always stand in the
/// requested order.
pub proof fn lemma_sort_recs_ordered(s: Seq<PostRecord>, f: OrderField, d: OrderDirection)
    ensures
        recs_ordered(sort_recs(s, f, d), f, d),
    decreases s.len(),
{
    if s.len() > 0 {
        lemma_sort_recs_ordered(s.drop_first(), f, d);
        lemma_insert_rec_ordered(s[0], sort_recs(s.drop_first(), f, d), f, d);
    }
}

/// Tag order: by name, ascending, by code point.
pub open spec fn tag_le(a: Tag, b: Tag) -> bool {
    seq_char_le(a.name@, b.name@)
}

/// A tag placed before the first already-sorted tag it precedes.
pub open spec fn insert_tag_sorted(x: Tag, s: Seq<Tag>) -> Seq<Tag>
    decreases s.len(),
{
    if s.len() == 0 {
        seq![x]
    } else if tag_le(x, s[0]) {
        seq![x] + s
    } else {
        seq![s[0]] + insert_tag_sorted(x, s.drop_first())
    }
}

/// Tags sorted by name.
pub open spec fn sort_tags(s: Seq<Tag>) -> Seq<Tag>
    decreases s.len(),
{
    if s.len() == 0 {
        s
    } else {
        insert_tag_sorted(s[0], sort_tags(s.drop_first()))
    }
}

/// Adjacent tags of the sequence are ordered by name.
pub open spec fn tags_ordered(s: Seq<Tag>) -> bool {
    forall|i: int| 0 <= i < s.len() - 1 ==> #[trigger] tag_le(s[i], s[i + 1])
}

/// Inserting into a name-ordered sequence keeps it ordered.
proof fn lemma_insert_tag_ordered(x: Tag, s: Seq<Tag>)
    requires
        tags_ordered(s),
    ensures
        tags_ordered(insert_tag_sorted(x, s)),
    decreases s.len(),
{
    let out = insert_tag_sorted(x, s);
    if s.len() == 0 {
    } else if tag_le(x, s[0]) {
        assert(out =~= seq![x] + s);
        assert forall|i: int| 0 <= i < out.len() - 1 implies #[trigger] tag_le(
            out[i],
            out[i + 1],
        ) by {
            if i > 0 {
                assert(tag_le(s[i - 1], s[i - 1 + 1]));
            }
        }
    } else {
        let rest = s.drop_first();
        assert forall|i: int| 0 <= i < rest.len() - 1 implies #[trigger] tag_le(
            rest[i],
            rest[i + 1],
        ) by {
            assert(tag_le(s[i + 1], s[i + 1 + 1]));
        }
        lemma_insert_tag_ordered(x, rest);
        let sub = insert_tag_sorted(x, rest);
        assert(out =~= seq![s[0]] + sub);
        crate::text::lemma_seq_char_le_total(x.name@, s[0].name@);
        assert forall|i: int| 0 <= i < out.len() - 1 implies #[trigger] tag_le(
            out[i],
            out[i + 1],
        ) by {
            if i == 0 {
                if rest.len() == 0 || tag_le(x, rest[0]) {
                    assert(sub[0] == x);
                } else {
                    assert(sub[0] == rest[0]);
                    assert(tag_le(s[0], s[1]));
                }
            } else {
                assert(tag_le(sub[i - 1], sub[i - 1 + 1]));
            }
        }
    }
}

/// The tag sort orders its output by name: every tag list an operation
/// returns is name-ordered.
pub proof fn lemma_sort_tags_ordered(s: Seq<Tag>)
    ensures
        tags_ordered(sort_tags(s)),
    decreases s.len(),
{
    if s.len() > 0 {
        lemma_sort_tags_ordered(s.drop_first());
        lemma_insert_tag_ordered(s[0], sort_tags(s.drop_first()));
    }
}

/// Places one tag into an already-sorted vector of tags.
fn insert_tag_record(x: Tag, s: Vec<Tag>) -> (r: Vec<Tag>)
    ensures
        r@ == insert_tag_sorted(x, s@),
    decreases s@.len(),
{
    let mut s = s;
    if s.len() == 0 {
        s.push(x);
        proof {
            assert(s@ =~= seq![x]);
        }
        s
    } else if str_le(x.name.as_str(), s[0].name.as_str()) {
        let ghost before = s@;
        s.insert(0, x);
        proof {
            assert(s@ =~= seq![x] + before);
        }
        s
    } else {
        let ghost before = s@;
        let first = s.remove(0);
        proof {
            assert(s@ =~= before.drop_first());
        }
        let mut r = insert_tag_record(x, s);
        let ghost mid = r@;
        r.insert(0, first);
        proof {
            assert(r@ =~= seq![first] + mid);
        }
        r
    }
}

/// Sorts tags by name.
pub fn sort_tag_records(s: Vec<Tag>) -> (r: Vec<Tag>)
    ensures
        r@ == sort_tags(s@),
    decreases s@.len(),
{
    let mut s = s;
    if s.len() == 0 {
        s
    } else {
        let ghost before = s@;
        let first = s.remove(0);
        proof {
            assert(s@ =~= before.drop_first());
        }
        let sorted = sort_tag_records(s);
        insert_tag_record(first, sorted)
    }
}

/// The tags of one post as every operation returns them: linked tags,
/// ordered by name.
pub open spec fn sorted_tags_of(store: Store, post_id: u128) -> Seq<Tag> {
    sort_tags(tags_of_post(store, post_id))
}

/// Collects one post's tags, ordered by name.
pub fn post_tags_sorted(store: &Store, post_id: u128) -> (r: Vec<Tag>)
    ensures
        r@ == sorted_tags_of(*store, post_id),
{
    let tags = collect_post_tags(store, post_id);
    sort_tag_records(tags)
}

} // verus!
