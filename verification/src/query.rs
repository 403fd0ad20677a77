//! Query construction: given validated pagination, sort and search
//! parameters, produces the SQL text and the ordered positional parameter
//! list for the count query and the data query of each operation.
//!
//! The sort field is interpolated into the query text, so it passes a fixed
//! whitelist first; everything user-supplied is bound as a positional
//! parameter, with search text escaped before it is wrapped into a substring
//! pattern. This module does no I/O: the boundary executes the queries and
//! hands the rows back as plain values.

use vstd::prelude::*;
use vstd::string::StringExecFns;
use crate::text::build_like_pattern;
use crate::text::like_pattern_spec;
use crate::text::str_eq;

verus! {

/// Sort direction, as a closed enum mapped to fixed SQL keywords through an
/// exhaustive match — never through runtime formatting of user input.
#[derive(Clone, Copy, PartialEq, Eq, Structural)]
pub enum OrderDirection {
    Asc,
    Desc,
}

/// The whitelisted sort columns. A caller-supplied field name outside this
/// set silently falls back to the default; the whitelist is the only thing
/// standing between user input and the query text.
#[derive(Clone, Copy, PartialEq, Eq, Structural)]
pub enum OrderField {
    Id,
    Title,
    CreatedAt,
    UpdatedAt,
    ViewCount,
    LikeCount,
}

/// The whitelist gate: which field a caller-supplied name denotes, if any.
pub open spec fn whitelisted_field(s: Seq<char>) -> Option<OrderField> {
    if s == "id"@ {
        Some(OrderField::Id)
    } else if s == "title"@ {
        Some(OrderField::Title)
    } else if s == "created_at"@ {
        Some(OrderField::CreatedAt)
    } else if s == "updated_at"@ {
        Some(OrderField::UpdatedAt)
    } else if s == "view_count"@ {
        Some(OrderField::ViewCount)
    } else if s == "like_count"@ {
        Some(OrderField::LikeCount)
    } else {
        None
    }
}

/// The sort field an optional caller-supplied name resolves to: a
/// whitelisted name maps to its field, anything else falls back to the
/// default, `created_at`.
pub open spec fn order_field_spec(order_by: Option<&str>) -> OrderField {
    match order_by {
        None => OrderField::CreatedAt,
        Some(s) => match whitelisted_field(s@) {
            Some(f) => f,
            None => OrderField::CreatedAt,
        },
    }
}

/// Validates a caller-supplied sort field name against the whitelist,
/// falling back to the default field on anything else.
pub fn validate_order_field(order_by: Option<&str>) -> (f: OrderField)
    ensures
        f == order_field_spec(order_by),
{
    match order_by {
        None => OrderField::CreatedAt,
        Some(s) => {
            if str_eq(s, "id") {
                OrderField::Id
            } else if str_eq(s, "title") {
                OrderField::Title
            } else if str_eq(s, "created_at") {
                OrderField::CreatedAt
            } else if str_eq(s, "updated_at") {
                OrderField::UpdatedAt
            } else if str_eq(s, "view_count") {
                OrderField::ViewCount
            } else if str_eq(s, "like_count") {
                OrderField::LikeCount
            } else {
                OrderField::CreatedAt
            }
        },
    }
}

/// The direction an optional caller-supplied direction resolves to:
/// descending unless ascending was asked for explicitly.
pub open spec fn direction_spec(d: Option<OrderDirection>) -> OrderDirection {
    match d {
        Some(OrderDirection::Asc) => OrderDirection::Asc,
        _ => OrderDirection::Desc,
    }
}

/// Resolves an optional sort direction, defaulting to descending.
pub fn validate_order_direction(d: Option<OrderDirection>) -> (r: OrderDirection)
    ensures
        r == direction_spec(d),
{
    match d {
        Some(OrderDirection::Asc) => OrderDirection::Asc,
        _ => OrderDirection::Desc,
    }
}

/// The column name each whitelisted field stands for in the query text.
pub open spec fn order_field_sql_spec(f: OrderField) -> Seq<char> {
    match f {
        OrderField::Id => "id"@,
        OrderField::Title => "title"@,
        OrderField::CreatedAt => "created_at"@,
        OrderField::UpdatedAt => "updated_at"@,
        OrderField::ViewCount => "view_count"@,
        OrderField::LikeCount => "like_count"@,
    }
}

/// The column name of a whitelisted field. Only values of the closed enum
/// reach the query text.
pub fn order_field_sql(f: OrderField) -> (s: &'static str)
    ensures
        s@ == order_field_sql_spec(f),
{
    match f {
        OrderField::Id => "id",
        OrderField::Title => "title",
        OrderField::CreatedAt => "created_at",
        OrderField::UpdatedAt => "updated_at",
        OrderField::ViewCount => "view_count",
        OrderField::LikeCount => "like_count",
    }
}

/// The SQL keyword each direction stands for.
pub open spec fn direction_sql_spec(d: OrderDirection) -> Seq<char> {
    match d {
        OrderDirection::Asc => "ASC"@,
        OrderDirection::Desc => "DESC"@,
    }
}

/// The SQL keyword of a direction.
pub fn direction_sql(d: OrderDirection) -> (s: &'static str)
    ensures
        s@ == direction_sql_spec(d),
{
    match d {
        OrderDirection::Asc => "ASC",
        OrderDirection::Desc => "DESC",
    }
}

/// A pagination bound clamped to be non-negative.
pub open spec fn clamp0_spec(v: i64) -> i64 {
    if v < 0 {
        0
    } else {
        v
    }
}

/// Clamps a pagination bound to be non-negative.
pub fn clamp_non_negative(v: i64) -> (r: i64)
    ensures
        r == clamp0_spec(v),
{
    if v < 0 {
        0
    } else {
        v
    }
}

/// The query-string parameters of a paginated listing, already parsed into
/// plain values by the boundary.
pub struct PaginationQuery {
    pub offset: Option<i64>,
    pub limit: Option<i64>,
    pub search: Option<String>,
    pub order_by: Option<String>,
    pub order_direction: Option<OrderDirection>,
}

/// The query-string parameters of the random sample.
pub struct RandomPostQuery {
    pub limit: Option<i64>,
}

/// Resolves the listing parameters against their defaults: offset 0,
/// limit 10, and the optional filters passed through as borrowed values.
pub fn get_pagination_params(query: &PaginationQuery) -> (r: (
    i64,
    i64,
    Option<&str>,
    Option<&str>,
    Option<OrderDirection>,
))
    ensures
        r.0 == (match query.offset {
            Some(o) => o,
            None => 0i64,
        }),
        r.1 == (match query.limit {
            Some(l) => l,
            None => 10i64,
        }),
        (r.2 is Some) == (query.search is Some),
        query.search matches Some(s) ==> r.2->Some_0@ == s@,
        (r.3 is Some) == (query.order_by is Some),
        query.order_by matches Some(o) ==> r.3->Some_0@ == o@,
        r.4 == query.order_direction,
{
    let offset = match query.offset {
        Some(o) => o,
        None => 0,
    };
    let limit = match query.limit {
        Some(l) => l,
        None => 10,
    };
    let search = match &query.search {
        Some(s) => Some(s.as_str()),
        None => None,
    };
    let order_by = match &query.order_by {
        Some(o) => Some(o.as_str()),
        None => None,
    };
    (offset, limit, search, order_by, query.order_direction)
}

/// Resolves the random-sample limit against its default of six.
pub fn random_post_limit(query: &RandomPostQuery) -> (l: i64)
    ensures
        l == (match query.limit {
            Some(v) => v,
            None => 6i64,
        }),
{
    match query.limit {
        Some(v) => v,
        None => 6,
    }
}

/// One positional query parameter, ready to be bound by the executing
/// boundary: search patterns and tag names as text, pagination bounds as
/// integers, post identifiers singly or as an array.
pub enum SqlParam {
    Text(String),
    Int(i64),
    Id(u128),
    IdList(Vec<u128>),
}

/// The parameter is the given text.
pub open spec fn is_text_param(p: SqlParam, s: Seq<char>) -> bool {
    p is Text && p->Text_0@ == s
}

/// The two queries of a paginated list operation, each with its ordered
/// parameter list. Both share one filter predicate, so the count reflects
/// the same set the page is drawn from.
pub struct QueryPlan {
    pub count_sql: String,
    pub count_params: Vec<SqlParam>,
    pub data_sql: String,
    pub data_params: Vec<SqlParam>,
}

/// The count query of the general listing.
pub open spec fn list_all_count_sql_spec(has_search: bool) -> Seq<char> {
    if has_search {
        "SELECT COUNT(*) FROM posts p INNER JOIN users u ON p.created_by = u.id WHERE p.published = true AND p.deleted_at IS NULL AND (p.title ILIKE $1 OR p.body ILIKE $1 OR u.username ILIKE $1)"@
    } else {
        "SELECT COUNT(*) FROM posts WHERE published = true AND deleted_at IS NULL"@
    }
}

/// The data query of the general listing: the shared filter, a validated
/// ORDER BY, and a bound LIMIT/OFFSET pair.
pub open spec fn list_all_data_sql_spec(has_search: bool, f: OrderField, d: OrderDirection) -> Seq<
    char,
> {
    "SELECT p.id, p.title, p.body, p.created_by, p.slug, p.photo_url, p.created_at, p.updated_at, p.deleted_at, p.published, p.view_count, p.like_count, u.id, u.username FROM posts p INNER JOIN users u ON p.created_by = u.id WHERE p.published = true AND p.deleted_at IS NULL"@
        + (if has_search {
        " AND (p.title ILIKE $1 OR p.body ILIKE $1 OR u.username ILIKE $1)"@
    } else {
        Seq::<char>::empty()
    }) + " ORDER BY p."@ + order_field_sql_spec(f) + " "@ + direction_sql_spec(d) + (
    if has_search {
        " LIMIT $2 OFFSET $3"@
    } else {
        " LIMIT $1 OFFSET $2"@
    })
}

/// Builds the data query text of the general listing.
fn build_list_all_data_sql(has_search: bool, f: OrderField, d: OrderDirection) -> (s: String)
    ensures
        s@ == list_all_data_sql_spec(has_search, f, d),
{
    let mut s = String::from_str(
        "SELECT p.id, p.title, p.body, p.created_by, p.slug, p.photo_url, p.created_at, p.updated_at, p.deleted_at, p.published, p.view_count, p.like_count, u.id, u.username FROM posts p INNER JOIN users u ON p.created_by = u.id WHERE p.published = true AND p.deleted_at IS NULL",
    );
    if has_search {
        s.append(" AND (p.title ILIKE $1 OR p.body ILIKE $1 OR u.username ILIKE $1)");
    }
    s.append(" ORDER BY p.");
    s.append(order_field_sql(f));
    s.append(" ");
    s.append(direction_sql(d));
    if has_search {
        s.append(" LIMIT $2 OFFSET $3");
    } else {
        s.append(" LIMIT $1 OFFSET $2");
    }
    proof {
        assert(s@ =~= list_all_data_sql_spec(has_search, f, d));
    }
    s
}

/// Builds the count and data queries of the general listing, with their
/// parameter lists: the escaped search pattern when a search is present,
/// then the clamped limit and offset on the data query.
pub fn list_all_queries(
    offset: i64,
    limit: i64,
    search: Option<&str>,
    order_by: Option<&str>,
    order_direction: Option<OrderDirection>,
) -> (q: QueryPlan)
    ensures
        q.count_sql@ == list_all_count_sql_spec(search is Some),
        q.data_sql@ == list_all_data_sql_spec(
            search is Some,
            order_field_spec(order_by),
            direction_spec(order_direction),
        ),
        search is None ==> q.count_params@ == Seq::<SqlParam>::empty(),
        search is None ==> q.data_params@.len() == 2 && q.data_params@[0] == SqlParam::Int(
            clamp0_spec(limit),
        ) && q.data_params@[1] == SqlParam::Int(clamp0_spec(offset)),
        search matches Some(s) ==> q.count_params@.len() == 1 && is_text_param(
            q.count_params@[0],
            like_pattern_spec(s@),
        ),
        search matches Some(s) ==> q.data_params@.len() == 3 && is_text_param(
            q.data_params@[0],
            like_pattern_spec(s@),
        ) && q.data_params@[1] == SqlParam::Int(clamp0_spec(limit)) && q.data_params@[2]
            == SqlParam::Int(clamp0_spec(offset)),
{
    let field = validate_order_field(order_by);
    let dir = validate_order_direction(order_direction);
    let limit = clamp_non_negative(limit);
    let offset = clamp_non_negative(offset);
    let data_sql = build_list_all_data_sql(search.is_some(), field, dir);
    let mut count_params: Vec<SqlParam> = Vec::new();
    let mut data_params: Vec<SqlParam> = Vec::new();
    let count_sql = match search {
        Some(s) => {
            let pattern = build_like_pattern(s);
            count_params.push(SqlParam::Text(pattern.clone()));
            data_params.push(SqlParam::Text(pattern));
            String::from_str(
                "SELECT COUNT(*) FROM posts p INNER JOIN users u ON p.created_by = u.id WHERE p.published = true AND p.deleted_at IS NULL AND (p.title ILIKE $1 OR p.body ILIKE $1 OR u.username ILIKE $1)",
            )
        },
        None => String::from_str(
            "SELECT COUNT(*) FROM posts WHERE published = true AND deleted_at IS NULL",
        ),
    };
    data_params.push(SqlParam::Int(limit));
    data_params.push(SqlParam::Int(offset));
    QueryPlan { count_sql, count_params, data_sql, data_params }
}

/// The count query of the tag-filtered listing: distinct posts, so the join
/// through the post-tag relation cannot inflate the total.
pub open spec fn list_by_tag_count_sql_spec(has_search: bool) -> Seq<char> {
    if has_search {
        "SELECT COUNT(DISTINCT p.id) FROM posts p INNER JOIN users u ON p.created_by = u.id INNER JOIN posts_to_tags ptt ON p.id = ptt.post_id INNER JOIN tags t ON ptt.tag_id = t.id WHERE t.name = $1 AND p.published = true AND p.deleted_at IS NULL AND (p.title ILIKE $2 OR p.body ILIKE $2 OR u.username ILIKE $2)"@
    } else {
        "SELECT COUNT(DISTINCT p.id) FROM posts p INNER JOIN posts_to_tags ptt ON p.id = ptt.post_id INNER JOIN tags t ON ptt.tag_id = t.id WHERE t.name = $1 AND p.published = true AND p.deleted_at IS NULL"@
    }
}

/// The data query of the tag-filtered listing, deduplicated by post
/// identity.
pub open spec fn list_by_tag_data_sql_spec(has_search: bool, f: OrderField, d: OrderDirection) -> Seq<
    char,
> {
    "SELECT DISTINCT p.id, p.title, p.body, p.created_by, p.slug, p.photo_url, p.created_at, p.updated_at, p.deleted_at, p.published, p.view_count, p.like_count, u.id, u.username FROM posts p INNER JOIN users u ON p.created_by = u.id INNER JOIN posts_to_tags ptt ON p.id = ptt.post_id INNER JOIN tags t ON ptt.tag_id = t.id WHERE t.name = $1 AND p.published = true AND p.deleted_at IS NULL"@
        + (if has_search {
        " AND (p.title ILIKE $2 OR p.body ILIKE $2 OR u.username ILIKE $2)"@
    } else {
        Seq::<char>::empty()
    }) + " ORDER BY p."@ + order_field_sql_spec(f) + " "@ + direction_sql_spec(d) + (
    if has_search {
        " LIMIT $3 OFFSET $4"@
    } else {
        " LIMIT $2 OFFSET $3"@
    })
}

/// Builds the data query text of the tag-filtered listing.
fn build_list_by_tag_data_sql(has_search: bool, f: OrderField, d: OrderDirection) -> (s: String)
    ensures
        s@ == list_by_tag_data_sql_spec(has_search, f, d),
{
    let mut s = String::from_str(
        "SELECT DISTINCT p.id, p.title, p.body, p.created_by, p.slug, p.photo_url, p.created_at, p.updated_at, p.deleted_at, p.published, p.view_count, p.like_count, u.id, u.username FROM posts p INNER JOIN users u ON p.created_by = u.id INNER JOIN posts_to_tags ptt ON p.id = ptt.post_id INNER JOIN tags t ON ptt.tag_id = t.id WHERE t.name = $1 AND p.published = true AND p.deleted_at IS NULL",
    );
    if has_search {
        s.append(" AND (p.title ILIKE $2 OR p.body ILIKE $2 OR u.username ILIKE $2)");
    }
    s.append(" ORDER BY p.");
    s.append(order_field_sql(f));
    s.append(" ");
    s.append(direction_sql(d));
    if has_search {
        s.append(" LIMIT $3 OFFSET $4");
    } else {
        s.append(" LIMIT $2 OFFSET $3");
    }
    proof {
        assert(s@ =~= list_by_tag_data_sql_spec(has_search, f, d));
    }
    s
}

/// Builds the count and data queries of the tag-filtered listing. The tag
/// name is always the first bound parameter; the escaped search pattern,
/// when present, follows it, and the clamped limit and offset close the data
/// query's list.
pub fn list_by_tag_queries(
    tag_name: &str,
    offset: i64,
    limit: i64,
    search: Option<&str>,
    order_by: Option<&str>,
    order_direction: Option<OrderDirection>,
) -> (q: QueryPlan)
    ensures
        q.count_sql@ == list_by_tag_count_sql_spec(search is Some),
        q.data_sql@ == list_by_tag_data_sql_spec(
            search is Some,
            order_field_spec(order_by),
            direction_spec(order_direction),
        ),
        q.count_params@.len() == (if search is Some {
            2int
        } else {
            1int
        }),
        is_text_param(q.count_params@[0], tag_name@),
        search matches Some(s) ==> is_text_param(q.count_params@[1], like_pattern_spec(s@)),
        q.data_params@.len() == (if search is Some {
            4int
        } else {
            3int
        }),
        is_text_param(q.data_params@[0], tag_name@),
        search is None ==> q.data_params@[1] == SqlParam::Int(clamp0_spec(limit))
            && q.data_params@[2] == SqlParam::Int(clamp0_spec(offset)),
        search matches Some(s) ==> is_text_param(q.data_params@[1], like_pattern_spec(s@))
            && q.data_params@[2] == SqlParam::Int(clamp0_spec(limit)) && q.data_params@[3]
            == SqlParam::Int(clamp0_spec(offset)),
{
    let field = validate_order_field(order_by);
    let dir = validate_order_direction(order_direction);
    let limit = clamp_non_negative(limit);
    let offset = clamp_non_negative(offset);
    let data_sql = build_list_by_tag_data_sql(search.is_some(), field, dir);
    let mut count_params: Vec<SqlParam> = Vec::new();
    let mut data_params: Vec<SqlParam> = Vec::new();
    count_params.push(SqlParam::Text(tag_name.to_owned()));
    data_params.push(SqlParam::Text(tag_name.to_owned()));
    let count_sql = match search {
        Some(s) => {
            let pattern = build_like_pattern(s);
            count_params.push(SqlParam::Text(pattern.clone()));
            data_params.push(SqlParam::Text(pattern));
            String::from_str(
                "SELECT COUNT(DISTINCT p.id) FROM posts p INNER JOIN users u ON p.created_by = u.id INNER JOIN posts_to_tags ptt ON p.id = ptt.post_id INNER JOIN tags t ON ptt.tag_id = t.id WHERE t.name = $1 AND p.published = true AND p.deleted_at IS NULL AND (p.title ILIKE $2 OR p.body ILIKE $2 OR u.username ILIKE $2)",
            )
        },
        None => String::from_str(
            "SELECT COUNT(DISTINCT p.id) FROM posts p INNER JOIN posts_to_tags ptt ON p.id = ptt.post_id INNER JOIN tags t ON ptt.tag_id = t.id WHERE t.name = $1 AND p.published = true AND p.deleted_at IS NULL",
        ),
    };
    data_params.push(SqlParam::Int(limit));
    data_params.push(SqlParam::Int(offset));
    QueryPlan { count_sql, count_params, data_sql, data_params }
}

/// The random-sample query: the storage engine's random ordering, no
/// pagination beyond the bound limit.
pub open spec fn random_posts_sql_spec() -> Seq<char> {
    "SELECT p.id, p.title, p.body, p.created_by, p.slug, p.photo_url, p.created_at, p.updated_at, p.deleted_at, p.published, p.view_count, p.like_count, u.id, u.username FROM posts p INNER JOIN users u ON p.created_by = u.id WHERE p.published = true AND p.deleted_at IS NULL ORDER BY RANDOM() LIMIT $1"@
}

/// Builds the random-sample query with its clamped limit parameter.
pub fn random_posts_query(limit: i64) -> (q: (String, Vec<SqlParam>))
    ensures
        q.0@ == random_posts_sql_spec(),
        q.1@.len() == 1,
        q.1@[0] == SqlParam::Int(clamp0_spec(limit)),
{
    let mut params: Vec<SqlParam> = Vec::new();
    params.push(SqlParam::Int(clamp_non_negative(limit)));
    (
        String::from_str(
            "SELECT p.id, p.title, p.body, p.created_by, p.slug, p.photo_url, p.created_at, p.updated_at, p.deleted_at, p.published, p.view_count, p.like_count, u.id, u.username FROM posts p INNER JOIN users u ON p.created_by = u.id WHERE p.published = true AND p.deleted_at IS NULL ORDER BY RANDOM() LIMIT $1",
        ),
        params,
    )
}

/// The single-post lookup by creator username and slug.
pub open spec fn post_by_username_slug_sql_spec() -> Seq<char> {
    "SELECT p.id, p.title, p.body, p.created_by, p.slug, p.photo_url, p.created_at, p.updated_at, p.deleted_at, p.published, p.view_count, p.like_count, u.id, u.username FROM posts p INNER JOIN users u ON p.created_by = u.id WHERE u.username = $1 AND p.slug = $2 AND p.published = true AND p.deleted_at IS NULL"@
}

/// Builds the single-post lookup query with its two text parameters.
pub fn post_by_username_slug_query(username: &str, slug: &str) -> (q: (String, Vec<SqlParam>))
    ensures
        q.0@ == post_by_username_slug_sql_spec(),
        q.1@.len() == 2,
        is_text_param(q.1@[0], username@),
        is_text_param(q.1@[1], slug@),
{
    let mut params: Vec<SqlParam> = Vec::new();
    params.push(SqlParam::Text(username.to_owned()));
    params.push(SqlParam::Text(slug.to_owned()));
    (
        String::from_str(
            "SELECT p.id, p.title, p.body, p.created_by, p.slug, p.photo_url, p.created_at, p.updated_at, p.deleted_at, p.published, p.view_count, p.like_count, u.id, u.username FROM posts p INNER JOIN users u ON p.created_by = u.id WHERE u.username = $1 AND p.slug = $2 AND p.published = true AND p.deleted_at IS NULL",
        ),
        params,
    )
}

/// The tag fetch for one post, ordered by tag name.
pub open spec fn tags_for_post_sql_spec() -> Seq<char> {
    "SELECT t.id, t.name, t.created_at FROM tags t INNER JOIN posts_to_tags ptt ON t.id = ptt.tag_id WHERE ptt.post_id = $1 ORDER BY t.name"@
}

/// Builds the tag fetch for a single post.
pub fn tags_for_post_query(post_id: u128) -> (q: (String, Vec<SqlParam>))
    ensures
        q.0@ == tags_for_post_sql_spec(),
        q.1@.len() == 1,
        q.1@[0] == SqlParam::Id(post_id),
{
    let mut params: Vec<SqlParam> = Vec::new();
    params.push(SqlParam::Id(post_id));
    (
        String::from_str(
            "SELECT t.id, t.name, t.created_at FROM tags t INNER JOIN posts_to_tags ptt ON t.id = ptt.tag_id WHERE ptt.post_id = $1 ORDER BY t.name",
        ),
        params,
    )
}

/// The batched tag fetch hydrating a whole result page in one round trip:
/// every tag of every listed post, keyed by post, ordered by tag name.
pub open spec fn tags_for_posts_sql_spec() -> Seq<char> {
    "SELECT ptt.post_id, t.id, t.name, t.created_at FROM tags t INNER JOIN posts_to_tags ptt ON t.id = ptt.tag_id WHERE ptt.post_id = ANY($1) ORDER BY t.name"@
}

/// Builds the batched tag fetch for the given page of post identifiers.
pub fn tags_for_posts_query(post_ids: Vec<u128>) -> (q: (String, Vec<SqlParam>))
    ensures
        q.0@ == tags_for_posts_sql_spec(),
        q.1@.len() == 1,
        q.1@[0] is IdList && q.1@[0]->IdList_0@ == post_ids@,
{
    let mut params: Vec<SqlParam> = Vec::new();
    params.push(SqlParam::IdList(post_ids));
    (
        String::from_str(
            "SELECT ptt.post_id, t.id, t.name, t.created_at FROM tags t INNER JOIN posts_to_tags ptt ON t.id = ptt.tag_id WHERE ptt.post_id = ANY($1) ORDER BY t.name",
        ),
        params,
    )
}

/// The full tag listing, ordered by name, unpaginated.
pub open spec fn all_tags_sql_spec() -> Seq<char> {
    "SELECT id, name, created_at FROM tags ORDER BY name"@
}

/// Builds the full tag listing query. It binds no parameters.
pub fn all_tags_query() -> (s: &'static str)
    ensures
        s@ == all_tags_sql_spec(),
{
    "SELECT id, name, created_at FROM tags ORDER BY name"
}

} // verus!
