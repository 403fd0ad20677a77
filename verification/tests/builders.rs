use blog_api::config::{Config, PoolConfig, optional_duration_secs};
use blog_api::error::AppError;
use blog_api::hydrate::{TagRow, hydrate_tags};
use blog_api::mapper::{PostRow, map_post_row, truncate_body};
use blog_api::models::Tag;
use blog_api::query::{
    OrderDirection, PaginationQuery, RandomPostQuery, SqlParam, all_tags_query,
    get_pagination_params, list_all_queries, list_by_tag_queries, post_by_username_slug_query,
    random_posts_query, random_post_limit, tags_for_post_query, tags_for_posts_query,
};
use blog_api::response::{ApiResponse, Meta, health};
use blog_api::text::{build_like_pattern, str_contains_ci, str_eq, str_le};

const SELECT_COLS: &str = "SELECT p.id, p.title, p.body, p.created_by, p.slug, p.photo_url, p.created_at, p.updated_at, p.deleted_at, p.published, p.view_count, p.like_count, u.id, u.username";

#[test]
fn like_pattern_escapes_metacharacters() {
    assert_eq!(build_like_pattern("50%"), "%50\\%%");
    assert_eq!(build_like_pattern("a_b"), "%a\\_b%");
    assert_eq!(build_like_pattern("back\\slash"), "%back\\\\slash%");
    assert_eq!(build_like_pattern("plain"), "%plain%");
    assert_eq!(build_like_pattern(""), "%%");
}

#[test]
fn string_helpers_behave_literally() {
    assert!(str_eq("abc", "abc"));
    assert!(!str_eq("abc", "abd"));
    assert!(!str_eq("abc", "ab"));
    assert!(str_contains_ci("Hello World", "WORLD"));
    assert!(str_contains_ci("Hello", ""));
    assert!(!str_contains_ci("50discount", "50%"));
    assert!(str_contains_ci("Save 50% now", "50%"));
    assert!(str_le("apple", "banana"));
    assert!(str_le("app", "apple"));
    assert!(!str_le("banana", "apple"));
    assert!(str_le("same", "same"));
}

#[test]
fn truncation_rule_on_boundaries() {
    let exactly_200: String = "a".repeat(200);
    assert_eq!(truncate_body(&exactly_200), exactly_200);
    let over: String = "b".repeat(201);
    let expected: String = "b".repeat(200) + "...";
    assert_eq!(truncate_body(&over), expected);
    assert_eq!(truncate_body(""), "");
}

#[test]
fn map_post_row_truncates_only_for_list_views() {
    let long_body: String = "c".repeat(250);
    let row = PostRow {
        id: 7,
        title: "T".to_string(),
        body: Some(long_body.clone()),
        created_by: 1,
        slug: "s".to_string(),
        photo_url: Some("http://example/p.png".to_string()),
        created_at: 1,
        updated_at: 2,
        deleted_at: None,
        published: true,
        view_count: 3,
        like_count: 4,
        user_id: 1,
        username: "alice".to_string(),
    };
    let listed = map_post_row(row, true);
    let preview = listed.body.as_ref().unwrap();
    assert_eq!(preview.chars().count(), 203);
    assert!(preview.ends_with("..."));
    assert_eq!(listed.creator.username, "alice");
    assert!(listed.tags.is_empty());

    let row_again = PostRow {
        id: 7,
        title: "T".to_string(),
        body: Some(long_body.clone()),
        created_by: 1,
        slug: "s".to_string(),
        photo_url: None,
        created_at: 1,
        updated_at: 2,
        deleted_at: None,
        published: true,
        view_count: 3,
        like_count: 4,
        user_id: 1,
        username: "alice".to_string(),
    };
    let detail = map_post_row(row_again, false);
    assert_eq!(detail.body.as_ref().unwrap(), &long_body);
}

#[test]
fn hydration_distributes_rows_by_post_identity() {
    let row_a = PostRow {
        id: 1,
        title: "A".to_string(),
        body: None,
        created_by: 1,
        slug: "a".to_string(),
        photo_url: None,
        created_at: 0,
        updated_at: 0,
        deleted_at: None,
        published: true,
        view_count: 0,
        like_count: 0,
        user_id: 1,
        username: "u".to_string(),
    };
    let row_b = PostRow {
        id: 2,
        title: "B".to_string(),
        body: None,
        created_by: 1,
        slug: "b".to_string(),
        photo_url: None,
        created_at: 0,
        updated_at: 0,
        deleted_at: None,
        published: true,
        view_count: 0,
        like_count: 0,
        user_id: 1,
        username: "u".to_string(),
    };
    let posts = vec![map_post_row(row_a, true), map_post_row(row_b, true)];
    let rows = vec![
        TagRow { post_id: 1, tag: Tag { id: 5, name: "rust".to_string(), created_at: None } },
        TagRow { post_id: 1, tag: Tag { id: 6, name: "web".to_string(), created_at: None } },
    ];
    let hydrated = hydrate_tags(posts, &rows);
    let a_tags: Vec<String> = hydrated[0].tags.iter().map(|t| t.name.clone()).collect();
    let b_tags: Vec<String> = hydrated[1].tags.iter().map(|t| t.name.clone()).collect();
    assert_eq!(a_tags, vec!["rust", "web"]);
    assert!(b_tags.is_empty());

    let rehydrated = hydrate_tags(hydrated, &rows);
    let a_again: Vec<String> = rehydrated[0].tags.iter().map(|t| t.name.clone()).collect();
    assert_eq!(a_again, vec!["rust", "web"]);
}

#[test]
fn list_all_queries_without_search() {
    let q = list_all_queries(20, 10, None, None, None);
    assert_eq!(
        q.count_sql,
        "SELECT COUNT(*) FROM posts WHERE published = true AND deleted_at IS NULL"
    );
    let expected_data = format!(
        "{} FROM posts p INNER JOIN users u ON p.created_by = u.id WHERE p.published = true AND p.deleted_at IS NULL ORDER BY p.created_at DESC LIMIT $1 OFFSET $2",
        SELECT_COLS
    );
    assert_eq!(q.data_sql, expected_data);
    assert!(q.count_params.is_empty());
    assert_eq!(q.data_params.len(), 2);
    assert!(matches!(q.data_params[0], SqlParam::Int(10)));
    assert!(matches!(q.data_params[1], SqlParam::Int(20)));
}

#[test]
fn list_all_queries_with_search_and_sort() {
    let q = list_all_queries(0, 5, Some("50%"), Some("view_count"), Some(OrderDirection::Asc));
    assert!(q.count_sql.contains("p.title ILIKE $1"));
    assert!(q.data_sql.contains("ORDER BY p.view_count ASC"));
    assert!(q.data_sql.ends_with("LIMIT $2 OFFSET $3"));
    assert_eq!(q.count_params.len(), 1);
    match &q.count_params[0] {
        SqlParam::Text(p) => assert_eq!(p, "%50\\%%"),
        _ => panic!("expected a text parameter"),
    }
    assert_eq!(q.data_params.len(), 3);
    match &q.data_params[0] {
        SqlParam::Text(p) => assert_eq!(p, "%50\\%%"),
        _ => panic!("expected a text parameter"),
    }
}

#[test]
fn unknown_order_field_falls_back_in_sql() {
    let q = list_all_queries(0, 5, None, Some("id; DROP TABLE posts"), None);
    assert!(q.data_sql.contains("ORDER BY p.created_at DESC"));
    assert!(!q.data_sql.contains("DROP"));
}

#[test]
fn negative_bounds_clamp_in_params() {
    let q = list_all_queries(-3, -7, None, None, None);
    assert!(matches!(q.data_params[0], SqlParam::Int(0)));
    assert!(matches!(q.data_params[1], SqlParam::Int(0)));
}

#[test]
fn tag_queries_bind_tag_name_first() {
    let q = list_by_tag_queries("rust", 0, 10, Some("io"), None, None);
    assert!(q.count_sql.starts_with("SELECT COUNT(DISTINCT p.id)"));
    assert!(q.data_sql.starts_with("SELECT DISTINCT p.id"));
    assert!(q.data_sql.ends_with("LIMIT $3 OFFSET $4"));
    match &q.count_params[0] {
        SqlParam::Text(t) => assert_eq!(t, "rust"),
        _ => panic!("expected the tag name"),
    }
    match &q.count_params[1] {
        SqlParam::Text(p) => assert_eq!(p, "%io%"),
        _ => panic!("expected the search pattern"),
    }
    assert_eq!(q.data_params.len(), 4);
}

#[test]
fn fixed_queries_have_expected_shape() {
    let (random_sql, random_params) = random_posts_query(-2);
    assert!(random_sql.ends_with("ORDER BY RANDOM() LIMIT $1"));
    assert!(matches!(random_params[0], SqlParam::Int(0)));

    let (lookup_sql, lookup_params) = post_by_username_slug_query("alice", "first");
    assert!(lookup_sql.contains("WHERE u.username = $1 AND p.slug = $2"));
    assert_eq!(lookup_params.len(), 2);

    let (tag_sql, tag_params) = tags_for_post_query(42);
    assert!(tag_sql.contains("WHERE ptt.post_id = $1 ORDER BY t.name"));
    assert!(matches!(tag_params[0], SqlParam::Id(42)));

    let (batch_sql, batch_params) = tags_for_posts_query(vec![1, 2, 3]);
    assert!(batch_sql.contains("WHERE ptt.post_id = ANY($1) ORDER BY t.name"));
    match &batch_params[0] {
        SqlParam::IdList(ids) => assert_eq!(ids, &vec![1, 2, 3]),
        _ => panic!("expected the identifier list"),
    }

    assert_eq!(all_tags_query(), "SELECT id, name, created_at FROM tags ORDER BY name");
}

#[test]
fn pagination_params_apply_defaults() {
    let query = PaginationQuery {
        offset: None,
        limit: None,
        search: Some("abc".to_string()),
        order_by: None,
        order_direction: None,
    };
    let (offset, limit, search, order_by, dir) = get_pagination_params(&query);
    assert_eq!(offset, 0);
    assert_eq!(limit, 10);
    assert_eq!(search, Some("abc"));
    assert!(order_by.is_none());
    assert!(dir.is_none());

    let explicit = PaginationQuery {
        offset: Some(30),
        limit: Some(5),
        search: None,
        order_by: Some("title".to_string()),
        order_direction: Some(OrderDirection::Asc),
    };
    let (offset, limit, search, order_by, dir) = get_pagination_params(&explicit);
    assert_eq!(offset, 30);
    assert_eq!(limit, 5);
    assert!(search.is_none());
    assert_eq!(order_by, Some("title"));
    assert!(matches!(dir, Some(OrderDirection::Asc)));
}

#[test]
fn random_limit_defaults_to_six() {
    assert_eq!(random_post_limit(&RandomPostQuery { limit: None }), 6);
    assert_eq!(random_post_limit(&RandomPostQuery { limit: Some(9) }), 9);
}

#[test]
fn response_envelope_carries_meta() {
    let ok: ApiResponse<u32> = ApiResponse::success(7);
    assert!(ok.success);
    assert_eq!(ok.data, Some(7));
    assert_eq!(ok.meta.total, 0);

    let paged: ApiResponse<Vec<u32>> = ApiResponse::with_meta(vec![1, 2], 42, Some(2), Some(0));
    assert!(paged.success);
    assert_eq!(paged.meta.total, 42);
    assert_eq!(paged.meta.limit, Some(2));
    assert_eq!(paged.meta.offset, Some(0));

    let failed: ApiResponse<u32> = ApiResponse::error("boom".to_string());
    assert!(!failed.success);
    assert!(failed.data.is_none());
    assert_eq!(failed.meta.total, 0);

    let m = Meta::default();
    assert_eq!(m.total, 0);
    assert!(m.limit.is_none());
    assert!(m.offset.is_none());

    let h = health();
    assert!(h.success);
    assert_eq!(h.message, "helloword");
}

#[test]
fn error_variants_map_to_statuses() {
    assert_eq!(AppError::Database("d".to_string()).status_code(), 500);
    assert_eq!(AppError::Pool("p".to_string()).status_code(), 503);
    assert_eq!(AppError::NotFound("n".to_string()).status_code(), 404);
    assert_eq!(AppError::BadRequest("b".to_string()).status_code(), 400);
    assert_eq!(AppError::InternalServerError("i".to_string()).status_code(), 500);
    assert_eq!(AppError::NotFound("missing".to_string()).message(), "missing");
}

#[test]
fn config_resolution_applies_defaults() {
    let stock = Config::resolve(None, None, None, None, None, None);
    assert_eq!(stock.port, 8000);
    assert_eq!(
        stock.database_url,
        "host=localhost user=postgres password=postgres dbname=rocketbackend"
    );
    assert_eq!(stock.db_pool.max_size, 20);
    assert_eq!(stock.db_pool.connection_timeout_secs, 30);
    assert_eq!(stock.db_pool.max_lifetime_secs, Some(1800));
    assert_eq!(stock.db_pool.idle_timeout_secs, Some(600));

    let custom = Config::resolve(
        Some(9000),
        Some("host=db".to_string()),
        Some(5),
        Some(10),
        Some(0),
        Some(120),
    );
    assert_eq!(custom.port, 9000);
    assert_eq!(custom.database_url, "host=db");
    assert_eq!(custom.db_pool.max_size, 5);
    assert_eq!(custom.db_pool.connection_timeout_secs, 10);
    assert_eq!(custom.db_pool.max_lifetime_secs, None);
    assert_eq!(custom.db_pool.idle_timeout_secs, Some(120));

    assert_eq!(optional_duration_secs(None, Some(0)), None);
    assert_eq!(optional_duration_secs(Some(3), Some(600)), Some(3));

    let pool = PoolConfig::default();
    assert_eq!(pool.max_size, 20);
}
