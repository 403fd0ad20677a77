use blog_api::models::{Tag, User};
use blog_api::query::OrderDirection;
use blog_api::services::{
    get_all_posts, get_all_tags, get_post_by_username_and_slug, get_posts_by_tag,
    get_random_posts,
};
use blog_api::store::{PostRecord, PostTagLink, Store};

fn record(
    id: u128,
    title: &str,
    body: Option<&str>,
    created_by: u128,
    slug: &str,
    created_at: i64,
    published: bool,
    deleted_at: Option<i64>,
    view_count: i64,
) -> PostRecord {
    PostRecord {
        id,
        title: title.to_string(),
        body: body.map(|b| b.to_string()),
        created_by,
        slug: slug.to_string(),
        photo_url: None,
        created_at,
        updated_at: created_at,
        deleted_at,
        published,
        view_count,
        like_count: 0,
    }
}

fn sample_store() -> Store {
    let users = vec![
        User { id: 1, username: "alice".to_string() },
        User { id: 2, username: "bob".to_string() },
    ];
    let posts = vec![
        record(10, "First post", Some("short body"), 1, "first", 100, true, None, 5),
        record(11, "Second post", None, 2, "second", 200, true, None, 9),
        record(12, "Third post", Some("another body"), 1, "third", 300, true, None, 1),
        record(13, "Hidden draft", None, 1, "draft", 400, false, None, 0),
        record(14, "Soft deleted", None, 2, "gone", 500, true, Some(600), 0),
    ];
    let tags = vec![
        Tag { id: 1, name: "web".to_string(), created_at: Some(50) },
        Tag { id: 2, name: "rust".to_string(), created_at: None },
    ];
    let post_tags = vec![
        PostTagLink { post_id: 10, tag_id: 1 },
        PostTagLink { post_id: 10, tag_id: 2 },
        PostTagLink { post_id: 11, tag_id: 2 },
    ];
    Store { users, posts, tags, post_tags }
}

#[test]
fn list_all_returns_published_page_and_total() {
    let store = sample_store();
    let (posts, total) = get_all_posts(&store, 0, 10, None, None, None);
    assert_eq!(total, 3);
    assert_eq!(posts.len(), 3);
    for p in &posts {
        assert!(p.published);
        assert!(p.deleted_at.is_none());
    }
}

#[test]
fn list_all_default_order_is_created_at_descending() {
    let store = sample_store();
    let (posts, _) = get_all_posts(&store, 0, 10, None, None, None);
    let ids: Vec<u128> = posts.iter().map(|p| p.id).collect();
    assert_eq!(ids, vec![12, 11, 10]);
}

#[test]
fn pagination_respects_limit_and_keeps_total() {
    let store = sample_store();
    let (page1, total1) = get_all_posts(&store, 0, 2, None, None, None);
    let (page2, total2) = get_all_posts(&store, 2, 2, None, None, None);
    assert_eq!(total1, 3);
    assert_eq!(total2, 3);
    assert_eq!(page1.len(), 2);
    assert_eq!(page2.len(), 1);
}

#[test]
fn negative_offset_and_limit_clamp_to_zero() {
    let store = sample_store();
    let (posts, total) = get_all_posts(&store, -5, -1, None, None, None);
    assert_eq!(total, 3);
    assert_eq!(posts.len(), 0);
}

#[test]
fn unknown_order_by_acts_like_omitted() {
    let store = sample_store();
    let (with_bad, t1) = get_all_posts(&store, 0, 10, None, Some("evil; DROP TABLE"), None);
    let (with_none, t2) = get_all_posts(&store, 0, 10, None, None, None);
    assert_eq!(t1, t2);
    let ids1: Vec<u128> = with_bad.iter().map(|p| p.id).collect();
    let ids2: Vec<u128> = with_none.iter().map(|p| p.id).collect();
    assert_eq!(ids1, ids2);
}

#[test]
fn order_by_view_count_ascending() {
    let store = sample_store();
    let (posts, _) = get_all_posts(
        &store,
        0,
        10,
        None,
        Some("view_count"),
        Some(OrderDirection::Asc),
    );
    let counts: Vec<i64> = posts.iter().map(|p| p.view_count).collect();
    assert_eq!(counts, vec![1, 5, 9]);
}

#[test]
fn order_by_title_ascending() {
    let store = sample_store();
    let (posts, _) = get_all_posts(&store, 0, 10, None, Some("title"), Some(OrderDirection::Asc));
    let titles: Vec<String> = posts.iter().map(|p| p.title.clone()).collect();
    assert_eq!(titles, vec!["First post", "Second post", "Third post"]);
}

#[test]
fn search_matches_title_case_insensitively() {
    let store = sample_store();
    let (posts, total) = get_all_posts(&store, 0, 10, Some("FIRST"), None, None);
    assert_eq!(total, 1);
    assert_eq!(posts.len(), 1);
    assert_eq!(posts[0].id, 10);
}

#[test]
fn search_matches_creator_username() {
    let store = sample_store();
    let (posts, total) = get_all_posts(&store, 0, 10, Some("bob"), None, None);
    assert_eq!(total, 1);
    assert_eq!(posts[0].id, 11);
}

#[test]
fn search_for_literal_percent_is_not_a_wildcard() {
    let mut store = sample_store();
    store.posts.push(record(
        20,
        "50discount",
        None,
        1,
        "discount",
        700,
        true,
        None,
        0,
    ));
    store.posts.push(record(
        21,
        "Save 50% today",
        None,
        1,
        "save",
        800,
        true,
        None,
        0,
    ));
    let (posts, total) = get_all_posts(&store, 0, 10, Some("50%"), None, None);
    assert_eq!(total, 1);
    assert_eq!(posts.len(), 1);
    assert_eq!(posts[0].id, 21);
}

#[test]
fn list_view_truncates_long_body() {
    let mut store = sample_store();
    let long_body: String = "x".repeat(250);
    store.posts.push(record(
        30,
        "Long",
        Some(long_body.as_str()),
        1,
        "long",
        900,
        true,
        None,
        0,
    ));
    let (posts, _) = get_all_posts(&store, 0, 10, Some("Long"), None, None);
    assert_eq!(posts.len(), 1);
    let body = posts[0].body.as_ref().unwrap();
    assert_eq!(body.chars().count(), 203);
    let expected: String = "x".repeat(200) + "...";
    assert_eq!(body, &expected);
}

#[test]
fn list_view_keeps_short_body() {
    let mut store = sample_store();
    let short_body: String = "y".repeat(150);
    store.posts.push(record(
        31,
        "Briefly",
        Some(short_body.as_str()),
        1,
        "briefly",
        900,
        true,
        None,
        0,
    ));
    let (posts, _) = get_all_posts(&store, 0, 10, Some("Briefly"), None, None);
    assert_eq!(posts.len(), 1);
    assert_eq!(posts[0].body.as_ref().unwrap(), &short_body);
}

#[test]
fn detail_lookup_keeps_full_body() {
    let mut store = sample_store();
    let long_body: String = "z".repeat(250);
    store.posts.push(record(
        32,
        "Detail",
        Some(long_body.as_str()),
        1,
        "detail",
        900,
        true,
        None,
        0,
    ));
    let post = get_post_by_username_and_slug(&store, "alice", "detail").unwrap();
    assert_eq!(post.body.as_ref().unwrap(), &long_body);
    assert_eq!(post.body.as_ref().unwrap().chars().count(), 250);
}

#[test]
fn lookup_finds_post_with_tags_sorted_by_name() {
    let store = sample_store();
    let post = get_post_by_username_and_slug(&store, "alice", "first").unwrap();
    assert_eq!(post.id, 10);
    assert_eq!(post.creator.id, 1);
    assert_eq!(post.creator.username, "alice");
    let names: Vec<String> = post.tags.iter().map(|t| t.name.clone()).collect();
    assert_eq!(names, vec!["rust", "web"]);
}

#[test]
fn lookup_is_idempotent() {
    let store = sample_store();
    let a = get_post_by_username_and_slug(&store, "alice", "first").unwrap();
    let b = get_post_by_username_and_slug(&store, "alice", "first").unwrap();
    assert_eq!(a.id, b.id);
    assert_eq!(a.title, b.title);
    assert_eq!(a.body, b.body);
    assert_eq!(a.slug, b.slug);
    assert_eq!(a.creator.username, b.creator.username);
    let a_tags: Vec<String> = a.tags.iter().map(|t| t.name.clone()).collect();
    let b_tags: Vec<String> = b.tags.iter().map(|t| t.name.clone()).collect();
    assert_eq!(a_tags, b_tags);
}

#[test]
fn lookup_misses_unpublished_and_wrong_keys() {
    let store = sample_store();
    assert!(get_post_by_username_and_slug(&store, "alice", "draft").is_none());
    assert!(get_post_by_username_and_slug(&store, "bob", "gone").is_none());
    assert!(get_post_by_username_and_slug(&store, "bob", "first").is_none());
    assert!(get_post_by_username_and_slug(&store, "nobody", "first").is_none());
}

#[test]
fn tag_listing_filters_and_counts_distinct_posts() {
    let store = sample_store();
    let (posts, total) = get_posts_by_tag(&store, "rust", 0, 10, None, None, None);
    assert_eq!(total, 2);
    let mut ids: Vec<u128> = posts.iter().map(|p| p.id).collect();
    ids.sort();
    assert_eq!(ids, vec![10, 11]);
}

#[test]
fn unknown_tag_yields_empty_listing_not_error() {
    let store = sample_store();
    let (posts, total) = get_posts_by_tag(&store, "nonexistent-tag", 0, 10, None, None, None);
    assert_eq!(total, 0);
    assert!(posts.is_empty());
}

#[test]
fn tag_hydration_is_complete_and_exclusive() {
    let store = sample_store();
    let (posts, _) = get_all_posts(&store, 0, 10, None, None, None);
    for p in &posts {
        let names: Vec<String> = p.tags.iter().map(|t| t.name.clone()).collect();
        match p.id {
            10 => assert_eq!(names, vec!["rust", "web"]),
            11 => assert_eq!(names, vec!["rust"]),
            12 => assert!(names.is_empty()),
            _ => panic!("unexpected post"),
        }
    }
}

#[test]
fn random_sample_returns_all_when_limit_exceeds_data() {
    let store = sample_store();
    let posts = get_random_posts(&store, 6, 12345);
    assert_eq!(posts.len(), 3);
    let mut ids: Vec<u128> = posts.iter().map(|p| p.id).collect();
    ids.sort();
    ids.dedup();
    assert_eq!(ids.len(), 3);
    for p in &posts {
        assert!(p.published);
    }
}

#[test]
fn random_sample_respects_limit() {
    let store = sample_store();
    let posts = get_random_posts(&store, 2, 99);
    assert_eq!(posts.len(), 2);
    assert_ne!(posts[0].id, posts[1].id);
}

#[test]
fn all_tags_come_back_sorted_by_name() {
    let store = sample_store();
    let tags = get_all_tags(&store);
    let names: Vec<String> = tags.iter().map(|t| t.name.clone()).collect();
    assert_eq!(names, vec!["rust", "web"]);
    assert_eq!(tags[0].id, 2);
    assert_eq!(tags[1].id, 1);
}

#[test]
fn truncation_counts_characters_not_bytes() {
    let mut store = sample_store();
    let accented: String = "é".repeat(250);
    store.posts.push(record(
        33,
        "Accents",
        Some(accented.as_str()),
        1,
        "accents",
        900,
        true,
        None,
        0,
    ));
    let (posts, _) = get_all_posts(&store, 0, 10, Some("Accents"), None, None);
    assert_eq!(posts.len(), 1);
    let body = posts[0].body.as_ref().unwrap();
    assert_eq!(body.chars().count(), 203);
    let expected: String = "é".repeat(200) + "...";
    assert_eq!(body, &expected);
}

#[test]
fn tag_filter_combines_with_search_and_pagination() {
    let store = sample_store();
    let (posts, total) = get_posts_by_tag(&store, "rust", 0, 1, Some("first"), None, None);
    assert_eq!(total, 1);
    assert_eq!(posts.len(), 1);
    assert_eq!(posts[0].id, 10);
    let (next_page, total_again) =
        get_posts_by_tag(&store, "rust", 1, 1, Some("first"), None, None);
    assert_eq!(total_again, 1);
    assert!(next_page.is_empty());
}

#[test]
fn empty_store_lists_nothing() {
    let store = Store { users: vec![], posts: vec![], tags: vec![], post_tags: vec![] };
    let (posts, total) = get_all_posts(&store, 0, 10, None, None, None);
    assert_eq!(total, 0);
    assert!(posts.is_empty());
    assert!(get_random_posts(&store, 6, 7).is_empty());
    assert!(get_all_tags(&store).is_empty());
}
