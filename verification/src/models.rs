//! The entities the service returns: posts with an embedded creator and a
//! tag list, and tags on their own.
//!
//! Identifiers and timestamps are carried as plain integers: a post or user
//! identifier is the 128-bit value of its UUID, a timestamp is a tick count
//! (microseconds since the epoch). The boundary converts between these and
//! its own richer types.

use vstd::prelude::*;

verus! {

/// The creator of a post: a user, represented minimally. Always embedded by
/// value inside a post, never fetched on its own.
#[verifier::ext_equal]
pub struct User {
    pub id: u128,
    pub username: String,
}

/// A tag. Read-only in this library.
#[verifier::ext_equal]
pub struct Tag {
    pub id: i32,
    pub name: String,
    pub created_at: Option<i64>,
}

/// A blog post with its embedded creator and tag list.
#[verifier::ext_equal]
pub struct Post {
    pub id: u128,
    pub title: String,
    pub body: Option<String>,
    pub created_by: u128,
    pub slug: String,
    pub photo_url: Option<String>,
    pub created_at: i64,
    pub updated_at: i64,
    pub deleted_at: Option<i64>,
    pub published: bool,
    pub view_count: i64,
    pub like_count: i64,
    pub creator: User,
    pub tags: Vec<Tag>,
}

/// An exact copy of a tag.
pub fn clone_tag(t: &Tag) -> (r: Tag)
    ensures
        r == *t,
{
    Tag { id: t.id, name: t.name.clone(), created_at: t.created_at }
}

/// An exact copy of an optional string.
pub fn clone_opt_string(s: &Option<String>) -> (r: Option<String>)
    ensures
        r == *s,
{
    match s {
        Some(v) => Some(v.clone()),
        None => None,
    }
}

} // verus!
