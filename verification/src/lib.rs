//! Read-oriented blog retrieval library.
//!
//! The library holds the verified core of a small JSON API over blog posts
//! and tags: parameter validation (pagination bounds, sort-field
//! whitelisting, search-pattern escaping), construction of the parameterized
//! count and data queries, mapping of flat relational rows into nested
//! entities (post, embedded creator, tags), batched tag hydration, and a
//! fully specified in-memory store giving the retrieval operations their
//! reference semantics. HTTP routing and the database round trips themselves
//! live outside the library; they hand plain values in and take plain values
//! back.

pub mod config;
pub mod error;
pub mod hydrate;
pub mod laws;
pub mod mapper;
pub mod models;
pub mod query;
pub mod response;
pub mod services;
pub mod store;
pub mod text;
