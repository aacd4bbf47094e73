//! A catalog of downloadable resources and the one request that lists it.
//!
//! `resource` models what a table row holds and how it is decoded, `query`
//! validates the pagination parameters and picks one of two fixed queries,
//! `response` is the envelope sent back, and `handlers` ties them together.
pub mod resource;
pub mod query;
pub mod response;
pub mod handlers;
