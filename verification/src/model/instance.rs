//! Known instances (servers) and what they say of themselves.

use vstd::prelude::*;

verus! {

/// A known instance; times are in milliseconds since the Unix epoch.
#[derive(Debug, Clone)]
pub struct Model {
    pub internal: i64,
    pub domain: String,
    pub name: Option<String>,
    pub software: Option<String>,
    pub down_since: Option<i64>,
    pub icon: Option<String>,
    pub version: Option<String>,
    pub users: Option<i64>,
    pub posts: Option<i64>,
    pub published: i64,
    pub updated: i64,
}

/// What an instance's nodeinfo document says of it.
#[derive(Debug, Clone)]
pub struct NodeInfo {
    pub software: String,
    pub version: Option<String>,
    pub users: Option<i64>,
    pub local_posts: Option<i64>,
}

} // verus!
