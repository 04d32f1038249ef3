//! Stored actors.

use vstd::prelude::*;
use crate::types::ActorType;

verus! {

/// A stored actor; times are in milliseconds since the Unix epoch.
#[derive(Debug, Clone)]
pub struct Model {
    pub internal: i64,
    pub domain: String,
    pub id: String,
    pub preferred_username: String,
    pub actor_type: ActorType,
    pub name: Option<String>,
    pub summary: Option<String>,
    pub icon: Option<String>,
    pub image: Option<String>,
    pub inbox: Option<String>,
    pub outbox: Option<String>,
    pub shared_inbox: Option<String>,
    pub followers: Option<String>,
    pub following: Option<String>,
    pub published: i64,
    pub updated: i64,
    pub following_count: i32,
    pub followers_count: i32,
    pub statuses_count: i32,
    pub public_key: String,
    pub private_key: Option<String>,
}

} // verus!
