//! Per-user settings.

use vstd::prelude::*;

verus! {

/// The settings of one user.
#[derive(Debug, Clone)]
pub struct Model {
    pub internal: i64,
    pub actor: String,
    pub accept_follow_requests: bool,
    pub show_followers_count: bool,
    pub show_following_count: bool,
    pub show_followers: bool,
    pub show_following: bool,
}

impl Default for Model {
    /// Follow requests accepted, followers and following shown, with their counts.
    fn default() -> (r: Self)
        ensures
            r.internal == 0,
            r.actor@.len() == 0,
            r.accept_follow_requests,
            r.show_followers_count,
            r.show_following_count,
            r.show_followers,
            r.show_following,
    {
        Model {
            internal: 0,
            actor: String::new(),
            accept_follow_requests: true,
            show_following_count: true,
            show_following: true,
            show_followers_count: true,
            show_followers: true,
        }
    }
}

} // verus!
