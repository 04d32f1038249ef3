//! Follow relations between actors.

use vstd::prelude::*;

verus! {

/// `follower` follows (or asked to follow) `following`, by the follow activity
/// `activity`; `accept` is the accepting activity once there is one. Actors and
/// activities are given by their internal ids.
#[derive(Debug, Clone, Copy, PartialEq, Eq, Structural)]
pub struct Model {
    pub internal: i64,
    pub follower: i64,
    pub following: i64,
    pub accept: Option<i64>,
    pub activity: i64,
}

} // verus!
