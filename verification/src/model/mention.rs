//! Mentions of actors in objects.

use vstd::prelude::*;

verus! {

/// Object `object` mentions actor `actor` (both by internal id); `published` is in
/// milliseconds since the Unix epoch.
#[derive(Debug, Clone, Copy, PartialEq, Eq, Structural)]
pub struct Model {
    pub internal: i64,
    pub object: i64,
    pub actor: i64,
    pub published: i64,
}

} // verus!
