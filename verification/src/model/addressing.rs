//! Who an activity or an object is addressed to.

use vstd::prelude::*;

verus! {

/// Activity `activity` and object `object` (by internal id) are addressed to
/// actor `actor`, or to every actor of instance `instance`; when both are absent
/// the row makes them public. `published` is in milliseconds since the Unix epoch.
#[derive(Debug, Clone)]
pub struct Model {
    pub internal: i64,
    pub actor: Option<i64>,
    pub instance: Option<i64>,
    pub activity: Option<i64>,
    pub object: Option<i64>,
    pub published: i64,
}

} // verus!
