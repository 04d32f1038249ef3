//! Hashtags of objects.

use vstd::prelude::*;

verus! {

/// Object `object` (by internal id) carries the hashtag `name`; `published` is in
/// milliseconds since the Unix epoch.
#[derive(Debug, Clone)]
pub struct Model {
    pub internal: i64,
    pub object: i64,
    pub name: String,
    pub published: i64,
}

impl Model {
    /// An equal copy.
    pub fn copied(&self) -> (r: Self)
        ensures
            r == *self,
    {
        Model { internal: self.internal, object: self.object, name: self.name.clone(), published: self.published }
    }
}

} // verus!
