//! Stored attachments of objects.

use vstd::prelude::*;
use crate::types::DocumentType;

verus! {

/// A stored attachment; `published` is in milliseconds since the Unix epoch.
#[derive(Debug, Clone)]
pub struct Model {
    pub internal: i64,
    pub url: String,
    pub object: i64,
    pub document_type: DocumentType,
    pub name: Option<String>,
    pub media_type: String,
    pub published: i64,
}

impl Model {
    /// An equal copy.
    pub fn copied(&self) -> (r: Self)
        ensures
            r == *self,
    {
        let name = match &self.name {
            Some(n) => Some(n.clone()),
            None => None,
        };
        Model {
            internal: self.internal,
            url: self.url.clone(),
            object: self.object,
            document_type: self.document_type,
            name,
            media_type: self.media_type.clone(),
            published: self.published,
        }
    }
}

} // verus!
