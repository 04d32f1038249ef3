//! Stored objects.

use vstd::prelude::*;
use crate::ext::JsonVec;
use crate::types::ObjectType;
use crate::text::{string_views, push_str, string_of, opt_view, starts_with};
use crate::context::Context;
use crate::model::activity::{append_strings, all_addressed};

verus! {

/// A stored object; times are in milliseconds since the Unix epoch.
#[derive(Debug, Clone)]
pub struct Model {
    pub internal: i64,
    pub id: String,
    pub object_type: ObjectType,
    pub attributed_to: Option<String>,
    pub name: Option<String>,
    pub summary: Option<String>,
    pub content: Option<String>,
    pub image: Option<String>,
    pub quote: Option<String>,
    pub sensitive: bool,
    pub in_reply_to: Option<String>,
    pub url: Option<String>,
    pub likes: i32,
    pub announces: i32,
    pub replies: i32,
    pub context: Option<String>,
    pub to: JsonVec<String>,
    pub bto: JsonVec<String>,
    pub cc: JsonVec<String>,
    pub bcc: JsonVec<String>,
    pub published: i64,
    pub updated: i64,
    pub audience: Option<String>,
}

/// The id and first page of one of an object's collections (`shares`, `likes`,
/// `replies`): only a local object exposes them.
pub open spec fn collection_links(id: Seq<char>, name: Seq<char>, local: bool) -> Option<(Seq<char>, Seq<char>)> {
    if local {
        Some((id + "/"@ + name, id + "/"@ + name + "/page"@))
    } else {
        None
    }
}

impl Model {
    /// Everyone the object is addressed to: `to`, `bto`, `cc`, then `bcc`.
    pub fn addressed(&self) -> (r: Vec<String>)
        ensures
            string_views(r@) == all_addressed(
                string_views(self.to.0@),
                string_views(self.bto.0@),
                string_views(self.cc.0@),
                string_views(self.bcc.0@),
            ),
    {
        let mut r: Vec<String> = Vec::new();
        assert(string_views(r@) =~= Seq::<Seq<char>>::empty());
        append_strings(&mut r, &self.to.0);
        append_strings(&mut r, &self.bto.0);
        append_strings(&mut r, &self.cc.0);
        append_strings(&mut r, &self.bcc.0);
        r
    }

    /// The primary recipients: `to`, then `bto`.
    pub fn mentioning(&self) -> (r: Vec<String>)
        ensures
            string_views(r@) == string_views(self.to.0@) + string_views(self.bto.0@),
    {
        let mut r: Vec<String> = Vec::new();
        assert(string_views(r@) =~= Seq::<Seq<char>>::empty());
        append_strings(&mut r, &self.to.0);
        append_strings(&mut r, &self.bto.0);
        r
    }

    /// The id and first page of the collection `name` of this object, when it is local.
    pub fn collection_links(&self, name: &str, local: bool) -> (r: Option<(String, String)>)
        ensures
            match collection_links(self.id@, name@, local) {
                Some(p) => r matches Some(q) && q.0@ == p.0 && q.1@ == p.1,
                None => r is None,
            },
    {
        if !local {
            return None;
        }
        let mut id: Vec<char> = Vec::new();
        push_str(&mut id, self.id.as_str());
        push_str(&mut id, "/");
        push_str(&mut id, name);
        let mut page: Vec<char> = id.clone();
        push_str(&mut page, "/page");
        Some((string_of(id.as_slice()), string_of(page.as_slice())))
    }

    /// The `updated` time to publish: only when it differs from `published`.
    pub fn updated_field(&self) -> (r: Option<i64>)
        ensures
            r == (if self.updated != self.published { Some(self.updated) } else { None::<i64> }),
    {
        if self.updated != self.published { Some(self.updated) } else { None }
    }
}

/// One of an object's collections (`shares`, `likes`, `replies`) as it is
/// published: its id and first page (a local object's only) and its size.
#[derive(Debug, Clone)]
pub struct PublishedCollection {
    pub id: Option<String>,
    pub first: Option<String>,
    pub total_items: u64,
}

/// An object as it is published: the stored fields, with the blind copies left
/// out, `context` repeated as `conversation`, `updated` only when it differs from
/// `published`, and its three collections.
#[derive(Debug, Clone)]
pub struct Published {
    pub id: String,
    pub object_type: ObjectType,
    pub attributed_to: Option<String>,
    pub name: Option<String>,
    pub summary: Option<String>,
    pub content: Option<String>,
    /// the URL of the object's image
    pub image: Option<String>,
    pub context: Option<String>,
    pub conversation: Option<String>,
    pub in_reply_to: Option<String>,
    pub quote_url: Option<String>,
    pub published: i64,
    pub updated: Option<i64>,
    pub audience: Option<String>,
    pub to: Vec<String>,
    pub bto: Vec<String>,
    pub cc: Vec<String>,
    pub bcc: Vec<String>,
    pub url: Option<String>,
    pub sensitive: bool,
    pub shares: PublishedCollection,
    pub likes: PublishedCollection,
    pub replies: PublishedCollection,
}

/// `c` is the collection `name` of the object `id` with `total` items, exposed
/// when the object is local.
pub open spec fn publishes_collection(c: PublishedCollection, id: Seq<char>, name: Seq<char>, local: bool, total: i32) -> bool {
    &&& match collection_links(id, name, local) {
        Some(p) => opt_view(c.id) == Some(p.0) && opt_view(c.first) == Some(p.1),
        None => c.id is None && c.first is None,
    }
    &&& c.total_items == total as u64
}

impl Model {
    fn published_collection(&self, name: &str, local: bool, total: i32) -> (r: PublishedCollection)
        ensures
            publishes_collection(r, self.id@, name@, local, total),
    {
        match self.collection_links(name, local) {
            Some((id, first)) => PublishedCollection { id: Some(id), first: Some(first), total_items: total as u64 },
            None => PublishedCollection { id: None, first: None, total_items: total as u64 },
        }
    }

    /// The object as it is published by the server at `ctx`: `bto` and `bcc` are
    /// never published; the collections carry an id and a first page only when
    /// the object is local (its id starts with the base address).
    pub fn into_published(self, ctx: &Context) -> (r: Published)
        ensures
            r.id == self.id && r.object_type == self.object_type,
            r.attributed_to == self.attributed_to && r.name == self.name,
            r.summary == self.summary && r.content == self.content && r.image == self.image,
            r.context == self.context && opt_view(r.conversation) == opt_view(self.context),
            r.in_reply_to == self.in_reply_to && r.quote_url == self.quote,
            r.published == self.published,
            r.updated == (if self.updated != self.published { Some(self.updated) } else { None::<i64> }),
            r.audience == self.audience && r.url == self.url && r.sensitive == self.sensitive,
            r.to == self.to.0 && r.cc == self.cc.0,
            r.bto@.len() == 0 && r.bcc@.len() == 0,
            publishes_collection(r.shares, self.id@, "shares"@, starts_with(self.id@, ctx.base_view()), self.announces),
            publishes_collection(r.likes, self.id@, "likes"@, starts_with(self.id@, ctx.base_view()), self.likes),
            publishes_collection(r.replies, self.id@, "replies"@, starts_with(self.id@, ctx.base_view()), self.replies),
    {
        let local = ctx.is_local(self.id.as_str());
        let shares = self.published_collection("shares", local, self.announces);
        let likes = self.published_collection("likes", local, self.likes);
        let replies = self.published_collection("replies", local, self.replies);
        let updated = self.updated_field();
        let conversation = match &self.context {
            Some(c) => Some(c.clone()),
            None => None,
        };
        Published {
            id: self.id,
            object_type: self.object_type,
            attributed_to: self.attributed_to,
            name: self.name,
            summary: self.summary,
            content: self.content,
            image: self.image,
            context: self.context,
            conversation,
            in_reply_to: self.in_reply_to,
            quote_url: self.quote,
            published: self.published,
            updated,
            audience: self.audience,
            to: self.to.0,
            bto: Vec::new(),
            cc: self.cc.0,
            bcc: Vec::new(),
            url: self.url,
            sensitive: self.sensitive,
            shares,
            likes,
            replies,
        }
    }
}

} // verus!
