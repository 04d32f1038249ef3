//! Turning received documents into stored entities.

use vstd::prelude::*;
use crate::types::{ObjectType, ActivityType, ActorType};
use crate::ext::JsonVec;
use crate::model::{activity, object, actor, attachment};
use crate::types::DocumentType;
use crate::context::{Context, server_of};
use crate::text::{
    split, replace_all, ends_with, opt_view, string_views, chars_of, chars_replace_all, chars_split, chars_ends_with,
    chars_eq, string_of, views,
};

verus! {

/// A required field was missing or had the wrong type.
#[derive(Debug, Clone)]
pub struct FieldErr(pub String);

/// What the logic reads of a received activity (ids of linked nodes, not the nodes).
#[derive(Debug, Clone)]
pub struct ActivityDocument {
    pub id: Option<String>,
    pub activity_type: Option<ActivityType>,
    pub actor: Option<String>,
    pub object: Option<String>,
    pub target: Option<String>,
    pub published: Option<i64>,
    pub to: Vec<String>,
    pub bto: Vec<String>,
    pub cc: Vec<String>,
    pub bcc: Vec<String>,
}

/// What the logic reads of a received object; each total is that of the
/// collection when it is embedded and counts its items.
#[derive(Debug, Clone)]
pub struct ObjectDocument {
    pub id: Option<String>,
    pub object_type: Option<ObjectType>,
    pub attributed_to: Option<String>,
    pub name: Option<String>,
    pub summary: Option<String>,
    pub content: Option<String>,
    pub context: Option<String>,
    pub in_reply_to: Option<String>,
    pub published: Option<i64>,
    pub updated: Option<i64>,
    pub url: Option<String>,
    pub replies_total: Option<u64>,
    pub likes_total: Option<u64>,
    pub shares_total: Option<u64>,
    pub to: Vec<String>,
    pub bto: Vec<String>,
    pub cc: Vec<String>,
    pub bcc: Vec<String>,
    pub sensitive: Option<bool>,
}

/// What the logic reads of a received actor; `icon` and `image` are the URLs of
/// the embedded images.
#[derive(Debug, Clone)]
pub struct ActorDocument {
    pub id: Option<String>,
    pub actor_type: Option<ActorType>,
    pub preferred_username: Option<String>,
    pub name: Option<String>,
    pub summary: Option<String>,
    pub icon: Option<String>,
    pub image: Option<String>,
    pub inbox: Option<String>,
    pub outbox: Option<String>,
    pub shared_inbox: Option<String>,
    pub followers: Option<String>,
    pub following: Option<String>,
    pub published: Option<i64>,
    pub following_count: Option<u64>,
    pub followers_count: Option<u64>,
    pub statuses_count: Option<u64>,
    pub public_key_pem: Option<String>,
}

/// Types of documents that are not stored as objects.
pub open spec fn is_not_object(t: ObjectType) -> bool {
    t is Activity || t is Actor || t is Collection || t is Document
}

/// Whether a type is not stored as an object.
pub fn not_an_object(t: ObjectType) -> (r: bool)
    ensures
        r == is_not_object(t),
{
    match t {
        ObjectType::Activity(_) | ObjectType::Actor(_) | ObjectType::Collection(_) | ObjectType::Document(_) => true,
        _ => false,
    }
}

/// An actor id with every `http://`, then every `https://`, removed.
pub open spec fn actor_id_without_schemes(id: Seq<char>) -> Seq<char> {
    replace_all(replace_all(id, "http://"@, Seq::empty()), "https://"@, Seq::empty())
}

/// The domain and fallback username of an actor id: with schemes removed, what
/// precedes the first `/`, and what follows the last one.
pub open spec fn actor_domain(id: Seq<char>) -> Seq<char> {
    split(actor_id_without_schemes(id), '/')[0]
}

pub open spec fn actor_fallback_username(id: Seq<char>) -> Seq<char> {
    split(actor_id_without_schemes(id), '/').last()
}

/// A count as stored (a 32-bit field): a missing count is zero, a larger one wraps.
pub open spec fn stored_count(total: Option<u64>) -> i32 {
    match total {
        Some(t) => t as i32,
        None => 0,
    }
}

fn count_of(total: Option<u64>) -> (r: i32)
    ensures
        r == stored_count(total),
{
    match total {
        Some(t) => #[verifier::truncate] (t as i32),
        None => 0,
    }
}

pub(crate) fn clone_strings(v: &Vec<String>) -> (r: Vec<String>)
    ensures
        string_views(r@) == string_views(v@),
{
    let mut r: Vec<String> = Vec::new();
    assert(string_views(r@) =~= Seq::<Seq<char>>::empty());
    crate::model::activity::append_strings(&mut r, v);
    assert(string_views(Seq::<String>::empty()) + string_views(v@) =~= string_views(v@));
    r
}

/// The stored-entity builders.
pub struct AP;

impl AP {
    /// The activity to store: it needs an id, a type and an actor; a missing
    /// publication time is `now`.
    pub fn activity(doc: &ActivityDocument, now: i64) -> (r: Result<activity::Model, FieldErr>)
        ensures
            doc.id is None ==> (r matches Err(e) && e.0@ == "id"@),
            doc.id is Some && doc.activity_type is None ==> (r matches Err(e) && e.0@ == "type"@),
            doc.id is Some && doc.activity_type is Some && doc.actor is None ==> (r matches Err(e) && e.0@ == "id"@),
            doc.id is Some && doc.activity_type is Some && doc.actor is Some <==> r is Ok,
            r matches Ok(m) ==> {
                &&& m.internal == 0
                &&& m.id@ == doc.id->0@
                &&& m.activity_type == doc.activity_type->0
                &&& m.actor@ == doc.actor->0@
                &&& opt_view(m.object) == opt_view(doc.object)
                &&& opt_view(m.target) == opt_view(doc.target)
                &&& m.published == doc.published.unwrap_or(now)
                &&& string_views(m.to.0@) == string_views(doc.to@)
                &&& string_views(m.bto.0@) == string_views(doc.bto@)
                &&& string_views(m.cc.0@) == string_views(doc.cc@)
                &&& string_views(m.bcc.0@) == string_views(doc.bcc@)
            },
    {
        let id = match &doc.id {
            Some(x) => x.clone(),
            None => return Err(FieldErr(String::from_str("id"))),
        };
        let activity_type = match doc.activity_type {
            Some(t) => t,
            None => return Err(FieldErr(String::from_str("type"))),
        };
        let actor = match &doc.actor {
            Some(x) => x.clone(),
            None => return Err(FieldErr(String::from_str("id"))),
        };
        Ok(activity::Model {
            internal: 0,
            id,
            activity_type,
            actor,
            object: doc.object.clone(),
            target: doc.target.clone(),
            published: match doc.published { Some(p) => p, None => now },
            to: JsonVec(clone_strings(&doc.to)),
            bto: JsonVec(clone_strings(&doc.bto)),
            cc: JsonVec(clone_strings(&doc.cc)),
            bcc: JsonVec(clone_strings(&doc.bcc)),
        })
    }

    /// The object to store: it needs a type that is not an activity, actor,
    /// collection or document, and an id; missing times are `now`, missing counts
    /// zero, a missing sensitivity false.
    pub fn object(doc: &ObjectDocument, now: i64) -> (r: Result<object::Model, FieldErr>)
        ensures
            doc.object_type is None ==> (r matches Err(e) && e.0@ == "type"@),
            (doc.object_type matches Some(t) && is_not_object(t)) ==> (r matches Err(e) && e.0@ == "type"@),
            (doc.object_type matches Some(t) && !is_not_object(t) && doc.id is None) ==> (r matches Err(e) && e.0@ == "id"@),
            (doc.object_type matches Some(t) && !is_not_object(t) && doc.id is Some) <==> r is Ok,
            r matches Ok(m) ==> {
                &&& m.internal == 0
                &&& m.id@ == doc.id->0@
                &&& m.object_type == doc.object_type->0
                &&& opt_view(m.attributed_to) == opt_view(doc.attributed_to)
                &&& opt_view(m.name) == opt_view(doc.name)
                &&& opt_view(m.summary) == opt_view(doc.summary)
                &&& opt_view(m.content) == opt_view(doc.content)
                &&& opt_view(m.context) == opt_view(doc.context)
                &&& opt_view(m.in_reply_to) == opt_view(doc.in_reply_to)
                &&& opt_view(m.url) == opt_view(doc.url)
                &&& m.image is None && m.quote is None && m.audience is None
                &&& m.published == doc.published.unwrap_or(now)
                &&& m.updated == doc.updated.unwrap_or(now)
                &&& m.replies == stored_count(doc.replies_total)
                &&& m.likes == stored_count(doc.likes_total)
                &&& m.announces == stored_count(doc.shares_total)
                &&& m.sensitive == doc.sensitive.unwrap_or(false)
                &&& string_views(m.to.0@) == string_views(doc.to@)
                &&& string_views(m.bto.0@) == string_views(doc.bto@)
                &&& string_views(m.cc.0@) == string_views(doc.cc@)
                &&& string_views(m.bcc.0@) == string_views(doc.bcc@)
            },
    {
        let t = match doc.object_type {
            Some(t) => t,
            None => return Err(FieldErr(String::from_str("type"))),
        };
        if not_an_object(t) {
            return Err(FieldErr(String::from_str("type")));
        }
        let id = match &doc.id {
            Some(x) => x.clone(),
            None => return Err(FieldErr(String::from_str("id"))),
        };
        Ok(object::Model {
            internal: 0,
            id,
            object_type: t,
            attributed_to: doc.attributed_to.clone(),
            name: doc.name.clone(),
            summary: doc.summary.clone(),
            content: doc.content.clone(),
            image: None,
            quote: None,
            sensitive: match doc.sensitive { Some(s) => s, None => false },
            in_reply_to: doc.in_reply_to.clone(),
            url: doc.url.clone(),
            likes: count_of(doc.likes_total),
            announces: count_of(doc.shares_total),
            replies: count_of(doc.replies_total),
            context: doc.context.clone(),
            to: JsonVec(clone_strings(&doc.to)),
            bto: JsonVec(clone_strings(&doc.bto)),
            cc: JsonVec(clone_strings(&doc.cc)),
            bcc: JsonVec(clone_strings(&doc.bcc)),
            published: match doc.published { Some(p) => p, None => now },
            updated: match doc.updated { Some(p) => p, None => now },
            audience: None,
        })
    }

    /// The domain and fallback username of an actor id.
    pub fn actor_names(id: &str) -> (r: (String, String))
        ensures
            r.0@ == actor_domain(id@),
            r.1@ == actor_fallback_username(id@),
    {
        let c = chars_of(id);
        let http = chars_of("http://");
        let https = chars_of("https://");
        let empty: Vec<char> = Vec::new();
        let a = chars_replace_all(c.as_slice(), http.as_slice(), empty.as_slice());
        let b = chars_replace_all(a.as_slice(), https.as_slice(), empty.as_slice());
        assert(empty@ =~= Seq::<char>::empty());
        let parts = chars_split(b.as_slice(), '/');
        let n = parts.len();
        assert(views(parts@)[0] == parts@[0]@);
        assert(views(parts@).last() == parts@[n - 1]@);
        (string_of(parts[0].as_slice()), string_of(parts[n - 1].as_slice()))
    }

    /// The actor to store: it needs an id, a type and a public key; the domain
    /// and, when missing, the username come from the id; missing counts are zero;
    /// it is updated `now`, and no private key travels with a document.
    pub fn actor(doc: &ActorDocument, now: i64) -> (r: Result<actor::Model, FieldErr>)
        ensures
            doc.id is None ==> (r matches Err(e) && e.0@ == "id"@),
            doc.id is Some && doc.actor_type is None ==> (r matches Err(e) && e.0@ == "type"@),
            doc.id is Some && doc.actor_type is Some && doc.public_key_pem is None ==> (r matches Err(e) && e.0@ == "publicKey"@),
            (doc.id is Some && doc.actor_type is Some && doc.public_key_pem is Some) <==> r is Ok,
            r matches Ok(m) ==> {
                &&& m.internal == 0
                &&& m.id@ == doc.id->0@
                &&& m.domain@ == actor_domain(doc.id->0@)
                &&& m.preferred_username@ == (match doc.preferred_username {
                    Some(u) => u@,
                    None => actor_fallback_username(doc.id->0@),
                })
                &&& m.actor_type == doc.actor_type->0
                &&& opt_view(m.name) == opt_view(doc.name)
                &&& opt_view(m.summary) == opt_view(doc.summary)
                &&& opt_view(m.icon) == opt_view(doc.icon)
                &&& opt_view(m.image) == opt_view(doc.image)
                &&& opt_view(m.inbox) == opt_view(doc.inbox)
                &&& opt_view(m.outbox) == opt_view(doc.outbox)
                &&& opt_view(m.shared_inbox) == opt_view(doc.shared_inbox)
                &&& opt_view(m.followers) == opt_view(doc.followers)
                &&& opt_view(m.following) == opt_view(doc.following)
                &&& m.published == doc.published.unwrap_or(now)
                &&& m.updated == now
                &&& m.following_count == stored_count(doc.following_count)
                &&& m.followers_count == stored_count(doc.followers_count)
                &&& m.statuses_count == stored_count(doc.statuses_count)
                &&& m.public_key@ == doc.public_key_pem->0@
                &&& m.private_key is None
            },
    {
        let id = match &doc.id {
            Some(x) => x.clone(),
            None => return Err(FieldErr(String::from_str("id"))),
        };
        let (domain, fallback) = AP::actor_names(id.as_str());
        let actor_type = match doc.actor_type {
            Some(t) => t,
            None => return Err(FieldErr(String::from_str("type"))),
        };
        let public_key = match &doc.public_key_pem {
            Some(k) => k.clone(),
            None => return Err(FieldErr(String::from_str("publicKey"))),
        };
        Ok(actor::Model {
            internal: 0,
            domain,
            id,
            preferred_username: match &doc.preferred_username { Some(u) => u.clone(), None => fallback },
            actor_type,
            name: doc.name.clone(),
            summary: doc.summary.clone(),
            icon: doc.icon.clone(),
            image: doc.image.clone(),
            inbox: doc.inbox.clone(),
            outbox: doc.outbox.clone(),
            shared_inbox: doc.shared_inbox.clone(),
            followers: doc.followers.clone(),
            following: doc.following.clone(),
            published: match doc.published { Some(p) => p, None => now },
            updated: now,
            following_count: count_of(doc.following_count),
            followers_count: count_of(doc.followers_count),
            statuses_count: count_of(doc.statuses_count),
            public_key,
            private_key: None,
        })
    }
}


/// What the logic reads of an attached document (or link).
#[derive(Debug, Clone)]
pub struct AttachmentDocument {
    pub url: Option<String>,
    /// the node is a document, with this type when it declares one
    pub document: Option<Option<DocumentType>>,
    pub name: Option<String>,
    pub media_type: Option<String>,
    pub published: Option<i64>,
}

/// The document type stored for an attachment: its declared type, `Page` when a
/// document declares none, `Document` when it is no document.
pub open spec fn attachment_type(document: Option<Option<DocumentType>>) -> DocumentType {
    match document {
        None => DocumentType::Document,
        Some(t) => t.unwrap_or(DocumentType::Page),
    }
}

/// A string option's value, or the empty string.
pub open spec fn or_empty_view(o: Option<String>) -> Seq<char> {
    match o {
        Some(s) => s@,
        None => Seq::empty(),
    }
}

impl AP {
    /// The attachment of object `parent` to store: its URL (or nothing), its
    /// document type, its media type or `link`, its time or `now`.
    pub fn attachment(doc: &AttachmentDocument, parent: i64, now: i64) -> (r: attachment::Model)
        ensures
            r.internal == 0,
            r.url@ == or_empty_view(doc.url),
            r.object == parent,
            r.document_type == attachment_type(doc.document),
            opt_view(r.name) == opt_view(doc.name),
            r.media_type@ == (match doc.media_type { Some(m) => m@, None => "link"@ }),
            r.published == doc.published.unwrap_or(now),
    {
        attachment::Model {
            internal: 0,
            url: match &doc.url { Some(u) => u.clone(), None => String::new() },
            object: parent,
            document_type: match doc.document {
                None => DocumentType::Document,
                Some(t) => match t { Some(x) => x, None => DocumentType::Page },
            },
            name: doc.name.clone(),
            media_type: match &doc.media_type { Some(m) => m.clone(), None => String::from_str("link") },
            published: match doc.published { Some(p) => p, None => now },
        }
    }
}

/// The media type guessed from an image URL's extension.
pub open spec fn guessed_media_type(url: Seq<char>) -> Option<Seq<char>> {
    if ends_with(url, "png"@) {
        Some("image/png"@)
    } else if ends_with(url, "webp"@) {
        Some("image/webp"@)
    } else if ends_with(url, "jpeg"@) || ends_with(url, "jpg"@) {
        Some("image/jpeg"@)
    } else {
        None
    }
}

/// The media type guessed from an image URL's extension.
pub fn image_media_type(url: &str) -> (r: Option<String>)
    ensures
        opt_view(r) == guessed_media_type(url@),
{
    let c = chars_of(url);
    let png = chars_of("png");
    let webp = chars_of("webp");
    let jpeg = chars_of("jpeg");
    let jpg = chars_of("jpg");
    if chars_ends_with(c.as_slice(), png.as_slice()) {
        Some(String::from_str("image/png"))
    } else if chars_ends_with(c.as_slice(), webp.as_slice()) {
        Some(String::from_str("image/webp"))
    } else if chars_ends_with(c.as_slice(), jpeg.as_slice()) || chars_ends_with(c.as_slice(), jpg.as_slice()) {
        Some(String::from_str("image/jpeg"))
    } else {
        None
    }
}

impl AP {
    /// The attachment stored for the `image` of a post: like any attachment, but
    /// an image without a media type gets the one guessed from its URL, if any.
    pub fn image_attachment(doc: &AttachmentDocument, parent: i64, now: i64) -> (r: attachment::Model)
        ensures
            r.internal == 0,
            r.url@ == or_empty_view(doc.url),
            r.object == parent,
            r.document_type == attachment_type(doc.document),
            opt_view(r.name) == opt_view(doc.name),
            r.media_type@ == (match doc.media_type {
                Some(m) => m@,
                None => match guessed_media_type(or_empty_view(doc.url)) {
                    Some(g) => g,
                    None => "link"@,
                },
            }),
            r.published == doc.published.unwrap_or(now),
    {
        let url = match &doc.url { Some(u) => u.clone(), None => String::new() };
        let guess = image_media_type(url.as_str());
        let mut m = AP::attachment(doc, parent, now);
        if doc.media_type.is_none() {
            if let Some(g) = guess {
                m.media_type = g;
            }
        }
        m
    }
}

/// How the parent of a received object was looked up.
pub enum ParentLookup {
    /// the object replies to nothing
    NotAReply,
    /// the parent is stored, with this thread context
    Found(Option<String>),
    /// the parent is not stored
    Missing,
}

/// The thread context of a received object: its own id when it starts a thread,
/// its parent's context when the parent is known, none (to be filled later) otherwise.
pub fn thread_context(oid: &str, parent: ParentLookup) -> (r: Option<String>)
    ensures
        match parent {
            ParentLookup::NotAReply => r matches Some(c) && c@ == oid@,
            ParentLookup::Found(c) => opt_view(r) == opt_view(c),
            ParentLookup::Missing => r is None,
        },
{
    match parent {
        ParentLookup::NotAReply => Some(String::from_str(oid)),
        ParentLookup::Found(c) => c,
        ParentLookup::Missing => None,
    }
}

/// Whether `server` may create an object: it must be the server of the object's
/// author, or of the object itself when it has no author.
pub fn creation_allowed(server: &str, attributed_to: Option<&str>, oid: &str) -> (r: bool)
    ensures
        r == (match attributed_to {
            Some(a) => server@ == server_of(a@),
            None => server@ == server_of(oid@),
        }),
{
    let s = chars_of(server);
    let owner = match attributed_to {
        Some(a) => Context::server(a),
        None => Context::server(oid),
    };
    let o = chars_of(owner.as_str());
    chars_eq(s.as_slice(), o.as_slice())
}

/// What `mdhtml::safe_html` returns.
pub uninterp spec fn safe_html(text: Seq<char>) -> Seq<char>;

/// `mdhtml::safe_html`: the text reduced to a safe subset of HTML (named, a
/// function of the text alone).
#[verifier::external_body]
pub(crate) fn sanitize_html(text: &str) -> (r: String)
    ensures
        r@ == safe_html(text@),
{
    mdhtml::safe_html(text)
}

/// Stored content: reduced to a safe subset of HTML.
pub fn stored_content(content: Option<String>) -> (r: Option<String>)
    ensures
        match content {
            Some(c) => r matches Some(s) && s@ == safe_html(c@),
            None => r is None,
        },
{
    match content {
        Some(c) => Some(sanitize_html(c.as_str())),
        None => None,
    }
}

} // verus!
