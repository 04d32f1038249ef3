//! Filling timeline entries with what belongs to their objects, and the names
//! that tags are shown with.

use vstd::prelude::*;
use crate::text::{push_str, string_of, opt_view};
use crate::model::{activity, object, attachment, mention, hashtag};

verus! {

/// How a mention is shown: `@{username}@{domain}`.
pub fn mention_name(preferred_username: &str, domain: &str) -> (r: String)
    ensures
        r@ == "@"@ + preferred_username@ + "@"@ + domain@,
{
    let mut out: Vec<char> = Vec::new();
    push_str(&mut out, "@");
    push_str(&mut out, preferred_username);
    push_str(&mut out, "@");
    push_str(&mut out, domain);
    string_of(out.as_slice())
}

/// How a hashtag is shown: `#{name}`.
pub fn hashtag_name(name: &str) -> (r: String)
    ensures
        r@ == "#"@ + name@,
{
    let mut out: Vec<char> = Vec::new();
    push_str(&mut out, "#");
    push_str(&mut out, name);
    string_of(out.as_slice())
}

/// What rows loaded in a batch are grouped by: the internal id of the object
/// they belong to.
pub trait BatchFillableKey {
    fn key(&self) -> i64;
}

impl BatchFillableKey for attachment::Model {
    fn key(&self) -> (r: i64)
        ensures
            r == self.object,
    {
        self.object
    }
}

impl BatchFillableKey for mention::Model {
    fn key(&self) -> (r: i64)
        ensures
            r == self.object,
    {
        self.object
    }
}

impl BatchFillableKey for hashtag::Model {
    fn key(&self) -> (r: i64)
        ensures
            r == self.object,
    {
        self.object
    }
}

/// The kind of a tag of an object.
#[derive(Debug, Clone, Copy, PartialEq, Eq, Structural)]
pub enum LinkType {
    Mention,
    Hashtag,
}

/// A tag of an object as it is shown: a link with a kind, a target and a name.
#[derive(Debug, Clone)]
pub struct TagLink {
    pub link_type: LinkType,
    pub href: Option<String>,
    pub name: Option<String>,
}

/// A tag seen through the views of its strings.
pub open spec fn tag_view(t: TagLink) -> (LinkType, Option<Seq<char>>, Option<Seq<char>>) {
    (t.link_type, opt_view(t.href), opt_view(t.name))
}

/// A mention of an actor, with the actor's id and its `@user@domain` name.
#[derive(Debug, Clone)]
pub struct RichMention {
    pub mention: mention::Model,
    pub id: String,
    pub fqn: String,
}

/// How a mention is shown: a mention link to the actor, named by its full name.
pub open spec fn mention_tag(m: RichMention) -> (LinkType, Option<Seq<char>>, Option<Seq<char>>) {
    (LinkType::Mention, Some(m.id@), Some(m.fqn@))
}

impl RichMention {
    /// The mention as a tag: a mention link to the actor, named by its full name.
    pub fn ap(self) -> (r: TagLink)
        ensures
            tag_view(r) == mention_tag(self),
    {
        TagLink { link_type: LinkType::Mention, href: Some(self.id), name: Some(self.fqn) }
    }
}

/// A hashtag of an object.
#[derive(Debug, Clone)]
pub struct RichHashtag {
    pub hash: hashtag::Model,
}

/// How a hashtag is shown: a hashtag link named `#{name}`, with no target.
pub open spec fn hashtag_tag(h: RichHashtag) -> (LinkType, Option<Seq<char>>, Option<Seq<char>>) {
    (LinkType::Hashtag, None, Some("#"@ + h.hash.name@))
}

impl RichHashtag {
    /// The hashtag as a tag: a hashtag link named `#{name}`, with no target.
    pub fn ap(self) -> (r: TagLink)
        ensures
            tag_view(r) == hashtag_tag(self),
    {
        TagLink { link_type: LinkType::Hashtag, href: None, name: Some(hashtag_name(self.hash.name.as_str())) }
    }
}

/// The tags of an object: its mentions, then its hashtags, each in order.
pub open spec fn tags_of(mentions: Option<Vec<RichMention>>, hashtags: Option<Vec<RichHashtag>>) -> Seq<(LinkType, Option<Seq<char>>, Option<Seq<char>>)> {
    let ms = match mentions { Some(v) => v@, None => Seq::empty() };
    let hs = match hashtags { Some(v) => v@, None => Seq::empty() };
    ms.map_values(|m: RichMention| mention_tag(m)) + hs.map_values(|h: RichHashtag| hashtag_tag(h))
}

/// The tags in `v` seen through their views.
pub open spec fn tags_view(v: Seq<TagLink>) -> Seq<(LinkType, Option<Seq<char>>, Option<Seq<char>>)> {
    v.map_values(|t: TagLink| tag_view(t))
}

fn push_mention_tags(out: &mut Vec<TagLink>, mentions: Vec<RichMention>)
    ensures
        tags_view(final(out)@) == tags_view(old(out)@) + mentions@.map_values(|m: RichMention| mention_tag(m)),
{
    let mut rest = mentions;
    let ghost all = rest@;
    let ghost start = out@;
    let mut i: usize = 0;
    let _n = rest.len();
    while rest.len() > 0
        invariant
            i <= all.len() <= usize::MAX,
            rest@ == all.subrange(i as int, all.len() as int),
            tags_view(out@) == tags_view(start) + all.take(i as int).map_values(|m: RichMention| mention_tag(m)),
        decreases rest@.len(),
    {
        let ghost before = out@;
        let m = rest.remove(0);
        assert(m == all[i as int]);
        let t = m.ap();
        out.push(t);
        proof {
            assert(tags_view(out@) =~= tags_view(before).push(tag_view(t)));
            assert(all.take(i + 1).map_values(|m: RichMention| mention_tag(m))
                =~= all.take(i as int).map_values(|m: RichMention| mention_tag(m)).push(mention_tag(all[i as int])));
        }
        i = i + 1;
    }
    assert(all.take(i as int) =~= all);
}

fn push_hashtag_tags(out: &mut Vec<TagLink>, hashtags: Vec<RichHashtag>)
    ensures
        tags_view(final(out)@) == tags_view(old(out)@) + hashtags@.map_values(|h: RichHashtag| hashtag_tag(h)),
{
    let mut rest = hashtags;
    let ghost all = rest@;
    let ghost start = out@;
    let mut i: usize = 0;
    let _n = rest.len();
    while rest.len() > 0
        invariant
            i <= all.len() <= usize::MAX,
            rest@ == all.subrange(i as int, all.len() as int),
            tags_view(out@) == tags_view(start) + all.take(i as int).map_values(|h: RichHashtag| hashtag_tag(h)),
        decreases rest@.len(),
    {
        let ghost before = out@;
        let h = rest.remove(0);
        assert(h == all[i as int]);
        let t = h.ap();
        out.push(t);
        proof {
            assert(tags_view(out@) =~= tags_view(before).push(tag_view(t)));
            assert(all.take(i + 1).map_values(|h: RichHashtag| hashtag_tag(h))
                =~= all.take(i as int).map_values(|h: RichHashtag| hashtag_tag(h)).push(hashtag_tag(all[i as int])));
        }
        i = i + 1;
    }
    assert(all.take(i as int) =~= all);
}

fn collect_tags(mentions: Option<Vec<RichMention>>, hashtags: Option<Vec<RichHashtag>>) -> (r: Vec<TagLink>)
    ensures
        tags_view(r@) == tags_of(mentions, hashtags),
{
    let ghost (m0, h0) = (mentions, hashtags);
    let mut out: Vec<TagLink> = Vec::new();
    assert(tags_view(out@) =~= Seq::empty());
    match mentions {
        Some(ms) => push_mention_tags(&mut out, ms),
        None => {},
    }
    match hashtags {
        Some(hs) => push_hashtag_tags(&mut out, hs),
        None => {},
    }
    proof {
        let ms = match m0 { Some(v) => v@, None => Seq::empty() };
        let hs = match h0 { Some(v) => v@, None => Seq::empty() };
        assert(ms.map_values(|m: RichMention| mention_tag(m)) + hs.map_values(|h: RichHashtag| hashtag_tag(h))
            =~= Seq::<(LinkType, Option<Seq<char>>, Option<Seq<char>>)>::empty() + ms.map_values(|m: RichMention| mention_tag(m)) + hs.map_values(|h: RichHashtag| hashtag_tag(h)));
    }
    out
}

/// A timeline entry as it is loaded: an activity, its object, or both; whether
/// the viewer liked the object (the liking actor's internal id); and what is
/// filled in afterwards by batches.
#[derive(Debug, Clone)]
pub struct RichActivity {
    pub activity: Option<activity::Model>,
    pub object: Option<object::Model>,
    pub liked: Option<i64>,
    pub attachments: Option<Vec<attachment::Model>>,
    pub hashtags: Option<Vec<RichHashtag>>,
    pub mentions: Option<Vec<RichMention>>,
}

/// An object as it is shown: whether the viewer liked it (shown only when so),
/// its tags (absent when there are none to show) and its attachments.
#[derive(Debug, Clone)]
pub struct RenderedObject {
    pub object: object::Model,
    pub liked_by_me: Option<bool>,
    pub tags: Option<Vec<TagLink>>,
    pub attachments: Option<Vec<attachment::Model>>,
}

/// A timeline entry as it is shown.
#[derive(Debug, Clone)]
pub enum Rendered {
    /// nothing to show
    Null,
    /// an activity whose object is given by id
    Activity(activity::Model),
    /// an object alone
    Object(RenderedObject),
    /// an activity with its object embedded
    ActivityWithObject(activity::Model, RenderedObject),
}

/// The viewer's like as it is shown: `true` when there is one, absent otherwise.
pub open spec fn liked_by_me(liked: Option<i64>) -> Option<bool> {
    if liked is Some { Some(true) } else { None }
}

/// `o` shows `object` with the given like, tags and attachments; the tags are
/// absent when `maybe` and there are none.
pub open spec fn shows(o: RenderedObject, object: object::Model, liked: Option<i64>,
    mentions: Option<Vec<RichMention>>, hashtags: Option<Vec<RichHashtag>>,
    attachments: Option<Vec<attachment::Model>>, maybe: bool) -> bool
{
    &&& o.object == object
    &&& o.liked_by_me == liked_by_me(liked)
    &&& o.attachments == attachments
    &&& if maybe && tags_of(mentions, hashtags).len() == 0 {
            o.tags is None
        } else {
            o.tags matches Some(t) && tags_view(t@) == tags_of(mentions, hashtags)
        }
}

fn render_object(object: object::Model, liked: Option<i64>, mentions: Option<Vec<RichMention>>,
    hashtags: Option<Vec<RichHashtag>>, attachments: Option<Vec<attachment::Model>>, maybe: bool) -> (r: RenderedObject)
    ensures
        shows(r, object, liked, mentions, hashtags, attachments, maybe),
{
    let tags = collect_tags(mentions, hashtags);
    let tags = if maybe && tags.len() == 0 { None } else { Some(tags) };
    let liked_by_me = if liked.is_some() { Some(true) } else { None };
    RenderedObject { object, liked_by_me, tags, attachments }
}

impl RichActivity {
    /// The entry as it is shown: nothing when it has neither activity nor object;
    /// the activity alone when it has no object; the object with its like, tags
    /// (none when empty) and attachments when it has no activity; else the
    /// activity with that object embedded.
    pub fn ap(self) -> (r: Rendered)
        ensures
            match (self.activity, self.object) {
                (None, None) => r is Null,
                (Some(a), None) => r == Rendered::Activity(a),
                (None, Some(o)) => r matches Rendered::Object(ro)
                    && shows(ro, o, self.liked, self.mentions, self.hashtags, self.attachments, true),
                (Some(a), Some(o)) => r matches Rendered::ActivityWithObject(ra, ro) && ra == a
                    && shows(ro, o, self.liked, self.mentions, self.hashtags, self.attachments, true),
            },
    {
        match (self.activity, self.object) {
            (None, None) => Rendered::Null,
            (Some(a), None) => Rendered::Activity(a),
            (None, Some(o)) => Rendered::Object(
                render_object(o, self.liked, self.mentions, self.hashtags, self.attachments, true),
            ),
            (Some(a), Some(o)) => Rendered::ActivityWithObject(
                a,
                render_object(o, self.liked, self.mentions, self.hashtags, self.attachments, true),
            ),
        }
    }

    /// Fills in the attachments of the entry's object.
    pub fn accept_attachments(&mut self, batch: Vec<attachment::Model>)
        ensures
            final(self).attachments == Some(batch),
            final(self).activity == old(self).activity && final(self).object == old(self).object,
            final(self).liked == old(self).liked,
            final(self).hashtags == old(self).hashtags && final(self).mentions == old(self).mentions,
    {
        self.attachments = Some(batch);
    }

    /// Fills in the hashtags of the entry's object.
    pub fn accept_hashtags(&mut self, batch: Vec<hashtag::Model>)
        ensures
            final(self).hashtags matches Some(h) && h@ == batch@.map_values(|x: hashtag::Model| RichHashtag { hash: x }),
            final(self).activity == old(self).activity && final(self).object == old(self).object,
            final(self).liked == old(self).liked,
            final(self).attachments == old(self).attachments && final(self).mentions == old(self).mentions,
    {
        self.hashtags = Some(rich_hashtags(batch));
    }

    /// Fills in the mentions of the entry's object: each row whose actor was
    /// found (`actors[i]`, its id, username and domain, goes with `batch[i]`), in
    /// order, named `@{username}@{domain}`.
    pub fn accept_mentions(&mut self, batch: Vec<mention::Model>, actors: Vec<Option<(String, String, String)>>)
        requires
            batch@.len() == actors@.len(),
        ensures
            final(self).mentions matches Some(m) && mentions_view(m@) == found_mentions(batch@, actors@),
            final(self).activity == old(self).activity && final(self).object == old(self).object,
            final(self).liked == old(self).liked,
            final(self).attachments == old(self).attachments && final(self).hashtags == old(self).hashtags,
    {
        self.mentions = Some(rich_mentions(batch, actors));
    }
}

fn rich_hashtags(batch: Vec<hashtag::Model>) -> (r: Vec<RichHashtag>)
    ensures
        r@ == batch@.map_values(|x: hashtag::Model| RichHashtag { hash: x }),
{
    let mut rest = batch;
    let ghost all = rest@;
    let _n = rest.len();
    let mut out: Vec<RichHashtag> = Vec::new();
    let mut i: usize = 0;
    while rest.len() > 0
        invariant
            i <= all.len() <= usize::MAX,
            rest@ == all.subrange(i as int, all.len() as int),
            out@ == all.take(i as int).map_values(|x: hashtag::Model| RichHashtag { hash: x }),
        decreases rest@.len(),
    {
        let h = rest.remove(0);
        out.push(RichHashtag { hash: h });
        proof {
            assert(all.take(i + 1).map_values(|x: hashtag::Model| RichHashtag { hash: x })
                =~= all.take(i as int).map_values(|x: hashtag::Model| RichHashtag { hash: x }).push(RichHashtag { hash: all[i as int] }));
        }
        i = i + 1;
    }
    assert(all.take(i as int) =~= all);
    out
}

/// Mentions seen through their views: the row, the actor's id, its full name.
pub open spec fn mentions_view(v: Seq<RichMention>) -> Seq<(mention::Model, Seq<char>, Seq<char>)> {
    v.map_values(|m: RichMention| (m.mention, m.id@, m.fqn@))
}

/// The mentions made of the rows whose actor was found, in order.
pub open spec fn found_mentions(batch: Seq<mention::Model>, actors: Seq<Option<(String, String, String)>>) -> Seq<(mention::Model, Seq<char>, Seq<char>)>
    decreases batch.len(),
{
    if batch.len() == 0 || actors.len() == 0 {
        Seq::empty()
    } else {
        let rest = found_mentions(batch.drop_last(), actors.drop_last());
        match actors.last() {
            Some((id, user, domain)) => rest.push((batch.last(), id@, "@"@ + user@ + "@"@ + domain@)),
            None => rest,
        }
    }
}

fn rich_mentions(batch: Vec<mention::Model>, actors: Vec<Option<(String, String, String)>>) -> (r: Vec<RichMention>)
    requires
        batch@.len() == actors@.len(),
    ensures
        mentions_view(r@) == found_mentions(batch@, actors@),
{
    let mut out: Vec<RichMention> = Vec::new();
    let mut i: usize = 0;
    assert(mentions_view(out@) =~= Seq::empty());
    while i < batch.len()
        invariant
            batch@.len() == actors@.len(),
            i <= batch@.len(),
            mentions_view(out@) == found_mentions(batch@.take(i as int), actors@.take(i as int)),
        decreases batch@.len() - i,
    {
        assert(batch@.take(i + 1).drop_last() =~= batch@.take(i as int));
        assert(actors@.take(i + 1).drop_last() =~= actors@.take(i as int));
        let ghost before = out@;
        match &actors[i] {
            Some((id, user, domain)) => {
                let m = RichMention { mention: batch[i], id: id.clone(), fqn: mention_name(user.as_str(), domain.as_str()) };
                out.push(m);
                assert(mentions_view(out@) =~= mentions_view(before).push((m.mention, m.id@, m.fqn@)));
            },
            None => {},
        }
        i = i + 1;
    }
    assert(batch@.take(batch@.len() as int) =~= batch@);
    assert(actors@.take(actors@.len() as int) =~= actors@);
    out
}

/// An object loaded on its own, with what is filled in afterwards by batches.
#[derive(Debug, Clone)]
pub struct RichObject {
    pub object: object::Model,
    pub liked: Option<i64>,
    pub attachments: Option<Vec<attachment::Model>>,
    pub hashtags: Option<Vec<RichHashtag>>,
    pub mentions: Option<Vec<RichMention>>,
}

impl RichObject {
    /// The object as it is shown, with its like, its tags (always present, empty
    /// when there are none) and its attachments.
    pub fn ap(self) -> (r: RenderedObject)
        ensures
            shows(r, self.object, self.liked, self.mentions, self.hashtags, self.attachments, false),
    {
        render_object(self.object, self.liked, self.mentions, self.hashtags, self.attachments, false)
    }

    /// Fills in the object's attachments.
    pub fn accept_attachments(&mut self, batch: Vec<attachment::Model>)
        ensures
            final(self).attachments == Some(batch),
            final(self).object == old(self).object && final(self).liked == old(self).liked,
            final(self).hashtags == old(self).hashtags && final(self).mentions == old(self).mentions,
    {
        self.attachments = Some(batch);
    }

    /// Fills in the object's hashtags.
    pub fn accept_hashtags(&mut self, batch: Vec<hashtag::Model>)
        ensures
            final(self).hashtags matches Some(h) && h@ == batch@.map_values(|x: hashtag::Model| RichHashtag { hash: x }),
            final(self).object == old(self).object && final(self).liked == old(self).liked,
            final(self).attachments == old(self).attachments && final(self).mentions == old(self).mentions,
    {
        self.hashtags = Some(rich_hashtags(batch));
    }

    /// Fills in the object's mentions: each row whose actor was found, in order.
    pub fn accept_mentions(&mut self, batch: Vec<mention::Model>, actors: Vec<Option<(String, String, String)>>)
        requires
            batch@.len() == actors@.len(),
        ensures
            final(self).mentions matches Some(m) && mentions_view(m@) == found_mentions(batch@, actors@),
            final(self).object == old(self).object && final(self).liked == old(self).liked,
            final(self).attachments == old(self).attachments && final(self).hashtags == old(self).hashtags,
    {
        self.mentions = Some(rich_mentions(batch, actors));
    }
}

/// The rows of `batch` that belong to the object with internal id `k`, in order.
pub open spec fn keyed_attachments(batch: Seq<attachment::Model>, k: i64) -> Seq<attachment::Model>
    decreases batch.len(),
{
    if batch.len() == 0 {
        Seq::empty()
    } else {
        let rest = keyed_attachments(batch.drop_last(), k);
        if batch.last().object == k { rest.push(batch.last()) } else { rest }
    }
}

fn attachments_for(batch: &Vec<attachment::Model>, k: i64) -> (r: Vec<attachment::Model>)
    ensures
        r@ == keyed_attachments(batch@, k),
{
    let mut r: Vec<attachment::Model> = Vec::new();
    let mut i: usize = 0;
    while i < batch.len()
        invariant
            i <= batch@.len(),
            r@ == keyed_attachments(batch@.take(i as int), k),
        decreases batch@.len() - i,
    {
        assert(batch@.take(i + 1).drop_last() =~= batch@.take(i as int));
        if batch[i].key() == k {
            r.push(batch[i].copied());
        }
        i = i + 1;
    }
    assert(batch@.take(batch@.len() as int) =~= batch@);
    r
}

/// `new` is `old` with the attachments of its object taken from `batch`, when
/// it has an object and `batch` holds rows for it; otherwise `old` unchanged.
pub open spec fn filled_attachments(new: RichActivity, old: RichActivity, batch: Seq<attachment::Model>) -> bool {
    &&& new.activity == old.activity && new.object == old.object && new.liked == old.liked
    &&& new.hashtags == old.hashtags && new.mentions == old.mentions
    &&& match old.object {
            Some(o) => if keyed_attachments(batch, o.internal).len() > 0 {
                new.attachments matches Some(v) && v@ == keyed_attachments(batch, o.internal)
            } else {
                new.attachments == old.attachments
            },
            None => new.attachments == old.attachments,
        }
}

/// Fills in the attachments of every entry from one batch of rows: each entry
/// gets the rows of its object, so the same object shown twice gets them twice.
pub fn with_attachments(entries: Vec<RichActivity>, batch: &Vec<attachment::Model>) -> (r: Vec<RichActivity>)
    ensures
        r@.len() == entries@.len(),
        forall|i: int| 0 <= i < r@.len() ==> filled_attachments(#[trigger] r@[i], entries@[i], batch@),
{
    let mut rest = entries;
    let ghost all = rest@;
    let _n = rest.len();
    let mut out: Vec<RichActivity> = Vec::new();
    let mut i: usize = 0;
    while rest.len() > 0
        invariant
            i <= all.len() <= usize::MAX,
            rest@ == all.subrange(i as int, all.len() as int),
            out@.len() == i,
            forall|j: int| 0 <= j < i ==> filled_attachments(#[trigger] out@[j], all[j], batch@),
        decreases rest@.len(),
    {
        let mut e = rest.remove(0);
        assert(e == all[i as int]);
        let rows = match &e.object {
            Some(o) => attachments_for(batch, o.internal),
            None => Vec::new(),
        };
        if e.object.is_some() && rows.len() > 0 {
            e.accept_attachments(rows);
        }
        out.push(e);
        i = i + 1;
    }
    out
}

/// The rows of `batch` for the object with internal id `k`, in order.
pub open spec fn keyed_hashtags(batch: Seq<hashtag::Model>, k: i64) -> Seq<hashtag::Model>
    decreases batch.len(),
{
    if batch.len() == 0 {
        Seq::empty()
    } else {
        let rest = keyed_hashtags(batch.drop_last(), k);
        if batch.last().object == k { rest.push(batch.last()) } else { rest }
    }
}

fn hashtags_for(batch: &Vec<hashtag::Model>, k: i64) -> (r: Vec<hashtag::Model>)
    ensures
        r@ == keyed_hashtags(batch@, k),
{
    let mut r: Vec<hashtag::Model> = Vec::new();
    let mut i: usize = 0;
    while i < batch.len()
        invariant
            i <= batch@.len(),
            r@ == keyed_hashtags(batch@.take(i as int), k),
        decreases batch@.len() - i,
    {
        assert(batch@.take(i + 1).drop_last() =~= batch@.take(i as int));
        if batch[i].key() == k {
            r.push(batch[i].copied());
        }
        i = i + 1;
    }
    assert(batch@.take(batch@.len() as int) =~= batch@);
    r
}

/// `new` is `old` with the hashtags of its object taken from `batch`, when it
/// has an object and `batch` holds rows for it; otherwise `old` unchanged.
pub open spec fn filled_hashtags(new: RichActivity, old: RichActivity, batch: Seq<hashtag::Model>) -> bool {
    &&& new.activity == old.activity && new.object == old.object && new.liked == old.liked
    &&& new.attachments == old.attachments && new.mentions == old.mentions
    &&& match old.object {
            Some(o) => if keyed_hashtags(batch, o.internal).len() > 0 {
                new.hashtags matches Some(v)
                    && v@ == keyed_hashtags(batch, o.internal).map_values(|x: hashtag::Model| RichHashtag { hash: x })
            } else {
                new.hashtags == old.hashtags
            },
            None => new.hashtags == old.hashtags,
        }
}

/// Fills in the hashtags of every entry from one batch of rows.
pub fn with_hashtags(entries: Vec<RichActivity>, batch: &Vec<hashtag::Model>) -> (r: Vec<RichActivity>)
    ensures
        r@.len() == entries@.len(),
        forall|i: int| 0 <= i < r@.len() ==> filled_hashtags(#[trigger] r@[i], entries@[i], batch@),
{
    let mut rest = entries;
    let ghost all = rest@;
    let _n = rest.len();
    let mut out: Vec<RichActivity> = Vec::new();
    let mut i: usize = 0;
    while rest.len() > 0
        invariant
            i <= all.len() <= usize::MAX,
            rest@ == all.subrange(i as int, all.len() as int),
            out@.len() == i,
            forall|j: int| 0 <= j < i ==> filled_hashtags(#[trigger] out@[j], all[j], batch@),
        decreases rest@.len(),
    {
        let mut e = rest.remove(0);
        assert(e == all[i as int]);
        let rows = match &e.object {
            Some(o) => hashtags_for(batch, o.internal),
            None => Vec::new(),
        };
        if e.object.is_some() && rows.len() > 0 {
            e.accept_hashtags(rows);
        }
        out.push(e);
        i = i + 1;
    }
    out
}

/// The mention rows of `batch` for the object with internal id `k`, in order,
/// each with what was found of its actor.
pub open spec fn keyed_mentions(batch: Seq<mention::Model>, actors: Seq<Option<(String, String, String)>>, k: i64)
    -> (Seq<mention::Model>, Seq<Option<(String, String, String)>>)
    decreases batch.len(),
{
    if batch.len() == 0 || actors.len() == 0 {
        (Seq::empty(), Seq::empty())
    } else {
        let rest = keyed_mentions(batch.drop_last(), actors.drop_last(), k);
        if batch.last().object == k {
            (rest.0.push(batch.last()), rest.1.push(actors.last()))
        } else {
            rest
        }
    }
}

fn copied_actor(a: &Option<(String, String, String)>) -> (r: Option<(String, String, String)>)
    ensures
        r == *a,
{
    match a {
        Some((id, user, domain)) => Some((id.clone(), user.clone(), domain.clone())),
        None => None,
    }
}

fn mentions_for(batch: &Vec<mention::Model>, actors: &Vec<Option<(String, String, String)>>, k: i64)
    -> (r: (Vec<mention::Model>, Vec<Option<(String, String, String)>>))
    requires
        batch@.len() == actors@.len(),
    ensures
        (r.0@, r.1@) == keyed_mentions(batch@, actors@, k),
        r.0@.len() == r.1@.len(),
{
    let mut rows: Vec<mention::Model> = Vec::new();
    let mut found: Vec<Option<(String, String, String)>> = Vec::new();
    let mut i: usize = 0;
    while i < batch.len()
        invariant
            batch@.len() == actors@.len(),
            i <= batch@.len(),
            (rows@, found@) == keyed_mentions(batch@.take(i as int), actors@.take(i as int), k),
            rows@.len() == found@.len(),
        decreases batch@.len() - i,
    {
        assert(batch@.take(i + 1).drop_last() =~= batch@.take(i as int));
        assert(actors@.take(i + 1).drop_last() =~= actors@.take(i as int));
        if batch[i].key() == k {
            rows.push(batch[i]);
            found.push(copied_actor(&actors[i]));
        }
        i = i + 1;
    }
    assert(batch@.take(batch@.len() as int) =~= batch@);
    assert(actors@.take(actors@.len() as int) =~= actors@);
    (rows, found)
}

/// `new` is `old` with the mentions of its object made from the rows of `batch`
/// for it (with their actors), when it has an object and there are such rows;
/// otherwise `old` unchanged.
pub open spec fn filled_mentions(new: RichActivity, old: RichActivity, batch: Seq<mention::Model>,
    actors: Seq<Option<(String, String, String)>>) -> bool
{
    &&& new.activity == old.activity && new.object == old.object && new.liked == old.liked
    &&& new.attachments == old.attachments && new.hashtags == old.hashtags
    &&& match old.object {
            Some(o) => {
                let (rows, found) = keyed_mentions(batch, actors, o.internal);
                if rows.len() > 0 {
                    new.mentions matches Some(m) && mentions_view(m@) == found_mentions(rows, found)
                } else {
                    new.mentions == old.mentions
                }
            },
            None => new.mentions == old.mentions,
        }
}

/// Fills in the mentions of every entry from one batch of rows; `actors[i]` is
/// what was found of the actor of `batch[i]` (its id, username and domain).
pub fn with_mentions(entries: Vec<RichActivity>, batch: &Vec<mention::Model>, actors: &Vec<Option<(String, String, String)>>)
    -> (r: Vec<RichActivity>)
    requires
        batch@.len() == actors@.len(),
    ensures
        r@.len() == entries@.len(),
        forall|i: int| 0 <= i < r@.len() ==> filled_mentions(#[trigger] r@[i], entries@[i], batch@, actors@),
{
    let mut rest = entries;
    let ghost all = rest@;
    let _n = rest.len();
    let mut out: Vec<RichActivity> = Vec::new();
    let mut i: usize = 0;
    while rest.len() > 0
        invariant
            batch@.len() == actors@.len(),
            i <= all.len() <= usize::MAX,
            rest@ == all.subrange(i as int, all.len() as int),
            out@.len() == i,
            forall|j: int| 0 <= j < i ==> filled_mentions(#[trigger] out@[j], all[j], batch@, actors@),
        decreases rest@.len(),
    {
        let mut e = rest.remove(0);
        assert(e == all[i as int]);
        let (rows, found) = match &e.object {
            Some(o) => mentions_for(batch, actors, o.internal),
            None => (Vec::new(), Vec::new()),
        };
        if e.object.is_some() && rows.len() > 0 {
            e.accept_mentions(rows, found);
        }
        out.push(e);
        i = i + 1;
    }
    out
}

/// The internal ids of the objects of the entries that have one, in order: what
/// a batch is loaded for.
pub open spec fn object_ids(entries: Seq<RichActivity>) -> Seq<i64>
    decreases entries.len(),
{
    if entries.len() == 0 {
        Seq::empty()
    } else {
        let rest = object_ids(entries.drop_last());
        match entries.last().object {
            Some(o) => rest.push(o.internal),
            None => rest,
        }
    }
}

/// The internal ids of the objects of the entries that have one, in order.
pub fn batch_ids(entries: &Vec<RichActivity>) -> (r: Vec<i64>)
    ensures
        r@ == object_ids(entries@),
{
    let mut r: Vec<i64> = Vec::new();
    let mut i: usize = 0;
    while i < entries.len()
        invariant
            i <= entries@.len(),
            r@ == object_ids(entries@.take(i as int)),
        decreases entries@.len() - i,
    {
        assert(entries@.take(i + 1).drop_last() =~= entries@.take(i as int));
        match &entries[i].object {
            Some(o) => r.push(o.internal),
            None => {},
        }
        i = i + 1;
    }
    assert(entries@.take(entries@.len() as int) =~= entries@);
    r
}

/// The tables that timeline queries read.
#[derive(Debug, Clone, Copy, PartialEq, Eq, Structural)]
pub enum Table {
    Addressing,
    Activities,
    Objects,
    Likes,
}

/// The name of a table.
pub open spec fn table_name_of(t: Table) -> Seq<char> {
    match t {
        Table::Addressing => "addressing"@,
        Table::Activities => "activities"@,
        Table::Objects => "objects"@,
        Table::Likes => "likes"@,
    }
}

/// The name of a table.
pub fn table_name(t: Table) -> (r: &'static str)
    ensures
        r@ == table_name_of(t),
{
    match t {
        Table::Addressing => "addressing",
        Table::Activities => "activities",
        Table::Objects => "objects",
        Table::Likes => "likes",
    }
}

/// The name a column is selected under, so that rows joining several tables can
/// be split again: the table's name followed by the column's.
pub fn column_alias(t: Table, column: &str) -> (r: String)
    ensures
        r@ == table_name_of(t) + column@,
{
    let mut out: Vec<char> = Vec::new();
    push_str(&mut out, table_name(t));
    push_str(&mut out, column);
    string_of(out.as_slice())
}

/// How a timeline query reads its tables: newest addressing first (ties broken
/// by the newest entry), one row per addressing time and entry, with every
/// column of `columns` selected under its alias, and the viewer's like joined
/// when there is a viewer.
#[derive(Debug, Clone)]
pub struct Selection {
    /// the table of entries, joined to the addressing (`true`: inner join)
    pub joins: Vec<(Table, bool)>,
    /// rows must have an activity or an object (tombstones are left out)
    pub require_entry: bool,
    /// the table whose internal id orders entries of the same time
    pub entry: Table,
    /// the tables whose columns are selected
    pub columns: Vec<Table>,
    /// the viewer whose likes are joined, by internal id
    pub liked_by: Option<i64>,
}

/// Timeline queries.
pub struct Query;

impl Query {
    /// Activities addressed to the viewer, with their objects when stored.
    pub fn activities(my_id: Option<i64>) -> (r: Selection)
        ensures
            r.joins@ == seq![(Table::Activities, true), (Table::Objects, false)],
            r.require_entry,
            r.entry == Table::Activities,
            r.columns@ == seq![Table::Activities, Table::Objects],
            r.liked_by == my_id,
    {
        Selection {
            joins: vec![(Table::Activities, true), (Table::Objects, false)],
            require_entry: true,
            entry: Table::Activities,
            columns: vec![Table::Activities, Table::Objects],
            liked_by: my_id,
        }
    }

    /// Objects addressed to the viewer.
    pub fn objects(my_id: Option<i64>) -> (r: Selection)
        ensures
            r.joins@ == seq![(Table::Objects, true)],
            !r.require_entry,
            r.entry == Table::Objects,
            r.columns@ == seq![Table::Objects],
            r.liked_by == my_id,
    {
        Selection {
            joins: vec![(Table::Objects, true)],
            require_entry: false,
            entry: Table::Objects,
            columns: vec![Table::Objects],
            liked_by: my_id,
        }
    }
}

} // verus!
