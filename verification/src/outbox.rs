//! The decisions taken when a local user posts to its outbox.

use vstd::prelude::*;
use crate::types::{ActivityType, ObjectType};
use crate::config::Config;
use crate::normalize::{ActivityDocument, ObjectDocument, clone_strings};
use crate::model::{actor, object};
use crate::process::UpdateTarget;
use crate::text::{
    replace_first, string_views, chars_of, chars_eq_str, chars_replace_first, push_str, string_of, opt_view,
};

verus! {

/// Why a post to the outbox is refused.
#[derive(Debug, Clone, Copy, PartialEq, Eq, Structural)]
pub enum OutboxError {
    BadRequest,
    Forbidden,
    NotFound,
    NotModified,
    NotImplemented,
}

/// Whether `uid` may answer (accept or reject) an activity: it must be a follow
/// request, with an object, and that object must be `uid`.
pub fn check_answer(uid: &str, answered_type: ActivityType, answered_object: Option<&str>) -> (r: Result<(), OutboxError>)
    ensures
        answered_type != ActivityType::Follow ==> r == Err::<(), OutboxError>(OutboxError::BadRequest),
        answered_type == ActivityType::Follow ==> match answered_object {
            None => r == Err::<(), OutboxError>(OutboxError::BadRequest),
            Some(o) => if o@ == uid@ { r is Ok } else { r == Err::<(), OutboxError>(OutboxError::Forbidden) },
        },
{
    match answered_type {
        ActivityType::Follow => {},
        _ => return Err(OutboxError::BadRequest),
    }
    match answered_object {
        None => Err(OutboxError::BadRequest),
        Some(o) => {
            let u = chars_of(uid);
            if chars_eq_str(u.as_slice(), o) { Ok(()) } else { Err(OutboxError::Forbidden) }
        },
    }
}

/// Whether `uid` owns something: it must have an owner, and that must be `uid`
/// (what belongs to no one belongs to others).
pub fn check_owner(uid: &str, owner: Option<&str>) -> (r: Result<(), OutboxError>)
    ensures
        match owner {
            None => r == Err::<(), OutboxError>(OutboxError::Forbidden),
            Some(o) => if o@ == uid@ { r is Ok } else { r == Err::<(), OutboxError>(OutboxError::Forbidden) },
        },
{
    match owner {
        None => Err(OutboxError::Forbidden),
        Some(o) => {
            let u = chars_of(uid);
            if chars_eq_str(u.as_slice(), o) { Ok(()) } else { Err(OutboxError::Forbidden) }
        },
    }
}

/// What a local update may change: an actor or a note; anything else is not implemented.
pub fn update_kind(object_type: Option<ObjectType>) -> (r: Result<UpdateTarget, OutboxError>)
    ensures
        match object_type {
            Some(ObjectType::Actor(_)) => r == Ok::<UpdateTarget, OutboxError>(UpdateTarget::Actor),
            Some(ObjectType::Note) => r == Ok::<UpdateTarget, OutboxError>(UpdateTarget::Object),
            _ => r == Err::<UpdateTarget, OutboxError>(OutboxError::NotImplemented),
        },
{
    match object_type {
        Some(ObjectType::Actor(_)) => Ok(UpdateTarget::Actor),
        Some(ObjectType::Note) => Ok(UpdateTarget::Object),
        _ => Err(OutboxError::NotImplemented),
    }
}

/// The frontend address of a new local object, when a frontend is configured.
pub fn object_frontend_url(cfg: &Config, raw_oid: &str) -> (r: Option<String>)
    ensures
        match cfg.instance.frontend {
            Some(f) => r matches Some(s) && s@ == f@ + "/objects/"@ + raw_oid@,
            None => r is None,
        },
{
    match &cfg.instance.frontend {
        None => None,
        Some(f) => {
            let mut out: Vec<char> = Vec::new();
            push_str(&mut out, f.as_str());
            push_str(&mut out, "/objects/");
            push_str(&mut out, raw_oid);
            Some(string_of(out.as_slice()))
        },
    }
}

/// What `mdhtml::safe_markdown` returns.
pub uninterp spec fn safe_markdown(text: Seq<char>) -> Seq<char>;

/// `mdhtml::safe_markdown`: markdown rendered to a safe subset of HTML (named, a
/// function of the text alone).
#[verifier::external_body]
pub(crate) fn render_markdown(text: &str) -> (r: String)
    ensures
        r@ == safe_markdown(text@),
{
    mdhtml::safe_markdown(text)
}

/// A mention found in rendered content: the whole match, the user, the domain.
#[derive(Debug, Clone)]
pub struct Mention {
    pub full: String,
    pub user: String,
    pub domain: String,
}

/// The pattern of a mention: `@user@domain`, the domain running to the next space.
pub const MENTION_PATTERN: &'static str = "@(.+)@([^ ]+)";

/// What `regex::Regex::new` on a pattern, then `captures_iter` on a text, finds:
/// `None` where the pattern does not compile, else each match with its groups
/// (group 0 the whole match), a group that took no part being `None`.
pub uninterp spec fn regex_captures_of(pattern: Seq<char>, text: Seq<char>) -> Option<Seq<Seq<Option<Seq<char>>>>>;

/// The views of the matches that a regular expression found.
pub open spec fn captures_view(found: Option<Vec<Vec<Option<String>>>>) -> Option<Seq<Seq<Option<Seq<char>>>>> {
    match found {
        Some(v) => Some(v@.map_values(|g: Vec<Option<String>>| g@.map_values(|x: Option<String>| opt_view(x)))),
        None => None,
    }
}

/// `regex::Regex::new` on the pattern, then `regex::Regex::captures_iter` on the
/// text, each group of each match turned into its text (named, a function of the
/// pattern and the text alone).
#[verifier::external_body]
pub(crate) fn regex_captures(pattern: &str, text: &str) -> (r: Option<Vec<Vec<Option<String>>>>)
    ensures
        captures_view(r) == regex_captures_of(pattern@, text@),
{
    match regex::Regex::new(pattern) {
        Ok(re) => Some(
            re.captures_iter(text)
                .map(|c| c.iter().map(|g| g.map(|m| m.as_str().to_string())).collect())
                .collect(),
        ),
        Err(_) => None,
    }
}

/// The mention a match of the mention pattern gives: the whole match, the user
/// and the domain, where all three took part.
pub open spec fn mention_of(groups: Seq<Option<Seq<char>>>) -> Option<(Seq<char>, Seq<char>, Seq<char>)> {
    if groups.len() == 3 && groups[0] is Some && groups[1] is Some && groups[2] is Some {
        Some((groups[0]->0, groups[1]->0, groups[2]->0))
    } else {
        None
    }
}

/// The mentions that a list of matches gives, in order.
pub open spec fn mentions_from(matches: Seq<Seq<Option<Seq<char>>>>) -> Seq<(Seq<char>, Seq<char>, Seq<char>)>
    decreases matches.len(),
{
    if matches.len() == 0 {
        Seq::empty()
    } else {
        let before = mentions_from(matches.drop_last());
        match mention_of(matches.last()) {
            Some(m) => before.push(m),
            None => before,
        }
    }
}

/// The mentions that the matches of a regular expression give (none where the
/// pattern did not compile).
pub open spec fn found_mentions(found: Option<Seq<Seq<Option<Seq<char>>>>>) -> Seq<(Seq<char>, Seq<char>, Seq<char>)> {
    match found {
        Some(ms) => mentions_from(ms),
        None => Seq::empty(),
    }
}

/// The mentions in a text: those that the matches of the mention pattern give.
pub open spec fn mention_matches(text: Seq<char>) -> Seq<(Seq<char>, Seq<char>, Seq<char>)> {
    found_mentions(regex_captures_of(MENTION_PATTERN@, text))
}

/// The views of mentions.
pub open spec fn mention_views(v: Seq<Mention>) -> Seq<(Seq<char>, Seq<char>, Seq<char>)> {
    v.map_values(|m: Mention| (m.full@, m.user@, m.domain@))
}

/// The mentions that the matches of the mention pattern give, in order: a match
/// gives one where its whole text and both groups took part.
pub fn mentions_from_captures(found: &Option<Vec<Vec<Option<String>>>>) -> (r: Vec<Mention>)
    ensures
        mention_views(r@) == found_mentions(captures_view(*found)),
{
    let mut out: Vec<Mention> = Vec::new();
    match found {
        None => out,
        Some(ms) => {
            let ghost gv = ms@.map_values(|g: Vec<Option<String>>| g@.map_values(|x: Option<String>| opt_view(x)));
            let mut i: usize = 0;
            while i < ms.len()
                invariant
                    i <= ms@.len(),
                    gv == ms@.map_values(|g: Vec<Option<String>>| g@.map_values(|x: Option<String>| opt_view(x))),
                    mention_views(out@) == mentions_from(gv.take(i as int)),
                decreases ms@.len() - i,
            {
                let g = &ms[i];
                let ghost before = out@;
                assert(gv.take(i as int + 1).drop_last() =~= gv.take(i as int));
                assert(gv.take(i as int + 1).last() == gv[i as int]);
                assert(gv[i as int] == g@.map_values(|x: Option<String>| opt_view(x)));
                if g.len() == 3 {
                    match (&g[0], &g[1], &g[2]) {
                        (Some(full), Some(user), Some(domain)) => {
                            out.push(Mention { full: full.clone(), user: user.clone(), domain: domain.clone() });
                            assert(mention_views(out@) =~= mention_views(before).push((full@, user@, domain@)));
                        },
                        _ => {},
                    }
                }
                i += 1;
            }
            assert(gv.take(ms@.len() as int) =~= gv);
            out
        },
    }
}

/// The content of a new note: markdown rendered to safe HTML.
pub fn rendered_content(content: &str) -> (r: String)
    ensures
        r@ == safe_markdown(content@),
{
    render_markdown(content)
}

/// The mentions in rendered content.
pub fn mentions_in(rendered: &str) -> (r: Vec<Mention>)
    ensures
        mention_views(r@) == mention_matches(rendered@),
{
    let found = regex_captures(MENTION_PATTERN, rendered);
    mentions_from_captures(&found)
}

/// The link that replaces a resolved mention.
pub open spec fn mention_link(uid: Seq<char>, user: Seq<char>) -> Seq<char> {
    "<a href=\""@ + uid + "\" class=\"u-url mention\">@"@ + user + "</a>"@
}

/// Content with the first occurrence of a resolved mention turned into a link to
/// the mentioned actor.
pub fn link_mention(content: &str, full: &str, uid: &str, user: &str) -> (r: String)
    ensures
        r@ == replace_first(content@, full@, mention_link(uid@, user@)),
{
    let mut link: Vec<char> = Vec::new();
    push_str(&mut link, "<a href=\"");
    push_str(&mut link, uid);
    push_str(&mut link, "\" class=\"u-url mention\">@");
    push_str(&mut link, user);
    push_str(&mut link, "</a>");
    let c = chars_of(content);
    let f = chars_of(full);
    let out = chars_replace_first(c.as_slice(), f.as_slice(), link.as_slice());
    string_of(out.as_slice())
}

/// An activity posted by the local user `uid`: given the id `aid`, made by
/// `uid`, published at `now`; everything else as it was posted.
pub fn local_activity(doc: ActivityDocument, aid: String, uid: String, now: i64) -> (r: ActivityDocument)
    ensures
        r == (ActivityDocument { id: Some(aid), actor: Some(uid), published: Some(now), ..doc }),
{
    ActivityDocument { id: Some(aid), actor: Some(uid), published: Some(now), ..doc }
}

/// The `Create` that posts a note: addressed as the note is; its object is
/// filled in once the note has its id.
pub fn create_for_note(note: &ObjectDocument) -> (r: ActivityDocument)
    ensures
        r.id is None && r.actor is None && r.object is None && r.target is None && r.published is None,
        r.activity_type == Some(ActivityType::Create),
        string_views(r.to@) == string_views(note.to@),
        string_views(r.bto@) == string_views(note.bto@),
        string_views(r.cc@) == string_views(note.cc@),
        string_views(r.bcc@) == string_views(note.bcc@),
{
    ActivityDocument {
        id: None,
        activity_type: Some(ActivityType::Create),
        actor: None,
        object: None,
        target: None,
        published: None,
        to: clone_strings(&note.to),
        bto: clone_strings(&note.bto),
        cc: clone_strings(&note.cc),
        bcc: clone_strings(&note.bcc),
    }
}

/// A note posted by the local user `uid`: given the id `oid`, attributed to
/// `uid`, published at `now`, with its content as rendered and its frontend
/// address (when there is one); everything else as it was posted.
pub fn local_note(note: ObjectDocument, oid: String, uid: String, now: i64, content: Option<String>, url: Option<String>) -> (r: ObjectDocument)
    ensures
        r == (ObjectDocument {
            id: Some(oid),
            attributed_to: Some(uid),
            published: Some(now),
            content: content,
            url: url,
            ..note
        }),
{
    ObjectDocument { id: Some(oid), attributed_to: Some(uid), published: Some(now), content, url, ..note }
}

/// An actor after its owner's update: the name, summary, banner and icon that
/// the update gives replace the old ones, the others stay; it is updated `now`.
pub fn actor_update(old: actor::Model, name: Option<String>, summary: Option<String>, image: Option<String>, icon: Option<String>, now: i64) -> (r: actor::Model)
    ensures
        r == (actor::Model {
            name: if name is Some { name } else { old.name },
            summary: if summary is Some { summary } else { old.summary },
            image: if image is Some { image } else { old.image },
            icon: if icon is Some { icon } else { old.icon },
            updated: now,
            ..old
        }),
{
    let mut r = old;
    if name.is_some() {
        r.name = name;
    }
    if summary.is_some() {
        r.summary = summary;
    }
    if image.is_some() {
        r.image = image;
    }
    if icon.is_some() {
        r.icon = icon;
    }
    r.updated = now;
    r
}

/// A note after its author's update: the name, summary and content that the
/// update gives replace the old ones, the others stay; it is updated `now`.
pub fn object_update(old: object::Model, name: Option<String>, summary: Option<String>, content: Option<String>, now: i64) -> (r: object::Model)
    ensures
        r == (object::Model {
            name: if name is Some { name } else { old.name },
            summary: if summary is Some { summary } else { old.summary },
            content: if content is Some { content } else { old.content },
            updated: now,
            ..old
        }),
{
    let mut r = old;
    if name.is_some() {
        r.name = name;
    }
    if summary.is_some() {
        r.summary = summary;
    }
    if content.is_some() {
        r.content = content;
    }
    r.updated = now;
    r
}

/// Content with the mentions turned into links one after the other, each at
/// its first occurrence; `found[i]` is the id of the actor of mention `i`, when
/// it is known.
pub open spec fn linked(content: Seq<char>, mentions: Seq<(Seq<char>, Seq<char>, Seq<char>)>, found: Seq<Option<Seq<char>>>) -> Seq<char>
    decreases mentions.len(),
{
    if mentions.len() == 0 || found.len() == 0 {
        content
    } else {
        let before = linked(content, mentions.drop_last(), found.drop_last());
        match found.last() {
            Some(uid) => replace_first(before, mentions.last().0, mention_link(uid, mentions.last().1)),
            None => before,
        }
    }
}

/// Law: linking mentions is a fold of single replacements. With no mention the
/// content is unchanged; one more mention whose actor is found turns its first
/// occurrence, in the content that already holds the links of the mentions
/// before it, into a link to that actor; one more mention whose actor is not
/// found changes nothing. So every found mention is linked, each after the ones
/// before it.
pub proof fn lemma_linked_fold(
    content: Seq<char>,
    mentions: Seq<(Seq<char>, Seq<char>, Seq<char>)>,
    found: Seq<Option<Seq<char>>>,
    m: (Seq<char>, Seq<char>, Seq<char>),
    uid: Seq<char>,
)
    requires
        mentions.len() == found.len(),
    ensures
        linked(content, Seq::empty(), Seq::empty()) == content,
        linked(content, mentions.push(m), found.push(Some(uid)))
            == replace_first(linked(content, mentions, found), m.0, mention_link(uid, m.1)),
        linked(content, mentions.push(m), found.push(None)) == linked(content, mentions, found),
{
    assert(mentions.push(m).drop_last() =~= mentions);
    assert(found.push(Some(uid)).drop_last() =~= found);
    assert(found.push(None::<Seq<char>>).drop_last() =~= found);
}

/// Law: two mentions whose actors are both found are both linked, the second
/// in the content that already holds the link of the first.
pub proof fn lemma_linked_two(
    content: Seq<char>,
    m1: (Seq<char>, Seq<char>, Seq<char>),
    u1: Seq<char>,
    m2: (Seq<char>, Seq<char>, Seq<char>),
    u2: Seq<char>,
)
    ensures
        linked(content, seq![m1, m2], seq![Some(u1), Some(u2)])
            == replace_first(replace_first(content, m1.0, mention_link(u1, m1.1)), m2.0, mention_link(u2, m2.1)),
{
    lemma_linked_fold(content, Seq::empty(), Seq::empty(), m1, u1);
    lemma_linked_fold(content, seq![m1], seq![Some(u1)], m2, u2);
    assert(Seq::<(Seq<char>, Seq<char>, Seq<char>)>::empty().push(m1) =~= seq![m1]);
    assert(Seq::<Option<Seq<char>>>::empty().push(Some(u1)) =~= seq![Some(u1)]);
    assert(seq![m1].push(m2) =~= seq![m1, m2]);
    assert(seq![Some(u1)].push(Some(u2)) =~= seq![Some(u1), Some(u2)]);
}

/// Rendered content with every mention whose actor is known turned into a link.
pub fn link_mentions(rendered: &str, mentions: &Vec<Mention>, found: &Vec<Option<String>>) -> (r: String)
    requires
        mentions@.len() == found@.len(),
    ensures
        r@ == linked(rendered@, mention_views(mentions@), found@.map_values(|o: Option<String>| opt_view(o))),
{
    let ghost ms = mention_views(mentions@);
    let ghost fs = found@.map_values(|o: Option<String>| opt_view(o));
    let mut out = rendered.to_string();
    let mut i: usize = 0;
    while i < mentions.len()
        invariant
            mentions@.len() == found@.len(),
            ms == mention_views(mentions@),
            fs == found@.map_values(|o: Option<String>| opt_view(o)),
            i <= mentions@.len(),
            out@ == linked(rendered@, ms.take(i as int), fs.take(i as int)),
        decreases mentions@.len() - i,
    {
        assert(ms.take(i + 1).drop_last() =~= ms.take(i as int));
        assert(fs.take(i + 1).drop_last() =~= fs.take(i as int));
        match &found[i] {
            Some(uid) => {
                out = link_mention(out.as_str(), mentions[i].full.as_str(), uid.as_str(), mentions[i].user.as_str());
            },
            None => {},
        }
        i = i + 1;
    }
    assert(ms.take(i as int) =~= ms);
    assert(fs.take(i as int) =~= fs);
    out
}

} // verus!
