//! The decisions taken while processing a received activity.

use vstd::prelude::*;
use crate::types::{ActivityType, ObjectType, ActorType, DocumentType};
use crate::context::{Context, Internal};
use crate::text::{starts_with, string_views, chars_of, chars_eq, chars_eq_str};
use crate::addressing::list_contains;

verus! {

/// Why processing an activity failed.
#[derive(Debug, Clone)]
pub enum ProcessorError {
    /// the activity was already processed
    AlreadyProcessed,
    /// a required field is missing
    Malformed(String),
    /// storage failed
    Database(String),
    /// the actor may not carry out this activity
    Unauthorized,
    /// something the activity refers to is unknown
    Incomplete,
    /// this kind of activity is not processed (the activity's id)
    Unprocessable(String),
    /// the entity could not be normalized
    Normalizer(String),
    /// a fetch failed
    Pull(String),
}

/// The handler that processes an activity.
#[derive(Debug, Clone, Copy, PartialEq, Eq, Structural)]
pub enum Handler {
    Like,
    Dislike,
    Create,
    Follow,
    Announce,
    Accept,
    Reject,
    Undo,
    Delete,
    Update,
}

/// The handler of an activity type, if it is processed at all.
pub open spec fn handler_of(t: ActivityType) -> Option<Handler> {
    match t {
        ActivityType::Like => Some(Handler::Like),
        ActivityType::Dislike => Some(Handler::Dislike),
        ActivityType::Create => Some(Handler::Create),
        ActivityType::Follow => Some(Handler::Follow),
        ActivityType::Announce => Some(Handler::Announce),
        ActivityType::Accept => Some(Handler::Accept),
        ActivityType::Reject => Some(Handler::Reject),
        ActivityType::Undo => Some(Handler::Undo),
        ActivityType::Delete => Some(Handler::Delete),
        ActivityType::Update => Some(Handler::Update),
        _ => None,
    }
}

/// The activity type that a handler processes.
pub open spec fn handled_type(h: Handler) -> ActivityType {
    match h {
        Handler::Like => ActivityType::Like,
        Handler::Dislike => ActivityType::Dislike,
        Handler::Create => ActivityType::Create,
        Handler::Follow => ActivityType::Follow,
        Handler::Announce => ActivityType::Announce,
        Handler::Accept => ActivityType::Accept,
        Handler::Reject => ActivityType::Reject,
        Handler::Undo => ActivityType::Undo,
        Handler::Delete => ActivityType::Delete,
        Handler::Update => ActivityType::Update,
    }
}

/// Law: each processed activity type goes to the handler of its own kind, so
/// two distinct types never share a handler (a rejection is never handled as an
/// acceptance), and every handler is reached by its type.
pub proof fn lemma_handler_names_type(t1: ActivityType, t2: ActivityType, h: Handler)
    ensures
        handler_of(t1) == Some(h) ==> handled_type(h) == t1,
        handler_of(t1) == Some(h) && handler_of(t2) == Some(h) ==> t1 == t2,
        handler_of(handled_type(h)) == Some(h),
{
}

/// The handler of an activity; other types are not processable.
pub fn handler_for(t: ActivityType, activity_id: &str) -> (r: Result<Handler, ProcessorError>)
    ensures
        match handler_of(t) {
            Some(h) => r == Ok::<Handler, ProcessorError>(h),
            None => r matches Err(ProcessorError::Unprocessable(id)) && id@ == activity_id@,
        },
{
    match t {
        ActivityType::Like => Ok(Handler::Like),
        ActivityType::Dislike => Ok(Handler::Dislike),
        ActivityType::Create => Ok(Handler::Create),
        ActivityType::Follow => Ok(Handler::Follow),
        ActivityType::Announce => Ok(Handler::Announce),
        ActivityType::Accept => Ok(Handler::Accept),
        ActivityType::Reject => Ok(Handler::Reject),
        ActivityType::Undo => Ok(Handler::Undo),
        ActivityType::Delete => Ok(Handler::Delete),
        ActivityType::Update => Ok(Handler::Update),
        _ => Err(ProcessorError::Unprocessable(String::from_str(activity_id))),
    }
}

fn malformed_id() -> (r: ProcessorError)
    ensures
        r matches ProcessorError::Malformed(f) && f@ == "id"@,
{
    ProcessorError::Malformed(String::from_str("id"))
}

/// Whether a `Create` may proceed: it must embed its object, the object must be
/// new, and it must be attributed to the activity's actor.
pub fn check_create(
    activity_id: &str,
    has_object: bool,
    already_stored: bool,
    attributed_to: Option<&str>,
    actor: Option<&str>,
) -> (r: Result<(), ProcessorError>)
    ensures
        !has_object ==> (r matches Err(ProcessorError::Unprocessable(id)) && id@ == activity_id@),
        has_object && already_stored ==> r matches Err(ProcessorError::AlreadyProcessed),
        has_object && !already_stored && (attributed_to is None || actor is None)
            ==> (r matches Err(ProcessorError::Malformed(f)) && f@ == "id"@),
        has_object && !already_stored && attributed_to is Some && actor is Some ==> (
            (r is Ok) == (attributed_to->0@ == actor->0@)
            && (r is Err ==> r matches Err(ProcessorError::Unauthorized))
        ),
{
    if !has_object {
        return Err(ProcessorError::Unprocessable(String::from_str(activity_id)));
    }
    if already_stored {
        return Err(ProcessorError::AlreadyProcessed);
    }
    let a = match attributed_to {
        Some(a) => a,
        None => return Err(malformed_id()),
    };
    let u = match actor {
        Some(u) => u,
        None => return Err(malformed_id()),
    };
    let ac = chars_of(a);
    if !chars_eq_str(ac.as_slice(), u) {
        return Err(ProcessorError::Unauthorized);
    }
    Ok(())
}

/// The local actors among the tagged ids, in order: those that get notified.
pub open spec fn local_ids(base: Seq<char>, ids: Seq<Seq<char>>) -> Seq<Seq<char>>
    decreases ids.len(),
{
    if ids.len() == 0 {
        Seq::empty()
    } else {
        let rest = local_ids(base, ids.drop_last());
        if starts_with(ids.last(), base) { rest.push(ids.last()) } else { rest }
    }
}

/// Law: the notified actors are exactly the tagged ids that are local, in the
/// order they were tagged: every one of them starts with the base and was
/// tagged, every tagged id that starts with the base is among them, and they are
/// the tags filtered by locality (as many as there are local tags).
pub proof fn lemma_local_ids_filter(base: Seq<char>, ids: Seq<Seq<char>>)
    ensures
        local_ids(base, ids) == ids.filter(|x: Seq<char>| starts_with(x, base)),
        forall|i: int| 0 <= i < local_ids(base, ids).len() ==>
            starts_with(#[trigger] local_ids(base, ids)[i], base) && ids.contains(local_ids(base, ids)[i]),
        forall|i: int| 0 <= i < ids.len() && starts_with(#[trigger] ids[i], base) ==> local_ids(base, ids).contains(ids[i]),
    decreases ids.len(),
{
    let f = |x: Seq<char>| starts_with(x, base);
    reveal(Seq::filter);
    if ids.len() > 0 {
        lemma_local_ids_filter(base, ids.drop_last());
    }
    assert(local_ids(base, ids) == ids.filter(f));
    ids.filter_lemma(f);
}

/// The local actors among the tagged ids: those that get notified.
pub fn notified(ctx: &Context, tags: &Vec<String>) -> (r: Vec<String>)
    ensures
        string_views(r@) == local_ids(ctx.base_view(), string_views(tags@)),
{
    let ghost tv = string_views(tags@);
    let mut r: Vec<String> = Vec::new();
    let mut i: usize = 0;
    while i < tags.len()
        invariant
            tv == string_views(tags@),
            i <= tags@.len(),
            string_views(r@) == local_ids(ctx.base_view(), tv.take(i as int)),
        decreases tags@.len() - i,
    {
        assert(tv.take(i + 1).drop_last() =~= tv.take(i as int));
        let ghost before = r@;
        if ctx.is_local(tags[i].as_str()) {
            r.push(tags[i].clone());
            assert(string_views(r@) =~= string_views(before).push(tv[i as int]));
        }
        i = i + 1;
    }
    assert(tv.take(tags@.len() as int) =~= tv);
    r
}

/// What a like (or dislike) leads to.
#[derive(Debug, Clone)]
pub struct ReactionPlan {
    /// the activity is stored and addressed (it is not a silent one)
    pub store_activity: bool,
    /// the local author of the object, notified
    pub notify: Option<String>,
}

/// What a like (or dislike) leads to: an actor reacts once per object; a
/// reaction addressed to no one is silent (counted but not stored); a stored
/// one notifies the object's author when local.
pub fn reaction_plan(ctx: &Context, already_reacted: bool, addressed_to_nobody: bool, author: Option<&str>) -> (r: Result<ReactionPlan, ProcessorError>)
    ensures
        already_reacted ==> r matches Err(ProcessorError::AlreadyProcessed),
        !already_reacted ==> (r matches Ok(p) && p.store_activity == !addressed_to_nobody && match p.notify {
            Some(n) => !addressed_to_nobody && author is Some && n@ == author->0@ && starts_with(author->0@, ctx.base_view()),
            None => addressed_to_nobody || author is None || !starts_with(author->0@, ctx.base_view()),
        }),
{
    if already_reacted {
        return Err(ProcessorError::AlreadyProcessed);
    }
    if addressed_to_nobody {
        return Ok(ReactionPlan { store_activity: false, notify: None });
    }
    let notify = match author {
        Some(a) => if ctx.is_local(a) { Some(String::from_str(a)) } else { None },
        None => None,
    };
    Ok(ReactionPlan { store_activity: true, notify })
}

/// Whether an answer (accept or reject) to a follow request comes from the
/// followed actor: the request's object must be the answering actor.
pub fn check_follow_answer(follow_object: Option<&str>, actor: &str) -> (r: Result<(), ProcessorError>)
    ensures
        (r is Ok) == (match follow_object { Some(o) => o@ == actor@, None => actor@.len() == 0 }),
        r is Err ==> r matches Err(ProcessorError::Unauthorized),
{
    let o = match follow_object {
        Some(o) => chars_of(o),
        None => {
            let v: Vec<char> = Vec::new();
            assert(v@ =~= Seq::<char>::empty());
            v
        },
    };
    proof {
        if follow_object is None {
            assert(o@ =~= Seq::<char>::empty());
            if actor@.len() == 0 {
                assert(actor@ =~= Seq::<char>::empty());
            }
        }
    }
    if chars_eq_str(o.as_slice(), actor) {
        Ok(())
    } else {
        Err(ProcessorError::Unauthorized)
    }
}

/// What an update changes.
#[derive(Debug, Clone, Copy, PartialEq, Eq, Structural)]
pub enum UpdateTarget {
    Actor,
    Object,
}

/// What an update may change: an actor only itself; notes and pages; nothing else.
pub fn update_target(object_type: ObjectType, oid: &str, actor: &str, activity_id: &str) -> (r: Result<UpdateTarget, ProcessorError>)
    ensures
        match object_type {
            ObjectType::Actor(_) => if oid@ == actor@ {
                r == Ok::<UpdateTarget, ProcessorError>(UpdateTarget::Actor)
            } else {
                r matches Err(ProcessorError::Unauthorized)
            },
            ObjectType::Note | ObjectType::Document(DocumentType::Page) => r == Ok::<UpdateTarget, ProcessorError>(UpdateTarget::Object),
            _ => r matches Err(ProcessorError::Unprocessable(id)) && id@ == activity_id@,
        },
{
    match object_type {
        ObjectType::Actor(_) => {
            let o = chars_of(oid);
            if chars_eq_str(o.as_slice(), actor) {
                Ok(UpdateTarget::Actor)
            } else {
                Err(ProcessorError::Unauthorized)
            }
        },
        ObjectType::Note => Ok(UpdateTarget::Object),
        ObjectType::Document(DocumentType::Page) => Ok(UpdateTarget::Object),
        _ => Err(ProcessorError::Unprocessable(String::from_str(activity_id))),
    }
}

/// Whether media at `url` is served through the proxy: anything not local.
pub fn needs_cloak(ctx: &Context, url: &str) -> (r: bool)
    ensures
        r == !starts_with(url@, ctx.base_view()),
{
    !ctx.is_local(url)
}

/// What an undo reverts.
#[derive(Debug, Clone, Copy, PartialEq, Eq, Structural)]
pub enum UndoTarget {
    Like,
    Follow,
}

/// What an undo may revert: only the actor's own likes and follows.
pub fn undo_target(actor: &str, undone_actor: &str, undone_type: ActivityType, activity_id: &str) -> (r: Result<UndoTarget, ProcessorError>)
    ensures
        actor@ != undone_actor@ ==> r matches Err(ProcessorError::Unauthorized),
        actor@ == undone_actor@ ==> match undone_type {
            ActivityType::Like => r == Ok::<UndoTarget, ProcessorError>(UndoTarget::Like),
            ActivityType::Follow => r == Ok::<UndoTarget, ProcessorError>(UndoTarget::Follow),
            _ => r matches Err(ProcessorError::Unprocessable(id)) && id@ == activity_id@,
        },
{
    let a = chars_of(actor);
    if !chars_eq_str(a.as_slice(), undone_actor) {
        return Err(ProcessorError::Unauthorized);
    }
    match undone_type {
        ActivityType::Like => Ok(UndoTarget::Like),
        ActivityType::Follow => Ok(UndoTarget::Follow),
        _ => Err(ProcessorError::Unprocessable(String::from_str(activity_id))),
    }
}

/// Whether undoing a follow lowers the follower and following counts: only an
/// accepted follow was counted.
pub fn undo_follow_uncounts(accept: Option<i64>) -> (r: bool)
    ensures
        r == accept is Some,
{
    accept.is_some()
}

/// Whether an activity that may be secret (delete, undo) is stored: only when
/// it is addressed to someone.
pub fn stored_unless_secret(addressed: &Vec<String>) -> (r: bool)
    ensures
        r == (addressed@.len() > 0),
{
    addressed.len() > 0
}

/// How an announce starts, from what its object's id is known as.
#[derive(Debug, Clone, Copy, PartialEq, Eq, Structural)]
pub enum AnnounceStart {
    /// the announced activity was already processed
    Skip,
    /// the announced object is stored under this internal id
    Stored(i64),
    /// the announced id is unknown: fetch it
    Fetch,
}

/// How an announce starts: an activity already known ends it, an actor cannot be
/// announced, a stored object is used, anything else is fetched.
pub fn announce_start(found: Option<Internal>, activity_id: &str) -> (r: Result<AnnounceStart, ProcessorError>)
    ensures
        match found {
            Some(Internal::Activity(_)) => r == Ok::<AnnounceStart, ProcessorError>(AnnounceStart::Skip),
            Some(Internal::Actor(_)) => r matches Err(ProcessorError::Unprocessable(id)) && id@ == activity_id@,
            Some(Internal::Object(o)) => r == Ok::<AnnounceStart, ProcessorError>(AnnounceStart::Stored(o)),
            None => r == Ok::<AnnounceStart, ProcessorError>(AnnounceStart::Fetch),
        },
{
    match found {
        Some(Internal::Activity(_)) => Ok(AnnounceStart::Skip),
        Some(Internal::Actor(_)) => Err(ProcessorError::Unprocessable(String::from_str(activity_id))),
        Some(Internal::Object(o)) => Ok(AnnounceStart::Stored(o)),
        None => Ok(AnnounceStart::Fetch),
    }
}

/// What an announce leads to.
#[derive(Debug, Clone, Copy, PartialEq, Eq, Structural)]
pub struct SharePlan {
    /// a share row is stored
    pub record_share: bool,
    /// the object's share counter goes up
    pub count_share: bool,
    /// the announce activity is stored and addressed
    pub store_activity: bool,
}

/// What an announce leads to: only people share with intent (groups, services and
/// applications relay), and a person's first share of an object counts; the
/// activity is kept for people and for local actors.
pub fn share_plan(ctx: &Context, actor_type: ActorType, actor_id: &str, shared_before: bool) -> (r: SharePlan)
    ensures
        r.record_share == (actor_type == ActorType::Person),
        r.count_share == (actor_type == ActorType::Person && !shared_before),
        r.store_activity == (actor_type == ActorType::Person || starts_with(actor_id@, ctx.base_view())),
{
    let person = match actor_type { ActorType::Person => true, _ => false };
    SharePlan {
        record_share: person,
        count_share: person && !shared_before,
        store_activity: person || ctx.is_local(actor_id),
    }
}

/// The recipients with `id` added at the end when it is missing.
pub fn ensure_recipient(mut recipients: Vec<String>, id: &str) -> (r: Vec<String>)
    ensures
        string_views(recipients@).contains(id@) ==> r@ == recipients@,
        !string_views(recipients@).contains(id@) ==> string_views(r@) == string_views(recipients@).push(id@),
{
    if !list_contains(&recipients, id) {
        let ghost before = recipients@;
        recipients.push(String::from_str(id));
        assert(string_views(recipients@) =~= string_views(before).push(id@));
    }
    recipients
}

/// Whether a server may undo an activity: only one made by its own actors.
pub fn undo_allowed(server: &str, undone_author: &str) -> (r: bool)
    ensures
        r == (server@ == crate::context::server_of(undone_author@)),
{
    let s = chars_of(server);
    let o = Context::server(undone_author);
    let oc = chars_of(o.as_str());
    chars_eq(s.as_slice(), oc.as_slice())
}

} // verus!
