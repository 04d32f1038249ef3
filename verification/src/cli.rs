//! What the maintenance commands decide: relays, nuking an instance, fixing
//! counters and contexts, refreshing and cloaking remote actors, test data.

use vstd::prelude::*;
use crate::context::{Context, UriKind, proxied_uri};
use crate::crypto::{rsa_keypair, sha256_hex, sha256_hex_digest, KEY_BITS};
use crate::admin::fresh_keys;
use crate::ext::JsonVec;
use crate::fetch::RequestError;
use crate::model::job::{ActiveModel, JobType};
use crate::model::{actor, activity, addressing, config, credential, object, relation};
use crate::normalize::{ActivityDocument, clone_strings, safe_html, sanitize_html};
use crate::text::{
    decimal, opt_view, replace_all, starts_with, string_views, chars_of, chars_replace_all,
    chars_starts_with, push_decimal, push_str, string_of, free_of, lemma_replace_char_removes,
    lemma_replace_missing,
};
use crate::types::{ActivityType, ActorType, ObjectType, PUBLIC};

verus! {

/// A domain with its scheme and every `/` removed.
pub open spec fn cleaned_domain(domain: Seq<char>) -> Seq<char> {
    replace_all(replace_all(replace_all(domain, "http://"@, Seq::empty()), "https://"@, Seq::empty()), "/"@, Seq::empty())
}

/// The bare domain name: `http://`, `https://` and every `/` removed.
pub fn clean_domain(domain: &str) -> (r: String)
    ensures
        r@ == cleaned_domain(domain@),
{
    let empty: Vec<char> = Vec::new();
    let d = chars_of(domain);
    let http = chars_of("http://");
    let https = chars_of("https://");
    let slash = chars_of("/");
    let a = chars_replace_all(d.as_slice(), http.as_slice(), empty.as_slice());
    let b = chars_replace_all(a.as_slice(), https.as_slice(), empty.as_slice());
    let c = chars_replace_all(b.as_slice(), slash.as_slice(), empty.as_slice());
    string_of(c.as_slice())
}

/// Law: a cleaned domain holds no `/` (so neither `http://` nor `https://`), and
/// cleaning it again changes nothing.
pub proof fn lemma_clean_domain_idempotent(domain: Seq<char>)
    ensures
        free_of(cleaned_domain(domain), '/'),
        cleaned_domain(cleaned_domain(domain)) == cleaned_domain(domain),
{
    reveal_strlit("http://");
    reveal_strlit("https://");
    reveal_strlit("/");
    let b = replace_all(replace_all(domain, "http://"@, Seq::empty()), "https://"@, Seq::empty());
    assert("/"@ =~= seq!['/']);
    lemma_replace_char_removes(b, '/');
    let r = cleaned_domain(domain);
    assert(("http://"@)[5] == '/');
    assert(("https://"@)[6] == '/');
    lemma_replace_missing(r, "http://"@, Seq::empty(), 5);
    lemma_replace_missing(r, "https://"@, Seq::empty(), 6);
    lemma_replace_missing(r, "/"@, Seq::empty(), 0);
}

/// Actions on relays.
#[derive(Debug, Clone)]
pub enum RelayCommand {
    /// list the relays followed and following
    Status,
    /// ask a relay (by its full id) to let us follow it
    Follow { actor: String },
    /// accept a relay's pending follow request
    Accept { actor: String },
    /// stop receiving from a relay
    Unfollow { actor: String },
    /// stop sending to a relay
    Remove { actor: String },
}

/// An activity to send, with who sends it and when it was queued (milliseconds
/// since the Unix epoch). It becomes a job once its document is turned into JSON.
#[derive(Debug, Clone)]
pub struct OutboundJob {
    pub activity: ActivityDocument,
    pub actor: String,
    pub queued_at: i64,
}

impl OutboundJob {
    /// The job that delivers it: outbound, for the activity's id, by `actor`,
    /// no target, due at once, not tried yet, with `payload` as its body.
    pub fn into_job(self, payload: serde_json::Value) -> (r: ActiveModel)
        requires
            self.activity.id is Some,
        ensures
            r.job_type == JobType::Outbound,
            r.actor == self.actor,
            r.target is None,
            Some(r.activity) == self.activity.id,
            r.payload == Some(payload),
            r.published == self.queued_at,
            r.not_before == self.queued_at,
            r.attempt == 0,
            r.error is None,
    {
        let activity = match self.activity.id {
            Some(id) => id,
            None => String::new(),
        };
        ActiveModel {
            job_type: JobType::Outbound,
            actor: self.actor,
            target: None,
            activity,
            payload: Some(payload),
            published: self.queued_at,
            not_before: self.queued_at,
            attempt: 0,
            error: None,
        }
    }
}

/// `d` is the activity `kind` with id `aid`, by `actor`, on `object`, published
/// at `now`, with no target.
pub open spec fn sends(d: ActivityDocument, aid: Seq<char>, kind: ActivityType, actor: Seq<char>, object: Seq<char>, now: i64) -> bool {
    &&& opt_view(d.id) == Some(aid)
    &&& d.activity_type == Some(kind)
    &&& opt_view(d.actor) == Some(actor)
    &&& opt_view(d.object) == Some(object)
    &&& d.target is None
    &&& d.published == Some(now)
}

/// `d` is addressed to `to`, `bto`, `cc` and `bcc`.
pub open spec fn addressed_to(d: ActivityDocument, to: Seq<Seq<char>>, bto: Seq<Seq<char>>, cc: Seq<Seq<char>>, bcc: Seq<Seq<char>>) -> bool {
    &&& string_views(d.to@) == to
    &&& string_views(d.bto@) == bto
    &&& string_views(d.cc@) == cc
    &&& string_views(d.bcc@) == bcc
}

/// A fresh activity id on this server.
pub open spec fn fresh_activity_id(ctx: Context, aid: Seq<char>) -> bool {
    exists|x: Seq<char>| aid == #[trigger] proxied_uri(ctx.base_view(), UriKind::Activity, x)
}

fn fresh_aid(ctx: &Context) -> (r: String)
    ensures
        fresh_activity_id(*ctx, r@),
{
    let id = Context::new_id();
    let r = ctx.aid(id.as_str());
    assert(r@ == proxied_uri(ctx.base_view(), UriKind::Activity, id@));
    r
}

fn none() -> (r: Vec<String>)
    ensures
        string_views(r@) == Seq::<Seq<char>>::empty(),
{
    let r: Vec<String> = Vec::new();
    assert(string_views(r@) =~= Seq::<Seq<char>>::empty());
    r
}

fn one(s: &str) -> (r: Vec<String>)
    ensures
        string_views(r@) == seq![s@],
{
    let mut r: Vec<String> = Vec::new();
    r.push(s.to_string());
    assert(string_views(r@) =~= seq![s@]);
    r
}

/// The server actor follows the relay `relay`: a `Follow` of it, sent to it with
/// the public collection in copy, queued by the server actor at `now`.
pub fn relay_follow(ctx: &Context, relay: &str, now: i64) -> (r: OutboundJob)
    ensures
        fresh_activity_id(*ctx, opt_view(r.activity.id)->0),
        sends(r.activity, opt_view(r.activity.id)->0, ActivityType::Follow, ctx.base_view(), relay@, now),
        addressed_to(r.activity, seq![relay@], seq![], seq![PUBLIC@], seq![]),
        r.actor@ == ctx.base_view(),
        r.queued_at == now,
{
    let aid = fresh_aid(ctx);
    let activity = ActivityDocument {
        id: Some(aid),
        activity_type: Some(ActivityType::Follow),
        actor: Some(ctx.base().to_string()),
        object: Some(relay.to_string()),
        target: None,
        published: Some(now),
        to: one(relay),
        bto: none(),
        cc: one(PUBLIC),
        bcc: none(),
    };
    OutboundJob { activity, actor: ctx.base().to_string(), queued_at: now }
}

/// The server actor accepts the relay `relay`'s follow activity `follow`: an
/// `Accept` of it, sent to the relay with the public collection in copy.
pub fn relay_accept(ctx: &Context, relay: &str, follow: &str, now: i64) -> (r: OutboundJob)
    ensures
        fresh_activity_id(*ctx, opt_view(r.activity.id)->0),
        sends(r.activity, opt_view(r.activity.id)->0, ActivityType::Accept, ctx.base_view(), follow@, now),
        addressed_to(r.activity, seq![relay@], seq![], seq![PUBLIC@], seq![]),
        r.actor@ == ctx.base_view(),
        r.queued_at == now,
{
    let aid = fresh_aid(ctx);
    let activity = ActivityDocument {
        id: Some(aid),
        activity_type: Some(ActivityType::Accept),
        actor: Some(ctx.base().to_string()),
        object: Some(follow.to_string()),
        target: None,
        published: Some(now),
        to: one(relay),
        bto: none(),
        cc: one(PUBLIC),
        bcc: none(),
    };
    OutboundJob { activity, actor: ctx.base().to_string(), queued_at: now }
}

/// The server actor retracts its follow `follow` of the relay `relay`: an
/// `Undo` of it, sent to the relay with the public collection in copy.
pub fn relay_undo(ctx: &Context, relay: &str, follow: &str, now: i64) -> (r: OutboundJob)
    ensures
        fresh_activity_id(*ctx, opt_view(r.activity.id)->0),
        sends(r.activity, opt_view(r.activity.id)->0, ActivityType::Undo, ctx.base_view(), follow@, now),
        addressed_to(r.activity, seq![relay@], seq![], seq![PUBLIC@], seq![]),
        r.actor@ == ctx.base_view(),
        r.queued_at == now,
{
    let aid = fresh_aid(ctx);
    let activity = ActivityDocument {
        id: Some(aid),
        activity_type: Some(ActivityType::Undo),
        actor: Some(ctx.base().to_string()),
        object: Some(follow.to_string()),
        target: None,
        published: Some(now),
        to: one(relay),
        bto: none(),
        cc: one(PUBLIC),
        bcc: none(),
    };
    OutboundJob { activity, actor: ctx.base().to_string(), queued_at: now }
}

/// What a relay command does next.
#[derive(Debug, Clone)]
pub enum RelayStep {
    /// list the relays this server sends to and receives from
    ListRelays,
    /// look up the follow activity of the relay with this id, then run again
    LookUpFollow(String),
    /// look up the follow activity that this server sent to the relay with this
    /// id, then run again
    LookUpOwnFollow(String),
    /// queue this activity (and, for an undo, drop the server's follow relation
    /// to the relay)
    Send(OutboundJob),
    /// drop the follow relation of the relay with this id to this server
    RemoveRelation(String),
}

/// The next step of a relay command, given the follow activity it acts on once
/// it was looked up: the status lists the relays; a follow sends a `Follow` of
/// the relay; an accept first looks up the relay's follow of this server, then
/// sends its `Accept`; an unfollow first looks up this server's follow of the
/// relay, then sends its `Undo`; a removal drops the relay's follow relation.
pub fn relay_step(ctx: &Context, command: RelayCommand, follow: Option<String>, now: i64) -> (r: RelayStep)
    ensures
        match command {
            RelayCommand::Status => r is ListRelays,
            RelayCommand::Follow { actor } => r matches RelayStep::Send(j)
                && fresh_activity_id(*ctx, opt_view(j.activity.id)->0)
                && sends(j.activity, opt_view(j.activity.id)->0, ActivityType::Follow, ctx.base_view(), actor@, now)
                && addressed_to(j.activity, seq![actor@], seq![], seq![PUBLIC@], seq![])
                && j.actor@ == ctx.base_view() && j.queued_at == now,
            RelayCommand::Accept { actor } => match follow {
                None => r matches RelayStep::LookUpFollow(a) && a@ == actor@,
                Some(f) => r matches RelayStep::Send(j)
                    && fresh_activity_id(*ctx, opt_view(j.activity.id)->0)
                    && sends(j.activity, opt_view(j.activity.id)->0, ActivityType::Accept, ctx.base_view(), f@, now)
                    && addressed_to(j.activity, seq![actor@], seq![], seq![PUBLIC@], seq![])
                    && j.actor@ == ctx.base_view() && j.queued_at == now,
            },
            RelayCommand::Unfollow { actor } => match follow {
                None => r matches RelayStep::LookUpOwnFollow(a) && a@ == actor@,
                Some(f) => r matches RelayStep::Send(j)
                    && fresh_activity_id(*ctx, opt_view(j.activity.id)->0)
                    && sends(j.activity, opt_view(j.activity.id)->0, ActivityType::Undo, ctx.base_view(), f@, now)
                    && addressed_to(j.activity, seq![actor@], seq![], seq![PUBLIC@], seq![])
                    && j.actor@ == ctx.base_view() && j.queued_at == now,
            },
            RelayCommand::Remove { actor } => r matches RelayStep::RemoveRelation(a) && a@ == actor@,
        },
{
    match command {
        RelayCommand::Status => RelayStep::ListRelays,
        RelayCommand::Follow { actor } => RelayStep::Send(relay_follow(ctx, actor.as_str(), now)),
        RelayCommand::Accept { actor } => match follow {
            None => RelayStep::LookUpFollow(actor),
            Some(f) => RelayStep::Send(relay_accept(ctx, actor.as_str(), f.as_str(), now)),
        },
        RelayCommand::Unfollow { actor } => match follow {
            None => RelayStep::LookUpOwnFollow(actor),
            Some(f) => RelayStep::Send(relay_undo(ctx, actor.as_str(), f.as_str(), now)),
        },
        RelayCommand::Remove { actor } => RelayStep::RemoveRelation(actor),
    }
}

/// The activities to undo when every local user leaves, in the order of the
/// relations: the follow activity where the follower is local, else the accept
/// where the followed actor is local and has accepted.
pub open spec fn to_undo(rels: Seq<relation::Model>, local: Seq<i64>) -> Seq<i64>
    decreases rels.len(),
{
    if rels.len() == 0 {
        Seq::empty()
    } else {
        let rest = to_undo(rels.drop_last(), local);
        let r = rels.last();
        if local.contains(r.follower) {
            rest.push(r.activity)
        } else if local.contains(r.following) && r.accept is Some {
            rest.push(r.accept->0)
        } else {
            rest
        }
    }
}

fn contains_id(v: &Vec<i64>, x: i64) -> (r: bool)
    ensures
        r == v@.contains(x),
{
    let mut i: usize = 0;
    while i < v.len()
        invariant
            i <= v@.len(),
            forall|j: int| 0 <= j < i ==> v@[j] != x,
        decreases v@.len() - i,
    {
        if v[i] == x {
            return true;
        }
        i = i + 1;
    }
    false
}

/// The follow and accept activities that a nuke undoes, given every relation
/// and the internal ids of the local users.
pub fn undo_queue(relations: &Vec<relation::Model>, local_users: &Vec<i64>) -> (r: Vec<i64>)
    ensures
        r@ == to_undo(relations@, local_users@),
{
    let mut r: Vec<i64> = Vec::new();
    let mut i: usize = 0;
    while i < relations.len()
        invariant
            i <= relations@.len(),
            r@ == to_undo(relations@.take(i as int), local_users@),
        decreases relations@.len() - i,
    {
        assert(relations@.take(i + 1).drop_last() =~= relations@.take(i as int));
        let rel = relations[i];
        if contains_id(local_users, rel.follower) {
            r.push(rel.activity);
        } else if contains_id(local_users, rel.following) {
            if let Some(a) = rel.accept {
                r.push(a);
            }
        }
        i = i + 1;
    }
    assert(relations@.take(relations@.len() as int) =~= relations@);
    r
}

/// What an undo needs before it can be sent.
#[derive(Debug, Clone)]
pub enum UndoLookup {
    /// the activity has no object and cannot be undone
    Skip,
    /// a follow: it is its own target
    Own,
    /// an accept: its target is the follow activity with this id
    Follow(String),
}

/// What undoing `activity` needs: nothing without an object, nothing more for a
/// follow, the follow it accepted for anything else.
pub fn undo_lookup(activity: &activity::Model) -> (r: UndoLookup)
    ensures
        activity.object is None ==> r is Skip,
        activity.object is Some && activity.activity_type == ActivityType::Follow ==> r is Own,
        activity.object is Some && activity.activity_type != ActivityType::Follow
            ==> (r matches UndoLookup::Follow(oid) && Some(oid) == activity.object),
{
    match &activity.object {
        None => UndoLookup::Skip,
        Some(oid) => if activity.activity_type == ActivityType::Follow {
            UndoLookup::Own
        } else {
            UndoLookup::Follow(oid.clone())
        },
    }
}

/// The `Undo` of `activity` (which has an object) sent to `target`, by the
/// activity's actor, on its object.
pub fn nuke_undo(ctx: &Context, activity: &activity::Model, target: &str, now: i64) -> (r: OutboundJob)
    requires
        activity.object is Some,
    ensures
        fresh_activity_id(*ctx, opt_view(r.activity.id)->0),
        sends(r.activity, opt_view(r.activity.id)->0, ActivityType::Undo, activity.actor@,
            opt_view(activity.object)->0, now),
        addressed_to(r.activity, seq![target@], seq![], seq![], seq![]),
        r.actor@ == activity.actor@,
        r.queued_at == now,
{
    let aid = fresh_aid(ctx);
    let oid = match &activity.object {
        Some(o) => o.clone(),
        None => String::new(),
    };
    let doc = ActivityDocument {
        id: Some(aid),
        activity_type: Some(ActivityType::Undo),
        actor: Some(activity.actor.clone()),
        object: Some(oid),
        target: None,
        published: Some(now),
        to: one(target),
        bto: none(),
        cc: none(),
        bcc: none(),
    };
    OutboundJob { activity: doc, actor: activity.actor.clone(), queued_at: now }
}

/// Who deletes a local object: its author, else the server's domain.
pub open spec fn deleter(object: object::Model, domain: Seq<char>) -> Seq<char> {
    match object.attributed_to {
        Some(a) => a@,
        None => domain,
    }
}

/// The `Delete` of a local object, by its author (or the server's domain when it
/// has none), addressed as the object was.
pub fn nuke_delete(ctx: &Context, object: &object::Model, now: i64) -> (r: OutboundJob)
    ensures
        fresh_activity_id(*ctx, opt_view(r.activity.id)->0),
        sends(r.activity, opt_view(r.activity.id)->0, ActivityType::Delete,
            deleter(*object, ctx.domain_view()), object.id@, now),
        addressed_to(r.activity, string_views(object.to.0@), string_views(object.bto.0@),
            string_views(object.cc.0@), string_views(object.bcc.0@)),
        r.actor@ == deleter(*object, ctx.domain_view()),
        r.queued_at == now,
{
    let aid = fresh_aid(ctx);
    let actor = match &object.attributed_to {
        Some(a) => a.clone(),
        None => ctx.domain().to_string(),
    };
    let doc = ActivityDocument {
        id: Some(aid),
        activity_type: Some(ActivityType::Delete),
        actor: Some(actor.clone()),
        object: Some(object.id.clone()),
        target: None,
        published: Some(now),
        to: clone_strings(&object.to.0),
        bto: clone_strings(&object.bto.0),
        cc: clone_strings(&object.cc.0),
        bcc: clone_strings(&object.bcc.0),
    };
    OutboundJob { activity: doc, actor, queued_at: now }
}

/// How many times `k` occurs in `keys`.
pub open spec fn count_of<K>(keys: Seq<K>, k: K) -> nat
    decreases keys.len(),
{
    if keys.len() == 0 {
        0
    } else {
        count_of(keys.drop_last(), k) + if keys.last() == k { 1nat } else { 0nat }
    }
}

/// The distinct keys in the order they first occur.
pub open spec fn first_seen<K>(keys: Seq<K>) -> Seq<K>
    decreases keys.len(),
{
    if keys.len() == 0 {
        Seq::empty()
    } else {
        let before = first_seen(keys.drop_last());
        if before.contains(keys.last()) { before } else { before.push(keys.last()) }
    }
}

/// The keys of a tally, in order.
pub open spec fn tally_keys<K>(t: Seq<(K, i32)>) -> Seq<K> {
    t.map_values(|e: (K, i32)| e.0)
}

/// The sum of the counts of a tally.
pub open spec fn tally_total<K>(t: Seq<(K, i32)>) -> int
    decreases t.len(),
{
    if t.len() == 0 { 0 } else { tally_total(t.drop_last()) + t.last().1 }
}

/// `t` counts `keys`: each key that occurs once in `t`, with the number of its
/// occurrences, and nothing else.
pub open spec fn tallies<K>(t: Seq<(K, i32)>, keys: Seq<K>) -> bool {
    &&& forall|j: int| 0 <= j < t.len() ==> count_of(keys, #[trigger] t[j].0) == t[j].1 && t[j].1 >= 1
    &&& forall|j1: int, j2: int| 0 <= j1 < j2 < t.len() ==> t[j1].0 != t[j2].0
    &&& forall|k: K| #[trigger] count_of(keys, k) > 0 ==> exists|j: int| 0 <= j < t.len() && t[j].0 == k
}

proof fn lemma_total_update<K>(t: Seq<(K, i32)>, pos: int, e: (K, i32))
    requires
        0 <= pos < t.len(),
    ensures
        tally_total(t.update(pos, e)) == tally_total(t) - t[pos].1 + e.1,
    decreases t.len(),
{
    if pos < t.len() - 1 {
        lemma_total_update(t.drop_last(), pos, e);
        assert(t.update(pos, e).drop_last() =~= t.drop_last().update(pos, e));
    } else {
        assert(t.update(pos, e).drop_last() =~= t.drop_last());
    }
}

proof fn lemma_count_step<K>(keys: Seq<K>, i: int, k: K)
    requires
        0 <= i < keys.len(),
    ensures
        count_of(keys.take(i + 1), k) == count_of(keys.take(i), k) + if keys[i] == k { 1nat } else { 0nat },
{
    assert(keys.take(i + 1).drop_last() =~= keys.take(i));
}

proof fn lemma_count_bound<K>(keys: Seq<K>, k: K)
    ensures
        count_of(keys, k) <= keys.len(),
    decreases keys.len(),
{
    if keys.len() > 0 {
        lemma_count_bound(keys.drop_last(), k);
    }
}

/// How many of `keys` there are of each: the distinct keys in the order they
/// first occur, each with its number of occurrences. Every key is counted once:
/// the counts add up to the number of keys.
pub fn tally(keys: &Vec<i64>) -> (r: Vec<(i64, i32)>)
    requires
        keys@.len() <= i32::MAX,
    ensures
        tallies(r@, keys@),
        tally_total(r@) == keys@.len(),
        tally_keys(r@) == first_seen(keys@),
{
    let mut r: Vec<(i64, i32)> = Vec::new();
    let mut i: usize = 0;
    while i < keys.len()
        invariant
            i <= keys@.len() <= i32::MAX,
            tallies(r@, keys@.take(i as int)),
            tally_total(r@) == i,
            tally_keys(r@) == first_seen(keys@.take(i as int)),
        decreases keys@.len() - i,
    {
        let x = keys[i];
        let mut pos: usize = 0;
        while pos < r.len() && r[pos].0 != x
            invariant
                pos <= r@.len(),
                forall|j: int| 0 <= j < pos ==> r@[j].0 != x,
            decreases r@.len() - pos,
        {
            pos = pos + 1;
        }
        proof {
            assert forall|k: i64| true implies count_of(keys@.take(i + 1), k)
                == count_of(keys@.take(i as int), k) + if keys@[i as int] == k { 1nat } else { 0nat } by {
                lemma_count_step(keys@, i as int, k);
            }
            lemma_count_bound(keys@.take(i as int), x);
            assert(keys@.take(i + 1).drop_last() =~= keys@.take(i as int));
            assert(keys@.take(i + 1).last() == x);
        }
        let ghost old_r = r@;
        if pos < r.len() {
            let c = r[pos].1;
            proof { lemma_total_update(old_r, pos as int, (x, (c + 1) as i32)); }
            r.set(pos, (x, c + 1));
            proof {
                assert(tally_keys(old_r)[pos as int] == x);
                assert(tally_keys(r@) =~= tally_keys(old_r));
                assert forall|k: i64| #[trigger] count_of(keys@.take(i + 1), k) > 0
                    implies exists|j: int| 0 <= j < r@.len() && r@[j].0 == k by {
                    if count_of(keys@.take(i as int), k) > 0 {
                        let j = choose|j: int| 0 <= j < old_r.len() && old_r[j].0 == k;
                        assert(r@[j].0 == k);
                    } else {
                        assert(r@[pos as int].0 == k);
                    }
                }
            }
        } else {
            r.push((x, 1));
            proof {
                assert(r@.drop_last() =~= old_r);
                assert(!tally_keys(old_r).contains(x)) by {
                    if tally_keys(old_r).contains(x) {
                        let j = choose|j: int| 0 <= j < tally_keys(old_r).len() && tally_keys(old_r)[j] == x;
                        assert(old_r[j].0 == x);
                    }
                }
                assert(tally_keys(r@) =~= tally_keys(old_r).push(x));
                assert forall|k: i64| #[trigger] count_of(keys@.take(i + 1), k) > 0
                    implies exists|j: int| 0 <= j < r@.len() && r@[j].0 == k by {
                    if count_of(keys@.take(i as int), k) > 0 {
                        let j = choose|j: int| 0 <= j < old_r.len() && old_r[j].0 == k;
                        assert(r@[j].0 == k);
                    } else {
                        assert(r@[old_r.len() as int].0 == k);
                    }
                }
                assert forall|j: int| 0 <= j < old_r.len() implies count_of(keys@.take(i as int), #[trigger] old_r[j].0) == 0 || old_r[j].0 != x by {}
            }
        }
        i = i + 1;
    }
    assert(keys@.take(keys@.len() as int) =~= keys@);
    r
}

/// The objects replied to, in order, by the `in_reply_to` of each object.
pub open spec fn replied(v: Seq<Option<String>>) -> Seq<Seq<char>>
    decreases v.len(),
{
    if v.len() == 0 {
        Seq::empty()
    } else {
        match v.last() {
            Some(s) => replied(v.drop_last()).push(s@),
            None => replied(v.drop_last()),
        }
    }
}

/// A tally keyed by strings, seen through the strings' views.
pub open spec fn tally_view(t: Seq<(String, i32)>) -> Seq<(Seq<char>, i32)> {
    t.map_values(|e: (String, i32)| (e.0@, e.1))
}

/// How many replies each object has, by the `in_reply_to` of every object: the
/// objects replied to in the order they first occur, each with its number of
/// replies; the counts add up to the number of replies.
pub fn tally_replies(in_reply_to: &Vec<Option<String>>) -> (r: Vec<(String, i32)>)
    requires
        in_reply_to@.len() <= i32::MAX,
    ensures
        tallies(tally_view(r@), replied(in_reply_to@)),
        tally_total(tally_view(r@)) == replied(in_reply_to@).len(),
        tally_keys(tally_view(r@)) == first_seen(replied(in_reply_to@)),
{
    let mut r: Vec<(String, i32)> = Vec::new();
    let mut i: usize = 0;
    proof { assert(tally_view(r@) =~= Seq::<(Seq<char>, i32)>::empty()); }
    while i < in_reply_to.len()
        invariant
            i <= in_reply_to@.len() <= i32::MAX,
            replied(in_reply_to@.take(i as int)).len() <= i,
            tallies(tally_view(r@), replied(in_reply_to@.take(i as int))),
            tally_total(tally_view(r@)) == replied(in_reply_to@.take(i as int)).len(),
            tally_keys(tally_view(r@)) == first_seen(replied(in_reply_to@.take(i as int))),
        decreases in_reply_to@.len() - i,
    {
        assert(in_reply_to@.take(i + 1).drop_last() =~= in_reply_to@.take(i as int));
        let ghost keys = replied(in_reply_to@.take(i as int));
        let ghost tv = tally_view(r@);
        match &in_reply_to[i] {
            None => {},
            Some(x) => {
                let ghost nkeys = keys.push(x@);
                assert(replied(in_reply_to@.take(i + 1)) == nkeys);
                assert(keys.len() <= i);
                let mut pos: usize = 0;
                while pos < r.len() && r[pos].0 != *x
                    invariant
                        pos <= r@.len(),
                        forall|j: int| 0 <= j < pos ==> r@[j].0@ != x@,
                    decreases r@.len() - pos,
                {
                    pos = pos + 1;
                }
                proof {
                    assert forall|k: Seq<char>| true implies count_of(nkeys, k)
                        == count_of(keys, k) + if x@ == k { 1nat } else { 0nat } by {
                        assert(nkeys.drop_last() =~= keys);
                    }
                    lemma_count_bound(keys, x@);
                }
                if pos < r.len() {
                    let c = r[pos].1;
                    proof {
                        assert(tv[pos as int].0 == x@);
                        assert(c == count_of(keys, x@));
                        lemma_total_update(tv, pos as int, (x@, (c + 1) as i32));
                    }
                    r.set(pos, (x.clone(), c + 1));
                    proof {
                        assert(tally_view(r@) =~= tv.update(pos as int, (x@, (c + 1) as i32)));
                        assert(nkeys.drop_last() =~= keys);
                        assert(tally_keys(tv)[pos as int] == x@);
                        assert(tally_keys(tally_view(r@)) =~= tally_keys(tv));
                        assert forall|k: Seq<char>| #[trigger] count_of(nkeys, k) > 0
                            implies exists|j: int| 0 <= j < tally_view(r@).len() && tally_view(r@)[j].0 == k by {
                            if count_of(keys, k) > 0 {
                                let j = choose|j: int| 0 <= j < tv.len() && tv[j].0 == k;
                                assert(tally_view(r@)[j].0 == k);
                            } else {
                                assert(tally_view(r@)[pos as int].0 == k);
                            }
                        }
                    }
                } else {
                    r.push((x.clone(), 1));
                    proof {
                        assert(tally_view(r@) =~= tv.push((x@, 1i32)));
                        assert(nkeys.drop_last() =~= keys);
                        assert(!tally_keys(tv).contains(x@)) by {
                            if tally_keys(tv).contains(x@) {
                                let j = choose|j: int| 0 <= j < tally_keys(tv).len() && tally_keys(tv)[j] == x@;
                                assert(r@[j].0@ == x@);
                            }
                        }
                        assert(tally_keys(tally_view(r@)) =~= tally_keys(tv).push(x@));
                        assert(tally_view(r@).drop_last() =~= tv);
                        assert forall|k: Seq<char>| #[trigger] count_of(nkeys, k) > 0
                            implies exists|j: int| 0 <= j < tally_view(r@).len() && tally_view(r@)[j].0 == k by {
                            if count_of(keys, k) > 0 {
                                let j = choose|j: int| 0 <= j < tv.len() && tv[j].0 == k;
                                assert(tally_view(r@)[j].0 == k);
                            } else {
                                assert(tally_view(r@)[tv.len() as int].0 == k);
                            }
                        }
                    }
                }
            },
        }
        i = i + 1;
    }
    assert(in_reply_to@.take(in_reply_to@.len() as int) =~= in_reply_to@);
    r
}

/// What to do with the next stale user when refreshing users.
#[derive(Debug, Clone, Copy, PartialEq, Eq, Structural)]
pub enum RefreshStep {
    /// leave it: it is local, or its server is known to be down
    Skip,
    /// enough users were refreshed
    Stop,
    /// fetch it again
    Refresh,
}

/// The next step of a refresh that has updated `refreshed` users so far: local
/// users are skipped, the scan stops once `limit` users were updated, users of a
/// server that is down are skipped, the others are fetched again.
pub fn refresh_step(ctx: &Context, user: &str, refreshed: u64, limit: Option<u64>, server_down: bool) -> (r: RefreshStep)
    ensures
        r == (if starts_with(user@, ctx.base_view()) {
            RefreshStep::Skip
        } else if limit is Some && refreshed >= limit->0 {
            RefreshStep::Stop
        } else if server_down {
            RefreshStep::Skip
        } else {
            RefreshStep::Refresh
        }),
{
    if ctx.is_local(user) {
        return RefreshStep::Skip;
    }
    if let Some(l) = limit {
        if refreshed >= l {
            return RefreshStep::Stop;
        }
    }
    if server_down { RefreshStep::Skip } else { RefreshStep::Refresh }
}

/// What a failed refresh of a user does.
#[derive(Debug, Clone, Copy, PartialEq, Eq, Structural)]
pub enum RefreshFailure {
    /// the user is gone: delete it
    Delete,
    /// mark its server as down
    MarkDown,
}

/// A user whose fetch answers 410 (gone) or 404 (not found) is deleted; any other
/// failure marks its server as down.
pub fn refresh_failure(err: &RequestError) -> (r: RefreshFailure)
    ensures
        r == (match err {
            RequestError::Fetch(status, _) => if status == 410 || status == 404 {
                RefreshFailure::Delete
            } else {
                RefreshFailure::MarkDown
            },
            _ => RefreshFailure::MarkDown,
        }),
{
    match err {
        RequestError::Fetch(status, _) => if *status == 410 || *status == 404 {
            RefreshFailure::Delete
        } else {
            RefreshFailure::MarkDown
        },
        _ => RefreshFailure::MarkDown,
    }
}

/// Whether a media URL is replaced by its cloaked form: it is there and does not
/// start with the server's base URL.
pub fn needs_cloaking(base: &str, url: &Option<String>) -> (r: bool)
    ensures
        r == (url is Some && !starts_with(url->0@, base@)),
{
    match url {
        None => false,
        Some(u) => {
            let uc = chars_of(u.as_str());
            let bc = chars_of(base);
            !chars_starts_with(uc.as_slice(), bc.as_slice())
        },
    }
}

/// Which images of an actor are cloaked: none is looked at when it has neither,
/// else each that is remote.
pub fn actor_cloaking(base: &str, image: &Option<String>, icon: &Option<String>) -> (r: Option<(bool, bool)>)
    ensures
        image is None && icon is None ==> r is None,
        !(image is None && icon is None) ==> r == Some((
            image is Some && !starts_with(image->0@, base@),
            icon is Some && !starts_with(icon->0@, base@),
        )),
{
    if image.is_none() && icon.is_none() {
        return None;
    }
    Some((needs_cloaking(base, image), needs_cloaking(base, icon)))
}

/// The content of a stored post sanitized again, when that changes it.
pub fn resanitized(content: &str) -> (r: Option<String>)
    ensures
        safe_html(content@) == content@ ==> r is None,
        safe_html(content@) != content@ ==> (r matches Some(s) && s@ == safe_html(content@)),
{
    let sanitized = sanitize_html(content);
    let current = content.to_string();
    if sanitized == current { None } else { Some(sanitized) }
}

/// Who signs a fetch, and with which key: the requested actor with its own key
/// when it has one, else the server with its key.
pub fn fetch_signer(ctx: &Context, actor: Option<&str>, actor_key: Option<String>) -> (r: (String, String))
    ensures
        (actor is Some && actor_key is Some) ==> r.0@ == actor->0@ && r.1@ == actor_key->0@,
        !(actor is Some && actor_key is Some) ==> r.0@ == ctx.base_view() && r.1@ == ctx.pkey_view(),
{
    match (actor, actor_key) {
        (Some(a), Some(k)) => (a.to_string(), k),
        _ => (ctx.base().to_string(), ctx.pkey().to_string()),
    }
}

/// What a fetched document is stored as.
#[derive(Debug, Clone, Copy, PartialEq, Eq, Structural)]
pub enum SaveAs {
    Actor,
    Activity,
    Note,
    /// an object of a type that is not stored
    Unsupported,
    /// a link, not a document
    Link,
    /// a document without a type
    Untyped,
}

/// How a fetched document is saved, by its base type (`Err` when it has none,
/// `Ok(None)` for a link): actors, activities and notes are stored.
pub fn save_as(base_type: Result<Option<ObjectType>, ()>) -> (r: SaveAs)
    ensures
        r == (match base_type {
            Err(_) => SaveAs::Untyped,
            Ok(None) => SaveAs::Link,
            Ok(Some(ObjectType::Actor(_))) => SaveAs::Actor,
            Ok(Some(ObjectType::Activity(_))) => SaveAs::Activity,
            Ok(Some(ObjectType::Note)) => SaveAs::Note,
            Ok(Some(_)) => SaveAs::Unsupported,
        }),
{
    match base_type {
        Err(_) => SaveAs::Untyped,
        Ok(None) => SaveAs::Link,
        Ok(Some(ObjectType::Actor(_))) => SaveAs::Actor,
        Ok(Some(ObjectType::Activity(_))) => SaveAs::Activity,
        Ok(Some(ObjectType::Note)) => SaveAs::Note,
        Ok(Some(_)) => SaveAs::Unsupported,
    }
}

/// The summary of the generated test user.
pub const TEST_USER_SUMMARY: &'static str = "hello world! i'm manually generated but served dynamically from db! check progress at https://git.alemi.dev/upub.git";
/// The icon of the generated test user.
pub const TEST_USER_ICON: &'static str = "https://cdn.alemi.dev/social/circle-square.png";
/// The banner of the generated test user.
pub const TEST_USER_IMAGE: &'static str = "https://cdn.alemi.dev/social/someriver-xs.jpg";
/// The text of each generated post, after its number in brackets.
pub const TEST_POST_TEXT: &'static str = " Tic(k). Quasiparticle of intensive multiplicity. Tics (or ticks) are intrinsically several components of autonomously numbering anorganic populations, propagating by contagion between segmentary divisions in the order of nature. Ticks - as nonqualitative differentially-decomposable counting marks - each designate a multitude comprehended as a singular variation in tic(k)-density.";

fn joined(a: &str, b: &str) -> (r: String)
    ensures
        r@ == a@ + b@,
{
    let mut out: Vec<char> = Vec::new();
    push_str(&mut out, a);
    push_str(&mut out, b);
    string_of(out.as_slice())
}

fn joined3(a: &str, b: &str, c: &str) -> (r: String)
    ensures
        r@ == a@ + b@ + c@,
{
    let mut out: Vec<char> = Vec::new();
    push_str(&mut out, a);
    push_str(&mut out, b);
    push_str(&mut out, c);
    string_of(out.as_slice())
}

/// `u` is the test user of a server at `domain` that has `count` posts: `test`,
/// at `{domain}/actors/test`, created and updated at `now`, with a private key.
pub open spec fn test_user(u: actor::Model, domain: Seq<char>, count: i64, now: i64) -> bool {
    &&& u.internal == 42
    &&& u.id@ == domain + "/actors/test"@
    &&& u.domain@ == cleaned_domain(domain)
    &&& u.preferred_username@ == "test"@
    &&& u.actor_type == ActorType::Person
    &&& opt_view(u.name) == Some("μpub"@)
    &&& opt_view(u.summary) == Some(TEST_USER_SUMMARY@)
    &&& opt_view(u.icon) == Some(TEST_USER_ICON@)
    &&& opt_view(u.image) == Some(TEST_USER_IMAGE@)
    &&& u.inbox is None && u.outbox is None && u.shared_inbox is None
    &&& u.followers is None && u.following is None
    &&& u.following_count == 0 && u.followers_count == 0
    &&& u.statuses_count == count as i32
    &&& u.private_key is Some
    &&& u.published == now && u.updated == now
}

/// The test user of a server at `domain` that has `count` posts, with a fresh
/// key pair; fails when no key pair could be made.
pub fn fake_user(domain: &str, count: i64, now: i64) -> (r: Result<actor::Model, openssl::error::ErrorStack>)
    ensures
        r matches Ok(u) ==> test_user(u, domain@, count, now),
        r matches Ok(u) ==> fresh_keys(u),
{
    match rsa_keypair(KEY_BITS) {
        Ok((public_key, private_key)) => Ok(fake_user_with_keys(domain, count, public_key, private_key, now)),
        Err(e) => Err(e),
    }
}

/// The test user of a server at `domain` that has `count` posts, with the given
/// key pair.
pub fn fake_user_with_keys(domain: &str, count: i64, public_key: String, private_key: String, now: i64) -> (r: actor::Model)
    ensures
        test_user(r, domain@, count, now),
        r.public_key == public_key,
        r.private_key == Some(private_key),
{
    #[verifier::truncate]
    let statuses: i32 = count as i32;
    actor::Model {
        internal: 42,
        domain: clean_domain(domain),
        id: joined(domain, "/actors/test"),
        preferred_username: "test".to_string(),
        actor_type: ActorType::Person,
        name: Some("μpub".to_string()),
        summary: Some(TEST_USER_SUMMARY.to_string()),
        icon: Some(TEST_USER_ICON.to_string()),
        image: Some(TEST_USER_IMAGE.to_string()),
        inbox: None,
        outbox: None,
        shared_inbox: None,
        followers: None,
        following: None,
        published: now,
        updated: now,
        following_count: 0,
        followers_count: 0,
        statuses_count: statuses,
        public_key,
        private_key: Some(private_key),
    }
}

/// Test post number `i` (counting back from the newest) of a server at `domain`:
/// a public note by the test user in thread `context`, published `i` minutes
/// before `now`, with the `Create` that published it; both have internal id
/// `42 + i`, and ids built from `oid` and `aid`.
pub fn fake_post(domain: &str, i: i64, oid: &str, aid: &str, context: &str, now: i64) -> (r: (object::Model, activity::Model))
    requires
        0 <= i <= i64::MAX - 42,
        60_000 * i <= i64::MAX,
        now - 60_000 * i >= i64::MIN,
    ensures
        r.0.internal == 42 + i && r.1.internal == 42 + i,
        r.0.id@ == domain@ + "/objects/"@ + oid@,
        r.0.object_type == ObjectType::Note,
        opt_view(r.0.attributed_to) == Some(domain@ + "/actors/test"@),
        opt_view(r.0.context) == Some(context@),
        opt_view(r.0.content) == Some("["@ + decimal(i as nat) + "]"@ + TEST_POST_TEXT@),
        r.0.name is None && r.0.summary is None && r.0.in_reply_to is None && r.0.quote is None,
        r.0.image is None && r.0.url is None && r.0.audience is None && !r.0.sensitive,
        r.0.published == now - 60_000 * i && r.0.updated == now,
        r.0.replies == 0 && r.0.likes == 0 && r.0.announces == 0,
        string_views(r.0.to.0@) == seq![PUBLIC@],
        r.0.bto.0@.len() == 0 && r.0.cc.0@.len() == 0 && r.0.bcc.0@.len() == 0,
        r.1.id@ == domain@ + "/activities/"@ + aid@,
        r.1.activity_type == ActivityType::Create,
        r.1.actor@ == domain@ + "/actors/test"@,
        opt_view(r.1.object) == Some(domain@ + "/objects/"@ + oid@),
        r.1.target is None,
        r.1.published == now - 60_000 * i,
        string_views(r.1.to.0@) == seq![PUBLIC@],
        r.1.bto.0@.len() == 0 && r.1.cc.0@.len() == 0 && r.1.bcc.0@.len() == 0,
{
    let published = now - 60_000 * i;
    let mut text: Vec<char> = Vec::new();
    push_str(&mut text, "[");
    push_decimal(&mut text, i as u64);
    push_str(&mut text, "]");
    push_str(&mut text, TEST_POST_TEXT);
    let oid_full = joined3(domain, "/objects/", oid);
    let object = object::Model {
        internal: 42 + i,
        id: oid_full.clone(),
        object_type: ObjectType::Note,
        attributed_to: Some(joined(domain, "/actors/test")),
        name: None,
        summary: None,
        content: Some(string_of(text.as_slice())),
        image: None,
        quote: None,
        sensitive: false,
        in_reply_to: None,
        url: None,
        likes: 0,
        announces: 0,
        replies: 0,
        context: Some(context.to_string()),
        to: JsonVec(one(PUBLIC)),
        bto: JsonVec(Vec::new()),
        cc: JsonVec(Vec::new()),
        bcc: JsonVec(Vec::new()),
        published,
        updated: now,
        audience: None,
    };
    let activity = activity::Model {
        internal: 42 + i,
        id: joined3(domain, "/activities/", aid),
        activity_type: ActivityType::Create,
        actor: joined(domain, "/actors/test"),
        object: Some(oid_full),
        target: None,
        to: JsonVec(one(PUBLIC)),
        bto: JsonVec(Vec::new()),
        cc: JsonVec(Vec::new()),
        bcc: JsonVec(Vec::new()),
        published,
    };
    (object, activity)
}

/// The password of the test user.
pub const TEST_USER_PASSWORD: &'static str = "very-strong-password";

/// The settings of the test user `actor`: everything accepted and shown.
pub fn fake_settings(actor: &str) -> (r: config::Model)
    ensures
        r.internal == 0,
        r.actor@ == actor@,
        r.accept_follow_requests && r.show_followers && r.show_following,
        r.show_following_count && r.show_followers_count,
{
    config::Model {
        internal: 0,
        actor: actor.to_string(),
        accept_follow_requests: true,
        show_followers: true,
        show_following: true,
        show_following_count: true,
        show_followers_count: true,
    }
}

/// The login of the test user `actor`: `mail@example.net`, with the SHA-256 hex
/// digest of its password, active.
pub fn fake_credential(actor: &str) -> (r: credential::Model)
    ensures
        r.internal == 0,
        r.actor@ == actor@,
        r.login@ == "mail@example.net"@,
        r.password@ == sha256_hex_digest(TEST_USER_PASSWORD@),
        r.active,
{
    credential::Model {
        internal: 0,
        actor: actor.to_string(),
        login: "mail@example.net".to_string(),
        password: sha256_hex(TEST_USER_PASSWORD),
        active: true,
    }
}

/// The addressing row of test post `i`: its activity and object (internal id
/// `42 + i`) made public, neither an actor nor an instance named, published at
/// `now`; the internal id (0) is assigned when the row is stored.
pub fn fake_addressing(i: i64, now: i64) -> (r: addressing::Model)
    requires
        0 <= i <= i64::MAX - 42,
    ensures
        r.internal == 0,
        r.actor is None && r.instance is None,
        r.activity == Some((42 + i) as i64) && r.object == Some((42 + i) as i64),
        r.published == now,
{
    addressing::Model { internal: 0, actor: None, instance: None, activity: Some(42 + i), object: Some(42 + i), published: now }
}

} // verus!
