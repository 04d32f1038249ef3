//! The delivery worker: which queued delivery to send, with which key, in which
//! shape, and what happens when sending fails. The worker loop itself (polling
//! the queue, sleeping, sending) runs outside; each step here takes what came
//! back and says what to do next.

use vstd::prelude::*;
use crate::model::job::{Model, ActiveModel, JobType, retry_delay_secs, MAX_RETRY_DELAY_MS};
use crate::types::ActivityType;
use crate::model::present_ids;
use crate::text::{chars_of, chars_eq, push_str};

verus! {

/// Whether an activity of this type is delivered with its object embedded.
pub open spec fn embeds_object(t: ActivityType) -> bool {
    t == ActivityType::Create || t == ActivityType::Undo || t == ActivityType::Update
        || t == ActivityType::Accept || t == ActivityType::Reject
}

/// Creations, undos, updates, accepts and rejects carry their object embedded.
pub fn always_embed(t: ActivityType) -> (r: bool)
    ensures
        r == embeds_object(t),
{
    match t {
        ActivityType::Create | ActivityType::Undo | ActivityType::Update
        | ActivityType::Accept | ActivityType::Reject => true,
        _ => false,
    }
}

/// The shape of a delivered document.
#[derive(Debug, Clone, Copy, PartialEq, Eq, Structural)]
pub enum Payload {
    /// the activity, its object given by id
    Bare,
    /// the activity with its object embedded
    Embedded,
}

/// An activity goes out embedding its object when that object is stored and the
/// activity's type calls for it.
pub fn payload_shape(t: ActivityType, object_stored: bool) -> (r: Payload)
    ensures
        r == (if object_stored && embeds_object(t) { Payload::Embedded } else { Payload::Bare }),
{
    if object_stored && always_embed(t) { Payload::Embedded } else { Payload::Bare }
}

/// Where the signing key of a delivery comes from.
#[derive(Debug, Clone, PartialEq, Eq)]
pub enum KeySource {
    /// the server's own application actor
    Application,
    /// the local user who sends it
    User(String),
}

/// The server actor `https://{domain}` signs with the application key; any other
/// actor with its own.
pub fn key_source(actor: &str, domain: &str) -> (r: KeySource)
    ensures
        actor@ == "https://"@ + domain@ ==> r == KeySource::Application,
        actor@ != "https://"@ + domain@ ==> (r matches KeySource::User(u) && u@ == actor@),
{
    let mut app: Vec<char> = Vec::new();
    push_str(&mut app, "https://");
    push_str(&mut app, domain);
    let a = chars_of(actor);
    if chars_eq(a.as_slice(), app.as_slice()) {
        KeySource::Application
    } else {
        KeySource::User(actor.to_string())
    }
}

/// Where the worker is.
#[derive(Debug, Clone)]
pub enum Worker {
    /// looking for the earliest due delivery
    Polling,
    /// trying to take this delivery off the queue
    Claiming(Model),
    /// loading the activity of this delivery
    Loading(Model),
    /// loading the key to sign this delivery, to send it in this shape
    Keying(Model, Payload),
    /// sending this delivery
    Sending(Model),
}

/// What the worker learned from its last action.
#[derive(Debug, Clone)]
pub enum WorkerEvent {
    /// the earliest due delivery, if any
    Polled(Option<Model>),
    /// how many rows taking the delivery removed, and whether it had expired
    Claimed(u64, bool),
    /// the activity's type and whether its object is stored; none when the
    /// activity is gone
    Loaded(Option<(ActivityType, bool)>),
    /// the signing key, if there is one
    KeyLoaded(Option<String>),
    /// why sending failed (none when it worked), and the time it ended
    /// (milliseconds since the Unix epoch)
    Sent(Option<String>, i64),
}

/// What the worker does next.
#[derive(Debug, Clone)]
pub enum WorkerAction {
    /// wait for a wakeup or for the poll interval
    Sleep,
    /// take the delivery with this internal id off the queue
    Claim(i64),
    /// load the activity with this id
    LoadActivity(String),
    /// load the key from there
    LoadKey(KeySource),
    /// send the delivery signed with this key, in this shape
    Send(String, Payload),
    /// queue this delivery again
    Requeue(ActiveModel),
    /// look for the next delivery
    Next,
}

/// Where the worker goes on an event: polling finds a delivery to claim; a
/// claim that removed the delivery (and found it unexpired) goes on to load its
/// activity; a loaded activity goes on to the key, in the shape its type and
/// stored object call for; a key goes on to sending; anything else goes back to
/// polling.
pub open spec fn worker_next(state: Worker, event: WorkerEvent) -> Worker {
    match (state, event) {
        (Worker::Polling, WorkerEvent::Polled(Some(j))) => Worker::Claiming(j),
        (Worker::Claiming(j), WorkerEvent::Claimed(rows, expired)) =>
            if rows == 0 || expired { Worker::Polling } else { Worker::Loading(j) },
        (Worker::Loading(j), WorkerEvent::Loaded(Some((t, stored)))) =>
            Worker::Keying(j, if stored && embeds_object(t) { Payload::Embedded } else { Payload::Bare }),
        (Worker::Keying(j, p), WorkerEvent::KeyLoaded(Some(k))) => Worker::Sending(j),
        _ => Worker::Polling,
    }
}

/// A run of one worker: it starts polling, and each state is where the one
/// before goes on the event between them.
pub open spec fn worker_run(states: Seq<Worker>, events: Seq<WorkerEvent>) -> bool {
    &&& states.len() == events.len() + 1
    &&& states[0] is Polling
    &&& forall|i: int| 0 <= i < events.len() ==> #[trigger] states[i + 1] == worker_next(states[i], events[i])
}

/// The delivery a worker holds past its claim (loading, keying or sending it).
pub open spec fn held_past_claim(s: Worker) -> Option<Model> {
    match s {
        Worker::Loading(j) => Some(j),
        Worker::Keying(j, _) => Some(j),
        Worker::Sending(j) => Some(j),
        _ => None,
    }
}

/// Law: a worker only works on a delivery it took off the queue itself. Whenever
/// a run holds a delivery past its claim (loading, keying or sending it), an
/// earlier step of the same run claimed that very delivery and the claim removed
/// it from the queue (so another worker, whose removal of it found nothing,
/// skipped it) and found it unexpired.
pub proof fn lemma_works_only_on_claimed(states: Seq<Worker>, events: Seq<WorkerEvent>, n: int)
    requires
        worker_run(states, events),
        0 <= n < states.len(),
        held_past_claim(states[n]) is Some,
    ensures
        exists|k: int| 0 <= k < n && #[trigger] states[k] == Worker::Claiming(held_past_claim(states[n])->0)
            && (events[k] matches WorkerEvent::Claimed(rows, expired) && rows > 0 && !expired),
    decreases n,
{
    if n == 0 {
        assert(states[0] is Polling);
    } else {
        let k = n - 1;
        assert(states[k + 1] == worker_next(states[k], events[k]));
        match states[n] {
            Worker::Loading(j) => {
                assert(states[k] == Worker::Claiming(j));
                assert(events[k] matches WorkerEvent::Claimed(rows, expired) && rows > 0 && !expired);
            },
            _ => {
                lemma_works_only_on_claimed(states, events, k);
                let w = choose|w: int| 0 <= w < k && #[trigger] states[w] == Worker::Claiming(held_past_claim(states[k])->0)
                    && (events[w] matches WorkerEvent::Claimed(rows, expired) && rows > 0 && !expired);
                assert(states[w] == Worker::Claiming(held_past_claim(states[n])->0));
            },
        }
    }
}

/// The worker's transitions: poll, claim (another worker may have taken it, or
/// it may have expired), load the activity (gone: skip), load the key (none:
/// skip), send; a failed send is queued again for later with one more attempt.
/// An event that does not answer the current step leaves the delivery and goes
/// back to polling.
pub fn worker_step(state: Worker, event: WorkerEvent, domain: &str) -> (r: (Worker, WorkerAction))
    requires
        state matches Worker::Sending(j) ==> (event matches WorkerEvent::Sent(Some(_), now)
            ==> j.attempt < i16::MAX && now <= i64::MAX - MAX_RETRY_DELAY_MS),
    ensures
        r.0 == worker_next(state, event),
        match (state, event) {
            (Worker::Polling, WorkerEvent::Polled(None)) => r.0 is Polling && r.1 is Sleep,
            (Worker::Polling, WorkerEvent::Polled(Some(j))) =>
                r.0 == Worker::Claiming(j) && r.1 == WorkerAction::Claim(j.internal),
            (Worker::Claiming(j), WorkerEvent::Claimed(rows, expired)) =>
                if rows == 0 || expired {
                    r.0 is Polling && r.1 is Next
                } else {
                    r.0 == Worker::Loading(j) && r.1 == WorkerAction::LoadActivity(j.activity)
                },
            (Worker::Loading(j), WorkerEvent::Loaded(None)) => r.0 is Polling && r.1 is Next,
            (Worker::Loading(j), WorkerEvent::Loaded(Some((t, stored)))) =>
                r.0 == Worker::Keying(j, if stored && embeds_object(t) { Payload::Embedded } else { Payload::Bare })
                && (j.actor@ == "https://"@ + domain@ ==> r.1 == WorkerAction::LoadKey(KeySource::Application))
                && (j.actor@ != "https://"@ + domain@ ==> (r.1 matches WorkerAction::LoadKey(KeySource::User(u)) && u@ == j.actor@)),
            (Worker::Keying(j, p), WorkerEvent::KeyLoaded(None)) => r.0 is Polling && r.1 is Next,
            (Worker::Keying(j, p), WorkerEvent::KeyLoaded(Some(k))) =>
                r.0 == Worker::Sending(j) && r.1 == WorkerAction::Send(k, p),
            (Worker::Sending(j), WorkerEvent::Sent(None, _)) => r.0 is Polling && r.1 is Next,
            (Worker::Sending(j), WorkerEvent::Sent(Some(e), now)) => r.0 is Polling
                && (r.1 matches WorkerAction::Requeue(m)
                    && m.job_type == j.job_type && m.actor == j.actor && m.target == j.target
                    && m.activity == j.activity && m.payload == j.payload && m.published == j.published
                    && m.not_before == now + 1000 * retry_delay_secs(j.attempt as int)
                    && m.attempt == j.attempt + 1 && m.error == Some(e)),
            _ => r.0 is Polling && r.1 is Next,
        },
{
    match (state, event) {
        (Worker::Polling, WorkerEvent::Polled(None)) => (Worker::Polling, WorkerAction::Sleep),
        (Worker::Polling, WorkerEvent::Polled(Some(j))) => {
            let id = j.internal;
            (Worker::Claiming(j), WorkerAction::Claim(id))
        },
        (Worker::Claiming(j), WorkerEvent::Claimed(rows, expired)) => {
            if rows == 0 || expired {
                (Worker::Polling, WorkerAction::Next)
            } else {
                let aid = j.activity.clone();
                (Worker::Loading(j), WorkerAction::LoadActivity(aid))
            }
        },
        (Worker::Loading(j), WorkerEvent::Loaded(loaded)) => match loaded {
            None => (Worker::Polling, WorkerAction::Next),
            Some((t, stored)) => {
                let source = key_source(j.actor.as_str(), domain);
                let shape = payload_shape(t, stored);
                (Worker::Keying(j, shape), WorkerAction::LoadKey(source))
            },
        },
        (Worker::Keying(j, p), WorkerEvent::KeyLoaded(key)) => match key {
            None => (Worker::Polling, WorkerAction::Next),
            Some(k) => (Worker::Sending(j), WorkerAction::Send(k, p)),
        },
        (Worker::Sending(j), WorkerEvent::Sent(outcome, now)) => match outcome {
            None => (Worker::Polling, WorkerAction::Next),
            Some(e) => (Worker::Polling, WorkerAction::Requeue(j.repeat(Some(e), now))),
        },
        (_, _) => (Worker::Polling, WorkerAction::Next),
    }
}

/// The delivery of activity `aid` by `from` to the inbox `inbox`, queued at
/// `now`: due at once, not tried yet.
pub fn delivery_job(aid: &str, from: &str, inbox: &str, now: i64) -> (r: ActiveModel)
    ensures
        r.job_type == JobType::Delivery,
        r.activity@ == aid@,
        r.actor@ == from@,
        r.target matches Some(t) && t@ == inbox@,
        r.payload is None,
        r.published == now && r.not_before == now,
        r.attempt == 0,
        r.error is None,
{
    ActiveModel {
        job_type: JobType::Delivery,
        actor: from.to_string(),
        target: Some(inbox.to_string()),
        activity: aid.to_string(),
        payload: None,
        published: now,
        not_before: now,
        attempt: 0,
        error: None,
    }
}

/// `j` delivers activity `aid` by `from` to the inbox `inbox`, queued at `now`:
/// due at once, not tried yet.
pub open spec fn is_delivery(j: ActiveModel, aid: Seq<char>, from: Seq<char>, inbox: Seq<char>, now: i64) -> bool {
    &&& j.job_type == JobType::Delivery
    &&& j.activity@ == aid
    &&& j.actor@ == from
    &&& (j.target matches Some(t) && t@ == inbox)
    &&& j.payload is None
    &&& j.published == now && j.not_before == now
    &&& j.attempt == 0
    &&& j.error is None
}

/// The deliveries of activity `aid` by `from`, given the inbox that each target
/// resolved to (none where it did not resolve, or has no inbox): one job per
/// inbox, in order; a target without one is skipped.
pub fn delivery_jobs(aid: &str, from: &str, inboxes: &Vec<Option<String>>, now: i64) -> (r: Vec<ActiveModel>)
    ensures
        r@.len() == present_ids(inboxes@).len(),
        forall|k: int| 0 <= k < r@.len() ==> is_delivery(#[trigger] r@[k], aid@, from@, present_ids(inboxes@)[k], now),
{
    let mut r: Vec<ActiveModel> = Vec::new();
    let mut i: usize = 0;
    while i < inboxes.len()
        invariant
            i <= inboxes@.len(),
            r@.len() == present_ids(inboxes@.take(i as int)).len(),
            forall|k: int| 0 <= k < r@.len() ==> is_delivery(#[trigger] r@[k], aid@, from@, present_ids(inboxes@.take(i as int))[k], now),
        decreases inboxes@.len() - i,
    {
        assert(inboxes@.take(i + 1).drop_last() =~= inboxes@.take(i as int));
        let ghost before = present_ids(inboxes@.take(i as int));
        match &inboxes[i] {
            Some(inbox) => {
                r.push(delivery_job(aid, from, inbox.as_str(), now));
                assert(present_ids(inboxes@.take(i + 1)) == before.push(inbox@));
            },
            None => {},
        }
        i = i + 1;
    }
    assert(inboxes@.take(inboxes@.len() as int) =~= inboxes@);
    r
}

} // verus!
