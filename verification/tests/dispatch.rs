use upub::dispatch::{Worker, WorkerEvent, WorkerAction, KeySource, Payload, always_embed, payload_shape, key_source, worker_step};
use upub::model::job::{Model, JobType};
use upub::types::ActivityType;

fn job(actor: &str, attempt: i16) -> Model {
    Model {
        internal: 11,
        job_type: JobType::Delivery,
        actor: actor.to_string(),
        target: Some("https://b.example/inbox".to_string()),
        activity: "https://a.example/activities/1".to_string(),
        payload: None,
        published: 1_000,
        not_before: 1_000,
        attempt,
        error: None,
    }
}

#[test]
fn embedding_types() {
    for t in [ActivityType::Create, ActivityType::Undo, ActivityType::Update, ActivityType::Accept, ActivityType::Reject] {
        assert!(always_embed(t));
    }
    for t in [ActivityType::Like, ActivityType::Announce, ActivityType::Follow, ActivityType::Delete] {
        assert!(!always_embed(t));
    }
    assert_eq!(payload_shape(ActivityType::Create, true), Payload::Embedded);
    assert_eq!(payload_shape(ActivityType::Create, false), Payload::Bare);
    assert_eq!(payload_shape(ActivityType::Like, true), Payload::Bare);
}

#[test]
fn application_key_for_server_actor() {
    assert_eq!(key_source("https://a.example", "a.example"), KeySource::Application);
    assert_eq!(key_source("https://a.example/actors/x", "a.example"), KeySource::User("https://a.example/actors/x".to_string()));
}

#[test]
fn worker_sleeps_when_nothing_due() {
    let (s, a) = worker_step(Worker::Polling, WorkerEvent::Polled(None), "a.example");
    assert!(matches!(s, Worker::Polling));
    assert!(matches!(a, WorkerAction::Sleep));
}

#[test]
fn worker_full_delivery() {
    let (s, a) = worker_step(Worker::Polling, WorkerEvent::Polled(Some(job("https://a.example", 0))), "a.example");
    assert!(matches!(a, WorkerAction::Claim(11)));
    let (s, a) = worker_step(s, WorkerEvent::Claimed(1, false), "a.example");
    assert!(matches!(a, WorkerAction::LoadActivity(ref id) if id == "https://a.example/activities/1"));
    let (s, a) = worker_step(s, WorkerEvent::Loaded(Some((ActivityType::Create, true))), "a.example");
    assert!(matches!(a, WorkerAction::LoadKey(KeySource::Application)));
    assert!(matches!(s, Worker::Keying(_, Payload::Embedded)));
    let (s, a) = worker_step(s, WorkerEvent::KeyLoaded(Some("key".to_string())), "a.example");
    assert!(matches!(a, WorkerAction::Send(ref k, Payload::Embedded) if k == "key"));
    let (s, a) = worker_step(s, WorkerEvent::Sent(None, 2_000), "a.example");
    assert!(matches!(s, Worker::Polling));
    assert!(matches!(a, WorkerAction::Next));
}

#[test]
fn worker_skips_claimed_or_expired() {
    let (_, a) = worker_step(Worker::Claiming(job("x", 0)), WorkerEvent::Claimed(0, false), "a.example");
    assert!(matches!(a, WorkerAction::Next));
    let (_, a) = worker_step(Worker::Claiming(job("x", 0)), WorkerEvent::Claimed(1, true), "a.example");
    assert!(matches!(a, WorkerAction::Next));
}

#[test]
fn worker_skips_deleted_activity_and_missing_key() {
    let (_, a) = worker_step(Worker::Loading(job("x", 0)), WorkerEvent::Loaded(None), "a.example");
    assert!(matches!(a, WorkerAction::Next));
    let (_, a) = worker_step(Worker::Keying(job("x", 0), Payload::Bare), WorkerEvent::KeyLoaded(None), "a.example");
    assert!(matches!(a, WorkerAction::Next));
}

#[test]
fn worker_requeues_failed_delivery() {
    let (s, a) = worker_step(Worker::Sending(job("https://a.example/actors/u", 2)), WorkerEvent::Sent(Some("timeout".to_string()), 5_000), "a.example");
    assert!(matches!(s, Worker::Polling));
    match a {
        WorkerAction::Requeue(m) => {
            assert_eq!(m.attempt, 3);
            assert_eq!(m.not_before, 5_000 + 300_000);
            assert_eq!(m.error.as_deref(), Some("timeout"));
            assert_eq!(m.activity, "https://a.example/activities/1");
            assert_eq!(m.target.as_deref(), Some("https://b.example/inbox"));
            assert_eq!(m.published, 1_000);
        },
        _ => panic!("expected a requeue"),
    }
}

#[test]
fn worker_ignores_unexpected_event() {
    let (s, a) = worker_step(Worker::Polling, WorkerEvent::KeyLoaded(Some("k".to_string())), "a.example");
    assert!(matches!(s, Worker::Polling));
    assert!(matches!(a, WorkerAction::Next));
}

#[test]
fn delivery_jobs() {
    let j = upub::dispatch::delivery_job("https://a.example/activities/1", "https://a.example/actors/u", "https://b.example/inbox", 7);
    assert_eq!(j.job_type, JobType::Delivery);
    assert_eq!(j.target.as_deref(), Some("https://b.example/inbox"));
    assert_eq!(j.attempt, 0);
    assert_eq!(j.not_before, 7);
}

#[test]
fn two_workers_one_delivery() {
    let j = job("https://a.example/actors/x", 0);
    let (a, _) = worker_step(Worker::Polling, WorkerEvent::Polled(Some(j.clone())), "a.example");
    let (b, _) = worker_step(Worker::Polling, WorkerEvent::Polled(Some(j.clone())), "a.example");
    let (a, act_a) = worker_step(a, WorkerEvent::Claimed(1, false), "a.example");
    let (b, act_b) = worker_step(b, WorkerEvent::Claimed(0, false), "a.example");
    assert!(matches!(a, Worker::Loading(ref m) if m.internal == 11));
    assert!(matches!(act_a, WorkerAction::LoadActivity(ref id) if id == "https://a.example/activities/1"));
    assert!(matches!(b, Worker::Polling));
    assert!(matches!(act_b, WorkerAction::Next));
    let (a, _) = worker_step(a, WorkerEvent::Loaded(Some((ActivityType::Like, false))), "a.example");
    let (a, act) = worker_step(a, WorkerEvent::KeyLoaded(Some("k".to_string())), "a.example");
    assert!(matches!(a, Worker::Sending(ref m) if m.internal == 11));
    assert!(matches!(act, WorkerAction::Send(ref k, Payload::Bare) if k == "k"));
}

#[test]
fn deliveries_go_to_resolved_inboxes() {
    let inboxes = vec![Some("https://b.example/u/x/inbox".to_string()), None, Some("https://c.example/inbox".to_string())];
    let jobs = upub::dispatch::delivery_jobs("https://a.example/activities/1", "https://a.example/actors/me", &inboxes, 5);
    assert_eq!(jobs.len(), 2);
    assert_eq!(jobs[0].target.as_deref(), Some("https://b.example/u/x/inbox"));
    assert_eq!(jobs[1].target.as_deref(), Some("https://c.example/inbox"));
    for j in &jobs {
        assert_eq!(j.job_type, JobType::Delivery);
        assert_eq!(j.activity, "https://a.example/activities/1");
        assert_eq!(j.actor, "https://a.example/actors/me");
        assert!(j.payload.is_none() && j.error.is_none());
        assert_eq!((j.published, j.not_before, j.attempt), (5, 5, 0));
    }
    assert!(upub::dispatch::delivery_jobs("a", "b", &vec![None], 0).is_empty());
}
