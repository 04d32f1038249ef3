use upub::cli::{
    RelayCommand, RelayStep, relay_step, OutboundJob, UndoLookup, RefreshStep, RefreshFailure, SaveAs,
    relay_follow, relay_accept, undo_queue, undo_lookup, nuke_undo, nuke_delete, tally, tally_replies,
    refresh_step, refresh_failure, needs_cloaking, actor_cloaking, resanitized, fetch_signer, save_as,
    fake_user, fake_user_with_keys, fake_post, fake_settings, fake_credential, fake_addressing, TEST_POST_TEXT,
};
use upub::config::Config;
use upub::context::{Context, Relays};
use upub::ext::JsonVec;
use upub::fetch::RequestError;
use upub::model::{activity, object, relation, job::JobType};
use upub::types::{ActivityType, ActorType, ObjectType, PUBLIC};

fn ctx() -> Context {
    Context::new("https://upub.example".to_string(), Config::default(), "server-key".to_string(), Relays::new(vec![], vec![]))
}

fn activity_model(kind: ActivityType, object: Option<&str>) -> activity::Model {
    activity::Model {
        internal: 5,
        id: "https://upub.example/activities/f".to_string(),
        activity_type: kind,
        actor: "https://upub.example/actors/alice".to_string(),
        object: object.map(|s| s.to_string()),
        target: None,
        to: JsonVec(vec![]),
        bto: JsonVec(vec![]),
        cc: JsonVec(vec![]),
        bcc: JsonVec(vec![]),
        published: 0,
    }
}

fn object_model(author: Option<&str>) -> object::Model {
    object::Model {
        internal: 8,
        id: "https://upub.example/objects/p".to_string(),
        object_type: ObjectType::Note,
        attributed_to: author.map(|s| s.to_string()),
        name: None,
        summary: None,
        content: Some("hi".to_string()),
        image: None,
        quote: None,
        sensitive: false,
        in_reply_to: None,
        url: None,
        likes: 0,
        announces: 0,
        replies: 0,
        context: None,
        to: JsonVec(vec![PUBLIC.to_string()]),
        bto: JsonVec(vec![]),
        cc: JsonVec(vec!["https://upub.example/actors/alice/followers".to_string()]),
        bcc: JsonVec(vec!["https://b.example/u/x".to_string()]),
        published: 0,
        updated: 0,
        audience: None,
    }
}

#[test]
fn relay_command_variants() {
    let c = RelayCommand::Follow { actor: "https://relay.example/actor".to_string() };
    assert!(matches!(c, RelayCommand::Follow { ref actor } if actor == "https://relay.example/actor"));
    assert!(matches!(RelayCommand::Status, RelayCommand::Status));
}

#[test]
fn relay_follow_activity() {
    let c = ctx();
    let j = relay_follow(&c, "https://relay.example/actor", 1234);
    let a = &j.activity;
    assert!(a.id.as_ref().unwrap().starts_with("https://upub.example/activities/"));
    assert_eq!(a.activity_type, Some(ActivityType::Follow));
    assert_eq!(a.actor.as_deref(), Some("https://upub.example"));
    assert_eq!(a.object.as_deref(), Some("https://relay.example/actor"));
    assert_eq!(a.to, vec!["https://relay.example/actor".to_string()]);
    assert_eq!(a.cc, vec![PUBLIC.to_string()]);
    assert!(a.bto.is_empty() && a.bcc.is_empty());
    assert_eq!(a.published, Some(1234));
    assert_eq!(j.actor, "https://upub.example");
    assert_eq!(j.queued_at, 1234);
}

#[test]
fn relay_accept_activity() {
    let j = relay_accept(&ctx(), "https://relay.example/actor", "https://relay.example/follow/1", 5);
    assert_eq!(j.activity.activity_type, Some(ActivityType::Accept));
    assert_eq!(j.activity.object.as_deref(), Some("https://relay.example/follow/1"));
    assert_eq!(j.activity.to, vec!["https://relay.example/actor".to_string()]);
}

#[test]
fn outbound_job_fields() {
    let j: OutboundJob = relay_follow(&ctx(), "https://relay.example/actor", 77);
    let id = j.activity.id.clone().unwrap();
    let m = j.into_job(serde_json::Value::Null);
    assert_eq!(m.job_type, JobType::Outbound);
    assert_eq!(m.activity, id);
    assert_eq!(m.actor, "https://upub.example");
    assert!(m.target.is_none());
    assert_eq!(m.payload, Some(serde_json::Value::Null));
    assert_eq!(m.published, 77);
    assert_eq!(m.not_before, 77);
    assert_eq!(m.attempt, 0);
}

#[test]
fn nuke_picks_relations_of_local_users() {
    let rels = vec![
        relation::Model { internal: 1, follower: 10, following: 20, accept: Some(100), activity: 101 },
        relation::Model { internal: 2, follower: 30, following: 10, accept: Some(200), activity: 201 },
        relation::Model { internal: 3, follower: 30, following: 10, accept: None, activity: 301 },
        relation::Model { internal: 4, follower: 30, following: 40, accept: Some(400), activity: 401 },
    ];
    assert_eq!(undo_queue(&rels, &vec![10]), vec![101, 200]);
    assert_eq!(undo_queue(&rels, &vec![]), Vec::<i64>::new());
    assert_eq!(undo_queue(&rels, &vec![10, 30]), vec![101, 201, 301, 401]);
}

#[test]
fn nuke_undo_targets() {
    assert!(matches!(undo_lookup(&activity_model(ActivityType::Follow, None)), UndoLookup::Skip));
    assert!(matches!(undo_lookup(&activity_model(ActivityType::Follow, Some("x"))), UndoLookup::Own));
    assert!(matches!(undo_lookup(&activity_model(ActivityType::Accept, Some("https://b.example/f/1"))), UndoLookup::Follow(ref o) if o == "https://b.example/f/1"));
}

#[test]
fn nuke_undo_activity() {
    let act = activity_model(ActivityType::Follow, Some("https://b.example/u/bob"));
    let j = nuke_undo(&ctx(), &act, "https://upub.example/activities/f", 9);
    assert_eq!(j.activity.activity_type, Some(ActivityType::Undo));
    assert_eq!(j.activity.actor.as_deref(), Some("https://upub.example/actors/alice"));
    assert_eq!(j.activity.object.as_deref(), Some("https://b.example/u/bob"));
    assert_eq!(j.activity.to, vec!["https://upub.example/activities/f".to_string()]);
    assert!(j.activity.cc.is_empty());
    assert_eq!(j.actor, "https://upub.example/actors/alice");
}

#[test]
fn nuke_delete_activity() {
    let j = nuke_delete(&ctx(), &object_model(Some("https://upub.example/actors/alice")), 3);
    assert_eq!(j.activity.activity_type, Some(ActivityType::Delete));
    assert_eq!(j.activity.actor.as_deref(), Some("https://upub.example/actors/alice"));
    assert_eq!(j.activity.object.as_deref(), Some("https://upub.example/objects/p"));
    assert_eq!(j.activity.to, vec![PUBLIC.to_string()]);
    assert_eq!(j.activity.cc, vec!["https://upub.example/actors/alice/followers".to_string()]);
    assert_eq!(j.activity.bcc, vec!["https://b.example/u/x".to_string()]);
    let j = nuke_delete(&ctx(), &object_model(None), 3);
    assert_eq!(j.actor, "upub.example");
}

#[test]
fn tally_counts_each_key() {
    assert_eq!(tally(&vec![3, 1, 3, 3, 2, 1]), vec![(3, 3), (1, 2), (2, 1)]);
    assert_eq!(tally(&vec![]), vec![]);
}

#[test]
fn tally_replies_counts_parents() {
    let v = vec![Some("a".to_string()), None, Some("b".to_string()), Some("a".to_string())];
    assert_eq!(tally_replies(&v), vec![("a".to_string(), 2), ("b".to_string(), 1)]);
}

#[test]
fn refresh_steps() {
    let c = ctx();
    assert_eq!(refresh_step(&c, "https://upub.example/actors/a", 0, None, false), RefreshStep::Skip);
    assert_eq!(refresh_step(&c, "https://b.example/u/x", 5, Some(5), false), RefreshStep::Stop);
    assert_eq!(refresh_step(&c, "https://b.example/u/x", 4, Some(5), true), RefreshStep::Skip);
    assert_eq!(refresh_step(&c, "https://b.example/u/x", 4, Some(5), false), RefreshStep::Refresh);
    assert_eq!(refresh_step(&c, "https://b.example/u/x", 400, None, false), RefreshStep::Refresh);
}

#[test]
fn refresh_failures() {
    assert_eq!(refresh_failure(&RequestError::Fetch(410, String::new())), RefreshFailure::Delete);
    assert_eq!(refresh_failure(&RequestError::Fetch(404, String::new())), RefreshFailure::Delete);
    assert_eq!(refresh_failure(&RequestError::Fetch(500, String::new())), RefreshFailure::MarkDown);
    assert_eq!(refresh_failure(&RequestError::Tombstone), RefreshFailure::MarkDown);
}

#[test]
fn cloaking_choices() {
    let base = "https://upub.example";
    assert!(needs_cloaking(base, &Some("https://cdn.example/a.png".to_string())));
    assert!(!needs_cloaking(base, &Some("https://upub.example/proxy/x".to_string())));
    assert!(!needs_cloaking(base, &None));
    assert_eq!(actor_cloaking(base, &None, &None), None);
    assert_eq!(actor_cloaking(base, &Some("https://cdn.example/i".to_string()), &None), Some((true, false)));
}

#[test]
fn resanitize_changes_only_unsafe_content() {
    assert!(resanitized("<p>hello</p>").is_none());
    let r = resanitized("<p>hi</p><script>alert(1)</script>");
    assert!(r.is_some());
    assert!(!r.unwrap().contains("<script>"));
}

#[test]
fn fetch_signers() {
    let c = ctx();
    assert_eq!(fetch_signer(&c, None, None), ("https://upub.example".to_string(), "server-key".to_string()));
    assert_eq!(fetch_signer(&c, Some("https://upub.example/actors/a"), None), ("https://upub.example".to_string(), "server-key".to_string()));
    assert_eq!(fetch_signer(&c, Some("https://upub.example/actors/a"), Some("k".to_string())), ("https://upub.example/actors/a".to_string(), "k".to_string()));
}

#[test]
fn save_choices() {
    assert_eq!(save_as(Err(())), SaveAs::Untyped);
    assert_eq!(save_as(Ok(None)), SaveAs::Link);
    assert_eq!(save_as(Ok(Some(ObjectType::Actor(ActorType::Person)))), SaveAs::Actor);
    assert_eq!(save_as(Ok(Some(ObjectType::Activity(ActivityType::Create)))), SaveAs::Activity);
    assert_eq!(save_as(Ok(Some(ObjectType::Note))), SaveAs::Note);
    assert_eq!(save_as(Ok(Some(ObjectType::Article))), SaveAs::Unsupported);
}

#[test]
fn fake_test_user() {
    let u = fake_user_with_keys("https://upub.example", 3, "pub".to_string(), "priv".to_string(), 10);
    assert_eq!(u.id, "https://upub.example/actors/test");
    assert_eq!(u.domain, "upub.example");
    assert_eq!(u.preferred_username, "test");
    assert_eq!(u.name.as_deref(), Some("μpub"));
    assert_eq!(u.statuses_count, 3);
    assert_eq!(u.actor_type, ActorType::Person);
    assert_eq!(u.private_key.as_deref(), Some("priv"));
    let fresh = fake_user("https://upub.example", 3, 10).unwrap();
    assert!(fresh.public_key.starts_with("-----BEGIN PUBLIC KEY-----"));
    assert!(fake_settings(&u.id).show_followers);
    let login = fake_credential(&u.id);
    assert_eq!(login.login, "mail@example.net");
    assert_eq!(login.password, "3f60d8ef18e0a446cab83d597b9ebe52d2ad0e45b720cce8466dfd29ab22c7e0");
    assert_eq!(fake_credential("x").password, login.password);
    assert!(login.active);
}

#[test]
fn fake_test_post() {
    let (o, a) = fake_post("https://upub.example", 2, "oid", "aid", "ctx", 1_000_000);
    assert_eq!(o.internal, 44);
    assert_eq!(o.id, "https://upub.example/objects/oid");
    assert_eq!(o.content.unwrap(), format!("[2]{}", TEST_POST_TEXT));
    assert_eq!(o.published, 1_000_000 - 120_000);
    assert_eq!(o.context.as_deref(), Some("ctx"));
    assert_eq!(a.id, "https://upub.example/activities/aid");
    assert_eq!(a.activity_type, ActivityType::Create);
    assert_eq!(a.object.as_deref(), Some("https://upub.example/objects/oid"));
    assert_eq!(a.to.0, vec![PUBLIC.to_string()]);
}

#[test]
fn relay_steps() {
    let c = ctx();
    assert!(matches!(relay_step(&c, RelayCommand::Status, None, 1), RelayStep::ListRelays));
    match relay_step(&c, RelayCommand::Follow { actor: "https://r.example/actor".to_string() }, None, 1) {
        RelayStep::Send(j) => assert_eq!(j.activity.activity_type, Some(ActivityType::Follow)),
        _ => panic!("expected a follow to send"),
    }
    assert!(matches!(relay_step(&c, RelayCommand::Accept { actor: "https://r.example/actor".to_string() }, None, 1), RelayStep::LookUpFollow(ref a) if a == "https://r.example/actor"));
    match relay_step(&c, RelayCommand::Accept { actor: "https://r.example/actor".to_string() }, Some("https://r.example/f".to_string()), 1) {
        RelayStep::Send(j) => {
            assert_eq!(j.activity.activity_type, Some(ActivityType::Accept));
            assert_eq!(j.activity.object.as_deref(), Some("https://r.example/f"));
        },
        _ => panic!("expected an accept to send"),
    }
    assert!(matches!(relay_step(&c, RelayCommand::Unfollow { actor: "https://r.example/actor".to_string() }, None, 1), RelayStep::LookUpOwnFollow(ref a) if a == "https://r.example/actor"));
    match relay_step(&c, RelayCommand::Unfollow { actor: "https://r.example/actor".to_string() }, Some("https://upub.example/activities/f".to_string()), 7) {
        RelayStep::Send(j) => {
            assert_eq!(j.activity.activity_type, Some(ActivityType::Undo));
            assert_eq!(j.activity.object.as_deref(), Some("https://upub.example/activities/f"));
            assert_eq!(j.activity.to, vec!["https://r.example/actor".to_string()]);
            assert_eq!(j.activity.cc, vec![PUBLIC.to_string()]);
            assert_eq!(j.queued_at, 7);
        },
        _ => panic!("expected an undo to send"),
    }
    assert!(matches!(relay_step(&c, RelayCommand::Remove { actor: "https://r.example/actor".to_string() }, None, 1), RelayStep::RemoveRelation(ref a) if a == "https://r.example/actor"));
}

#[test]
fn fake_addressing_rows_are_public() {
    let a = fake_addressing(3, 1000);
    assert_eq!(a.activity, Some(45));
    assert_eq!(a.object, Some(45));
    assert!(a.actor.is_none() && a.instance.is_none());
    assert_eq!(a.published, 1000);
}
