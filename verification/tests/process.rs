use upub::config::Config;
use upub::context::{Context, Internal, Relays};
use upub::process::{
    Handler, ProcessorError, UndoTarget, UpdateTarget, AnnounceStart,
    handler_for, check_create, notified, reaction_plan, check_follow_answer, update_target, needs_cloak,
    undo_target, undo_follow_uncounts, stored_unless_secret, announce_start, share_plan, ensure_recipient, undo_allowed,
};
use upub::types::{ActivityType, ActorType, DocumentType, ObjectType};

fn ctx() -> Context {
    Context::new("https://upub.example".to_string(), Config::default(), String::new(), Relays::new(vec![], vec![]))
}

#[test]
fn handlers_by_type() {
    assert!(matches!(handler_for(ActivityType::Like, "a"), Ok(Handler::Like)));
    assert!(matches!(handler_for(ActivityType::Create, "a"), Ok(Handler::Create)));
    assert!(matches!(handler_for(ActivityType::Undo, "a"), Ok(Handler::Undo)));
    assert!(matches!(handler_for(ActivityType::Listen, "act-1"), Err(ProcessorError::Unprocessable(ref id)) if id == "act-1"));
}

#[test]
fn create_checks() {
    assert!(matches!(check_create("a", false, false, None, None), Err(ProcessorError::Unprocessable(_))));
    assert!(matches!(check_create("a", true, true, None, None), Err(ProcessorError::AlreadyProcessed)));
    assert!(matches!(check_create("a", true, false, None, Some("x")), Err(ProcessorError::Malformed(ref f)) if f == "id"));
    assert!(matches!(check_create("a", true, false, Some("y"), Some("x")), Err(ProcessorError::Unauthorized)));
    assert!(check_create("a", true, false, Some("x"), Some("x")).is_ok());
}

#[test]
fn local_mentions_are_notified() {
    let tags = vec!["https://upub.example/actors/a".to_string(), "https://b.example/u/b".to_string()];
    assert_eq!(notified(&ctx(), &tags), vec!["https://upub.example/actors/a".to_string()]);
}

#[test]
fn reaction_plans() {
    let c = ctx();
    assert!(matches!(reaction_plan(&c, true, false, None), Err(ProcessorError::AlreadyProcessed)));
    let p = reaction_plan(&c, false, false, Some("https://upub.example/actors/a")).unwrap();
    assert!(p.store_activity);
    assert_eq!(p.notify.as_deref(), Some("https://upub.example/actors/a"));
    let p = reaction_plan(&c, false, true, Some("https://upub.example/actors/a")).unwrap();
    assert!(!p.store_activity);
    assert!(p.notify.is_none());
    let p = reaction_plan(&c, false, false, Some("https://b.example/u/b")).unwrap();
    assert!(p.notify.is_none());
}

#[test]
fn follow_answers_must_come_from_the_followed() {
    assert!(check_follow_answer(Some("x"), "x").is_ok());
    assert!(matches!(check_follow_answer(Some("x"), "y"), Err(ProcessorError::Unauthorized)));
    assert!(matches!(check_follow_answer(None, "y"), Err(ProcessorError::Unauthorized)));
}

#[test]
fn update_targets() {
    assert_eq!(update_target(ObjectType::Actor(ActorType::Person), "u", "u", "a").unwrap(), UpdateTarget::Actor);
    assert!(matches!(update_target(ObjectType::Actor(ActorType::Person), "u", "v", "a"), Err(ProcessorError::Unauthorized)));
    assert_eq!(update_target(ObjectType::Note, "o", "u", "a").unwrap(), UpdateTarget::Object);
    assert_eq!(update_target(ObjectType::Document(DocumentType::Page), "o", "u", "a").unwrap(), UpdateTarget::Object);
    assert!(matches!(update_target(ObjectType::Article, "o", "u", "a"), Err(ProcessorError::Unprocessable(_))));
}

#[test]
fn undo_targets() {
    assert_eq!(undo_target("u", "u", ActivityType::Like, "a").unwrap(), UndoTarget::Like);
    assert_eq!(undo_target("u", "u", ActivityType::Follow, "a").unwrap(), UndoTarget::Follow);
    assert!(matches!(undo_target("u", "v", ActivityType::Like, "a"), Err(ProcessorError::Unauthorized)));
    assert!(matches!(undo_target("u", "u", ActivityType::Create, "a"), Err(ProcessorError::Unprocessable(_))));
    assert!(undo_follow_uncounts(Some(1)));
    assert!(!undo_follow_uncounts(None));
}

#[test]
fn small_process_decisions() {
    let c = ctx();
    assert!(needs_cloak(&c, "https://cdn.example/x.png"));
    assert!(!needs_cloak(&c, "https://upub.example/x.png"));
    assert!(stored_unless_secret(&vec!["x".to_string()]));
    assert!(!stored_unless_secret(&vec![]));
    assert!(undo_allowed("b.example", "https://b.example/u/x"));
    assert!(!undo_allowed("c.example", "https://b.example/u/x"));
}

#[test]
fn announce_starts() {
    assert_eq!(announce_start(Some(Internal::Activity(1)), "a").unwrap(), AnnounceStart::Skip);
    assert_eq!(announce_start(Some(Internal::Object(2)), "a").unwrap(), AnnounceStart::Stored(2));
    assert_eq!(announce_start(None, "a").unwrap(), AnnounceStart::Fetch);
    assert!(matches!(announce_start(Some(Internal::Actor(3)), "a"), Err(ProcessorError::Unprocessable(_))));
}

#[test]
fn share_plans() {
    let c = ctx();
    let p = share_plan(&c, ActorType::Person, "https://b.example/u/x", false);
    assert!(p.record_share && p.count_share && p.store_activity);
    let p = share_plan(&c, ActorType::Person, "https://b.example/u/x", true);
    assert!(!p.count_share);
    let p = share_plan(&c, ActorType::Application, "https://b.example/relay", false);
    assert!(!p.record_share && !p.count_share && !p.store_activity);
    let p = share_plan(&c, ActorType::Application, "https://upub.example", false);
    assert!(p.store_activity);
}

#[test]
fn recipients_get_the_author() {
    assert_eq!(ensure_recipient(vec!["a".to_string()], "b"), vec!["a".to_string(), "b".to_string()]);
    assert_eq!(ensure_recipient(vec!["a".to_string()], "a"), vec!["a".to_string()]);
}
