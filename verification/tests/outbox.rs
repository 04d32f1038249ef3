use upub::ext::JsonVec;
use upub::config::Config;
use upub::outbox::{OutboxError, check_answer, check_owner, update_kind, object_frontend_url, rendered_content, mentions_in, link_mention, mentions_from_captures, MENTION_PATTERN};
use upub::process::UpdateTarget;
use upub::types::{ActivityType, ActorType, ObjectType};

#[test]
fn answers_only_own_follow_requests() {
    assert!(check_answer("me", ActivityType::Follow, Some("me")).is_ok());
    assert_eq!(check_answer("me", ActivityType::Follow, Some("you")), Err(OutboxError::Forbidden));
    assert_eq!(check_answer("me", ActivityType::Follow, None), Err(OutboxError::BadRequest));
    assert_eq!(check_answer("me", ActivityType::Like, Some("me")), Err(OutboxError::BadRequest));
}

#[test]
fn ownership() {
    assert!(check_owner("me", Some("me")).is_ok());
    assert_eq!(check_owner("me", Some("you")), Err(OutboxError::Forbidden));
    assert_eq!(check_owner("me", None), Err(OutboxError::Forbidden));
}

#[test]
fn update_kinds() {
    assert_eq!(update_kind(Some(ObjectType::Actor(ActorType::Person))), Ok(UpdateTarget::Actor));
    assert_eq!(update_kind(Some(ObjectType::Note)), Ok(UpdateTarget::Object));
    assert_eq!(update_kind(Some(ObjectType::Article)), Err(OutboxError::NotImplemented));
    assert_eq!(update_kind(None), Err(OutboxError::NotImplemented));
}

#[test]
fn frontend_links_of_objects() {
    let mut cfg = Config::default();
    assert!(object_frontend_url(&cfg, "abc").is_none());
    cfg.instance.frontend = Some("https://f.example".to_string());
    assert_eq!(object_frontend_url(&cfg, "abc").unwrap(), "https://f.example/objects/abc");
}

#[test]
fn markdown_is_rendered_safely() {
    let html = rendered_content("**bold**");
    assert!(html.contains("<strong>bold</strong>"));
    let html = rendered_content("a [link](https://a.example)");
    assert!(html.contains("https://a.example"));
}

#[test]
fn mentions_are_found_and_linked() {
    let m = mentions_in("hello @alice@a.example");
    assert_eq!(m.len(), 1);
    assert_eq!(m[0].full, "@alice@a.example");
    assert_eq!(m[0].user, "alice");
    assert_eq!(m[0].domain, "a.example");
    assert_eq!(
        link_mention("hi @alice@a.example and @alice@a.example", "@alice@a.example", "https://a.example/u/alice", "alice"),
        "hi <a href=\"https://a.example/u/alice\" class=\"u-url mention\">@alice</a> and @alice@a.example"
    );
}

fn note_doc() -> upub::normalize::ObjectDocument {
    upub::normalize::ObjectDocument {
        id: None, object_type: Some(ObjectType::Note), attributed_to: None, name: None, summary: None,
        content: Some("raw".to_string()), context: None, in_reply_to: None, published: None, updated: None,
        url: None, replies_total: None, likes_total: None, shares_total: None,
        to: vec!["https://www.w3.org/ns/activitystreams#Public".to_string()], bto: vec![],
        cc: vec!["https://a.example/actors/me/followers".to_string()], bcc: vec![], sensitive: None,
    }
}

#[test]
fn posting_a_note() {
    let note = note_doc();
    let create = upub::outbox::create_for_note(&note);
    assert_eq!(create.activity_type, Some(ActivityType::Create));
    assert_eq!(create.to, note.to);
    assert_eq!(create.cc, note.cc);
    assert!(create.id.is_none() && create.object.is_none());
    let local = upub::outbox::local_note(note, "https://a.example/objects/1".to_string(), "https://a.example/actors/me".to_string(), 9, Some("<p>x</p>".to_string()), None);
    assert_eq!(local.id.as_deref(), Some("https://a.example/objects/1"));
    assert_eq!(local.attributed_to.as_deref(), Some("https://a.example/actors/me"));
    assert_eq!(local.published, Some(9));
    assert_eq!(local.content.as_deref(), Some("<p>x</p>"));
    let act = upub::outbox::local_activity(create, "https://a.example/activities/1".to_string(), "https://a.example/actors/me".to_string(), 9);
    assert_eq!(act.id.as_deref(), Some("https://a.example/activities/1"));
    assert_eq!(act.actor.as_deref(), Some("https://a.example/actors/me"));
    assert_eq!(act.published, Some(9));
}

#[test]
fn linking_found_mentions() {
    let rendered = "hi @a@x.example and @b@y.example";
    let ms = mentions_in("@a@x.example");
    let ms2 = mentions_in("@b@y.example");
    let all = vec![ms[0].clone(), ms2[0].clone()];
    let out = upub::outbox::link_mentions(rendered, &all, &vec![None, Some("https://y.example/u/b".to_string())]);
    assert_eq!(out, "hi @a@x.example and <a href=\"https://y.example/u/b\" class=\"u-url mention\">@b</a>");
}

#[test]
fn updates_keep_what_is_not_given() {
    let actor = upub::model::actor::Model {
        internal: 1, domain: "a.example".to_string(), id: "https://a.example/actors/me".to_string(),
        preferred_username: "me".to_string(), actor_type: ActorType::Person, name: Some("Old".to_string()),
        summary: Some("old summary".to_string()), icon: None, image: None, inbox: None, outbox: None,
        shared_inbox: None, followers: None, following: None, published: 1, updated: 1,
        following_count: 0, followers_count: 0, statuses_count: 0, public_key: "k".to_string(), private_key: None,
    };
    let a = upub::outbox::actor_update(actor, Some("New".to_string()), None, None, Some("https://i.example/i.png".to_string()), 5);
    assert_eq!(a.name.as_deref(), Some("New"));
    assert_eq!(a.summary.as_deref(), Some("old summary"));
    assert_eq!(a.icon.as_deref(), Some("https://i.example/i.png"));
    assert_eq!(a.updated, 5);
    assert_eq!(a.published, 1);
    let o = upub::model::object::Model {
        internal: 1, id: "o".to_string(), object_type: ObjectType::Note, attributed_to: None, name: None,
        summary: None, content: Some("old".to_string()), image: None, quote: None, sensitive: false,
        in_reply_to: None, url: None, likes: 0, announces: 0, replies: 0, context: None,
        to: JsonVec(vec![]), bto: JsonVec(vec![]), cc: JsonVec(vec![]), bcc: JsonVec(vec![]),
        published: 1, updated: 1, audience: None,
    };
    let o = upub::outbox::object_update(o, None, Some("cw".to_string()), None, 6);
    assert_eq!(o.content.as_deref(), Some("old"));
    assert_eq!(o.summary.as_deref(), Some("cw"));
    assert_eq!(o.updated, 6);
}

#[test]
fn mentions_come_from_complete_matches() {
    let s = |x: &str| Some(x.to_string());
    let found = Some(vec![
        vec![s("@a@x.example"), s("a"), s("x.example")],
        vec![s("@b@y.example"), None, s("y.example")],
        vec![s("@c@z.example"), s("c"), s("z.example"), s("extra")],
        vec![s("@d@w.example"), s("d"), s("w.example")],
    ]);
    let m = mentions_from_captures(&found);
    assert_eq!(m.len(), 2);
    assert_eq!(m[0].user, "a");
    assert_eq!(m[1].full, "@d@w.example");
    assert_eq!(m[1].domain, "w.example");
    assert!(mentions_from_captures(&None).is_empty());
    assert_eq!(MENTION_PATTERN, "@(.+)@([^ ]+)");
    assert!(mentions_in("no mention here").is_empty());
}
