use upub::model::instance::NodeInfo;
use upub::fetch::{WebfingerLink, webfinger_result, Pull, PullResult, PullStep, RequestError, pull_step, crawl_deeper, webfinger_subject_of, webfinger_url};
use upub::types::{ObjectType, ActivityType, ActorType, CollectionType};

#[test]
fn pull_inner_gives_document() {
    assert_eq!(Pull::Actor(1).inner(), 1);
    assert_eq!(Pull::Activity(2).inner(), 2);
    assert_eq!(Pull::Object(3).inner(), 3);
    assert_eq!(PullResult::Object(4).inner(), 4);
}

#[test]
fn pull_kind_checks() {
    assert_eq!(Pull::Actor(5).actor(None).unwrap(), 5);
    match Pull::Object(5).actor(None) {
        Err(RequestError::Mismatch(e, f)) => {
            assert_eq!(e, ObjectType::Actor(ActorType::Person));
            assert_eq!(f, ObjectType::Object);
        },
        _ => panic!("expected a mismatch"),
    }
    match Pull::Actor(5).activity(Some(ObjectType::Actor(ActorType::Service))) {
        Err(RequestError::Mismatch(e, f)) => {
            assert_eq!(e, ObjectType::Activity(ActivityType::Activity));
            assert_eq!(f, ObjectType::Actor(ActorType::Service));
        },
        _ => panic!("expected a mismatch"),
    }
    assert_eq!(PullResult::Activity(6).activity(None).unwrap(), 6);
    assert!(matches!(PullResult::Activity(6).object(None), Err(RequestError::Mismatch(ObjectType::Object, ObjectType::Activity(ActivityType::Activity)))));
}

#[test]
fn pull_step_outcomes() {
    let id = "https://a.example/o/1";
    assert!(matches!(pull_step(id, None, Some(ObjectType::Note), 0, 2, ()), Err(RequestError::Malformed(ref f)) if f == "id"));
    assert!(matches!(pull_step(id, Some(id.to_string()), None, 0, 2, ()), Err(RequestError::Malformed(ref f)) if f == "type"));
    assert!(matches!(pull_step(id, Some("https://a.example/o/2".to_string()), Some(ObjectType::Note), 0, 2, ()), Ok(PullStep::Redirect(ref to, 1)) if to == "https://a.example/o/2"));
    assert!(matches!(pull_step(id, Some("https://a.example/o/2".to_string()), Some(ObjectType::Note), 1, 2, ()), Ok(PullStep::Redirect(_, 2))));
    assert!(matches!(pull_step(id, Some("https://a.example/o/2".to_string()), Some(ObjectType::Note), 2, 2, ()), Err(RequestError::TooManyRedirects)));
    assert!(matches!(pull_step(id, Some(id.to_string()), Some(ObjectType::Tombstone), 0, 2, ()), Err(RequestError::Tombstone)));
    assert!(matches!(pull_step(id, Some(id.to_string()), Some(ObjectType::Collection(CollectionType::Collection)), 0, 2, ()), Err(RequestError::Mismatch(ObjectType::Object, _))));
    assert!(matches!(pull_step(id, Some(id.to_string()), Some(ObjectType::Note), 0, 2, 9), Ok(PullStep::Done(Pull::Object(9)))));
    assert!(matches!(pull_step(id, Some(id.to_string()), Some(ObjectType::Activity(ActivityType::Like)), 0, 2, 9), Ok(PullStep::Done(Pull::Activity(9)))));
    assert!(matches!(pull_step(id, Some(id.to_string()), Some(ObjectType::Actor(ActorType::Person)), 0, 2, 9), Ok(PullStep::Done(Pull::Actor(9)))));
}

#[test]
fn thread_crawl_depth_limit() {
    assert!(crawl_deeper(20, 20));
    assert!(!crawl_deeper(21, 20));
}

#[test]
fn webfinger_names() {
    assert_eq!(webfinger_subject_of("alice", "a.example"), "acct:alice@a.example");
    assert_eq!(webfinger_url("alice", "a.example"), "https://a.example/.well-known/webfinger?resource=acct:alice@a.example");
}

#[test]
fn webfinger_answers() {
    let links = vec![
        WebfingerLink { rel: "profile".to_string(), href: Some("https://a.example/@alice".to_string()) },
        WebfingerLink { rel: "self".to_string(), href: None },
        WebfingerLink { rel: "self".to_string(), href: Some("https://a.example/users/alice".to_string()) },
    ];
    let aliases = vec!["https://a.example/alias".to_string()];
    assert_eq!(webfinger_result("acct:alice@a.example", "acct:alice@a.example", &links, &aliases).unwrap(), "https://a.example/users/alice");
    assert_eq!(webfinger_result("acct:alice@a.example", "acct:alice@a.example", &vec![], &aliases).unwrap(), "https://a.example/alias");
    assert!(webfinger_result("acct:alice@a.example", "acct:alice@a.example", &vec![], &vec![]).is_none());
    assert!(webfinger_result("acct:alice@a.example", "acct:bob@a.example", &links, &aliases).is_none());
}

#[test]
fn instances_from_what_they_say() {
    let i = upub::fetch::fetched_instance("b.example", Some("B".to_string()), None, Some(NodeInfo { software: "mastodon".to_string(), version: Some("4.2".to_string()), users: Some(10), local_posts: None }), 3);
    assert_eq!(i.domain, "b.example");
    assert_eq!(i.name.as_deref(), Some("B"));
    assert_eq!(i.software.as_deref(), Some("mastodon"));
    assert_eq!(i.users, Some(10));
    assert!(i.posts.is_none() && i.down_since.is_none());
    let j = upub::fetch::fetched_instance("c.example", None, None, None, 3);
    assert!(j.software.is_none() && j.version.is_none());
}

#[test]
fn endless_redirects_stop_at_the_limit() {
    let max = 3;
    let mut requested = "https://a.example/o/0".to_string();
    let mut depth = 0;
    let mut fetches = 0;
    let outcome = loop {
        fetches += 1;
        let served = format!("https://a.example/o/{fetches}");
        match pull_step(&requested, Some(served), Some(ObjectType::Note), depth, max, ()) {
            Ok(PullStep::Redirect(to, d)) => {
                assert_eq!(d, depth + 1);
                requested = to;
                depth = d;
            },
            other => break other,
        }
        assert!(fetches <= 10);
    };
    assert!(matches!(outcome, Err(RequestError::TooManyRedirects)));
    assert_eq!(depth, 3);
    assert_eq!(fetches, 4);
}
