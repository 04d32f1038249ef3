use upub::addressing::{
    is_deliverable, is_addressable, delivery_targets, addressing_targets, followers_owner, followers_or_owner,
    expand_addressing, list_contains, split_addressing,
};
use upub::config::Config;
use upub::context::{Context, Relays};
use upub::types::PUBLIC;

fn ctx() -> Context {
    Context::new("https://upub.example".to_string(), Config::default(), String::new(), Relays::new(vec![], vec![]))
}

fn s(v: &[&str]) -> Vec<String> {
    v.iter().map(|x| x.to_string()).collect()
}

#[test]
fn deliveries_go_to_other_servers() {
    let c = ctx();
    assert!(is_deliverable(&c, "https://b.example/u/x"));
    assert!(!is_deliverable(&c, "https://upub.example/actors/a"));
    assert!(!is_deliverable(&c, PUBLIC));
    assert!(!is_deliverable(&c, ""));
    let to = s(&["https://b.example/u/x", PUBLIC, "https://upub.example/actors/a", "https://c.example/inbox"]);
    assert_eq!(delivery_targets(&c, &to), s(&["https://b.example/u/x", "https://c.example/inbox"]));
}

#[test]
fn deliveries_skip_rejected_instances() {
    let mut cfg = Config::default();
    cfg.reject.delivery = vec!["c.example".to_string()];
    let c = Context::new("https://upub.example".to_string(), cfg, String::new(), Relays::new(vec![], vec![]));
    assert!(!is_deliverable(&c, "https://c.example/inbox"));
    assert!(is_deliverable(&c, "https://b.example/u/x"));
    let to = s(&["https://b.example/u/x", "https://c.example/inbox", "https://c.example/u/y", "https://d.example/u/z"]);
    assert_eq!(delivery_targets(&c, &to), s(&["https://b.example/u/x", "https://d.example/u/z"]));
}

#[test]
fn addressing_entries() {
    let c = ctx();
    assert!(!is_addressable(&c, true, "https://upub.example/actors/a/followers"));
    assert!(is_addressable(&c, true, "https://b.example/u/x"));
    assert!(!is_addressable(&c, false, "https://b.example/u/x"));
    assert!(is_addressable(&c, false, PUBLIC));
    assert!(is_addressable(&c, false, "https://upub.example/actors/a"));
    let to = s(&[PUBLIC, "https://b.example/u/x", "https://upub.example/actors/a", "https://upub.example/actors/a/followers"]);
    assert_eq!(addressing_targets(&c, false, &to), s(&[PUBLIC, "https://upub.example/actors/a"]));
}

#[test]
fn followers_collections() {
    assert_eq!(followers_owner("https://a.example/u/x/followers").unwrap(), "https://a.example/u/x");
    assert!(followers_owner("https://a.example/u/x").is_none());
    assert_eq!(followers_or_owner("o".to_string(), vec![]), s(&["o"]));
    assert_eq!(followers_or_owner("o".to_string(), s(&["f1", "f2"])), s(&["f1", "f2"]));
}

#[test]
fn addressing_expansion() {
    let targets = s(&["a", "x/followers", "b"]);
    let followers = vec![None, Some(s(&["f1", "f2"])), None];
    assert_eq!(expand_addressing(s(&["g"]), &targets, &followers), s(&["g", "a", "f1", "f2", "b"]));
}

#[test]
fn membership() {
    assert!(list_contains(&s(&["a", "b"]), "b"));
    assert!(!list_contains(&s(&["a", "b"]), "c"));
}

#[test]
fn addressing_split_partitions() {
    let (both, act_only, obj_only) = split_addressing(&s(&["a", "b", "a", "c"]), &s(&["b", "d", "c"]));
    let mut both = both;
    both.sort();
    assert_eq!(both, s(&["b", "c"]));
    assert_eq!(act_only, s(&["a"]));
    assert_eq!(obj_only, s(&["d"]));
}
