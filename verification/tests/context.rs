use upub::config::Config;
use upub::context::{Context, Relays, Internal};
use upub::cli::clean_domain;

fn ctx() -> Context {
    Context::new(
        "https://upub.example/".to_string(),
        Config::default(),
        "private".to_string(),
        Relays::new(vec!["https://relay.example/actor".to_string()], vec![]),
    )
}

#[test]
fn context_parses_configured_domain() {
    let c = ctx();
    assert_eq!(c.protocol(), "https://");
    assert_eq!(c.domain(), "upub.example");
    assert_eq!(c.base(), "https://upub.example");
    assert_eq!(c.pkey(), "private");
}

#[test]
fn context_keeps_plain_http() {
    let c = Context::new("http://localhost:3000".to_string(), Config::default(), String::new(), Relays::new(vec![], vec![]));
    assert_eq!(c.protocol(), "http://");
    assert_eq!(c.domain(), "localhost:3000");
    assert_eq!(c.base(), "http://localhost:3000");
}

#[test]
fn context_bare_domain_gets_https() {
    let c = Context::new("example.org".to_string(), Config::default(), String::new(), Relays::new(vec![], vec![]));
    assert_eq!(c.protocol(), "https://");
    assert_eq!(c.base(), "https://example.org");
}

#[test]
fn local_ids_are_built_under_base() {
    let c = ctx();
    assert_eq!(c.uid("alice"), "https://upub.example/actors/alice");
    assert_eq!(c.oid("123"), "https://upub.example/objects/123");
    assert_eq!(c.aid("abc"), "https://upub.example/activities/abc");
    assert_eq!(c.uid("https://other.example/u/bob"), "https://other.example/u/bob");
}

#[test]
fn bare_id_of_local_and_remote() {
    let c = ctx();
    assert_eq!(c.id("https://upub.example/actors/alice"), "alice");
    let compacted = c.id("https://other.example/u/bob");
    assert!(compacted.starts_with('+'));
    assert_eq!(c.uid(&compacted), "https://other.example/u/bob");
}

#[test]
fn local_and_relay_checks() {
    let c = ctx();
    assert!(c.is_local("https://upub.example/actors/alice"));
    assert!(!c.is_local("https://other.example/actors/alice"));
    assert!(c.is_relay("https://relay.example/actor"));
    assert!(!c.is_relay("https://relay.example/other"));
}

#[test]
fn server_of_ids() {
    assert_eq!(Context::server("https://a.example/actors/x"), "a.example");
    assert_eq!(Context::server("http://b.example"), "b.example");
    assert_eq!(Context::server("c.example/x/y"), "c.example");
}

#[test]
fn new_ids_are_fresh_uuids() {
    let a = Context::new_id();
    let b = Context::new_id();
    assert_eq!(a.len(), 36);
    assert_ne!(a, b);
}

#[test]
fn first_found_prefers_objects() {
    assert!(matches!(Internal::first_found(Some(1), Some(2), Some(3)), Some(Internal::Object(1))));
    assert!(matches!(Internal::first_found(None, Some(2), Some(3)), Some(Internal::Activity(2))));
    assert!(matches!(Internal::first_found(None, None, Some(3)), Some(Internal::Actor(3))));
    assert!(Internal::first_found(None, None, None).is_none());
}

#[test]
fn clean_domain_strips_scheme_and_slashes() {
    assert_eq!(clean_domain("https://upub.example/"), "upub.example");
    assert_eq!(clean_domain("http://localhost:3000"), "localhost:3000");
    assert_eq!(clean_domain("example.org"), "example.org");
    assert_eq!(clean_domain("https://a/b/c"), "abc");
}

#[test]
fn frontend_url_joins_when_configured() {
    let mut cfg = Config::default();
    assert!(cfg.frontend_url("/web").is_none());
    cfg.instance.frontend = Some("https://front.example".to_string());
    assert_eq!(cfg.frontend_url("/web/objects/1").unwrap(), "https://front.example/web/objects/1");
}

#[test]
fn default_config_values() {
    let cfg = Config::default();
    assert_eq!(cfg.instance.name, "μpub");
    assert_eq!(cfg.instance.domain, "upub.social");
    assert_eq!(cfg.datasource.connection_string, "sqlite://./upub.db");
    assert_eq!(cfg.datasource.max_connections, 32);
    assert_eq!(cfg.security.max_id_redirects, 2);
    assert_eq!(cfg.security.thread_crawl_depth, 20);
    assert_eq!(cfg.security.proxy_secret, "changeme");
    assert_eq!(cfg.files.path, "files/");
}

#[test]
fn local_ids_round_trip() {
    for domain in ["https://upub.example", "http://localhost:3000"] {
        let c = Context::new(domain.to_string(), Config::default(), String::new(), Relays::new(vec![], vec![]));
        for x in ["alice", "01HZ", "bob.smith"] {
            let full = c.uid(x);
            assert!(c.is_local(&full));
            assert_eq!(c.id(&full), x);
            assert_eq!(c.id(&c.oid(x)), x);
            assert_eq!(c.id(&c.aid(x)), x);
        }
    }
}

#[test]
fn cleaning_a_domain_twice_changes_nothing() {
    for d in ["https://upub.example/", "http://a/b//c", "https://http://x/", "plain"] {
        let once = clean_domain(d);
        assert!(!once.contains('/'));
        assert_eq!(clean_domain(&once), once);
    }
}

#[test]
fn remote_ids_come_out_compact() {
    let c = ctx();
    assert!(c.id("https://elsewhere.example/objects/9").starts_with('+'));
    assert_eq!(c.id(&c.oid("abc")), "abc");
    assert_eq!(c.id(&c.uid("abc")), "abc");
    assert_eq!(c.id(&c.aid("abc")), "abc");
}
