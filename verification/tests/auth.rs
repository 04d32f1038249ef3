use upub::auth::{Identity, AuthIdentity, FilterClause, SessionLookup, SignatureCheck, AuthRejection, bearer_token, key_owner, resolve_identity};

#[test]
fn anonymous_sees_only_public() {
    let f = Identity::Anonymous.filter_condition();
    assert_eq!(f.len(), 1);
    assert!(matches!(f[0], FilterClause::AddressedToPublic));
}

#[test]
fn remote_sees_public_and_its_instance() {
    let f = Identity::Remote { domain: "other.example".to_string(), internal: 7 }.filter_condition();
    assert_eq!(f.len(), 2);
    assert!(matches!(f[0], FilterClause::AddressedToPublic));
    assert!(matches!(f[1], FilterClause::AddressedToInstance(7)));
}

#[test]
fn local_sees_public_addressed_and_own() {
    let f = Identity::Local { id: "https://u.example/actors/a".to_string(), internal: 3 }.filter_condition();
    assert_eq!(f.len(), 4);
    assert!(matches!(f[1], FilterClause::AddressedToActor(3)));
    assert!(matches!(&f[2], FilterClause::ActivityBy(a) if a == "https://u.example/actors/a"));
    assert!(matches!(&f[3], FilterClause::ObjectBy(o) if o == "https://u.example/actors/a"));
}

#[test]
fn identity_predicates() {
    let local = Identity::Local { id: "me".to_string(), internal: 9 };
    assert!(local.is("me"));
    assert!(!local.is("you"));
    assert_eq!(local.my_id(), Some(9));
    assert!(local.is_local() && !local.is_anon() && !local.is_remote());
    let remote = Identity::Remote { domain: "x".to_string(), internal: 1 };
    assert!(!remote.is("x"));
    assert_eq!(remote.my_id(), None);
    assert!(remote.is_remote());
    assert!(Identity::Anonymous.is_anon());
    assert_eq!(Identity::Anonymous.my_id(), None);
}

#[test]
fn bearer_tokens() {
    assert_eq!(bearer_token("Bearer abc123").unwrap(), "abc123");
    assert!(bearer_token("Basic abc").is_none());
    assert!(bearer_token("bearer abc").is_none());
}

#[test]
fn key_owner_drops_fragment() {
    assert_eq!(key_owner("https://a.example/actors/x#main-key"), "https://a.example/actors/x");
    assert_eq!(key_owner("https://a.example/actors/x"), "https://a.example/actors/x");
}

#[test]
fn missing_session_is_unauthorized() {
    let r = resolve_identity(Some(SessionLookup::NotFound), None);
    assert!(matches!(r, Err(AuthRejection::Unauthorized)));
    let r = resolve_identity(Some(SessionLookup::Failed), None);
    assert!(matches!(r, Err(AuthRejection::InternalError)));
}

#[test]
fn session_gives_local_identity() {
    let r = resolve_identity(Some(SessionLookup::Found { actor: "me".to_string(), internal: 4 }), None);
    assert!(matches!(r, Ok(AuthIdentity(Identity::Local { ref id, internal: 4 })) if id == "me"));
}

#[test]
fn verified_signature_gives_remote_identity() {
    let r = resolve_identity(None, Some(SignatureCheck::Verified { domain: "o.example".to_string(), internal: 2 }));
    assert!(matches!(r, Ok(AuthIdentity(Identity::Remote { ref domain, internal: 2 })) if domain == "o.example"));
}

#[test]
fn gone_signer_is_refused_and_rejected_is_ignored() {
    let r = resolve_identity(None, Some(SignatureCheck::ActorGone));
    assert!(matches!(r, Err(AuthRejection::Gone)));
    let r = resolve_identity(None, Some(SignatureCheck::Rejected));
    assert!(matches!(r, Ok(AuthIdentity(Identity::Anonymous))));
    let r = resolve_identity(None, None);
    assert!(matches!(r, Ok(AuthIdentity(Identity::Anonymous))));
}
