//! Creating local users and the server's own actor.

use vstd::prelude::*;
use crate::context::{Context, UriKind, proxied_uri};
use crate::model::{actor, config, credential, instance};
use crate::types::ActorType;
use crate::text::{opt_view, push_str, string_of};
use crate::crypto::{rsa_keypair, key_signs, public_half, verifier_ready, rsa_key_bits, KEY_BITS};

verus! {

/// The records that make up a new local user. Internal ids are assigned when
/// they are stored; they are 0 here.
#[derive(Debug, Clone)]
pub struct NewUser {
    pub actor: actor::Model,
    pub config: config::Model,
    pub credential: credential::Model,
}

/// An actor's keys are a fresh pair: an RSA key of `KEY_BITS` bits, the public
/// key the public half of the private one, which signs with SHA-256 and whose
/// public half checks signatures.
pub open spec fn fresh_keys(a: actor::Model) -> bool {
    &&& a.private_key is Some
    &&& rsa_key_bits(a.private_key->0@) == KEY_BITS
    &&& a.public_key@ == public_half(a.private_key->0@)
    &&& key_signs(a.private_key->0@)
    &&& verifier_ready(a.public_key@)
}

/// Administration of the users of a server.
pub trait Administrable {
    /// The records of a new local user `username`, created at `now` with a fresh
    /// key pair; fails when no key pair could be made.
    fn register_user(
        &self,
        username: String,
        password: String,
        display_name: Option<String>,
        summary: Option<String>,
        avatar_url: Option<String>,
        banner_url: Option<String>,
        now: i64,
    ) -> Result<NewUser, openssl::error::ErrorStack>;
}

/// `u` holds the records of the new local user `username` of `ctx`: a person at
/// the server's actor id for `username`, with no collections or counts yet and a
/// private key; settings that accept follow requests and show the counts but not
/// the lists of followers and followed; a login by username and password, active
/// unless the server requires approving new users.
pub open spec fn registers(ctx: Context, u: NewUser, username: String, password: String,
    display_name: Option<String>, summary: Option<String>, avatar_url: Option<String>,
    banner_url: Option<String>, now: i64) -> bool
{
    &&& u.actor.id@ == proxied_uri(ctx.base_view(), UriKind::Actor, username@)
    &&& u.actor.internal == 0
    &&& u.actor.domain@ == ctx.domain_view()
    &&& u.actor.preferred_username == username
    &&& u.actor.actor_type == ActorType::Person
    &&& u.actor.name == display_name
    &&& u.actor.summary == summary
    &&& u.actor.icon == avatar_url
    &&& u.actor.image == banner_url
    &&& u.actor.inbox is None && u.actor.outbox is None && u.actor.shared_inbox is None
    &&& u.actor.followers is None && u.actor.following is None
    &&& u.actor.following_count == 0 && u.actor.followers_count == 0 && u.actor.statuses_count == 0
    &&& u.actor.private_key is Some
    &&& u.actor.published == now && u.actor.updated == now
    &&& u.config.internal == 0
    &&& u.config.actor == u.actor.id
    &&& u.config.accept_follow_requests
    &&& u.config.show_followers_count && u.config.show_following_count
    &&& !u.config.show_followers && !u.config.show_following
    &&& u.credential.internal == 0
    &&& u.credential.actor == u.actor.id
    &&& u.credential.login == username
    &&& u.credential.password == password
    &&& u.credential.active == !ctx.config_view().security.require_user_approval
}

impl Administrable for Context {
    fn register_user(
        &self,
        username: String,
        password: String,
        display_name: Option<String>,
        summary: Option<String>,
        avatar_url: Option<String>,
        banner_url: Option<String>,
        now: i64,
    ) -> (r: Result<NewUser, openssl::error::ErrorStack>)
        ensures
            r matches Ok(u) ==> registers(*self, u, username, password, display_name, summary, avatar_url, banner_url, now),
            r matches Ok(u) ==> fresh_keys(u.actor),
    {
        let (public_key, private_key) = match rsa_keypair(KEY_BITS) {
            Ok(k) => k,
            Err(e) => return Err(e),
        };
        Ok(self.user_records(username, password, display_name, summary, avatar_url, banner_url, public_key, private_key, now))
    }
}

impl Context {
    /// The records of a new local user `username`, created at `now` with the
    /// given key pair.
    pub fn user_records(
        &self,
        username: String,
        password: String,
        display_name: Option<String>,
        summary: Option<String>,
        avatar_url: Option<String>,
        banner_url: Option<String>,
        public_key: String,
        private_key: String,
        now: i64,
    ) -> (r: NewUser)
        ensures
            registers(*self, r, username, password, display_name, summary, avatar_url, banner_url, now),
            r.actor.public_key == public_key,
            r.actor.private_key == Some(private_key),
    {
        let id = self.uid(username.as_str());
        let active = !self.cfg().security.require_user_approval;
        let user = actor::Model {
            internal: 0,
            domain: self.domain().to_string(),
            id: id.clone(),
            preferred_username: username.clone(),
            actor_type: ActorType::Person,
            name: display_name,
            summary,
            icon: avatar_url,
            image: banner_url,
            inbox: None,
            outbox: None,
            shared_inbox: None,
            followers: None,
            following: None,
            published: now,
            updated: now,
            following_count: 0,
            followers_count: 0,
            statuses_count: 0,
            public_key,
            private_key: Some(private_key),
        };
        let settings = config::Model {
            internal: 0,
            actor: id.clone(),
            accept_follow_requests: true,
            show_followers_count: true,
            show_following_count: true,
            show_followers: false,
            show_following: false,
        };
        let login = credential::Model {
            internal: 0,
            actor: id,
            login: username,
            password,
            active,
        };
        NewUser { actor: user, config: settings, credential: login }
    }
}

fn suffixed(base: &str, suffix: &str) -> (r: String)
    ensures
        r@ == base@ + suffix@,
{
    let mut out: Vec<char> = Vec::new();
    push_str(&mut out, base);
    push_str(&mut out, suffix);
    string_of(out.as_slice())
}

/// `a` is the server's own actor: an application at `base_url` named after the
/// domain, with its inbox (also the shared one) and outbox under the base URL,
/// and a private key, created at `now`.
pub open spec fn application_actor(a: actor::Model, domain: Seq<char>, base_url: Seq<char>, now: i64) -> bool {
    &&& a.internal == 0
    &&& a.id@ == base_url
    &&& a.domain@ == domain
    &&& a.preferred_username@ == domain
    &&& a.actor_type == ActorType::Application
    &&& opt_view(a.name) == Some("μpub"@)
    &&& opt_view(a.summary) == Some("micro social network, federated"@)
    &&& opt_view(a.icon) == Some("https://cdn.alemi.dev/social/circle-square.png"@)
    &&& a.image is None
    &&& opt_view(a.inbox) == Some(base_url + "/inbox"@)
    &&& opt_view(a.shared_inbox) == Some(base_url + "/inbox"@)
    &&& opt_view(a.outbox) == Some(base_url + "/outbox"@)
    &&& a.followers is None && a.following is None
    &&& a.following_count == 0 && a.followers_count == 0 && a.statuses_count == 0
    &&& a.private_key is Some
    &&& a.published == now && a.updated == now
}

/// The server's own actor, created at `now` with a fresh key pair; fails when no
/// key pair could be made.
pub fn application(domain: &str, base_url: &str, now: i64) -> (r: Result<actor::Model, openssl::error::ErrorStack>)
    ensures
        r matches Ok(a) ==> application_actor(a, domain@, base_url@, now),
        r matches Ok(a) ==> fresh_keys(a),
{
    match rsa_keypair(KEY_BITS) {
        Ok((public_key, private_key)) => Ok(application_with_keys(domain, base_url, public_key, private_key, now)),
        Err(e) => Err(e),
    }
}

/// The server's own actor, created at `now` with the given key pair.
pub fn application_with_keys(domain: &str, base_url: &str, public_key: String, private_key: String, now: i64) -> (r: actor::Model)
    ensures
        application_actor(r, domain@, base_url@, now),
        r.public_key == public_key,
        r.private_key == Some(private_key),
{
    actor::Model {
        internal: 0,
        domain: domain.to_string(),
        id: base_url.to_string(),
        preferred_username: domain.to_string(),
        actor_type: ActorType::Application,
        name: Some("μpub".to_string()),
        summary: Some("micro social network, federated".to_string()),
        icon: Some("https://cdn.alemi.dev/social/circle-square.png".to_string()),
        image: None,
        inbox: Some(suffixed(base_url, "/inbox")),
        outbox: Some(suffixed(base_url, "/outbox")),
        shared_inbox: Some(suffixed(base_url, "/inbox")),
        followers: None,
        following: None,
        published: now,
        updated: now,
        following_count: 0,
        followers_count: 0,
        statuses_count: 0,
        public_key,
        private_key: Some(private_key),
    }
}

/// This server's own instance record: running `upub` at `version`, with no
/// users or posts counted yet, never down, created at `now`.
pub fn local_instance(domain: &str, version: &str, now: i64) -> (r: instance::Model)
    ensures
        r.internal == 0,
        r.domain@ == domain@,
        r.name is None && r.icon is None && r.down_since is None,
        opt_view(r.software) == Some("upub"@),
        opt_view(r.version) == Some(version@),
        r.users == Some(0i64) && r.posts == Some(0i64),
        r.published == now && r.updated == now,
{
    instance::Model {
        internal: 0,
        domain: domain.to_string(),
        name: None,
        software: Some("upub".to_string()),
        down_since: None,
        icon: None,
        version: Some(version.to_string()),
        users: Some(0),
        posts: Some(0),
        published: now,
        updated: now,
    }
}

} // verus!
