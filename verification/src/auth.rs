//! Who is asking: anonymous, a remote server, or a local user.

use vstd::prelude::*;
use crate::text::{starts_with, replace_all, split, chars_of, chars_starts_with, chars_replace_all, chars_split, string_of, views};

verus! {

#[derive(Debug, Clone)]
pub enum Identity {
    Anonymous,
    Remote { domain: String, internal: i64 },
    Local { id: String, internal: i64 },
}

/// One alternative of a visibility filter over timeline entries.
#[derive(Debug, Clone)]
pub enum FilterClause {
    /// the entry is addressed to everyone
    AddressedToPublic,
    /// the entry is addressed to this instance
    AddressedToInstance(i64),
    /// the entry is addressed to this actor
    AddressedToActor(i64),
    /// the activity was made by this actor
    ActivityBy(String),
    /// the object is attributed to this actor
    ObjectBy(String),
}

/// `clauses` is the visibility filter of `who`: public entries for everyone, and
/// for a remote server also the entries addressed to it, for a local user also
/// the entries addressed to it and its own activities and objects.
pub open spec fn filter_of(who: Identity, clauses: Seq<FilterClause>) -> bool {
    &&& clauses.len() >= 1
    &&& clauses[0] is AddressedToPublic
    &&& match who {
            Identity::Anonymous => clauses.len() == 1,
            Identity::Remote { internal, .. } => clauses.len() == 2 && clauses[1] == FilterClause::AddressedToInstance(internal),
            Identity::Local { id, internal } => {
                &&& clauses.len() == 4
                &&& clauses[1] == FilterClause::AddressedToActor(internal)
                &&& clauses[2] matches FilterClause::ActivityBy(a) && a@ == id@
                &&& clauses[3] matches FilterClause::ObjectBy(o) && o@ == id@
            },
        }
}

/// Whether an entry meets one clause. The entry is described by whether it is
/// addressed to everyone, the instances and the actors it is addressed to (by
/// internal id), the actor of its activity and the author of its object.
pub open spec fn clause_holds(c: FilterClause, public: bool, instances: Set<i64>, actors: Set<i64>,
    activity_actor: Option<Seq<char>>, object_author: Option<Seq<char>>) -> bool
{
    match c {
        FilterClause::AddressedToPublic => public,
        FilterClause::AddressedToInstance(i) => instances.contains(i),
        FilterClause::AddressedToActor(a) => actors.contains(a),
        FilterClause::ActivityBy(a) => activity_actor == Some(a@),
        FilterClause::ObjectBy(o) => object_author == Some(o@),
    }
}

/// Whether an entry passes a filter: it meets one of its clauses.
pub open spec fn admits(clauses: Seq<FilterClause>, public: bool, instances: Set<i64>, actors: Set<i64>,
    activity_actor: Option<Seq<char>>, object_author: Option<Seq<char>>) -> bool
{
    exists|i: int| 0 <= i < clauses.len()
        && #[trigger] clause_holds(clauses[i], public, instances, actors, activity_actor, object_author)
}

/// Law: who sees an entry. Anyone sees an entry addressed to everyone; an
/// anonymous viewer sees nothing else; a remote server also sees what is
/// addressed to it; a local user also sees what is addressed to it and its own
/// activities and objects.
pub proof fn lemma_visibility(who: Identity, clauses: Seq<FilterClause>, public: bool, instances: Set<i64>,
    actors: Set<i64>, activity_actor: Option<Seq<char>>, object_author: Option<Seq<char>>)
    requires
        filter_of(who, clauses),
    ensures
        admits(clauses, public, instances, actors, activity_actor, object_author) == match who {
            Identity::Anonymous => public,
            Identity::Remote { internal, .. } => public || instances.contains(internal),
            Identity::Local { id, internal } => public || actors.contains(internal)
                || activity_actor == Some(id@) || object_author == Some(id@),
        },
{
    let h = |i: int| clause_holds(clauses[i], public, instances, actors, activity_actor, object_author);
    assert(h(0) == public);
    match who {
        Identity::Anonymous => {},
        Identity::Remote { internal, .. } => {
            assert(h(1) == instances.contains(internal));
        },
        Identity::Local { id, internal } => {
            assert(h(1) == actors.contains(internal));
            assert(h(2) == (activity_actor == Some(id@)));
            assert(h(3) == (object_author == Some(id@)));
        },
    }
}

impl Identity {
    /// The entries this identity may see: any of these clauses holds. Everyone
    /// sees public entries; a remote server also those addressed to it; a local
    /// user also those addressed to it and its own activities and objects.
    pub fn filter_condition(&self) -> (r: Vec<FilterClause>)
        ensures
            filter_of(*self, r@),
    {
        let mut r: Vec<FilterClause> = Vec::new();
        r.push(FilterClause::AddressedToPublic);
        match self {
            Identity::Anonymous => {},
            Identity::Remote { internal, .. } => {
                r.push(FilterClause::AddressedToInstance(*internal));
            },
            Identity::Local { id, internal } => {
                r.push(FilterClause::AddressedToActor(*internal));
                r.push(FilterClause::ActivityBy(id.clone()));
                r.push(FilterClause::ObjectBy(id.clone()));
            },
        }
        r
    }

    /// The internal id of a local user.
    pub fn my_id(&self) -> (r: Option<i64>)
        ensures
            r == (match self {
                Identity::Local { internal, .. } => Some(*internal),
                _ => None::<i64>,
            }),
    {
        match self {
            Identity::Local { internal, .. } => Some(*internal),
            _ => None,
        }
    }

    /// Whether this is the local user with this id.
    pub fn is(&self, uid: &str) -> (r: bool)
        ensures
            r == (match self {
                Identity::Local { id, .. } => id@ == uid@,
                _ => false,
            }),
    {
        match self {
            Identity::Anonymous => false,
            Identity::Remote { .. } => false,
            Identity::Local { id, .. } => {
                let a = chars_of(id.as_str());
                crate::text::chars_eq_str(a.as_slice(), uid)
            },
        }
    }

    pub fn is_anon(&self) -> (r: bool)
        ensures
            r == (self is Anonymous),
    {
        matches!(self, Self::Anonymous)
    }

    pub fn is_local(&self) -> (r: bool)
        ensures
            r == (self is Local),
    {
        matches!(self, Self::Local { .. })
    }

    pub fn is_remote(&self) -> (r: bool)
        ensures
            r == (self is Remote),
    {
        matches!(self, Self::Remote { .. })
    }
}

/// The identity that a request was found to carry.
pub struct AuthIdentity(pub Identity);

/// The session secret of an `Authorization` header: every `Bearer ` removed from a
/// header that starts with it.
pub open spec fn bearer_secret(header: Seq<char>) -> Option<Seq<char>> {
    if starts_with(header, "Bearer "@) {
        Some(replace_all(header, "Bearer "@, Seq::empty()))
    } else {
        None
    }
}

/// The session secret of an `Authorization` header, if it is a bearer token.
pub fn bearer_token(header: &str) -> (r: Option<String>)
    ensures
        match bearer_secret(header@) {
            Some(s) => r matches Some(t) && t@ == s,
            None => r is None,
        },
{
    let h = chars_of(header);
    let p = chars_of("Bearer ");
    if chars_starts_with(h.as_slice(), p.as_slice()) {
        let empty: Vec<char> = Vec::new();
        let s = chars_replace_all(h.as_slice(), p.as_slice(), empty.as_slice());
        assert(empty@ =~= Seq::<char>::empty());
        Some(string_of(s.as_slice()))
    } else {
        None
    }
}

/// The actor that a signature key belongs to: the key id up to the first `#`.
pub fn key_owner(key_id: &str) -> (r: String)
    ensures
        r@ == split(key_id@, '#')[0],
{
    let c = chars_of(key_id);
    let parts = chars_split(c.as_slice(), '#');
    assert(views(parts@)[0] == parts@[0]@);
    string_of(parts[0].as_slice())
}

/// What looking up a bearer session gave.
pub enum SessionLookup {
    /// no session with that secret is still valid
    NotFound,
    /// a valid session of this actor
    Found { actor: String, internal: i64 },
    /// the lookup failed
    Failed,
}

/// What checking an HTTP signature gave.
pub enum SignatureCheck {
    /// the signature holds for the key's actor, of this server
    Verified { domain: String, internal: i64 },
    /// the signature does not hold, or could not be checked
    Rejected,
    /// the key's actor is gone (the fetch answered 410)
    ActorGone,
}

/// Why a request is turned away.
#[derive(Debug, Clone, Copy, PartialEq, Eq, Structural)]
pub enum AuthRejection {
    /// a bearer token without a valid session
    Unauthorized,
    /// the session lookup failed
    InternalError,
    /// the signing actor is gone: answered with success so the sender stops
    Gone,
}

/// The identity of a request from what its bearer token and its signature gave:
/// a bearer token must name a valid session (a local user); a verified signature
/// then makes the request a remote server's; a gone signer ends the request.
pub fn resolve_identity(session: Option<SessionLookup>, signature: Option<SignatureCheck>) -> (r: Result<AuthIdentity, AuthRejection>)
    ensures
        session matches Some(SessionLookup::NotFound) ==> r == Err::<AuthIdentity, AuthRejection>(AuthRejection::Unauthorized),
        session matches Some(SessionLookup::Failed) ==> r == Err::<AuthIdentity, AuthRejection>(AuthRejection::InternalError),
        !(session matches Some(SessionLookup::NotFound)) && !(session matches Some(SessionLookup::Failed)) ==> match signature {
            Some(SignatureCheck::ActorGone) => r == Err::<AuthIdentity, AuthRejection>(AuthRejection::Gone),
            Some(SignatureCheck::Verified { domain, internal }) =>
                r matches Ok(AuthIdentity(Identity::Remote { domain: d, internal: i })) && d@ == domain@ && i == internal,
            _ => match session {
                Some(SessionLookup::Found { actor, internal }) =>
                    r matches Ok(AuthIdentity(Identity::Local { id, internal: i })) && id@ == actor@ && i == internal,
                _ => r matches Ok(AuthIdentity(Identity::Anonymous)),
            },
        },
{
    let mut identity = Identity::Anonymous;
    match session {
        None => {},
        Some(SessionLookup::NotFound) => return Err(AuthRejection::Unauthorized),
        Some(SessionLookup::Failed) => return Err(AuthRejection::InternalError),
        Some(SessionLookup::Found { actor, internal }) => {
            identity = Identity::Local { id: actor, internal };
        },
    }
    match signature {
        None => {},
        Some(SignatureCheck::Rejected) => {},
        Some(SignatureCheck::ActorGone) => return Err(AuthRejection::Gone),
        Some(SignatureCheck::Verified { domain, internal }) => {
            identity = Identity::Remote { domain, internal };
        },
    }
    Ok(AuthIdentity(identity))
}

} // verus!
