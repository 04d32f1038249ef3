//! The instance's own identity: domain, protocol, base address, the ids it mints
//! and how it tells local ids from remote ones.

use vstd::prelude::*;
use crate::config::Config;
use crate::text::{free_of, slash_pair, lemma_replace_absent, lemma_replace_prefix, lemma_split_free, lemma_split_concat, 
    starts_with, ends_with, replace_all, split, chars_of, string_of, push_str, push_chars,
    chars_starts_with, chars_ends_with, chars_replace_all, chars_split, slice_chars, views,
    string_views,
};

verus! {

/// The kinds of local id that the instance mints.
#[derive(Debug, Clone, Copy, PartialEq, Eq)]
pub enum UriKind {
    Actor,
    Object,
    Activity,
    Hashtag,
    List,
}

/// The path segment of a kind of local id.
pub open spec fn kind_segment(kind: UriKind) -> Seq<char> {
    match kind {
        UriKind::Actor => "actors"@,
        UriKind::Object => "objects"@,
        UriKind::Activity => "activities"@,
        UriKind::Hashtag => "tags"@,
        UriKind::List => "lists"@,
    }
}

/// An id with the `https://` and `http://` schemes removed.
pub open spec fn strip_schemes(id: Seq<char>) -> Seq<char> {
    replace_all(replace_all(id, "https://"@, Seq::empty()), "http://"@, Seq::empty())
}

/// Path segment `n` of a scheme-less id (the empty sequence when there is none).
pub open spec fn path_segment(s: Seq<char>, n: int) -> Seq<char> {
    if 0 <= n < split(s, '/').len() {
        split(s, '/')[n]
    } else {
        Seq::empty()
    }
}

/// The server part of an id: what precedes the first `/` once schemes are removed.
pub open spec fn server_of(id: Seq<char>) -> Seq<char> {
    split(strip_schemes(id), '/')[0]
}

/// An id that is neither a full URL nor `+`-encoded: `uriproxy::uri` places it
/// under the base.
pub open spec fn plain_id(id: Seq<char>) -> bool {
    !starts_with(id, "https://"@) && !starts_with(id, "http://"@) && !starts_with(id, "+"@)
}

/// The full id of a local entity of kind `kind` with the plain id `x`.
pub open spec fn local_uri(base: Seq<char>, kind: UriKind, x: Seq<char>) -> Seq<char> {
    base + "/"@ + kind_segment(kind) + "/"@ + x
}

/// What `uriproxy::uri` returns.
pub uninterp spec fn proxied_uri(base: Seq<char>, kind: UriKind, id: Seq<char>) -> Seq<char>;

/// What `uriproxy::compact` returns.
pub uninterp spec fn compact_id(uri: Seq<char>) -> Seq<char>;

/// `uriproxy::uri`: a full id is kept; an id that is neither a full id nor starts
/// with `+` becomes `{base}/{segment}/{id}`; a `+` id is decoded from base64 when it
/// can be (the result is named, a function of the three arguments), so the compact
/// form of an id (`uriproxy::compact`) gives that id back.
#[verifier::external_body]
pub(crate) fn make_uri(base: &str, kind: UriKind, id: &str) -> (r: String)
    ensures
        r@ == proxied_uri(base@, kind, id@),
        starts_with(id@, "https://"@) || starts_with(id@, "http://"@) ==> r@ == id@,
        !starts_with(id@, "https://"@) && !starts_with(id@, "http://"@) && !starts_with(id@, "+"@)
            ==> r@ == base@ + "/"@ + kind_segment(kind) + "/"@ + id@,
        forall|u: Seq<char>| #[trigger] compact_id(u) == id@ ==> r@ == u,
{
    let class = match kind {
        UriKind::Actor => uriproxy::UriClass::Actor,
        UriKind::Object => uriproxy::UriClass::Object,
        UriKind::Activity => uriproxy::UriClass::Activity,
        UriKind::Hashtag => uriproxy::UriClass::Hashtag,
        UriKind::List => uriproxy::UriClass::List,
    };
    uriproxy::uri(base, class, id)
}

/// `uriproxy::decompose`: path segment 2 of the id once schemes are removed.
#[verifier::external_body]
pub(crate) fn decompose(full_id: &str) -> (r: String)
    ensures
        r@ == path_segment(strip_schemes(full_id@), 2),
{
    uriproxy::decompose(full_id)
}

/// `uriproxy::compact`: `+` followed by the URL-safe base64 of the id (named).
#[verifier::external_body]
pub(crate) fn compact(uri: &str) -> (r: String)
    ensures
        r@ == compact_id(uri@),
        starts_with(r@, "+"@),
{
    uriproxy::compact(uri)
}

/// The protocol that a configured domain asks for.
pub open spec fn protocol_of(domain: Seq<char>) -> Seq<char> {
    if starts_with(domain, "http://"@) { "http://"@ } else { "https://"@ }
}

/// A configured domain without trailing slash and without scheme.
pub open spec fn domain_of(domain: Seq<char>) -> Seq<char> {
    let d = if ends_with(domain, "/"@) { domain.drop_last() } else { domain };
    if starts_with(d, "http"@) { strip_schemes(d) } else { d }
}

/// The instances that relay content to this one, and those it relays to.
#[derive(Debug, Clone)]
pub struct Relays {
    sources: Vec<String>,
    sinks: Vec<String>,
}

impl Relays {
    pub closed spec fn sources_view(&self) -> Seq<Seq<char>> {
        string_views(self.sources@)
    }

    pub closed spec fn sinks_view(&self) -> Seq<Seq<char>> {
        string_views(self.sinks@)
    }

    pub fn new(sources: Vec<String>, sinks: Vec<String>) -> (r: Self)
        ensures
            r.sources_view() == string_views(sources@),
            r.sinks_view() == string_views(sinks@),
    {
        Relays { sources, sinks }
    }
}

/// Whether `id` is one of `list`.
fn contains_string(list: &Vec<String>, id: &str) -> (r: bool)
    ensures
        r == string_views(list@).contains(id@),
{
    let idc = chars_of(id);
    let mut i: usize = 0;
    while i < list.len()
        invariant
            i <= list@.len(),
            idc@ == id@,
            forall|j: int| 0 <= j < i ==> list@[j]@ != id@,
        decreases list@.len() - i,
    {
        let c = chars_of(list[i].as_str());
        if crate::text::chars_eq(c.as_slice(), idc.as_slice()) {
            assert(string_views(list@)[i as int] == id@);
            return true;
        }
        i = i + 1;
    }
    assert(!string_views(list@).contains(id@)) by {
        if string_views(list@).contains(id@) {
            let k = choose|k: int| 0 <= k < string_views(list@).len() && string_views(list@)[k] == id@;
            assert(list@[k]@ == id@);
        }
    }
    false
}

/// The instance as the rest of the library sees it.
#[derive(Debug, Clone)]
pub struct Context {
    config: Config,
    domain: String,
    protocol: String,
    base_url: String,
    pkey: String,
    relay: Relays,
}

impl Context {
    pub closed spec fn domain_view(&self) -> Seq<char> {
        self.domain@
    }

    pub closed spec fn protocol_view(&self) -> Seq<char> {
        self.protocol@
    }

    pub closed spec fn base_view(&self) -> Seq<char> {
        self.base_url@
    }

    pub closed spec fn pkey_view(&self) -> Seq<char> {
        self.pkey@
    }

    pub closed spec fn config_view(&self) -> Config {
        self.config
    }

    pub closed spec fn relay_view(&self) -> Relays {
        self.relay
    }

    /// The instance for a configured domain: the protocol is `http://` when the
    /// domain says so and `https://` otherwise, a trailing slash and the scheme are
    /// dropped from the domain, and the base address is protocol and domain.
    pub fn new(domain: String, config: Config, pkey: String, relay: Relays) -> (r: Self)
        ensures
            r.protocol_view() == protocol_of(domain@),
            r.domain_view() == domain_of(domain@),
            r.base_view() == protocol_of(domain@) + domain_of(domain@),
            r.pkey_view() == pkey@,
            r.config_view() == config,
            r.relay_view() == relay,
    {
        let d = chars_of(domain.as_str());
        let http = chars_of("http://");
        let https = chars_of("https://");
        let protocol = if chars_starts_with(d.as_slice(), http.as_slice()) {
            String::from_str("http://")
        } else {
            String::from_str("https://")
        };
        let slash = chars_of("/");
        proof { reveal_strlit("/"); }
        let d1 = if chars_ends_with(d.as_slice(), slash.as_slice()) {
            assert(d@.subrange(0, d@.len() - 1) =~= d@.drop_last());
            slice_chars(d.as_slice(), 0, d.len() - 1)
        } else {
            assert(d@.subrange(0, d@.len() as int) =~= d@);
            slice_chars(d.as_slice(), 0, d.len())
        };
        let prefix = chars_of("http");
        let empty: Vec<char> = Vec::new();
        let d2 = if chars_starts_with(d1.as_slice(), prefix.as_slice()) {
            let a = chars_replace_all(d1.as_slice(), https.as_slice(), empty.as_slice());
            chars_replace_all(a.as_slice(), http.as_slice(), empty.as_slice())
        } else {
            d1
        };
        let mut base: Vec<char> = Vec::new();
        push_str(&mut base, protocol.as_str());
        push_chars(&mut base, d2.as_slice());
        assert(empty@ =~= Seq::<char>::empty());
        Context {
            config,
            domain: string_of(d2.as_slice()),
            protocol,
            base_url: string_of(base.as_slice()),
            pkey,
            relay,
        }
    }

    pub fn cfg(&self) -> (r: &Config)
        ensures
            *r == self.config_view(),
    {
        &self.config
    }

    pub fn domain(&self) -> (r: &str)
        ensures
            r@ == self.domain_view(),
    {
        self.domain.as_str()
    }

    pub fn protocol(&self) -> (r: &str)
        ensures
            r@ == self.protocol_view(),
    {
        self.protocol.as_str()
    }

    pub fn base(&self) -> (r: &str)
        ensures
            r@ == self.base_view(),
    {
        self.base_url.as_str()
    }

    pub fn pkey(&self) -> (r: &str)
        ensures
            r@ == self.pkey_view(),
    {
        self.pkey.as_str()
    }

    /// Full id of a local actor.
    pub fn uid(&self, id: &str) -> (r: String)
        ensures
            r@ == proxied_uri(self.base_view(), UriKind::Actor, id@),
            plain_id(id@) ==> r@ == local_uri(self.base_view(), UriKind::Actor, id@),
            forall|u: Seq<char>| #[trigger] compact_id(u) == id@ ==> r@ == u,
    {
        make_uri(self.base_url.as_str(), UriKind::Actor, id)
    }

    /// Full id of a local object.
    pub fn oid(&self, id: &str) -> (r: String)
        ensures
            r@ == proxied_uri(self.base_view(), UriKind::Object, id@),
            plain_id(id@) ==> r@ == local_uri(self.base_view(), UriKind::Object, id@),
            forall|u: Seq<char>| #[trigger] compact_id(u) == id@ ==> r@ == u,
    {
        make_uri(self.base_url.as_str(), UriKind::Object, id)
    }

    /// Full id of a local activity.
    pub fn aid(&self, id: &str) -> (r: String)
        ensures
            r@ == proxied_uri(self.base_view(), UriKind::Activity, id@),
            plain_id(id@) ==> r@ == local_uri(self.base_view(), UriKind::Activity, id@),
            forall|u: Seq<char>| #[trigger] compact_id(u) == id@ ==> r@ == u,
    {
        make_uri(self.base_url.as_str(), UriKind::Activity, id)
    }

    /// The bare id: the local part of a local id, the compact form of a remote one.
    pub fn id(&self, full_id: &str) -> (r: String)
        ensures
            starts_with(full_id@, self.base_view()) ==> r@ == path_segment(strip_schemes(full_id@), 2),
            !starts_with(full_id@, self.base_view()) ==> r@ == compact_id(full_id@),
            !starts_with(full_id@, self.base_view()) ==> starts_with(r@, "+"@),
    {
        if self.is_local(full_id) {
            decompose(full_id)
        } else {
            compact(full_id)
        }
    }

    /// The server part of an id: schemes removed, up to the first `/`.
    pub fn server(id: &str) -> (r: String)
        ensures
            r@ == server_of(id@),
    {
        let c = chars_of(id);
        let https = chars_of("https://");
        let http = chars_of("http://");
        let empty: Vec<char> = Vec::new();
        let a = chars_replace_all(c.as_slice(), https.as_slice(), empty.as_slice());
        let b = chars_replace_all(a.as_slice(), http.as_slice(), empty.as_slice());
        let parts = chars_split(b.as_slice(), '/');
        assert(empty@ =~= Seq::<char>::empty());
        assert(views(parts@)[0] == parts@[0]@);
        string_of(parts[0].as_slice())
    }

    /// Whether an id was minted here: it starts with the base address.
    pub fn is_local(&self, id: &str) -> (r: bool)
        ensures
            r == starts_with(id@, self.base_view()),
    {
        let c = chars_of(id);
        let b = chars_of(self.base_url.as_str());
        chars_starts_with(c.as_slice(), b.as_slice())
    }

    /// Whether an id is one of the relays, as source or as sink.
    pub fn is_relay(&self, id: &str) -> (r: bool)
        ensures
            r == (self.relay_view().sources_view().contains(id@) || self.relay_view().sinks_view().contains(id@)),
    {
        contains_string(&self.relay.sources, id) || contains_string(&self.relay.sinks, id)
    }

    /// A fresh random id: `uuid::Uuid::new_v4` in its hyphenated form, 36
    /// characters long. Nothing else is stated of it: it is random.
    #[verifier::external_body]
    pub fn new_id() -> (r: String)
        ensures
            r@.len() == 36,
    {
        uuid::Uuid::new_v4().to_string()
    }
}

/// Where an id was found among the stored entities, by internal id.
#[derive(Debug, Clone, Copy, PartialEq, Eq)]
pub enum Internal {
    Object(i64),
    Activity(i64),
    Actor(i64),
}

impl Internal {
    /// The first hit when an id is looked up as object, then activity, then actor.
    pub fn first_found(object: Option<i64>, activity: Option<i64>, actor: Option<i64>) -> (r: Option<Internal>)
        ensures
            r == (match (object, activity, actor) {
                (Some(o), _, _) => Some(Internal::Object(o)),
                (None, Some(a), _) => Some(Internal::Activity(a)),
                (None, None, Some(u)) => Some(Internal::Actor(u)),
                (None, None, None) => None,
            }),
    {
        if let Some(o) = object {
            return Some(Internal::Object(o));
        }
        if let Some(a) = activity {
            return Some(Internal::Activity(a));
        }
        if let Some(u) = actor {
            return Some(Internal::Actor(u));
        }
        None
    }
}

/// Something that wakes the background workers.
pub trait WakerToken {
    fn wake(&self);
}

proof fn lemma_segment_shape(kind: UriKind)
    ensures
        kind_segment(kind).len() > 0,
        free_of(kind_segment(kind), '/'),
{
    reveal_strlit("actors");
    reveal_strlit("objects");
    reveal_strlit("activities");
    reveal_strlit("tags");
    reveal_strlit("lists");
}

/// Law: a local id built from a plain id gives that id back. Under the base of a
/// configured domain, the full id of `x` is local, and its bare id (the third
/// path segment once schemes are removed) is `x`, when neither the domain nor
/// `x` holds a `/`.
pub proof fn lemma_local_id_roundtrip(domain: Seq<char>, kind: UriKind, x: Seq<char>)
    requires
        free_of(domain_of(domain), '/'),
        free_of(x, '/'),
    ensures
        starts_with(local_uri(protocol_of(domain) + domain_of(domain), kind, x), protocol_of(domain) + domain_of(domain)),
        path_segment(strip_schemes(local_uri(protocol_of(domain) + domain_of(domain), kind, x)), 2) == x,
{
    reveal_strlit("https://");
    reveal_strlit("http://");
    reveal_strlit("/");
    let p = protocol_of(domain);
    let d = domain_of(domain);
    let seg = kind_segment(kind);
    lemma_segment_shape(kind);
    let rest = d + "/"@ + seg + "/"@ + x;
    let full = local_uri(p + d, kind, x);
    assert(full =~= p + rest);
    assert(full.subrange(0, (p + d).len() as int) =~= p + d);
    // `rest` has no adjacent slashes
    assert forall|j: int| #[trigger] slash_pair(rest, j) implies j < 0 by {
        if j < d.len() {
            assert(rest[j] == d[j]);
        } else if j == d.len() {
            assert(rest[j + 1] == seg[0]);
        } else if j < d.len() + 1 + seg.len() {
            assert(rest[j] == seg[j - d.len() - 1]);
        } else if j == d.len() + 1 + seg.len() {
            assert(rest[j + 1] == x[0]);
        } else {
            assert(rest[j] == x[j - d.len() - 2 - seg.len()]);
        }
    }
    let https = "https://"@;
    let http = "http://"@;
    assert(https[6] == '/' && https[7] == '/');
    assert(http[5] == '/' && http[6] == '/');
    lemma_replace_absent(rest, https, Seq::empty(), 6);
    lemma_replace_absent(rest, http, Seq::empty(), 5);
    if p == https {
        lemma_replace_prefix(https, rest, Seq::empty());
        assert(Seq::<char>::empty() + rest =~= rest);
    } else {
        assert(p == http);
        let full1 = full.subrange(1, full.len() as int);
        assert forall|j: int| #[trigger] slash_pair(full1, j) implies j < 6 by {
            assert(full1[j] == full[j + 1] && full1[j + 1] == full[j + 2]);
            if j >= 6 {
                assert(full[j + 1] == rest[j - 6] && full[j + 2] == rest[j - 5]);
                assert(slash_pair(rest, j - 6));
            }
        }
        lemma_replace_absent(full1, https, Seq::empty(), 6);
        assert(full[4] == ':' && https[4] == 's');
        assert(full.subrange(0, 8)[4] == full[4]);
        assert(!starts_with(full, https));
        assert(seq![full[0]] + full1 =~= full);
        assert(replace_all(full, https, Seq::empty()) == full);
        lemma_replace_prefix(http, rest, Seq::empty());
        assert(Seq::<char>::empty() + rest =~= rest);
    }
    assert(strip_schemes(full) == rest);
    lemma_split_free(d, '/');
    lemma_split_free(seg, '/');
    lemma_split_free(x, '/');
    assert("/"@ =~= seq!['/']);
    assert(rest =~= d + seq!['/'] + (seg + seq!['/'] + x));
    lemma_split_concat(d, seg + seq!['/'] + x, '/');
    lemma_split_concat(seg, x, '/');
    assert(split(rest, '/') =~= seq![d, seg, x]);
}

} // verus!
