//! Fetching remote documents: signed requests, what a fetched document turns out
//! to be, and WebFinger answers.

use vstd::prelude::*;
use crate::types::{ObjectType, ActivityType, ActorType};
use crate::model::instance::{self, NodeInfo};
use crate::context::{Context, server_of, strip_schemes};
use crate::httpsign::{
    HttpSignature, HttpSignatureError, SignatureView, header_of, manual_control, digest_of, digest,
    lowercase, to_lowercase, pair_views, signed_over, parsed, verified, parts_control, lookup_first,
    lookup_last, header_safe, ascii_lower, lemma_signed_verifies, lemma_parts_match_manual,
};
use crate::crypto::{key_signs, verifier_ready, public_half};
use crate::text::{
    replace_all, string_views, chars_of, chars_eq_str, chars_eq, chars_replace_all, push_str, string_of, free_of,
};

verus! {

/// A fetched document, by what it turned out to be.
#[derive(Debug, Clone)]
pub enum Pull<T> {
    Actor(T),
    Activity(T),
    Object(T),
}

/// Why a fetch failed.
#[derive(Debug)]
pub enum RequestError {
    /// the document is not of the requested kind (requested, found)
    Mismatch(ObjectType, ObjectType),
    /// the request could not be made or answered
    Transport(String),
    /// the server answered with an error status and this body
    Fetch(u16, String),
    /// the document lacks a field that is needed
    Malformed(String),
    /// following ids redirected too many times
    TooManyRedirects,
    /// the document was deleted
    Tombstone,
    /// the request could not be signed
    HttpSignature(HttpSignatureError),
}

impl<T> Pull<T> {
    /// The document, whatever it turned out to be.
    pub fn inner(self) -> (r: T)
        ensures
            r == (match self {
                Pull::Actor(x) => x,
                Pull::Activity(x) => x,
                Pull::Object(x) => x,
            }),
    {
        match self {
            Pull::Actor(x) | Pull::Activity(x) | Pull::Object(x) => x,
        }
    }

    /// The document if it is an actor; otherwise a mismatch with the type it
    /// declares (`found`), or the default type of its kind when it declares none.
    pub fn actor(self, found: Option<ObjectType>) -> (r: Result<T, RequestError>)
        ensures
            match self {
                Pull::Actor(x) => r == Ok::<T, RequestError>(x),
                Pull::Activity(_) => r matches Err(RequestError::Mismatch(e, f))
                    && e == ObjectType::Actor(ActorType::Person)
                    && f == found.unwrap_or(ObjectType::Activity(ActivityType::Activity)),
                Pull::Object(_) => r matches Err(RequestError::Mismatch(e, f))
                    && e == ObjectType::Actor(ActorType::Person)
                    && f == found.unwrap_or(ObjectType::Object),
            },
    {
        match self {
            Pull::Actor(x) => Ok(x),
            Pull::Activity(_) => Err(RequestError::Mismatch(
                ObjectType::Actor(ActorType::Person),
                match found { Some(t) => t, None => ObjectType::Activity(ActivityType::Activity) },
            )),
            Pull::Object(_) => Err(RequestError::Mismatch(
                ObjectType::Actor(ActorType::Person),
                match found { Some(t) => t, None => ObjectType::Object },
            )),
        }
    }

    /// The document if it is an activity; otherwise a mismatch.
    pub fn activity(self, found: Option<ObjectType>) -> (r: Result<T, RequestError>)
        ensures
            match self {
                Pull::Activity(x) => r == Ok::<T, RequestError>(x),
                Pull::Actor(_) => r matches Err(RequestError::Mismatch(e, f))
                    && e == ObjectType::Activity(ActivityType::Activity)
                    && f == found.unwrap_or(ObjectType::Actor(ActorType::Person)),
                Pull::Object(_) => r matches Err(RequestError::Mismatch(e, f))
                    && e == ObjectType::Activity(ActivityType::Activity)
                    && f == found.unwrap_or(ObjectType::Object),
            },
    {
        match self {
            Pull::Activity(x) => Ok(x),
            Pull::Actor(_) => Err(RequestError::Mismatch(
                ObjectType::Activity(ActivityType::Activity),
                match found { Some(t) => t, None => ObjectType::Actor(ActorType::Person) },
            )),
            Pull::Object(_) => Err(RequestError::Mismatch(
                ObjectType::Activity(ActivityType::Activity),
                match found { Some(t) => t, None => ObjectType::Object },
            )),
        }
    }

    /// The document if it is a plain object; otherwise a mismatch.
    pub fn object(self, found: Option<ObjectType>) -> (r: Result<T, RequestError>)
        ensures
            match self {
                Pull::Object(x) => r == Ok::<T, RequestError>(x),
                Pull::Actor(_) => r matches Err(RequestError::Mismatch(e, f))
                    && e == ObjectType::Object
                    && f == found.unwrap_or(ObjectType::Actor(ActorType::Person)),
                Pull::Activity(_) => r matches Err(RequestError::Mismatch(e, f))
                    && e == ObjectType::Object
                    && f == found.unwrap_or(ObjectType::Activity(ActivityType::Activity)),
            },
    {
        match self {
            Pull::Object(x) => Ok(x),
            Pull::Actor(_) => Err(RequestError::Mismatch(
                ObjectType::Object,
                match found { Some(t) => t, None => ObjectType::Actor(ActorType::Person) },
            )),
            Pull::Activity(_) => Err(RequestError::Mismatch(
                ObjectType::Object,
                match found { Some(t) => t, None => ObjectType::Activity(ActivityType::Activity) },
            )),
        }
    }
}

/// A fetched document, by what it turned out to be (the form older callers use).
#[derive(Debug, Clone)]
pub enum PullResult<T> {
    Actor(T),
    Activity(T),
    Object(T),
}

impl<T> PullResult<T> {
    /// The document, whatever it turned out to be.
    pub fn inner(self) -> (r: T)
        ensures
            r == (match self {
                PullResult::Actor(x) => x,
                PullResult::Activity(x) => x,
                PullResult::Object(x) => x,
            }),
    {
        match self {
            PullResult::Actor(x) | PullResult::Activity(x) | PullResult::Object(x) => x,
        }
    }

    /// The same document as a `Pull`.
    pub open spec fn as_pull(self) -> Pull<T> {
        match self {
            PullResult::Actor(x) => Pull::Actor(x),
            PullResult::Activity(x) => Pull::Activity(x),
            PullResult::Object(x) => Pull::Object(x),
        }
    }

    fn into_pull(self) -> (r: Pull<T>)
        ensures
            r == self.as_pull(),
    {
        match self {
            PullResult::Actor(x) => Pull::Actor(x),
            PullResult::Activity(x) => Pull::Activity(x),
            PullResult::Object(x) => Pull::Object(x),
        }
    }

    /// The document if it is an actor; otherwise a mismatch with the type it
    /// declares (`found`), or the default type of its kind when it declares none.
    pub fn actor(self, found: Option<ObjectType>) -> (r: Result<T, RequestError>)
        ensures
            match self {
                PullResult::Actor(x) => r == Ok::<T, RequestError>(x),
                PullResult::Activity(_) => r matches Err(RequestError::Mismatch(e, f))
                    && e == ObjectType::Actor(ActorType::Person)
                    && f == found.unwrap_or(ObjectType::Activity(ActivityType::Activity)),
                PullResult::Object(_) => r matches Err(RequestError::Mismatch(e, f))
                    && e == ObjectType::Actor(ActorType::Person)
                    && f == found.unwrap_or(ObjectType::Object),
            },
    {
        self.into_pull().actor(found)
    }

    /// The document if it is an activity; otherwise a mismatch.
    pub fn activity(self, found: Option<ObjectType>) -> (r: Result<T, RequestError>)
        ensures
            match self {
                PullResult::Activity(x) => r == Ok::<T, RequestError>(x),
                PullResult::Actor(_) => r matches Err(RequestError::Mismatch(e, f))
                    && e == ObjectType::Activity(ActivityType::Activity)
                    && f == found.unwrap_or(ObjectType::Actor(ActorType::Person)),
                PullResult::Object(_) => r matches Err(RequestError::Mismatch(e, f))
                    && e == ObjectType::Activity(ActivityType::Activity)
                    && f == found.unwrap_or(ObjectType::Object),
            },
    {
        self.into_pull().activity(found)
    }

    /// The document if it is a plain object; otherwise a mismatch.
    pub fn object(self, found: Option<ObjectType>) -> (r: Result<T, RequestError>)
        ensures
            match self {
                PullResult::Object(x) => r == Ok::<T, RequestError>(x),
                PullResult::Actor(_) => r matches Err(RequestError::Mismatch(e, f))
                    && e == ObjectType::Object
                    && f == found.unwrap_or(ObjectType::Actor(ActorType::Person)),
                PullResult::Activity(_) => r matches Err(RequestError::Mismatch(e, f))
                    && e == ObjectType::Object
                    && f == found.unwrap_or(ObjectType::Activity(ActivityType::Activity)),
            },
    {
        self.into_pull().object(found)
    }
}

/// What to do with a fetched document.
#[derive(Debug)]
pub enum PullStep<T> {
    /// the document has another id: fetch that one, one redirect deeper
    Redirect(String, u32),
    /// the document is what was asked for
    Done(Pull<T>),
}

/// What a fetched document means for the fetch of `requested` at redirect depth
/// `depth`: a document missing its id or type is malformed; a document with
/// another id is followed at depth `depth + 1` unless `depth` reached the limit
/// (so a chain of redirects from depth 0 follows at most `max_redirects`); a
/// collection or a tombstone is refused; otherwise it is an activity, an actor or
/// an object.
pub fn pull_step<T>(requested: &str, doc_id: Option<String>, doc_type: Option<ObjectType>, depth: u32, max_redirects: u32, doc: T)
    -> (r: Result<PullStep<T>, RequestError>)
    ensures
        match doc_id {
            None => r matches Err(RequestError::Malformed(f)) && f@ == "id"@,
            Some(id) => if id@ != requested@ {
                if depth >= max_redirects {
                    r matches Err(RequestError::TooManyRedirects)
                } else {
                    r matches Ok(PullStep::Redirect(to, d)) && to@ == id@ && d == depth + 1
                }
            } else {
                match doc_type {
                    None => r matches Err(RequestError::Malformed(f)) && f@ == "type"@,
                    Some(t) => match t {
                        ObjectType::Collection(x) => r matches Err(RequestError::Mismatch(e, f))
                            && e == ObjectType::Object && f == ObjectType::Collection(x),
                        ObjectType::Tombstone => r matches Err(RequestError::Tombstone),
                        ObjectType::Activity(_) => r matches Ok(PullStep::Done(Pull::Activity(d))) && d == doc,
                        ObjectType::Actor(_) => r matches Ok(PullStep::Done(Pull::Actor(d))) && d == doc,
                        _ => r matches Ok(PullStep::Done(Pull::Object(d))) && d == doc,
                    },
                }
            },
        },
{
    let id = match doc_id {
        None => return Err(RequestError::Malformed(String::from_str("id"))),
        Some(id) => id,
    };
    let idc = chars_of(id.as_str());
    if !chars_eq_str(idc.as_slice(), requested) {
        if depth >= max_redirects {
            return Err(RequestError::TooManyRedirects);
        }
        return Ok(PullStep::Redirect(id, depth + 1));
    }
    let t = match doc_type {
        None => return Err(RequestError::Malformed(String::from_str("type"))),
        Some(t) => t,
    };
    match t {
        ObjectType::Collection(x) => Err(RequestError::Mismatch(ObjectType::Object, ObjectType::Collection(x))),
        ObjectType::Tombstone => Err(RequestError::Tombstone),
        ObjectType::Activity(_) => Ok(PullStep::Done(Pull::Activity(doc))),
        ObjectType::Actor(_) => Ok(PullStep::Done(Pull::Actor(doc))),
        _ => Ok(PullStep::Done(Pull::Object(doc))),
    }
}

/// The depths of a chain of fetches that followed redirects: the first at depth
/// 0, each redirect taken below the limit and one deeper than the fetch before.
pub open spec fn redirect_chain(depths: Seq<u32>, max_redirects: u32) -> bool {
    &&& depths.len() >= 1
    &&& depths[0] == 0
    &&& forall|i: int| 0 <= i < depths.len() - 1 ==> {
        &&& #[trigger] depths[i] < max_redirects
        &&& depths[i + 1] == depths[i] + 1
    }
}

/// Law: a fetch that starts at depth 0 follows at most `max_redirects`
/// redirects, so it makes at most `max_redirects + 1` fetches; the last fetch
/// sits at the depth of the number of redirects followed.
pub proof fn lemma_redirects_bounded(depths: Seq<u32>, max_redirects: u32)
    requires
        redirect_chain(depths, max_redirects),
    ensures
        depths.len() <= max_redirects + 1,
        depths.last() == depths.len() - 1,
    decreases depths.len(),
{
    if depths.len() > 1 {
        let before = depths.drop_last();
        assert forall|i: int| 0 <= i < before.len() - 1 implies {
            &&& #[trigger] before[i] < max_redirects
            &&& before[i + 1] == before[i] + 1
        } by {
            assert(before[i] == depths[i]);
            assert(before[i + 1] == depths[i + 1]);
        }
        lemma_redirects_bounded(before, max_redirects);
        let n = depths.len() - 2;
        assert(depths[n] < max_redirects);
        assert(depths[n + 1] == depths[n] + 1);
    }
}

/// Whether the parent of a reply at `depth` is still fetched.
pub fn crawl_deeper(depth: u32, thread_crawl_depth: u32) -> (r: bool)
    ensures
        r == (depth <= thread_crawl_depth),
{
    depth <= thread_crawl_depth
}

/// The headers that sign an outgoing request.
#[derive(Debug)]
pub struct SignedHeaders {
    pub host: String,
    pub date: String,
    pub digest: String,
    pub signature: String,
}

/// The path of a URL: schemes and the host removed.
pub open spec fn request_path(url: Seq<char>) -> Seq<char> {
    replace_all(strip_schemes(url), server_of(url), Seq::empty())
}

/// The headers that a request signature covers, in order.
pub open spec fn signed_header_names() -> Seq<Seq<char>> {
    seq!["(request-target)"@, "host"@, "date"@, "digest"@]
}

/// The values given to the control string of a request.
pub open spec fn signed_header_values(host: Seq<char>, date: Seq<char>, digest: Seq<char>) -> Seq<(Seq<char>, Seq<char>)> {
    seq![("host"@, host), ("date"@, date), ("digest"@, digest)]
}

/// An optional payload, or the empty text.
pub open spec fn payload_text(payload: Option<&str>) -> Seq<char> {
    match payload {
        Some(p) => p@,
        None => Seq::empty(),
    }
}

/// The control string of a signed request: the method in lower case, the path of
/// the URL, and the `host`, `date` and `digest` headers.
pub open spec fn request_control(method: Seq<char>, url: Seq<char>, date: Seq<char>, payload: Seq<char>) -> Seq<char> {
    manual_control(
        signed_header_names(),
        lowercase(method),
        request_path(url),
        signed_header_values(server_of(url), date, digest_of(payload)),
    )
}

/// The headers of a request signed by `from` (key `{from}#main-key`, algorithm
/// `rsa-sha256`) over `(request-target) host date digest`: the host is the URL's
/// server, the path is the URL without scheme and host, the digest is that of the
/// payload, and the method goes in lower case.
pub fn signed_request(method: &str, url: &str, payload: Option<&str>, from: &str, key: &str, date: &str)
    -> (r: Result<SignedHeaders, HttpSignatureError>)
    ensures
        r is Ok == key_signs(key@),
        match r {
            Ok(h) => {
                &&& h.host@ == server_of(url@)
                &&& h.date@ == date@
                &&& h.digest@ == digest_of(payload_text(payload))
                &&& exists|s: Seq<char>| #![trigger signed_over(key@, s, request_control(method@, url@, date@, payload_text(payload)))]
                    h.signature@ == header_of(SignatureView {
                        key_id: from@ + "#main-key"@,
                        algorithm: "rsa-sha256"@,
                        headers: signed_header_names(),
                        signature: s,
                        control: request_control(method@, url@, date@, payload_text(payload)),
                    }) && signed_over(key@, s, request_control(method@, url@, date@, payload_text(payload)))
            },
            Err(e) => e is Crypto,
        },
{
    let host = Context::server(url);
    let c = chars_of(url);
    let https = chars_of("https://");
    let http = chars_of("http://");
    let hc = chars_of(host.as_str());
    let empty: Vec<char> = Vec::new();
    let a = chars_replace_all(c.as_slice(), https.as_slice(), empty.as_slice());
    let b = chars_replace_all(a.as_slice(), http.as_slice(), empty.as_slice());
    let p = chars_replace_all(b.as_slice(), hc.as_slice(), empty.as_slice());
    assert(empty@ =~= Seq::<char>::empty());
    let path = string_of(p.as_slice());
    let d = match payload {
        Some(x) => digest(x),
        None => digest(""),
    };
    proof {
        reveal_strlit("");
        assert(""@ =~= Seq::<char>::empty());
    }
    let mut key_id: Vec<char> = Vec::new();
    push_str(&mut key_id, from);
    push_str(&mut key_id, "#main-key");
    let names = ["(request-target)", "host", "date", "digest"];
    let mut signer = HttpSignature::new(string_of(key_id.as_slice()), String::from_str("rsa-sha256"), &names);
    assert(names@.map_values(|h: &str| h@) =~= signed_header_names());
    let mut values: Vec<(String, String)> = Vec::new();
    values.push((String::from_str("host"), host.clone()));
    values.push((String::from_str("date"), String::from_str(date)));
    values.push((String::from_str("digest"), d.clone()));
    assert(pair_views(values@) =~= signed_header_values(host@, date@, d@));
    let m = to_lowercase(method);
    let ghost before = signer@;
    signer.build_manually(m.as_str(), path.as_str(), values);
    let ghost built = signer@;
    match signer.sign(key) {
        Ok(_) => {},
        Err(e) => return Err(e),
    }
    let signature = signer.header();
    let ghost sv = signer@;
    proof {
        assert(p@ == request_path(url@));
        assert(d@ == digest_of(payload_text(payload)));
        let ctl = request_control(method@, url@, date@, payload_text(payload));
        assert(sv == (SignatureView {
            key_id: from@ + "#main-key"@,
            algorithm: "rsa-sha256"@,
            headers: signed_header_names(),
            signature: sv.signature,
            control: ctl,
        }));
        assert(signed_over(key@, sv.signature, ctl));
    }
    Ok(SignedHeaders { host, date: String::from_str(date), digest: d, signature })
}

/// Law: what a signed request carries, the receiving server verifies. The
/// `Signature` header of a request signed under a private key, read back by the
/// receiver and checked over the control string it rebuilds from the request as
/// it arrived (the same method in any case, the URL's path, and the `host`,
/// `date` and `digest` headers that were sent), checks out as true under the
/// public half of the key (where that public key can check SHA-256 signatures
/// and the sender's id holds no comma or quote).
pub proof fn lemma_signed_request_verifies(
    key: Seq<char>,
    from: Seq<char>,
    method: Seq<char>,
    url: Seq<char>,
    date: Seq<char>,
    payload: Seq<char>,
    signature: Seq<char>,
    received_method: Seq<char>,
    received_headers: Seq<(Seq<char>, Seq<char>)>,
)
    requires
        signed_over(key, signature, request_control(method, url, date, payload)),
        verifier_ready(public_half(key)),
        free_of(from, ',') && free_of(from, '"'),
        lowercase(received_method) == lowercase(method),
        lookup_first(received_headers, "host"@) == Some(server_of(url)),
        lookup_first(received_headers, "date"@) == Some(date),
        lookup_first(received_headers, "digest"@) == Some(digest_of(payload)),
    ensures
        ({
            let received = parsed(header_of(SignatureView {
                key_id: from + "#main-key"@,
                algorithm: "rsa-sha256"@,
                headers: signed_header_names(),
                signature,
                control: request_control(method, url, date, payload),
            }));
            verified(
                public_half(key),
                SignatureView {
                    control: parts_control(received.headers, received_method, Some(request_path(url)), received_headers),
                    ..received
                },
            )
        }),
{
    reveal_strlit("#main-key");
    reveal_strlit("rsa-sha256");
    reveal_strlit("(request-target)");
    reveal_strlit("host");
    reveal_strlit("date");
    reveal_strlit("digest");
    let names = signed_header_names();
    let values = signed_header_values(server_of(url), date, digest_of(payload));
    let signer = SignatureView {
        key_id: from + "#main-key"@,
        algorithm: "rsa-sha256"@,
        headers: names,
        signature,
        control: request_control(method, url, date, payload),
    };
    let k: Seq<char> = "#main-key"@;
    assert(free_of(signer.key_id, ',') && free_of(signer.key_id, '"')) by {
        assert forall|i: int| 0 <= i < signer.key_id.len() implies signer.key_id[i] != ',' && signer.key_id[i] != '"' by {
            if i >= from.len() {
                assert(signer.key_id[i] == k[i - from.len()]);
            }
        }
    }
    let t: Seq<char> = "(request-target)"@;
    let h: Seq<char> = "host"@;
    let d: Seq<char> = "date"@;
    let g: Seq<char> = "digest"@;
    assert(h != t && d != t && g != t && h != d && h != g && d != g) by {
        assert(h.len() != t.len() && d.len() != t.len() && g.len() != t.len());
        assert(h[0] != d[0] && h[0] != g[0] && d[1] != g[1]);
    }
    assert(names[0] == t && names[1] == h && names[2] == d && names[3] == g);
    assert(header_safe(SignatureView { signature: Seq::empty(), ..signer })) by {
        assert forall|i: int| 0 <= i < names.len() implies {
            &&& free_of(#[trigger] names[i], ',')
            &&& free_of(names[i], '"')
            &&& free_of(names[i], ' ')
        } by {
            assert(names[i] == t || names[i] == h || names[i] == d || names[i] == g);
        }
        let a: Seq<char> = "rsa-sha256"@;
        assert(free_of(a, ',') && free_of(a, '"'));
    }
    lemma_signed_verifies(signer, key, lowercase(method), request_path(url), values);
    assert(lookup_last(values, g) == Some(digest_of(payload)));
    let v2 = values.drop_last();
    let v1 = v2.drop_last();
    assert(v2 =~= seq![(h, server_of(url)), (d, date)]);
    assert(v1 =~= seq![(h, server_of(url))]);
    assert(values.last() == (g, digest_of(payload)));
    assert(v2.last() == (d, date));
    assert(v1.last() == (h, server_of(url)));
    assert(lookup_last(v1, h) == Some(server_of(url)));
    assert(lookup_last(v2, h) == lookup_last(v1, h));
    assert(lookup_last(values, h) == lookup_last(v2, h));
    assert(lookup_last(v2, d) == Some(date));
    assert(lookup_last(values, d) == lookup_last(v2, d));
    assert forall|i: int| 0 <= i < names.len() && names[i] != "(request-target)"@ implies {
        &&& ascii_lower(#[trigger] names[i])
        &&& lookup_last(values, names[i]) == lookup_first(received_headers, names[i])
    } by {
        assert(names[i] == h || names[i] == d || names[i] == g);
    }
    lemma_parts_match_manual(names, received_method, Some(request_path(url)), received_headers, values);
}

/// A link of a WebFinger answer.
#[derive(Debug, Clone)]
pub struct WebfingerLink {
    pub rel: String,
    pub href: Option<String>,
}

/// The subject that a WebFinger lookup of `user` at `host` asks about.
pub open spec fn webfinger_subject(user: Seq<char>, host: Seq<char>) -> Seq<char> {
    "acct:"@ + user + "@"@ + host
}

/// The subject that a WebFinger lookup of `user` at `host` asks about.
pub fn webfinger_subject_of(user: &str, host: &str) -> (r: String)
    ensures
        r@ == webfinger_subject(user@, host@),
{
    let mut out: Vec<char> = Vec::new();
    push_str(&mut out, "acct:");
    push_str(&mut out, user);
    push_str(&mut out, "@");
    push_str(&mut out, host);
    string_of(out.as_slice())
}

/// The address of a WebFinger lookup.
pub fn webfinger_url(user: &str, host: &str) -> (r: String)
    ensures
        r@ == "https://"@ + host@ + "/.well-known/webfinger?resource="@ + webfinger_subject(user@, host@),
{
    let subject = webfinger_subject_of(user, host);
    let mut out: Vec<char> = Vec::new();
    push_str(&mut out, "https://");
    push_str(&mut out, host);
    push_str(&mut out, "/.well-known/webfinger?resource=");
    push_str(&mut out, subject.as_str());
    string_of(out.as_slice())
}

/// The `href` of the first link with relation `self` that has one.
pub open spec fn first_self_href(links: Seq<WebfingerLink>) -> Option<Seq<char>>
    decreases links.len(),
{
    if links.len() == 0 {
        None
    } else if links[0].rel@ == "self"@ && links[0].href is Some {
        Some(links[0].href->0@)
    } else {
        first_self_href(links.subrange(1, links.len() as int))
    }
}

/// The actor id that a WebFinger answer gives: none when it is about another
/// subject; else the first `self` link's target, else the first alias, else none.
pub open spec fn webfinger_answer(expected: Seq<char>, subject: Seq<char>, links: Seq<WebfingerLink>, aliases: Seq<Seq<char>>) -> Option<Seq<char>> {
    if subject != expected {
        None
    } else {
        match first_self_href(links) {
            Some(h) => Some(h),
            None => if aliases.len() > 0 { Some(aliases[0]) } else { None },
        }
    }
}

/// The actor id that a WebFinger answer gives.
pub fn webfinger_result(expected: &str, subject: &str, links: &Vec<WebfingerLink>, aliases: &Vec<String>) -> (r: Option<String>)
    ensures
        match webfinger_answer(expected@, subject@, links@, string_views(aliases@)) {
            Some(a) => r matches Some(s) && s@ == a,
            None => r is None,
        },
{
    let e = chars_of(expected);
    let s = chars_of(subject);
    if !chars_eq(e.as_slice(), s.as_slice()) {
        return None;
    }
    let mut i: usize = 0;
    assert(links@.subrange(0, links@.len() as int) =~= links@);
    while i < links.len()
        invariant
            i <= links@.len(),
            expected@ == subject@,
            first_self_href(links@.subrange(i as int, links@.len() as int)) == first_self_href(links@),
        decreases links@.len() - i,
    {
        let rel = chars_of(links[i].rel.as_str());
        if chars_eq_str(rel.as_slice(), "self") {
            if let Some(h) = &links[i].href {
                let ghost rest = links@.subrange(i as int, links@.len() as int);
                assert(rest[0] == links@[i as int]);
                assert(rest[0].rel@ == "self"@);
                assert(rest[0].href == Some(*h));
                assert(first_self_href(rest) == Some(h@));
                let hc = h.clone();
                return Some(hc);
            }
        }
        let ghost rest = links@.subrange(i as int, links@.len() as int);
        assert(rest.subrange(1, rest.len() as int) =~= links@.subrange(i + 1, links@.len() as int));
        i = i + 1;
    }
    assert(links@.subrange(links@.len() as int, links@.len() as int) =~= Seq::<WebfingerLink>::empty());
    if aliases.len() > 0 {
        assert(string_views(aliases@)[0] == aliases@[0]@);
        return Some(aliases[0].clone());
    }
    None
}

/// A newly seen instance: its name and icon as its server actor gives them (when
/// that could be fetched), its software, version and counts as its nodeinfo
/// gives them (when that could be fetched), never down, seen first at `now`.
pub fn fetched_instance(domain: &str, name: Option<String>, icon: Option<String>, nodeinfo: Option<NodeInfo>, now: i64)
    -> (r: instance::Model)
    ensures
        r.internal == 0,
        r.domain@ == domain@,
        r.name == name,
        r.icon == icon,
        r.down_since is None,
        match nodeinfo {
            Some(n) => r.software == Some(n.software) && r.version == n.version
                && r.users == n.users && r.posts == n.local_posts,
            None => r.software is None && r.version is None && r.users is None && r.posts is None,
        },
        r.published == now && r.updated == now,
{
    let (software, version, users, posts) = match nodeinfo {
        Some(n) => (Some(n.software), n.version, n.users, n.local_posts),
        None => (None, None, None, None),
    };
    instance::Model {
        internal: 0,
        domain: domain.to_string(),
        name,
        software,
        down_since: None,
        icon,
        version,
        users,
        posts,
        published: now,
        updated: now,
    }
}

} // verus!
