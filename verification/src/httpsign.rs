//! HTTP signatures (draft-cavage): the `Signature` header, its control string,
//! signing and verification.

use vstd::prelude::*;
use crate::text::{
    split, split_once, trim, join, string_views, opt_view, free_of, lemma_split_once_at,
    lemma_trim_quoted, lemma_join_free, lemma_free_concat, lemma_split_concat, lemma_split_free, lemma_split_join, views, chars_of, string_of, push_str, push_chars,
    chars_split, chars_split_once, chars_trim, chars_join, chars_eq_str,
};
use crate::crypto::{
    base64_encoding, base64_decoding, sha256_hash, signature_check, base64_encode, base64_decode,
    sha256, sign_sha256, verify_sha256, check_verifier, verifier_ready, key_signs, public_half,
    base64_text, base64_char,
};

verus! {

/// The fields of an HTTP signature as sequences of characters.
pub struct SignatureView {
    pub key_id: Seq<char>,
    pub algorithm: Seq<char>,
    pub headers: Seq<Seq<char>>,
    pub signature: Seq<char>,
    pub control: Seq<char>,
}

#[derive(Debug, Clone)]
pub struct HttpSignature {
    pub key_id: String,
    pub algorithm: String,
    pub headers: Vec<String>,
    pub signature: String,
    pub control: String,
}

impl View for HttpSignature {
    type V = SignatureView;

    open spec fn view(&self) -> SignatureView {
        SignatureView {
            key_id: self.key_id@,
            algorithm: self.algorithm@,
            headers: string_views(self.headers@),
            signature: self.signature@,
            control: self.control@,
        }
    }
}

/// The signature with every field empty.
pub open spec fn empty_signature() -> SignatureView {
    SignatureView {
        key_id: Seq::empty(),
        algorithm: Seq::empty(),
        headers: Seq::empty(),
        signature: Seq::empty(),
        control: Seq::empty(),
    }
}

/// The effect of one `name=value` item of a `Signature` header: a known name
/// sets its field to the value stripped of surrounding quotes, anything else is ignored.
pub open spec fn apply_item(sig: SignatureView, item: Seq<char>) -> SignatureView {
    match split_once(item, '=') {
        None => sig,
        Some(kv) => {
            let v = trim(kv.1, '"');
            if kv.0 == "keyId"@ {
                SignatureView { key_id: v, ..sig }
            } else if kv.0 == "algorithm"@ {
                SignatureView { algorithm: v, ..sig }
            } else if kv.0 == "signature"@ {
                SignatureView { signature: v, ..sig }
            } else if kv.0 == "headers"@ {
                SignatureView { headers: split(v, ' '), ..sig }
            } else {
                sig
            }
        },
    }
}

/// The items applied in order.
pub open spec fn apply_items(sig: SignatureView, items: Seq<Seq<char>>) -> SignatureView
    decreases items.len(),
{
    if items.len() == 0 {
        sig
    } else {
        apply_items(apply_item(sig, items[0]), items.subrange(1, items.len() as int))
    }
}

/// The signature that a `Signature` header describes.
pub open spec fn parsed(header: Seq<char>) -> SignatureView {
    apply_items(empty_signature(), split(header, ','))
}

/// The `Signature` header of a signature.
pub open spec fn header_of(sig: SignatureView) -> Seq<char> {
    "keyId=\""@ + sig.key_id + "\",algorithm=\""@ + sig.algorithm + "\",headers=\""@
        + join(sig.headers, " "@) + "\",signature=\""@ + sig.signature + "\""@
}

/// Whether the header named at position `i` was named before.
pub open spec fn named_before(headers: Seq<Seq<char>>, i: int) -> bool {
    exists|j: int| 0 <= j < i && headers[j] == headers[i]
}

/// The value of the last entry with key `k` (a map built from the entries keeps the last one).
pub open spec fn lookup_last(entries: Seq<(Seq<char>, Seq<char>)>, k: Seq<char>) -> Option<Seq<char>>
    decreases entries.len(),
{
    if entries.len() == 0 {
        None
    } else if entries.last().0 == k {
        Some(entries.last().1)
    } else {
        lookup_last(entries.drop_last(), k)
    }
}

/// The value of the first entry with key `k`.
pub open spec fn lookup_first(entries: Seq<(Seq<char>, Seq<char>)>, k: Seq<char>) -> Option<Seq<char>>
    decreases entries.len(),
{
    if entries.len() == 0 {
        None
    } else if entries[0].0 == k {
        Some(entries[0].1)
    } else {
        lookup_first(entries.subrange(1, entries.len() as int), k)
    }
}

/// The views of string pairs.
pub open spec fn pair_views(v: Seq<(String, String)>) -> Seq<(Seq<char>, Seq<char>)> {
    v.map_values(|p: (String, String)| (p.0@, p.1@))
}

/// An option's value, or the empty sequence.
pub open spec fn or_empty(o: Option<Seq<char>>) -> Seq<char> {
    match o {
        Some(v) => v,
        None => Seq::empty(),
    }
}

/// Line `i` of the control string built from a method, a target and header values:
/// each value is taken out of the map when used, so a header named twice gets an empty value.
pub open spec fn manual_line(
    headers: Seq<Seq<char>>,
    i: int,
    method: Seq<char>,
    target: Seq<char>,
    values: Seq<(Seq<char>, Seq<char>)>,
) -> Seq<char> {
    if headers[i] == "(request-target)"@ {
        "(request-target): "@ + method + " "@ + target
    } else {
        headers[i] + ": "@ + (if named_before(headers, i) {
            Seq::<char>::empty()
        } else {
            or_empty(lookup_last(values, headers[i]))
        })
    }
}

/// The control string built from a method, a target and header values.
pub open spec fn manual_control(
    headers: Seq<Seq<char>>,
    method: Seq<char>,
    target: Seq<char>,
    values: Seq<(Seq<char>, Seq<char>)>,
) -> Seq<char> {
    join(Seq::new(headers.len(), |i: int| manual_line(headers, i, method, target, values)), "\n"@)
}

/// What `str::to_lowercase` returns.
pub uninterp spec fn lowercase(s: Seq<char>) -> Seq<char>;

/// A text of ASCII characters none of which is an upper-case letter.
pub open spec fn ascii_lower(s: Seq<char>) -> bool {
    forall|i: int| 0 <= i < s.len() ==> (#[trigger] s[i] as u32) < 128 && !('A' <= s[i] <= 'Z')
}

/// A header name in lower case: the name itself when it is already lower-case
/// ASCII, else what `str::to_lowercase` makes of it.
pub open spec fn lower_name(s: Seq<char>) -> Seq<char> {
    if ascii_lower(s) { s } else { lowercase(s) }
}

/// `str::to_lowercase`: the result is named, a function of the text alone; an
/// ASCII text with no upper-case letter has itself as its lower-case form.
#[verifier::external_body]
pub(crate) fn to_lowercase(s: &str) -> (r: String)
    ensures
        r@ == lowercase(s@),
        ascii_lower(s@) ==> r@ == s@,
{
    s.to_lowercase()
}

/// The parts of an incoming request that a signature covers. Header names are
/// lower case; a value that is not visible ASCII is given as the empty string.
#[derive(Debug, Clone)]
pub struct RequestParts {
    pub method: String,
    pub path_and_query: Option<String>,
    pub headers: Vec<(String, String)>,
}

/// Line `i` of the control string built from the parts of a request.
pub open spec fn parts_line(headers: Seq<Seq<char>>, i: int, method: Seq<char>, path: Option<Seq<char>>, values: Seq<(Seq<char>, Seq<char>)>) -> Seq<char> {
    if headers[i] == "(request-target)"@ {
        "(request-target): "@ + lowercase(method) + " "@ + (match path {
            Some(p) => p,
            None => "/"@,
        })
    } else {
        lower_name(headers[i]) + ": "@ + or_empty(lookup_first(values, lower_name(headers[i])))
    }
}

/// The control string built from the parts of a request.
pub open spec fn parts_control(headers: Seq<Seq<char>>, method: Seq<char>, path: Option<Seq<char>>, values: Seq<(Seq<char>, Seq<char>)>) -> Seq<char> {
    join(Seq::new(headers.len(), |i: int| parts_line(headers, i, method, path, values)), "\n"@)
}

/// The bytes that a control string is signed as (its UTF-8 encoding).
pub open spec fn control_bytes(control: Seq<char>) -> Seq<u8> {
    vstd::utf8::encode_utf8(control)
}

/// `signature` is the standard base64 of a signature over `control` (as UTF-8)
/// that checks out as true under the public half of the private key.
pub open spec fn signed_over(private_pem: Seq<char>, signature: Seq<char>, control: Seq<char>) -> bool {
    &&& base64_text(signature)
    &&& exists|b: Seq<u8>| #![trigger base64_encoding(b)]
            base64_encoding(b) == signature && base64_decoding(signature) == Some(b)
            && signature_check(public_half(private_pem), b, control_bytes(control)) == Some(true)
}

/// A signature checks out as true under a public key: the key can check SHA-256
/// signatures, the stored signature is base64, and its bytes check out over the
/// control string.
pub open spec fn verified(public_pem: Seq<char>, sig: SignatureView) -> bool {
    &&& verifier_ready(public_pem)
    &&& match base64_decoding(sig.signature) {
            Some(bytes) => signature_check(public_pem, bytes, control_bytes(sig.control)) == Some(true),
            None => false,
        }
}

/// Errors of signing and verification.
#[derive(Debug)]
pub enum HttpSignatureError {
    Crypto(openssl::error::ErrorStack),
    Base64(base64::DecodeError),
}

/// The `Digest` header value of a payload.
pub open spec fn digest_of(payload: Seq<char>) -> Seq<char> {
    "sha-256="@ + base64_encoding(sha256_hash(vstd::utf8::encode_utf8(payload)))
}

/// The `Digest` header value of a payload: its SHA-256 hash in standard base64.
pub fn digest(payload: &str) -> (r: String)
    ensures
        r@ == digest_of(payload@),
{
    let hash = sha256(payload.as_bytes());
    let encoded = base64_encode(hash.as_slice());
    let mut out: Vec<char> = Vec::new();
    push_str(&mut out, "sha-256=");
    push_str(&mut out, encoded.as_str());
    string_of(out.as_slice())
}


/// Converts character vectors into strings.
pub fn strings_of(parts: &Vec<Vec<char>>) -> (r: Vec<String>)
    ensures
        string_views(r@) == views(parts@),
{
    let mut r: Vec<String> = Vec::new();
    let mut i: usize = 0;
    while i < parts.len()
        invariant
            i <= parts@.len(),
            string_views(r@) == views(parts@).take(i as int),
        decreases parts@.len() - i,
    {
        let s = string_of(parts[i].as_slice());
        let ghost before = r@;
        r.push(s);
        assert(string_views(r@) =~= string_views(before).push(s@));
        assert(views(parts@).take(i + 1) =~= views(parts@).take(i as int).push(parts@[i as int]@));
        i = i + 1;
    }
    assert(views(parts@).take(parts@.len() as int) =~= views(parts@));
    r
}

/// Converts strings into character vectors.
pub fn char_vecs(v: &Vec<String>) -> (r: Vec<Vec<char>>)
    ensures
        views(r@) == string_views(v@),
{
    let mut r: Vec<Vec<char>> = Vec::new();
    let mut i: usize = 0;
    while i < v.len()
        invariant
            i <= v@.len(),
            views(r@) == string_views(v@).take(i as int),
        decreases v@.len() - i,
    {
        let c = chars_of(v[i].as_str());
        let ghost before = r@;
        r.push(c);
        assert(views(r@) =~= views(before).push(c@));
        assert(string_views(v@).take(i + 1) =~= string_views(v@).take(i as int).push(v@[i as int]@));
        i = i + 1;
    }
    assert(string_views(v@).take(v@.len() as int) =~= string_views(v@));
    r
}

impl Default for HttpSignature {
    fn default() -> (r: Self)
        ensures
            r@ == empty_signature(),
    {
        let r = HttpSignature {
            key_id: String::new(),
            algorithm: String::new(),
            headers: Vec::new(),
            signature: String::new(),
            control: String::new(),
        };
        assert(r@.headers =~= Seq::<Seq<char>>::empty());
        r
    }
}

impl HttpSignature {
    /// A signature to be built over the given headers, not signed yet.
    pub fn new(key_id: String, algorithm: String, headers: &[&str]) -> (r: Self)
        ensures
            r@ == (SignatureView {
                key_id: key_id@,
                algorithm: algorithm@,
                headers: headers@.map_values(|h: &str| h@),
                signature: Seq::empty(),
                control: Seq::empty(),
            }),
    {
        let mut hs: Vec<String> = Vec::new();
        let mut i: usize = 0;
        while i < headers.len()
            invariant
                i <= headers@.len(),
                string_views(hs@) == headers@.map_values(|h: &str| h@).take(i as int),
            decreases headers@.len() - i,
        {
            let c = chars_of(headers[i]);
            let s = string_of(c.as_slice());
            let ghost before = hs@;
            hs.push(s);
            assert(string_views(hs@) =~= string_views(before).push(s@));
            assert(headers@.map_values(|h: &str| h@).take(i + 1)
                =~= headers@.map_values(|h: &str| h@).take(i as int).push(headers@[i as int]@));
            i = i + 1;
        }
        assert(headers@.map_values(|h: &str| h@).take(headers@.len() as int) =~= headers@.map_values(|h: &str| h@));
        HttpSignature {
            key_id,
            algorithm,
            headers: hs,
            signature: String::new(),
            control: String::new(),
        }
    }

    /// Reads a `Signature` header: comma-separated `name="value"` items, of which
    /// `keyId`, `algorithm`, `signature` and `headers` (space-separated) are kept.
    pub fn parse(header: &str) -> (r: Self)
        ensures
            r@ == parsed(header@),
    {
        let hc = chars_of(header);
        let items = chars_split(hc.as_slice(), ',');
        let ghost its = views(items@);
        let mut sig = HttpSignature::default();
        let mut i: usize = 0;
        assert(its.subrange(0, its.len() as int) =~= its);
        while i < items.len()
            invariant
                its == views(items@),
                i <= items@.len(),
                apply_items(sig@, its.subrange(i as int, its.len() as int)) == parsed(header@),
            decreases items@.len() - i,
        {
            let ghost before = sig@;
            sig.apply(items[i].as_slice());
            proof {
                let rest = its.subrange(i as int, its.len() as int);
                assert(rest.subrange(1, rest.len() as int) =~= its.subrange(i + 1, its.len() as int));
                assert(rest[0] == its[i as int]);
            }
            i = i + 1;
        }
        assert(its.subrange(its.len() as int, its.len() as int) =~= Seq::<Seq<char>>::empty());
        sig
    }

    /// Applies one `name=value` item.
    fn apply(&mut self, item: &[char])
        ensures
            final(self)@ == apply_item(old(self)@, item@),
    {
        match chars_split_once(item, '=') {
            None => {},
            Some((k, v)) => {
                let value = chars_trim(v.as_slice(), '"');
                if chars_eq_str(k.as_slice(), "keyId") {
                    self.key_id = string_of(value.as_slice());
                } else if chars_eq_str(k.as_slice(), "algorithm") {
                    self.algorithm = string_of(value.as_slice());
                } else if chars_eq_str(k.as_slice(), "signature") {
                    self.signature = string_of(value.as_slice());
                } else if chars_eq_str(k.as_slice(), "headers") {
                    let parts = chars_split(value.as_slice(), ' ');
                    self.headers = strings_of(&parts);
                }
            },
        }
    }

    /// The `Signature` header: `keyId`, `algorithm`, `headers` and `signature`, quoted.
    pub fn header(&self) -> (r: String)
        ensures
            r@ == header_of(self@),
    {
        let hs = char_vecs(&self.headers);
        let joined = chars_join(&hs, " ");
        let mut out: Vec<char> = Vec::new();
        push_str(&mut out, "keyId=\"");
        push_str(&mut out, self.key_id.as_str());
        push_str(&mut out, "\",algorithm=\"");
        push_str(&mut out, self.algorithm.as_str());
        push_str(&mut out, "\",headers=\"");
        push_chars(&mut out, joined.as_slice());
        push_str(&mut out, "\",signature=\"");
        push_str(&mut out, self.signature.as_str());
        push_str(&mut out, "\"");
        string_of(out.as_slice())
    }

    /// Builds the control string from a method, a request target and header values:
    /// one line per covered header, `(request-target): {method} {target}` for the
    /// pseudo-header and `{name}: {value}` otherwise, joined by newlines. Each value is
    /// taken from `values` once (the last entry of a repeated key wins); a header
    /// named again, or missing from `values`, gets an empty value.
    pub fn build_manually(&mut self, method: &str, target: &str, values: Vec<(String, String)>) -> (r: &mut Self)
        ensures
            r@ == (SignatureView {
                control: manual_control(old(self)@.headers, method@, target@, pair_views(values@)),
                ..old(self)@
            }),
            *final(self) == *final(r),
    {
        let ghost hs = self@.headers;
        let ghost vs = pair_views(values@);
        let n = self.headers.len();
        let mut lines: Vec<Vec<char>> = Vec::new();
        let mut i: usize = 0;
        while i < n
            invariant
                n == self.headers@.len(),
                hs == self@.headers,
                vs == pair_views(values@),
                i <= n,
                views(lines@) == Seq::new(i as nat, |k: int| manual_line(hs, k, method@, target@, vs)),
            decreases n - i,
        {
            let h = chars_of(self.headers[i].as_str());
            let mut line: Vec<char> = Vec::new();
            if chars_eq_str(h.as_slice(), "(request-target)") {
                push_str(&mut line, "(request-target): ");
                push_str(&mut line, method);
                push_str(&mut line, " ");
                push_str(&mut line, target);
            } else {
                push_chars(&mut line, h.as_slice());
                push_str(&mut line, ": ");
                if !self.named_before(i) {
                    match lookup_last_exec(&values, self.headers[i].as_str()) {
                        Some(v) => push_str(&mut line, v.as_str()),
                        None => {},
                    }
                }
            }
            assert(h@ == hs[i as int]);
            assert(line@ =~= manual_line(hs, i as int, method@, target@, vs));
            let ghost before = lines@;
            lines.push(line);
            assert(views(lines@) =~= views(before).push(line@));
            assert(views(lines@) =~= Seq::new((i + 1) as nat, |k: int| manual_line(hs, k, method@, target@, vs)));
            i = i + 1;
        }
        let control = chars_join(&lines, "\n");
        self.control = string_of(control.as_slice());
        self
    }

    /// Whether the header at position `i` is named at an earlier position too.
    fn named_before(&self, i: usize) -> (r: bool)
        requires
            i < self.headers@.len(),
        ensures
            r == named_before(self@.headers, i as int),
    {
        let mut j: usize = 0;
        while j < i
            invariant
                i < self.headers@.len(),
                j <= i,
                forall|k: int| 0 <= k < j ==> self@.headers[k] != self@.headers[i as int],
            decreases i - j,
        {
            if self.headers[j] == self.headers[i] {
                assert(self@.headers[j as int] == self@.headers[i as int]);
                return true;
            }
            j = j + 1;
        }
        false
    }

    /// Builds the control string from the parts of an incoming request: the
    /// pseudo-header gives `(request-target): {method} {path}` with the method in
    /// lower case and `/` for a missing path; any other header gives its lower-case
    /// name and the first value under that name, or an empty value.
    pub fn build_from_parts(&mut self, parts: &RequestParts) -> (r: &mut Self)
        ensures
            r@ == (SignatureView {
                control: parts_control(
                    old(self)@.headers,
                    parts.method@,
                    opt_view(parts.path_and_query),
                    pair_views(parts.headers@),
                ),
                ..old(self)@
            }),
            *final(self) == *final(r),
    {
        let ghost hs = self@.headers;
        let ghost vs = pair_views(parts.headers@);
        let ghost path = opt_view(parts.path_and_query);
        let n = self.headers.len();
        let mut lines: Vec<Vec<char>> = Vec::new();
        let mut i: usize = 0;
        while i < n
            invariant
                n == self.headers@.len(),
                hs == self@.headers,
                vs == pair_views(parts.headers@),
                path == (opt_view(parts.path_and_query)),
                i <= n,
                views(lines@) == Seq::new(i as nat, |k: int| parts_line(hs, k, parts.method@, path, vs)),
            decreases n - i,
        {
            let h = chars_of(self.headers[i].as_str());
            let mut line: Vec<char> = Vec::new();
            if chars_eq_str(h.as_slice(), "(request-target)") {
                push_str(&mut line, "(request-target): ");
                let m = to_lowercase(parts.method.as_str());
                push_str(&mut line, m.as_str());
                push_str(&mut line, " ");
                match &parts.path_and_query {
                    Some(p) => push_str(&mut line, p.as_str()),
                    None => push_str(&mut line, "/"),
                }
            } else {
                let name = to_lowercase(self.headers[i].as_str());
                push_str(&mut line, name.as_str());
                push_str(&mut line, ": ");
                match lookup_first_exec(&parts.headers, name.as_str()) {
                    Some(v) => push_str(&mut line, v.as_str()),
                    None => {},
                }
            }
            assert(h@ == hs[i as int]);
            assert(line@ =~= parts_line(hs, i as int, parts.method@, path, vs));
            let ghost before = lines@;
            lines.push(line);
            assert(views(lines@) =~= views(before).push(line@));
            assert(views(lines@) =~= Seq::new((i + 1) as nat, |k: int| parts_line(hs, k, parts.method@, path, vs)));
            i = i + 1;
        }
        let control = chars_join(&lines, "\n");
        self.control = string_of(control.as_slice());
        self
    }

    /// Stores signature bytes, in standard base64.
    pub fn set_signature_bytes(&mut self, bytes: &[u8])
        ensures
            final(self)@ == (SignatureView { signature: base64_encoding(bytes@), ..old(self)@ }),
            base64_text(final(self)@.signature),
            base64_decoding(final(self)@.signature) == Some(bytes@),
    {
        self.signature = base64_encode(bytes);
    }

    /// Signs the control string with SHA-256 under a private key in PEM form and
    /// stores the signature in standard base64. It succeeds exactly when the key
    /// signs; the stored signature then checks out as true, over the control
    /// string, under the public half of the key. On failure nothing changes.
    pub fn sign(&mut self, key: &str) -> (r: Result<&str, HttpSignatureError>)
        ensures
            r is Ok == key_signs(key@),
            match r {
                Ok(s) => {
                    &&& s@ == final(self)@.signature
                    &&& signed_over(key@, final(self)@.signature, old(self)@.control)
                    &&& final(self)@ == (SignatureView { signature: final(self)@.signature, ..old(self)@ })
                },
                Err(e) => {
                    &&& e is Crypto
                    &&& final(self)@ == old(self)@
                },
            },
    {
        match sign_sha256(key, self.control.as_str().as_bytes()) {
            Ok(bytes) => {
                let ghost control = self@.control;
                self.set_signature_bytes(bytes.as_slice());
                assert(base64_encoding(bytes@) == self@.signature);
                Ok(self.signature.as_str())
            },
            Err(e) => Err(HttpSignatureError::Crypto(e)),
        }
    }

    /// Checks the stored signature (standard base64) over the control string with
    /// SHA-256 under a public key in PEM form. A key that cannot be read, or that
    /// cannot check SHA-256 signatures, fails first; then a signature that is not
    /// base64. It answers true exactly when the signature checks out.
    pub fn verify(&self, key: &str) -> (r: Result<bool, HttpSignatureError>)
        ensures
            !verifier_ready(key@) ==> (r matches Err(e) && e is Crypto),
            verifier_ready(key@) ==> match base64_decoding(self@.signature) {
                None => r matches Err(e) && e is Base64,
                Some(bytes) => match signature_check(key@, bytes, control_bytes(self@.control)) {
                    Some(b) => r matches Ok(x) && x == b,
                    None => r matches Err(e) && e is Crypto,
                },
            },
            (r matches Ok(true)) == verified(key@, self@),
    {
        match check_verifier(key) {
            Ok(()) => {},
            Err(e) => return Err(HttpSignatureError::Crypto(e)),
        }
        let bytes = match base64_decode(self.signature.as_str()) {
            Ok(b) => b,
            Err(e) => return Err(HttpSignatureError::Base64(e)),
        };
        match verify_sha256(key, bytes.as_slice(), self.control.as_str().as_bytes()) {
            Ok(b) => Ok(b),
            Err(e) => Err(HttpSignatureError::Crypto(e)),
        }
    }
}

/// The value of the last entry with key `k`.
fn lookup_last_exec(entries: &Vec<(String, String)>, k: &str) -> (r: Option<String>)
    ensures
        match r {
            Some(v) => lookup_last(pair_views(entries@), k@) == Some(v@),
            None => lookup_last(pair_views(entries@), k@) is None,
        },
{
    let ghost es = pair_views(entries@);
    let kc = chars_of(k);
    let mut i: usize = entries.len();
    assert(es.take(i as int) =~= es);
    while i > 0
        invariant
            es == pair_views(entries@),
            i <= entries@.len(),
            kc@ == k@,
            lookup_last(es.take(i as int), k@) == lookup_last(es, k@),
        decreases i,
    {
        let c = chars_of(entries[i - 1].0.as_str());
        if chars_eq_str(c.as_slice(), k) {
            return Some(entries[i - 1].1.clone());
        }
        assert(es.take(i as int).drop_last() =~= es.take(i - 1));
        i = i - 1;
    }
    None
}

/// The value of the first entry with key `k`.
fn lookup_first_exec(entries: &Vec<(String, String)>, k: &str) -> (r: Option<String>)
    ensures
        match r {
            Some(v) => lookup_first(pair_views(entries@), k@) == Some(v@),
            None => lookup_first(pair_views(entries@), k@) is None,
        },
{
    let ghost es = pair_views(entries@);
    let mut i: usize = 0;
    assert(es.subrange(0, es.len() as int) =~= es);
    while i < entries.len()
        invariant
            es == pair_views(entries@),
            i <= entries@.len(),
            lookup_first(es.subrange(i as int, es.len() as int), k@) == lookup_first(es, k@),
        decreases entries@.len() - i,
    {
        let c = chars_of(entries[i].0.as_str());
        if chars_eq_str(c.as_slice(), k) {
            return Some(entries[i].1.clone());
        }
        let ghost rest = es.subrange(i as int, es.len() as int);
        assert(rest.subrange(1, rest.len() as int) =~= es.subrange(i + 1, es.len() as int));
        i = i + 1;
    }
    None
}


/// A signature whose fields can be written into a header and read back: no comma
/// or quote in any field, no space in a header name, and at least one header.
pub open spec fn header_safe(sig: SignatureView) -> bool {
    &&& free_of(sig.key_id, ',') && free_of(sig.key_id, '"')
    &&& free_of(sig.algorithm, ',') && free_of(sig.algorithm, '"')
    &&& free_of(sig.signature, ',') && free_of(sig.signature, '"')
    &&& sig.headers.len() >= 1
    &&& forall|i: int| 0 <= i < sig.headers.len() ==> {
        &&& free_of(#[trigger] sig.headers[i], ',')
        &&& free_of(sig.headers[i], '"')
        &&& free_of(sig.headers[i], ' ')
    }
}

/// One `name="value"` item of a header.
pub open spec fn quoted_item(name: Seq<char>, value: Seq<char>) -> Seq<char> {
    name + seq!['='] + (seq!['"'] + value + seq!['"'])
}

proof fn lemma_item(sig: SignatureView, name: Seq<char>, value: Seq<char>)
    requires
        free_of(name, '='),
        free_of(value, '"'),
    ensures
        apply_item(sig, quoted_item(name, value)) == (if name == "keyId"@ {
            SignatureView { key_id: value, ..sig }
        } else if name == "algorithm"@ {
            SignatureView { algorithm: value, ..sig }
        } else if name == "signature"@ {
            SignatureView { signature: value, ..sig }
        } else if name == "headers"@ {
            SignatureView { headers: split(value, ' '), ..sig }
        } else {
            sig
        }),
{
    lemma_split_once_at(name, seq!['"'] + value + seq!['"'], '=');
    lemma_trim_quoted(value, '"');
}

/// Law: reading back the `Signature` header of a signature gives its key id,
/// algorithm, covered headers and signature (and an empty control string).
pub proof fn lemma_header_parse_roundtrip(sig: SignatureView)
    requires
        header_safe(sig),
    ensures
        parsed(header_of(sig)) == (SignatureView { control: Seq::empty(), ..sig }),
{
    reveal_strlit("keyId=\"");
    reveal_strlit("\",algorithm=\"");
    reveal_strlit("\",headers=\"");
    reveal_strlit("\",signature=\"");
    reveal_strlit("\"");
    reveal_strlit("keyId");
    reveal_strlit("algorithm");
    reveal_strlit("headers");
    reveal_strlit("signature");
    reveal_strlit(" ");
    let k: Seq<char> = "keyId"@;
    let a: Seq<char> = "algorithm"@;
    let h: Seq<char> = "headers"@;
    let s: Seq<char> = "signature"@;
    assert(free_of(k, '=') && free_of(k, ','));
    assert(free_of(a, '=') && free_of(a, ','));
    assert(free_of(h, '=') && free_of(h, ','));
    assert(free_of(s, '=') && free_of(s, ','));
    assert(k != a && k != h && k != s && a != h && a != s && h != s) by {
        assert(k.len() != a.len());
        assert(k.len() != h.len());
        assert(k.len() != s.len());
        assert(a.len() != h.len());
        assert(a[0] != s[0]);
        assert(h.len() != s.len());
    }
    let j = join(sig.headers, " "@);
    assert(" "@ =~= seq![' ']);
    assert(free_of(" "@, ',') && free_of(" "@, '"'));
    lemma_join_free(sig.headers, " "@, ',');
    lemma_join_free(sig.headers, " "@, '"');
    let i1 = quoted_item(k, sig.key_id);
    let i2 = quoted_item(a, sig.algorithm);
    let i3 = quoted_item(h, j);
    let i4 = quoted_item(s, sig.signature);
    assert(header_of(sig) =~= i1 + seq![','] + (i2 + seq![','] + (i3 + seq![','] + i4)));
    assert(free_of(seq!['='], ',') && free_of(seq!['"'], ','));
    lemma_free_concat(k, seq!['='], ',');
    lemma_free_concat(seq!['"'], sig.key_id, ',');
    lemma_free_concat(seq!['"'] + sig.key_id, seq!['"'], ',');
    lemma_free_concat(k + seq!['='], seq!['"'] + sig.key_id + seq!['"'], ',');
    lemma_free_concat(a, seq!['='], ',');
    lemma_free_concat(seq!['"'], sig.algorithm, ',');
    lemma_free_concat(seq!['"'] + sig.algorithm, seq!['"'], ',');
    lemma_free_concat(a + seq!['='], seq!['"'] + sig.algorithm + seq!['"'], ',');
    lemma_free_concat(h, seq!['='], ',');
    lemma_free_concat(seq!['"'], j, ',');
    lemma_free_concat(seq!['"'] + j, seq!['"'], ',');
    lemma_free_concat(h + seq!['='], seq!['"'] + j + seq!['"'], ',');
    lemma_free_concat(s, seq!['='], ',');
    lemma_free_concat(seq!['"'], sig.signature, ',');
    lemma_free_concat(seq!['"'] + sig.signature, seq!['"'], ',');
    lemma_free_concat(s + seq!['='], seq!['"'] + sig.signature + seq!['"'], ',');
    lemma_split_concat(i3, i4, ',');
    lemma_split_concat(i2, i3 + seq![','] + i4, ',');
    lemma_split_concat(i1, i2 + seq![','] + (i3 + seq![','] + i4), ',');
    lemma_split_free(i1, ',');
    lemma_split_free(i2, ',');
    lemma_split_free(i3, ',');
    lemma_split_free(i4, ',');
    let items = split(header_of(sig), ',');
    assert(items =~= seq![i1, i2, i3, i4]);
    let e = empty_signature();
    lemma_item(e, k, sig.key_id);
    let s1 = SignatureView { key_id: sig.key_id, ..e };
    lemma_item(s1, a, sig.algorithm);
    let s2 = SignatureView { algorithm: sig.algorithm, ..s1 };
    lemma_item(s2, h, j);
    lemma_split_join(sig.headers, ' ');
    let s3 = SignatureView { headers: sig.headers, ..s2 };
    lemma_item(s3, s, sig.signature);
    let s4 = SignatureView { signature: sig.signature, ..s3 };
    assert(items.subrange(1, 4) =~= seq![i2, i3, i4]);
    assert(seq![i2, i3, i4].subrange(1, 3) =~= seq![i3, i4]);
    assert(seq![i3, i4].subrange(1, 2) =~= seq![i4]);
    assert(seq![i4].subrange(1, 1) =~= Seq::<Seq<char>>::empty());
    assert(apply_items(s4, Seq::<Seq<char>>::empty()) == s4);
    assert(apply_items(s3, seq![i4]) == s4);
    assert(apply_items(s2, seq![i3, i4]) == s4);
    assert(apply_items(s1, seq![i2, i3, i4]) == s4);
    assert(apply_items(e, items) == s4);
}

/// Law: what one side signs, the other side verifies. A signature made under a
/// private key over the control string built from a request, sent in a
/// `Signature` header, read back on the other side and checked over the control
/// string that side rebuilds from the same request, checks out as true under the
/// public half of the key (where that public key can check SHA-256 signatures).
pub proof fn lemma_signed_verifies(
    signer: SignatureView,
    private_pem: Seq<char>,
    method: Seq<char>,
    target: Seq<char>,
    values: Seq<(Seq<char>, Seq<char>)>,
)
    requires
        signer.control == manual_control(signer.headers, method, target, values),
        signed_over(private_pem, signer.signature, signer.control),
        verifier_ready(public_half(private_pem)),
        header_safe(SignatureView { signature: Seq::empty(), ..signer }),
    ensures
        parsed(header_of(signer)) == (SignatureView { control: Seq::empty(), ..signer }),
        ({
            let received = parsed(header_of(signer));
            verified(
                public_half(private_pem),
                SignatureView { control: manual_control(received.headers, method, target, values), ..received },
            )
        }),
{
    assert(free_of(signer.signature, ',') && free_of(signer.signature, '"')) by {
        assert forall|i: int| 0 <= i < signer.signature.len() implies signer.signature[i] != ','
            && signer.signature[i] != '"' by {
            assert(base64_char(signer.signature[i]));
        }
    }
    lemma_header_parse_roundtrip(signer);
    let received = parsed(header_of(signer));
    assert(received.headers == signer.headers);
    assert(received.signature == signer.signature);
}

/// Law: the receiving side rebuilds the very control string the sending side
/// built. For covered headers named once each, in lower-case ASCII (but for the
/// pseudo-header), and for values under which each covered header finds what the
/// request carries, the control string built from the parts of a request equals
/// the one built by hand from its method in lower case, its path (`/` when it has
/// none) and those values.
pub proof fn lemma_parts_match_manual(
    headers: Seq<Seq<char>>,
    method: Seq<char>,
    path: Option<Seq<char>>,
    parts_values: Seq<(Seq<char>, Seq<char>)>,
    manual_values: Seq<(Seq<char>, Seq<char>)>,
)
    requires
        forall|i: int, j: int| 0 <= i < j < headers.len() ==> headers[i] != headers[j],
        forall|i: int| 0 <= i < headers.len() && headers[i] != "(request-target)"@ ==> {
            &&& ascii_lower(#[trigger] headers[i])
            &&& lookup_last(manual_values, headers[i]) == lookup_first(parts_values, headers[i])
        },
    ensures
        parts_control(headers, method, path, parts_values) == manual_control(
            headers,
            lowercase(method),
            match path { Some(p) => p, None => "/"@ },
            manual_values,
        ),
{
    let target = match path { Some(p) => p, None => "/"@ };
    let a = Seq::new(headers.len(), |i: int| parts_line(headers, i, method, path, parts_values));
    let b = Seq::new(headers.len(), |i: int| manual_line(headers, i, lowercase(method), target, manual_values));
    assert forall|i: int| 0 <= i < headers.len() implies a[i] == b[i] by {
        if headers[i] != "(request-target)"@ {
            assert(!named_before(headers, i));
            assert(lower_name(headers[i]) == headers[i]);
        }
    }
    assert(a =~= b);
}

} // verus!
