//! Calls into `openssl` and `base64`: the signing, verification, hashing and
//! encoding primitives that the HTTP signatures rest on.

use vstd::prelude::*;
use base64::Engine;

verus! {

#[verifier::external_type_specification]
#[verifier::external_body]
pub struct ExErrorStack(openssl::error::ErrorStack);

#[verifier::external_type_specification]
#[verifier::external_body]
pub struct ExDecodeError(base64::DecodeError);

/// What `base64::prelude::BASE64_STANDARD.encode` returns for these bytes.
pub uninterp spec fn base64_encoding(bytes: Seq<u8>) -> Seq<char>;

/// What `base64::prelude::BASE64_STANDARD.decode` returns for this text (`None` on error).
pub uninterp spec fn base64_decoding(text: Seq<char>) -> Option<Seq<u8>>;

/// What `openssl::sha::sha256` returns for these bytes.
pub uninterp spec fn sha256_hash(bytes: Seq<u8>) -> Seq<u8>;

/// Whether a PEM text holds a public key that `openssl::pkey::PKey::public_key_from_pem`
/// reads and that `openssl::sign::Verifier::new` accepts with SHA-256.
pub uninterp spec fn verifier_ready(public_pem: Seq<char>) -> bool;

/// Whether signing with SHA-256 under the private key read from this PEM
/// (`PKey::private_key_from_pem_passphrase` with the empty passphrase, `Signer::new`,
/// `update`, `sign_to_vec`) succeeds.
pub uninterp spec fn key_signs(private_pem: Seq<char>) -> bool;

/// The public half of the private key read from this PEM, written as PEM
/// (`public_key_to_pem`).
pub uninterp spec fn public_half(private_pem: Seq<char>) -> Seq<char>;

/// A character of the standard base64 alphabet, or its padding.
pub open spec fn base64_char(c: char) -> bool {
    ('A' <= c <= 'Z') || ('a' <= c <= 'z') || ('0' <= c <= '9') || c == '+' || c == '/' || c == '='
}

/// A text made of characters of the standard base64 alphabet.
pub open spec fn base64_text(s: Seq<char>) -> bool {
    forall|i: int| 0 <= i < s.len() ==> base64_char(#[trigger] s[i])
}

/// Whether a signature checks out: what `openssl::sign::Verifier::verify_oneshot`
/// returns with SHA-256 under the public key read from this PEM (`None` on error).
pub uninterp spec fn signature_check(public_pem: Seq<char>, signature: Seq<u8>, data: Seq<u8>) -> Option<bool>;

/// `base64::engine::Engine::encode` with the standard alphabet and padding:
/// the result is named, a function of the bytes alone; it is made of the
/// alphabet's characters, and decoding it gives the bytes back.
#[verifier::external_body]
pub(crate) fn base64_encode(bytes: &[u8]) -> (r: String)
    ensures
        r@ == base64_encoding(bytes@),
        base64_text(r@),
        base64_decoding(r@) == Some(bytes@),
{
    base64::prelude::BASE64_STANDARD.encode(bytes)
}

/// `base64::engine::Engine::decode` with the standard alphabet and padding:
/// the result is named, a function of the text alone; it fails exactly where the name is `None`.
#[verifier::external_body]
pub(crate) fn base64_decode(text: &str) -> (r: Result<Vec<u8>, base64::DecodeError>)
    ensures
        match r {
            Ok(bytes) => base64_decoding(text@) == Some(bytes@),
            Err(_) => base64_decoding(text@) is None,
        },
{
    base64::prelude::BASE64_STANDARD.decode(text)
}

/// `openssl::sha::sha256`: the digest is named, a function of the bytes alone,
/// and it is 32 bytes long.
#[verifier::external_body]
pub(crate) fn sha256(bytes: &[u8]) -> (r: Vec<u8>)
    ensures
        r@ == sha256_hash(bytes@),
        r@.len() == 32,
{
    openssl::sha::sha256(bytes).to_vec()
}

/// Signs `data` with SHA-256 under the private key read from `private_pem`
/// (`PKey::private_key_from_pem_passphrase` with the empty passphrase, so that an
/// encrypted key is never asked for on a terminal, `Signer::new`, `Signer::update`,
/// `Signer::sign_to_vec`).
/// Whether it succeeds depends on the key alone; the bytes are a signature of
/// `data` that checks out as true under the key's public half. The bytes
/// themselves are not stated: with some key types the signature is randomized.
#[verifier::external_body]
pub(crate) fn sign_sha256(private_pem: &str, data: &[u8]) -> (r: Result<Vec<u8>, openssl::error::ErrorStack>)
    ensures
        r is Ok == key_signs(private_pem@),
        r matches Ok(sig) ==> signature_check(public_half(private_pem@), sig@, data@) == Some(true),
{
    let key = openssl::pkey::PKey::private_key_from_pem_passphrase(private_pem.as_bytes(), b"")?;
    let mut signer = openssl::sign::Signer::new(openssl::hash::MessageDigest::sha256(), &key)?;
    signer.update(data)?;
    signer.sign_to_vec()
}

/// Checks `signature` over `data` with SHA-256 under the public key read from
/// `public_pem` (`PKey::public_key_from_pem`, `Verifier::new`, `Verifier::verify_oneshot`).
/// Verification draws on no randomness: the outcome is named, a function of the three arguments.
#[verifier::external_body]
pub(crate) fn verify_sha256(public_pem: &str, signature: &[u8], data: &[u8]) -> (r: Result<bool, openssl::error::ErrorStack>)
    ensures
        match r {
            Ok(b) => signature_check(public_pem@, signature@, data@) == Some(b),
            Err(_) => signature_check(public_pem@, signature@, data@) is None,
        },
        !verifier_ready(public_pem@) ==> r is Err,
{
    let key = openssl::pkey::PKey::public_key_from_pem(public_pem.as_bytes())?;
    let mut verifier = openssl::sign::Verifier::new(openssl::hash::MessageDigest::sha256(), &key)?;
    verifier.verify_oneshot(signature, data)
}

/// The number of bits of the modulus of the RSA key that this private PEM holds.
pub uninterp spec fn rsa_key_bits(private_pem: Seq<char>) -> nat;

/// The size in bits of the RSA keys that the server makes.
pub const KEY_BITS: u32 = 2048;

/// `openssl::rsa::Rsa::generate` with `bits` bits, both halves then written as PEM
/// (`public_key_to_pem`, `private_key_to_pem`): the public key, then the private
/// one. The key is random; it has `bits` bits, the first is the public half of the
/// second, and a key of at least 2048 bits signs and verifies with SHA-256.
#[verifier::external_body]
pub(crate) fn rsa_keypair(bits: u32) -> (r: Result<(String, String), openssl::error::ErrorStack>)
    ensures
        r matches Ok((p, q)) ==> p@ == public_half(q@),
        r matches Ok((p, q)) ==> rsa_key_bits(q@) == bits,
        r matches Ok((p, q)) ==> (bits >= 2048 ==> key_signs(q@) && verifier_ready(p@)),
{
    let key = openssl::rsa::Rsa::generate(bits)?;
    let public_pem = key.public_key_to_pem()?;
    let private_pem = key.private_key_to_pem()?;
    Ok((String::from_utf8_lossy(&public_pem).into_owned(), String::from_utf8_lossy(&private_pem).into_owned()))
}

/// What `sha256::digest` returns for this text.
pub uninterp spec fn sha256_hex_digest(text: Seq<char>) -> Seq<char>;

/// `sha256::digest` of a text: the SHA-256 hash of its bytes in lower-case hex
/// (named, a function of the text alone), 64 characters long.
#[verifier::external_body]
pub(crate) fn sha256_hex(text: &str) -> (r: String)
    ensures
        r@ == sha256_hex_digest(text@),
        r@.len() == 64,
{
    sha256::digest(text)
}

/// `openssl::pkey::PKey::public_key_from_pem`, then `openssl::sign::Verifier::new`
/// with SHA-256 on that key, keeping only whether both worked (named, a function
/// of the text alone) and the error.
#[verifier::external_body]
pub(crate) fn check_verifier(public_pem: &str) -> (r: Result<(), openssl::error::ErrorStack>)
    ensures
        r is Ok == verifier_ready(public_pem@),
{
    let key = openssl::pkey::PKey::public_key_from_pem(public_pem.as_bytes())?;
    openssl::sign::Verifier::new(openssl::hash::MessageDigest::sha256(), &key).map(|_| ())
}

} // verus!
