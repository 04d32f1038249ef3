use upub::httpsign::{HttpSignature, HttpSignatureError, digest};
use base64::Engine;

#[test]
fn http_signature_signs_and_verifies() {
    let key = openssl::rsa::Rsa::generate(2048).unwrap();
    let private_key = std::str::from_utf8(&key.private_key_to_pem().unwrap()).unwrap().to_string();
    let public_key = std::str::from_utf8(&key.public_key_to_pem().unwrap()).unwrap().to_string();
    let mut signer = HttpSignature {
        key_id: "test".to_string(),
        algorithm: "rsa-sha256".to_string(),
        headers: vec![
            "(request-target)".to_string(),
            "host".to_string(),
            "date".to_string(),
        ],
        signature: String::new(),
        control: String::new(),
    };

    signer
        .build_manually("get", "/actor/inbox", [("host".into(), "example.net".into()), ("date".into(), "Sat, 13 Apr 2024 13:36:23 GMT".into())].into())
        .sign(&private_key)
        .unwrap();

    let mut verifier = HttpSignature::parse(&signer.header());
    verifier.build_manually("get", "/actor/inbox", [("host".into(), "example.net".into()), ("date".into(), "Sat, 13 Apr 2024 13:36:23 GMT".into())].into());

    assert!(verifier.verify(&public_key).unwrap());
}

fn sample() -> HttpSignature {
    HttpSignature {
        key_id: "https://example.net/actors/a#main-key".to_string(),
        algorithm: "rsa-sha256".to_string(),
        headers: vec!["(request-target)".to_string(), "host".to_string(), "date".to_string()],
        signature: "c2lnbmF0dXJl".to_string(),
        control: String::new(),
    }
}

#[test]
fn header_lists_fields_quoted() {
    assert_eq!(
        sample().header(),
        "keyId=\"https://example.net/actors/a#main-key\",algorithm=\"rsa-sha256\",headers=\"(request-target) host date\",signature=\"c2lnbmF0dXJl\""
    );
}

#[test]
fn header_parses_back() {
    let s = sample();
    let p = HttpSignature::parse(&s.header());
    assert_eq!(p.key_id, s.key_id);
    assert_eq!(p.algorithm, s.algorithm);
    assert_eq!(p.headers, s.headers);
    assert_eq!(p.signature, s.signature);
    assert_eq!(p.control, "");
}

#[test]
fn parse_ignores_unknown_fields() {
    let p = HttpSignature::parse("keyId=\"k\",foo=\"bar\",signature=\"x\"");
    assert_eq!(p.key_id, "k");
    assert_eq!(p.algorithm, "");
    assert!(p.headers.is_empty());
    assert_eq!(p.signature, "x");
}

#[test]
fn new_starts_unsigned() {
    let s = HttpSignature::new("k".to_string(), "rsa-sha256".to_string(), &["host", "date"]);
    assert_eq!(s.headers, vec!["host".to_string(), "date".to_string()]);
    assert_eq!(s.signature, "");
    assert_eq!(s.control, "");
}

#[test]
fn control_string_lines() {
    let mut s = sample();
    s.build_manually("post", "/inbox", vec![("host".to_string(), "a.example".to_string()), ("date".to_string(), "today".to_string())]);
    assert_eq!(s.control, "(request-target): post /inbox\nhost: a.example\ndate: today");
}

#[test]
fn control_string_missing_value_is_empty() {
    let mut s = sample();
    s.build_manually("get", "/", vec![("host".to_string(), "a".to_string()), ("host".to_string(), "b".to_string())]);
    assert_eq!(s.control, "(request-target): get /\nhost: b\ndate: ");
}

#[test]
fn digest_of_empty_payload() {
    assert_eq!(digest(""), "sha-256=47DEQpj8HBSa+/TImW+5JCeuQeRkm5NMpJWZG3hSuFU=");
}

#[test]
fn verify_rejects_bad_base64() {
    let key = openssl::rsa::Rsa::generate(2048).unwrap();
    let public_key = std::str::from_utf8(&key.public_key_to_pem().unwrap()).unwrap().to_string();
    let mut s = sample();
    s.signature = "not base64!".to_string();
    assert!(matches!(s.verify(&public_key), Err(HttpSignatureError::Base64(_))));
}

#[test]
fn verify_reads_the_key_first() {
    let mut s = sample();
    s.signature = "not base64!".to_string();
    assert!(matches!(s.verify("not a pem key"), Err(HttpSignatureError::Crypto(_))));
}

#[test]
fn verify_rejects_bad_key() {
    let s = sample();
    assert!(matches!(s.verify("not a pem key"), Err(HttpSignatureError::Crypto(_))));
}

#[test]
fn sign_rejects_bad_key() {
    let mut s = sample();
    assert!(matches!(s.sign("not a pem key"), Err(HttpSignatureError::Crypto(_))));
    assert_eq!(s.signature, "c2lnbmF0dXJl");
}

#[test]
fn tampered_control_does_not_verify() {
    let key = openssl::rsa::Rsa::generate(2048).unwrap();
    let private_key = std::str::from_utf8(&key.private_key_to_pem().unwrap()).unwrap().to_string();
    let public_key = std::str::from_utf8(&key.public_key_to_pem().unwrap()).unwrap().to_string();
    let mut s = sample();
    s.build_manually("get", "/x", vec![("host".to_string(), "h".to_string()), ("date".to_string(), "d".to_string())]);
    s.sign(&private_key).unwrap();
    let mut other = HttpSignature::parse(&s.header());
    other.build_manually("get", "/y", vec![("host".to_string(), "h".to_string()), ("date".to_string(), "d".to_string())]);
    assert!(!other.verify(&public_key).unwrap());
}

#[test]
fn control_string_from_request_parts() {
    let mut s = HttpSignature::new("k".to_string(), "rsa-sha256".to_string(), &["(request-target)", "Host", "date"]);
    let parts = upub::httpsign::RequestParts {
        method: "POST".to_string(),
        path_and_query: Some("/inbox?x=1".to_string()),
        headers: vec![("host".to_string(), "a.example".to_string()), ("host".to_string(), "b.example".to_string())],
    };
    s.build_from_parts(&parts);
    assert_eq!(s.control, "(request-target): post /inbox?x=1\nhost: a.example\ndate: ");
    let mut t = HttpSignature::new("k".to_string(), "rsa-sha256".to_string(), &["(request-target)"]);
    t.build_from_parts(&upub::httpsign::RequestParts { method: "GET".to_string(), path_and_query: None, headers: vec![] });
    assert_eq!(t.control, "(request-target): get /");
}

#[test]
fn signed_requests_verify_at_the_receiver() {
    let key = openssl::rsa::Rsa::generate(2048).unwrap();
    let private_key = std::str::from_utf8(&key.private_key_to_pem().unwrap()).unwrap().to_string();
    let public_key = std::str::from_utf8(&key.public_key_to_pem().unwrap()).unwrap().to_string();
    let date = "Sat, 13 Apr 2024 13:36:23 GMT";
    let h = upub::fetch::signed_request("POST", "https://b.example/actors/x/inbox", Some("{}"), "https://a.example/actors/me", &private_key, date).unwrap();
    assert_eq!(h.host, "b.example");
    assert_eq!(h.date, date);
    assert_eq!(h.digest, digest("{}"));
    let mut received = HttpSignature::parse(&h.signature);
    assert_eq!(received.key_id, "https://a.example/actors/me#main-key");
    assert_eq!(received.algorithm, "rsa-sha256");
    assert_eq!(received.headers, vec!["(request-target)".to_string(), "host".to_string(), "date".to_string(), "digest".to_string()]);
    received.build_from_parts(&upub::httpsign::RequestParts {
        method: "POST".to_string(),
        path_and_query: Some("/actors/x/inbox".to_string()),
        headers: vec![("host".to_string(), h.host.clone()), ("date".to_string(), h.date.clone()), ("digest".to_string(), h.digest.clone())],
    });
    assert_eq!(received.control, format!("(request-target): post /actors/x/inbox\nhost: b.example\ndate: {date}\ndigest: {}", h.digest));
    assert!(received.verify(&public_key).unwrap());
    assert!(upub::fetch::signed_request("GET", "https://b.example/", None, "me", "bad key", date).is_err());
}

#[test]
fn parts_and_manual_control_agree() {
    let mut a = HttpSignature::new("k".to_string(), "rsa-sha256".to_string(), &["(request-target)", "host", "date"]);
    let mut b = a.clone();
    a.build_from_parts(&upub::httpsign::RequestParts {
        method: "GET".to_string(),
        path_and_query: Some("/actor/inbox".to_string()),
        headers: vec![("date".to_string(), "Sat, 13 Apr 2024 13:36:23 GMT".to_string()), ("host".to_string(), "example.net".to_string())],
    });
    b.build_manually("get", "/actor/inbox", vec![("host".to_string(), "example.net".to_string()), ("date".to_string(), "Sat, 13 Apr 2024 13:36:23 GMT".to_string())]);
    assert_eq!(a.control, b.control);
    assert_eq!(a.control, "(request-target): get /actor/inbox\nhost: example.net\ndate: Sat, 13 Apr 2024 13:36:23 GMT");
}

#[test]
fn signing_stores_base64_of_a_signature_over_the_control() {
    let key = openssl::rsa::Rsa::generate(2048).unwrap();
    let private_key = std::str::from_utf8(&key.private_key_to_pem().unwrap()).unwrap().to_string();
    let public_key = std::str::from_utf8(&key.public_key_to_pem().unwrap()).unwrap().to_string();
    let mut s = HttpSignature::new("k".to_string(), "rsa-sha256".to_string(), &["(request-target)"]);
    s.build_manually("get", "/", vec![]);
    let stored = s.sign(&private_key).unwrap().to_string();
    assert_eq!(stored, s.signature);
    assert!(stored.chars().all(|c| c.is_ascii_alphanumeric() || c == '+' || c == '/' || c == '='));
    let pkey = openssl::pkey::PKey::public_key_from_pem(public_key.as_bytes()).unwrap();
    let mut v = openssl::sign::Verifier::new(openssl::hash::MessageDigest::sha256(), &pkey).unwrap();
    let bytes = base64::prelude::BASE64_STANDARD.decode(&stored).unwrap();
    assert!(v.verify_oneshot(&bytes, s.control.as_bytes()).unwrap());
}

#[test]
fn sign_refuses_an_encrypted_key_without_asking() {
    let key = openssl::rsa::Rsa::generate(2048).unwrap();
    let pem = key.private_key_to_pem_passphrase(openssl::symm::Cipher::aes_128_cbc(), b"secret").unwrap();
    let encrypted = std::str::from_utf8(&pem).unwrap().to_string();
    let mut s = HttpSignature::new("k".to_string(), "rsa-sha256".to_string(), &["(request-target)"]);
    s.build_manually("get", "/", vec![]);
    let before = s.clone();
    assert!(matches!(s.sign(&encrypted), Err(HttpSignatureError::Crypto(_))));
    assert_eq!(s.signature, before.signature);
}
