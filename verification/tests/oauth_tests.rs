//! The OAuth1 signer, checked against the real HMAC, base64 and
//! percent-encoding implementations.

use clever_operator::oauth::{ClientCredentials, Signer, SignerError};
use clever_operator::text::percent_encode;
use base64::Engine;
use hmac::{KeyInit, Mac};

fn signer() -> Signer {
    Signer {
        nonce: "7fce3b5f-29c5-4d1f-a39c-9c72e3a9fd10".to_string(),
        timestamp: 1700000000,
        credentials: ClientCredentials {
            token: "token-1".to_string(),
            secret: "secret-1".to_string(),
            consumer_key: "consumer-key-1".to_string(),
            consumer_secret: "consumer-secret-1".to_string(),
        },
    }
}

#[test]
fn percent_encoding_matches_urlencoding_crate() {
    let cases: Vec<&[u8]> = vec![
        b"hello world",
        b"a-b.c_d~e",
        b"GET&https://example.com/path?x=1",
        b"\x00\xff\x80 space/slash",
        b"",
    ];
    for c in cases {
        let ours = percent_encode(c);
        let theirs = urlencoding::encode_binary(c);
        assert_eq!(String::from_utf8(ours).unwrap(), theirs.into_owned());
    }
}

#[test]
fn signature_is_reproducible() {
    let s1 = signer();
    let s2 = signer();
    let a = s1.signature("GET", "https://api.example.com/v2/self").unwrap();
    let b = s2.signature("GET", "https://api.example.com/v2/self").unwrap();
    assert_eq!(a, b);
    // a different nonce gives a different signature
    let mut s3 = signer();
    s3.nonce = "00000000-0000-0000-0000-000000000000".to_string();
    let c = s3.signature("GET", "https://api.example.com/v2/self").unwrap();
    assert_ne!(a, c);
}

#[test]
fn signature_matches_manual_computation() {
    let s = signer();
    let method = "GET";
    let url = "https://api.example.com/v2/self";

    // the six OAuth parameters, written k=v and sorted
    let params = vec![
        format!("oauth_consumer_key={}", s.credentials.consumer_key),
        format!("oauth_nonce={}", s.nonce),
        "oauth_signature_method=HMAC-SHA512".to_string(),
        format!("oauth_timestamp={}", s.timestamp),
        format!("oauth_token={}", s.credentials.token),
        "oauth_version=1.0".to_string(),
    ];
    let mut sorted = params.clone();
    sorted.sort();
    let base = format!(
        "{}&{}&{}",
        urlencoding::encode(method),
        urlencoding::encode(url),
        urlencoding::encode(&sorted.join("&"))
    );
    let key = format!(
        "{}&{}",
        urlencoding::encode(&s.credentials.consumer_secret),
        urlencoding::encode(&s.credentials.secret)
    );
    let mut mac = <hmac::Hmac<sha2::Sha512> as KeyInit>::new_from_slice(key.as_bytes()).unwrap();
    hmac::Mac::update(&mut mac, base.as_bytes());
    let digest = mac.finalize().into_bytes();
    let expected = base64::engine::general_purpose::STANDARD.encode(digest.as_slice());

    let got = s.signature(method, url).unwrap();
    assert_eq!(got, expected);
}

#[test]
fn query_parameters_enter_the_base_string() {
    let s = signer();
    let plain = s.signature("GET", "https://api.example.com/v2/addons").unwrap();
    let with_query = s
        .signature("GET", "https://api.example.com/v2/addons?orga_id=orga_x")
        .unwrap();
    assert_ne!(plain, with_query);
}

#[test]
fn malformed_query_is_rejected() {
    let s = signer();
    let r = s.signature("GET", "https://api.example.com/v2/addons?noequalsign");
    assert!(matches!(r, Err(SignerError::Parse(_))));
}

#[test]
fn header_is_oauth_formatted() {
    let s = signer();
    let h = s.sign("GET", "https://api.example.com/v2/self").unwrap();
    assert!(h.starts_with("OAuth "));
    assert!(h.contains("oauth_signature=\""));
    assert!(h.contains("oauth_consumer_key=\"consumer-key-1\""));
    assert!(h.contains("oauth_signature_method=\"HMAC-SHA512\""));
    assert!(h.contains("oauth_version=\"1.0\""));
}

#[test]
fn params_are_sorted_by_name() {
    let s = signer();
    let params = s.params();
    let keys: Vec<String> = params
        .iter()
        .map(|p| String::from_utf8(p.0.clone()).unwrap())
        .collect();
    let mut sorted = keys.clone();
    sorted.sort();
    assert_eq!(keys, sorted);
    assert_eq!(keys.len(), 6);
    assert_eq!(keys[0], "oauth_consumer_key");
}

#[test]
fn try_new_generates_nonce_and_timestamp() {
    let s = Signer::try_new(signer().credentials).unwrap();
    assert_eq!(s.nonce.len(), 36);
    assert!(s.timestamp > 1600000000);
}

#[test]
fn override_credentials_change_the_header() {
    let s1 = signer();
    let mut s2 = signer();
    s2.credentials.consumer_key = "other-consumer".to_string();
    s2.credentials.consumer_secret = "other-secret".to_string();
    let h1 = s1.sign("GET", "https://api.example.com/v2/self").unwrap();
    let h2 = s2.sign("GET", "https://api.example.com/v2/self").unwrap();
    assert_ne!(h1, h2);
    assert!(h2.contains("oauth_consumer_key=\"other-consumer\""));
}

#[test]
fn malformed_query_error_names_the_parameter() {
    let s = signer();
    match s.signature("GET", "https://api.example.com/v2/addons?noequalsign") {
        Err(SignerError::Parse(msg)) => assert!(msg.contains("noequalsign")),
        other => panic!("expected a parse error, got {:?}", other),
    }
}
