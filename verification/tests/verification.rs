//! The signature verifier and the decoding helpers, on concrete values.

use bors2::crypto::{
    generate_webhook_secret, github_signature_header, hex_bytes, signature_matches,
    verify_github_signature,
};
use bors2::forms::{base64_decode, parse_form, find_field, split_repo_ident, u32_string,
    urlencode_str, utf8_string};

#[test]
fn hex_of_known_bytes() {
    assert_eq!(hex_bytes(&[]), Vec::<u8>::new());
    assert_eq!(hex_bytes(&[0x00, 0x0f, 0xa5, 0xff]), b"000fa5ff".to_vec());
}

#[test]
fn signature_header_matches_known_hmac_sha1_vector() {
    // HMAC-SHA1("key", "The quick brown fox jumps over the lazy dog")
    //   = de7c9b85b8b78aa6bc8a7a36f70a90701c9db4d9
    let header = github_signature_header(
        b"key",
        b"The quick brown fox jumps over the lazy dog",
    )
    .unwrap();
    assert_eq!(
        String::from_utf8(header).unwrap(),
        "sha1=de7c9b85b8b78aa6bc8a7a36f70a90701c9db4d9"
    );
}

#[test]
fn correct_signature_is_accepted() {
    let secret = b"s3cr3t";
    let body = b"{\"action\":\"opened\"}";
    let header = github_signature_header(secret, body).unwrap();
    assert_eq!(verify_github_signature(secret, body, &header), Some(true));
}

#[test]
fn altered_signature_is_rejected() {
    let secret = b"s3cr3t";
    let body = b"{\"action\":\"opened\"}";
    let mut header = github_signature_header(secret, body).unwrap();
    // flip one bit of the signature
    let last = header.len() - 1;
    header[last] ^= 0x01;
    assert_eq!(verify_github_signature(secret, body, &header), Some(false));
}

#[test]
fn altered_body_is_rejected() {
    let secret = b"s3cr3t";
    let body = b"{\"action\":\"opened\"}";
    let header = github_signature_header(secret, body).unwrap();
    let mut tampered = body.to_vec();
    tampered[0] ^= 0x01;
    assert_eq!(verify_github_signature(secret, &tampered, &header), Some(false));
}

#[test]
fn signature_comparison_is_exact() {
    assert!(signature_matches(b"sha1=ab", b"sha1=ab"));
    assert!(!signature_matches(b"sha1=ab", b"sha1=ac"));
    assert!(!signature_matches(b"sha1=ab", b"sha1=abc"));
    assert!(!signature_matches(b"sha1=ab", b""));
}

#[test]
fn webhook_secret_is_twenty_alphanumerics() {
    let s = generate_webhook_secret();
    assert_eq!(s.chars().count(), 20);
    assert!(s.chars().all(|c| c.is_ascii_alphanumeric()));
}

#[test]
fn form_fields_are_decoded() {
    let fields = parse_form(b"repo=acme%2Fwidgets&token=a+b");
    assert_eq!(find_field(&fields, "repo"), Some("acme/widgets".to_string()));
    assert_eq!(find_field(&fields, "token"), Some("a b".to_string()));
    assert_eq!(find_field(&fields, "code"), None);
}

#[test]
fn first_form_field_wins() {
    let fields = parse_form(b"token=first&token=second");
    assert_eq!(find_field(&fields, "token"), Some("first".to_string()));
}

#[test]
fn base64_decoding_round_trips() {
    assert_eq!(base64_decode(b"aGVsbG8="), Some(b"hello".to_vec()));
    assert_eq!(base64_decode(b"not base64!"), None);
}

#[test]
fn utf8_decoding_is_exact() {
    assert_eq!(utf8_string(b"caf\xc3\xa9"), Some("caf\u{e9}".to_string()));
    assert_eq!(utf8_string(&[0xff, 0xfe]), None);
}

#[test]
fn repo_identifiers_split_at_first_slash() {
    assert_eq!(
        split_repo_ident("acme/widgets"),
        Some(("acme".to_string(), "widgets".to_string()))
    );
    assert_eq!(
        split_repo_ident("acme/widgets/extra"),
        Some(("acme".to_string(), "widgets/extra".to_string()))
    );
    assert_eq!(split_repo_ident("acme"), None);
    assert_eq!(split_repo_ident("/widgets"), None);
    assert_eq!(split_repo_ident("acme/"), None);
    assert_eq!(split_repo_ident(""), None);
    assert_eq!(split_repo_ident("/"), None);
}

#[test]
fn numbers_format_in_decimal() {
    assert_eq!(u32_string(0), "0");
    assert_eq!(u32_string(7), "7");
    assert_eq!(u32_string(1234567890), "1234567890");
}

#[test]
fn query_values_are_percent_encoded() {
    assert_eq!(urlencode_str("acme/widgets"), "acme%2fwidgets");
    assert_eq!(urlencode_str("a b:c"), "a%20b%3ac");
    assert_eq!(urlencode_str("safe-._~09AZaz"), "safe-._~09AZaz");
}

#[test]
fn empty_bodies_still_verify_exactly() {
    let secret = b"k";
    let header = github_signature_header(secret, b"").unwrap();
    assert_eq!(header.len(), 5 + 40);
    assert_eq!(verify_github_signature(secret, b"", &header), Some(true));
    assert_eq!(verify_github_signature(secret, b"x", &header), Some(false));
}
