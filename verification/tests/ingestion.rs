//! Webhook ingestion end to end: the concrete accept/reject scenarios, with
//! the real digests linked in.

use bors2::errors::Error;
use bors2::gateway::OutCall;
use bors2::github;
use bors2::ingest::{github_webhook, travis_webhook_finish, travis_webhook_start};
use bors2::models::event::{EventLog, Provider};
use bors2::models::project::ProjectStore;
use bors2::onboarding::{on_hook_registered, Onboarding};
use bors2::travis;

fn store_with_project(secret: &str) -> ProjectStore {
    let mut store = ProjectStore::new();
    let st = Onboarding::AwaitingHook {
        owner: "acme".to_string(),
        name: "widgets".to_string(),
        repo_id: 42,
        token: "tok".to_string(),
        secret: secret.to_string(),
    };
    let hook = github::Webhook {
        id: 1,
        url: "http://localhost:3000/webhook/github/acme/widgets".to_string(),
        name: "web".to_string(),
        events: vec![],
        active: true,
    };
    on_hook_registered(st, &mut store, Ok(hook)).unwrap();
    store
}

fn correct_header(secret: &str, body: &[u8]) -> String {
    String::from_utf8(bors2::crypto::github_signature_header(secret.as_bytes(), body).unwrap())
        .unwrap()
}

#[test]
fn signed_delivery_is_recorded_with_its_exact_body() {
    let secret = "abcdefghij0123456789";
    let store = store_with_project(secret);
    let mut events = EventLog::new();
    let body = b"{\"action\":\"opened\"}".to_vec();
    let header = correct_header(secret, &body);
    let r = github_webhook(
        &store,
        &mut events,
        "acme",
        "widgets",
        Some(&"issues".to_string()),
        Some(&header),
        Some(&"delivery-1".to_string()),
        &body,
    );
    assert!(r.is_ok());
    assert_eq!(events.len(), 1);
    let rows = events.all();
    assert!(matches!(rows[0].provider_id, Provider::GitHub));
    assert_eq!(rows[0].provider_event_id, "delivery-1");
    assert_eq!(rows[0].provider_event, "issues");
    assert_eq!(rows[0].event, "{\"action\":\"opened\"}");
    assert_eq!(rows[0].state, 0);
}

#[test]
fn wrong_signature_records_nothing() {
    let secret = "abcdefghij0123456789";
    let store = store_with_project(secret);
    let mut events = EventLog::new();
    let body = b"{\"action\":\"opened\"}".to_vec();
    let r = github_webhook(
        &store,
        &mut events,
        "acme",
        "widgets",
        Some(&"issues".to_string()),
        Some(&"sha1=deadbeef".to_string()),
        Some(&"delivery-1".to_string()),
        &body,
    );
    assert!(matches!(r, Err(Error::InvalidSignature)));
    assert_eq!(events.len(), 0);
}

#[test]
fn unknown_repository_is_the_missing_project_path() {
    let store = ProjectStore::new();
    let mut events = EventLog::new();
    let body = b"{}".to_vec();
    let r = github_webhook(
        &store,
        &mut events,
        "acme",
        "widgets",
        Some(&"issues".to_string()),
        Some(&"sha1=00".to_string()),
        Some(&"d".to_string()),
        &body,
    );
    assert!(matches!(r, Err(Error::MissingProject)));
    assert_eq!(events.len(), 0);
}

#[test]
fn missing_headers_are_malformed_input() {
    let secret = "abcdefghij0123456789";
    let store = store_with_project(secret);
    let mut events = EventLog::new();
    let body = b"{}".to_vec();
    let r = github_webhook(&store, &mut events, "acme", "widgets", None, None, None, &body);
    assert!(matches!(r, Err(Error::MalformedInput(_))));
    assert_eq!(events.len(), 0);
}

#[test]
fn non_utf8_bodies_are_decode_errors() {
    let secret = "abcdefghij0123456789";
    let store = store_with_project(secret);
    let mut events = EventLog::new();
    let body = vec![0xff, 0xfe, 0xfd];
    let header = correct_header(secret, &body);
    let r = github_webhook(
        &store,
        &mut events,
        "acme",
        "widgets",
        Some(&"issues".to_string()),
        Some(&header),
        Some(&"d".to_string()),
        &body,
    );
    assert!(matches!(r, Err(Error::Decode(_))));
    assert_eq!(events.len(), 0);
}

fn base64_of(bytes: &[u8]) -> String {
    base64::Engine::encode(&base64::engine::general_purpose::STANDARD, bytes)
}

/// A fresh RSA keypair: the SPKI PEM of the public key, and an SHA1
/// signature over `payload` by the private key.
fn keyed_signature(payload: &[u8]) -> (String, Vec<u8>) {
    let rsa = openssl::rsa::Rsa::generate(2048).unwrap();
    let pem = String::from_utf8(rsa.public_key_to_pem().unwrap()).unwrap();
    let pkey = openssl::pkey::PKey::from_rsa(rsa).unwrap();
    let mut signer =
        openssl::sign::Signer::new(openssl::hash::MessageDigest::sha1(), &pkey).unwrap();
    signer.update(payload).unwrap();
    (pem, signer.sign_to_vec().unwrap())
}

fn travis_config(pem: &str) -> travis::GetConfig {
    travis::GetConfig {
        config: travis::Config {
            notifications: travis::Notifications {
                webhook: travis::Webhook { public_key: pem.to_string() },
            },
        },
    }
}

#[test]
fn travis_delivery_decodes_and_asks_for_the_provider_key() {
    let payload = b"{\"state\":\"passed\"}";
    let (_pem, sig) = keyed_signature(payload);
    let body = "payload=%7B%22state%22%3A%22passed%22%7D&other=x".to_string();
    let slug = "acme/widgets".to_string();
    let sig_header = base64_of(&sig);
    let (delivery, call) =
        travis_webhook_start(Some(&slug), Some(&sig_header), body.as_bytes()).unwrap();
    assert_eq!(delivery.payload.as_bytes(), payload);
    assert_eq!(delivery.signature, sig);
    assert_eq!(delivery.owner, "acme");
    assert_eq!(delivery.name, "widgets");
    match call {
        OutCall::HttpGet { url } => assert_eq!(url, "https://api.travis-ci.org/config"),
        _ => panic!("expected the configuration fetch"),
    }
}

#[test]
fn travis_delivery_with_bad_base64_is_a_decode_error() {
    let slug = "acme/widgets".to_string();
    let sig = "!!!not-base64!!!".to_string();
    let r = travis_webhook_start(Some(&slug), Some(&sig), b"payload=x");
    assert!(matches!(r, Err(Error::Decode(_))));
}

#[test]
fn travis_delivery_without_payload_is_malformed() {
    let slug = "acme/widgets".to_string();
    let sig = base64_of(b"x");
    let r = travis_webhook_start(Some(&slug), Some(&sig), b"other=x");
    assert!(matches!(r, Err(Error::MalformedInput(_))));
}

#[test]
fn verified_travis_delivery_is_recorded() {
    let payload = b"{\"state\":\"passed\"}";
    let (pem, sig) = keyed_signature(payload);
    let store = store_with_project("abcdefghij0123456789");
    let mut events = EventLog::new();
    let body = b"payload=%7B%22state%22%3A%22passed%22%7D";
    let slug = "acme/widgets".to_string();
    let sig_header = base64_of(&sig);
    let (delivery, _call) =
        travis_webhook_start(Some(&slug), Some(&sig_header), body).unwrap();
    let r = travis_webhook_finish(&store, &mut events, &delivery, Ok(travis_config(&pem)));
    assert!(r.is_ok());
    assert_eq!(events.len(), 1);
    let rows = events.all();
    assert!(matches!(rows[0].provider_id, Provider::Travis));
    assert_eq!(rows[0].provider_event_id, "");
    assert_eq!(rows[0].provider_event, "");
    assert_eq!(rows[0].event, String::from_utf8(payload.to_vec()).unwrap());
}

#[test]
fn forged_travis_delivery_is_rejected() {
    let payload = b"{\"state\":\"passed\"}";
    let (pem, _sig) = keyed_signature(payload);
    // a signature by some other key
    let (_other_pem, forged) = keyed_signature(payload);
    let store = store_with_project("abcdefghij0123456789");
    let mut events = EventLog::new();
    let slug = "acme/widgets".to_string();
    let sig_header = base64_of(&forged);
    let (delivery, _call) = travis_webhook_start(
        Some(&slug),
        Some(&sig_header),
        b"payload=%7B%22state%22%3A%22passed%22%7D",
    )
    .unwrap();
    let r = travis_webhook_finish(&store, &mut events, &delivery, Ok(travis_config(&pem)));
    assert!(matches!(r, Err(Error::InvalidSignature)));
    assert_eq!(events.len(), 0);
}

#[test]
fn travis_delivery_for_unknown_repository_is_missing_project() {
    let payload = b"{\"state\":\"passed\"}";
    let (pem, sig) = keyed_signature(payload);
    let store = ProjectStore::new();
    let mut events = EventLog::new();
    let slug = "acme/widgets".to_string();
    let sig_header = base64_of(&sig);
    let (delivery, _call) = travis_webhook_start(
        Some(&slug),
        Some(&sig_header),
        b"payload=%7B%22state%22%3A%22passed%22%7D",
    )
    .unwrap();
    let r = travis_webhook_finish(&store, &mut events, &delivery, Ok(travis_config(&pem)));
    assert!(matches!(r, Err(Error::MissingProject)));
    assert_eq!(events.len(), 0);
}

#[test]
fn failed_key_fetch_records_nothing() {
    let store = store_with_project("abcdefghij0123456789");
    let mut events = EventLog::new();
    let sig_header = base64_of(b"sig");
    let slug = "acme/widgets".to_string();
    let (delivery, _call) =
        travis_webhook_start(Some(&slug), Some(&sig_header), b"payload=x").unwrap();
    let r = travis_webhook_finish(
        &store,
        &mut events,
        &delivery,
        Err(Error::Transport("failed to get travis config".to_string())),
    );
    assert!(matches!(r, Err(Error::Transport(_))));
    assert_eq!(events.len(), 0);
}

#[test]
fn garbage_keys_are_decode_errors() {
    let store = store_with_project("abcdefghij0123456789");
    let mut events = EventLog::new();
    let sig_header = base64_of(b"sig");
    let slug = "acme/widgets".to_string();
    let (delivery, _call) =
        travis_webhook_start(Some(&slug), Some(&sig_header), b"payload=x").unwrap();
    let r = travis_webhook_finish(
        &store,
        &mut events,
        &delivery,
        Ok(travis_config("not a pem key")),
    );
    assert!(matches!(r, Err(Error::Decode(_))));
    assert_eq!(events.len(), 0);
}
