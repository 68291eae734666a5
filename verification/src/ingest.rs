//! Webhook ingestion: verify each inbound delivery's authenticity over the
//! exact bytes received, then — and only then — record it in the event
//! table. Source-host deliveries are keyed by the project's own webhook
//! secret; CI-provider deliveries by the provider's global public key,
//! fetched fresh per delivery.

use vstd::prelude::*;

use crate::crypto::{github_signature_ok, rsa_sha1_verified, verify_github_signature};
use crate::errors::Error;
use crate::forms::{
    base64_of, base64_decode, form_fields_of, lookup_field, parse_form, fields_view, find_field,
    repo_ident_ok, split_repo_ident, utf8_string,
};
use crate::gateway::OutCall;
use crate::models::event::{EventLog, Provider};
use crate::models::project::{has_project, project_at, ProjectStore};
use crate::travis;
use vstd::utf8::{decode_utf8, encode_utf8, valid_utf8};

verus! {

/// Whether all three source-host delivery headers are present.
pub open spec fn github_headers_present(
    event_type: Option<&String>,
    signature: Option<&String>,
    delivery_id: Option<&String>,
) -> bool {
    event_type is Some && signature is Some && delivery_id is Some
}

/// Ingest a source-host delivery for `/webhook/github/:owner/:name`.
///
/// The delivery is looked up by (owner, name); a missing project rejects it
/// before anything else. The signature header must equal `"sha1="` plus the
/// hex HMAC-SHA1 of the raw body under the project's webhook secret,
/// compared in constant time. Only a verified, UTF-8 body is recorded, and
/// rejection of any kind records nothing.
pub fn github_webhook(
    store: &ProjectStore,
    events: &mut EventLog,
    owner: &str,
    name: &str,
    event_type: Option<&String>,
    signature: Option<&String>,
    delivery_id: Option<&String>,
    body: &Vec<u8>,
) -> (r: Result<(), Error>)
    requires
        store.wf(),
        old(events).wf(),
        old(events)@.len() < i32::MAX,
    ensures
        final(events).wf(),
        r is Err ==> final(events)@ == old(events)@,
        !github_headers_present(event_type, signature, delivery_id) ==> (r matches Err(e)
            && e is MalformedInput),
        github_headers_present(event_type, signature, delivery_id) && !has_project(
            store@,
            owner@,
            name@,
        ) ==> (r matches Err(e) && e is MissingProject),
        r matches Err(e) && e is InvalidSignature ==> github_headers_present(
            event_type,
            signature,
            delivery_id,
        ) && has_project(store@, owner@, name@) && !github_signature_ok(
            encode_utf8(project_at(store@, owner@, name@).github_webhook_secret),
            body@,
            encode_utf8(signature->0@),
        ),
        github_headers_present(event_type, signature, delivery_id) && has_project(
            store@,
            owner@,
            name@,
        ) && github_signature_ok(
            encode_utf8(project_at(store@, owner@, name@).github_webhook_secret),
            body@,
            encode_utf8(signature->0@),
        ) && !valid_utf8(body@) ==> (r matches Err(e) && e is Decode),
        r matches Err(e) && e is MalformedInput ==> !github_headers_present(
            event_type,
            signature,
            delivery_id,
        ),
        r matches Err(e) && e is MissingProject ==> !has_project(store@, owner@, name@),
        r matches Err(e) && e is Decode ==> github_headers_present(
            event_type,
            signature,
            delivery_id,
        ) && has_project(store@, owner@, name@),
        r is Ok ==> github_headers_present(event_type, signature, delivery_id) && has_project(
            store@,
            owner@,
            name@,
        ) && github_signature_ok(
            encode_utf8(project_at(store@, owner@, name@).github_webhook_secret),
            body@,
            encode_utf8(signature->0@),
        ) && valid_utf8(body@) && final(events)@ =~= old(events)@.push(
            EventLog::inserted_row(
                old(events)@,
                Provider::GitHub,
                delivery_id->0@,
                event_type->0@,
                decode_utf8(body@),
            ),
        ),
{
    let ev = match event_type {
        Some(s) => s,
        None => return Err(Error::MalformedInput(String::from_str("event not present"))),
    };
    let sig = match signature {
        Some(s) => s,
        None => return Err(Error::MalformedInput(String::from_str("signature not present"))),
    };
    let id = match delivery_id {
        Some(s) => s,
        None => return Err(Error::MalformedInput(String::from_str("delivery not present"))),
    };
    let project = match store.find_by_name(owner, name) {
        Ok(p) => p,
        Err(e) => return Err(e),
    };
    let secret_bytes = project.github_webhook_secret.as_str().as_bytes_vec();
    if secret_bytes.len() >= 0x8000_0000 {
        return Err(Error::Decode(String::from_str("oversized webhook secret")));
    }
    let header_bytes = sig.as_str().as_bytes_vec();
    let ok = match verify_github_signature(
        secret_bytes.as_slice(),
        body.as_slice(),
        header_bytes.as_slice(),
    ) {
        Some(b) => b,
        None => return Err(Error::Decode(String::from_str("signature computation failed"))),
    };
    if !ok {
        return Err(Error::InvalidSignature);
    }
    let text = match utf8_string(body.as_slice()) {
        Some(t) => t,
        None => return Err(Error::Decode(String::from_str("body was not valid utf-8"))),
    };
    events.insert(Provider::GitHub, id.as_str(), ev.as_str(), text.as_str());
    Ok(())
}

/// A CI-provider delivery after its inputs were decoded: the `payload` form
/// field (the signed text and the recorded body), the detached signature,
/// and the repository the slug header named.
pub struct TravisDelivery {
    pub payload: String,
    pub signature: Vec<u8>,
    pub owner: String,
    pub name: String,
}

/// Decode a CI-provider delivery: both headers must be present, the
/// form-encoded body must carry a `payload` field, the signature header
/// must be base64, and the slug must name `owner/name`. Verification needs
/// the provider's current public key, so the one outbound call follows.
pub fn travis_webhook_start(
    slug: Option<&String>,
    signature: Option<&String>,
    body: &[u8],
) -> (r: Result<(TravisDelivery, OutCall), Error>)
    ensures
        slug is None || signature is None ==> (r matches Err(e) && e is MalformedInput),
        slug is Some && signature is Some && lookup_field(form_fields_of(body@), "payload"@)
            is None ==> (r matches Err(e) && e is MalformedInput),
        slug is Some && signature is Some && lookup_field(form_fields_of(body@), "payload"@)
            is Some && base64_of(encode_utf8(signature->0@)) is None ==> (r matches Err(e)
            && e is Decode),
        slug is Some && signature is Some && lookup_field(form_fields_of(body@), "payload"@)
            is Some && base64_of(encode_utf8(signature->0@)) is Some && !repo_ident_ok(slug->0@)
            ==> (r matches Err(e) && e is MalformedInput),
        slug is Some && signature is Some && lookup_field(form_fields_of(body@), "payload"@)
            is Some && base64_of(encode_utf8(signature->0@)) is Some && repo_ident_ok(slug->0@)
            ==> r is Ok,
        r matches Ok(p) ==> {
            &&& slug is Some && signature is Some
            &&& Some(p.0.payload@) == lookup_field(form_fields_of(body@), "payload"@)
            &&& Some(p.0.signature@) == base64_of(encode_utf8(signature->0@))
            &&& p.0.owner@.len() > 0
            &&& p.0.name@.len() > 0
            &&& !p.0.owner@.contains('/')
            &&& slug->0@ =~= p.0.owner@ + "/"@ + p.0.name@
            &&& (p.1 matches OutCall::HttpGet { url } && url@
                == "https://api.travis-ci.org/config"@)
        },
{
    let slug_value = match slug {
        Some(s) => s,
        None => return Err(Error::MalformedInput(String::from_str("slug not present"))),
    };
    let sig_value = match signature {
        Some(s) => s,
        None => return Err(Error::MalformedInput(String::from_str("signature not present"))),
    };
    let fields = parse_form(body);
    proof {
        assert(fields_view(fields@) =~= form_fields_of(body@));
    }
    let payload = match find_field(&fields, "payload") {
        Some(p) => p,
        None => return Err(Error::MalformedInput(String::from_str("payload field missing"))),
    };
    let sig_bytes = sig_value.as_str().as_bytes_vec();
    let sig = match base64_decode(sig_bytes.as_slice()) {
        Some(v) => v,
        None => return Err(Error::Decode(String::from_str("signature was not valid base64"))),
    };
    let (owner, name) = match split_repo_ident(slug_value.as_str()) {
        Some(p) => p,
        None => return Err(Error::MalformedInput(String::from_str("slug must be owner/name"))),
    };
    proof {
        reveal_strlit("/");
        assert("/"@ =~= seq!['/']);
        assert(!owner@.contains('/'));
    }
    let delivery = TravisDelivery { payload, signature: sig, owner, name };
    let call = OutCall::HttpGet { url: String::from_str("https://api.travis-ci.org/config") };
    Ok((delivery, call))
}

/// Take the provider-configuration fetch and finish ingesting the delivery:
/// verify the detached signature over the `payload` text with the
/// provider's public key, confirm a matching project exists, and record the
/// payload. Rejection of any kind records nothing.
pub fn travis_webhook_finish(
    store: &ProjectStore,
    events: &mut EventLog,
    delivery: &TravisDelivery,
    config: Result<travis::GetConfig, Error>,
) -> (r: Result<(), Error>)
    requires
        store.wf(),
        old(events).wf(),
        old(events)@.len() < i32::MAX,
    ensures
        final(events).wf(),
        r is Err ==> final(events)@ == old(events)@,
        config matches Err(e) ==> (r matches Err(e2) && e2 == e),
        config is Ok && r is Err && r->Err_0 is InvalidSignature ==> !rsa_sha1_verified(
            encode_utf8(config->Ok_0.config.notifications.webhook.public_key@),
            encode_utf8(delivery.payload@),
            delivery.signature@,
        ),
        config is Ok && !has_project(store@, delivery.owner@, delivery.name@) ==> r is Err,
        config is Ok && r is Err && r->Err_0 is MissingProject ==> !has_project(
            store@,
            delivery.owner@,
            delivery.name@,
        ) && rsa_sha1_verified(
            encode_utf8(config->Ok_0.config.notifications.webhook.public_key@),
            encode_utf8(delivery.payload@),
            delivery.signature@,
        ),
        config is Ok && r is Err ==> r->Err_0 is InvalidSignature || r->Err_0 is Decode
            || r->Err_0 is MissingProject,
        r is Ok ==> config is Ok && rsa_sha1_verified(
            encode_utf8(config->Ok_0.config.notifications.webhook.public_key@),
            encode_utf8(delivery.payload@),
            delivery.signature@,
        ) && has_project(store@, delivery.owner@, delivery.name@) && final(events)@ =~= old(
            events,
        )@.push(
            EventLog::inserted_row(old(events)@, Provider::Travis, ""@, ""@, delivery.payload@),
        ),
{
    let cfg = match config {
        Ok(c) => c,
        Err(e) => return Err(e),
    };
    let key_bytes = cfg.config.notifications.webhook.public_key.as_str().as_bytes_vec();
    if key_bytes.len() >= 0x8000_0000 {
        return Err(Error::Decode(String::from_str("oversized public key")));
    }
    let payload_bytes = delivery.payload.as_str().as_bytes_vec();
    let verified = match crate::crypto::rsa_sha1_verify(
        key_bytes.as_slice(),
        payload_bytes.as_slice(),
        delivery.signature.as_slice(),
    ) {
        Some(b) => b,
        None => return Err(Error::Decode(String::from_str("key was not valid pem"))),
    };
    if !verified {
        return Err(Error::InvalidSignature);
    }
    let _project = match store.find_by_name(delivery.owner.as_str(), delivery.name.as_str()) {
        Ok(p) => p,
        Err(e) => return Err(e),
    };
    events.insert(Provider::Travis, "", "", delivery.payload.as_str());
    Ok(())
}

} // verus!
