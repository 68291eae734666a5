//! Value types exchanged with the source host's API. The embedding program
//! decodes API responses into these and hands them to the state machines;
//! the webhook-creation request is built, field by field, in verified code.

use vstd::prelude::*;

verus! {

/// A webhook as the source host reports it after creation.
pub struct Webhook {
    pub id: i32,
    pub url: String,
    pub name: String,
    pub events: Vec<String>,
    pub active: bool,
}

/// The request body that registers a webhook on a repository.
pub struct CreateWebhook {
    pub name: String,
    pub config: CreateWebhookConfig,
    pub events: Vec<String>,
    pub active: bool,
}

/// Where the webhook posts, how its payloads are encoded, and the secret
/// that keys their signatures.
pub struct CreateWebhookConfig {
    pub url: String,
    pub content_type: String,
    pub secret: String,
}

/// The request body that creates a personal authorization.
pub struct CreateAuthorization {
    pub scopes: Vec<String>,
    pub note: String,
}

/// An authorization as the source host reports it.
pub struct Authorization {
    pub id: i32,
    pub url: String,
    pub scopes: Vec<String>,
    pub token: String,
}

/// Repository metadata; the numeric id is the stable external identifier a
/// project records.
pub struct Repository {
    pub id: i32,
    pub name: String,
}

} // verus!
