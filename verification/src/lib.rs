//! Links source repositories to CI providers: registers webhooks, stores
//! per-repository credentials, verifies and records inbound webhook
//! deliveries.
//!
//! The verified core covers the signature checks on inbound deliveries, the
//! multi-step account-linking protocol, the project and event stores with
//! their invariants, and the request pipeline that routes and translates
//! errors. Outbound HTTP itself is performed by the embedding program, which
//! drives the state machines in `onboarding` and `ingest` and hands each
//! call's outcome back to the library.

use vstd::prelude::*;

pub mod appveyor;
pub mod crypto;
pub mod errors;
pub mod forms;
pub mod gateway;
pub mod ingest;
pub mod github;
pub mod models;
pub mod onboarding;
pub mod pipeline;
pub mod schema;
pub mod travis;

verus! {

/// Process-wide configuration, constructed once at startup and passed by
/// reference into request handling.
pub struct Config {
    pub session_key: String,
    pub gh_client_id: String,
    pub gh_client_secret: String,
    pub db_url: String,
    pub env: Env,
    pub host: String,
}

/// Which kind of deployment the process serves.
#[derive(PartialEq, Eq, Structural, Clone, Copy, Debug)]
pub enum Env {
    Development,
    Test,
    Production,
}

} // verus!
