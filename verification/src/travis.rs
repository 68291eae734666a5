//! Value types exchanged with CI provider A's API: the token-validation
//! lookups during linking, and the provider configuration that carries the
//! public key webhook deliveries are signed with.

use vstd::prelude::*;

verus! {

/// Response wrapper around a repository lookup.
pub struct GetRepository {
    pub repo: Repository,
}

/// A repository as the provider identifies it.
pub struct Repository {
    pub id: i32,
}

/// Response wrapper around a repository-settings lookup.
pub struct GetRepoSettings {
    pub settings: RepoSettings,
}

/// The settings of a repository registered with the provider.
pub struct RepoSettings {
    pub maximum_number_of_builds: u32,
}

/// Response wrapper around the provider configuration endpoint.
pub struct GetConfig {
    pub config: Config,
}

/// The provider configuration.
pub struct Config {
    pub notifications: Notifications,
}

/// The notification section of the provider configuration.
pub struct Notifications {
    pub webhook: Webhook,
}

/// The webhook section: the PEM public key that signs deliveries.
pub struct Webhook {
    pub public_key: String,
}

} // verus!
