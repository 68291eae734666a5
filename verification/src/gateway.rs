//! The provider gateway, described as data. The library never performs an
//! outbound HTTP call itself: a state machine hands the embedding program an
//! `OutCall` naming the call to make, and takes the outcome back as an
//! `OutEvent`. Every decision between calls is verified; only the transport
//! is outside.

use vstd::prelude::*;

use crate::appveyor;
use crate::errors::Error;
use crate::github;
use crate::travis;

verus! {

/// One outbound call the embedding program is asked to perform. Paths are
/// relative to the provider's API base; the program adds transport headers.
pub enum OutCall {
    /// Exchange an OAuth authorization code for an access token at the
    /// source host's token endpoint.
    ExchangeCode { code: String },
    /// GET from the source host's API with the session's token.
    GithubGet { path: String, token: String },
    /// POST a webhook-creation request to the source host's API.
    GithubPost { path: String, token: String, webhook: github::CreateWebhook },
    /// GET from CI provider A's API with a submitted token.
    TravisGet { path: String, token: String },
    /// GET from CI provider B's API with a submitted token.
    AppveyorGet { path: String, token: String },
    /// POST a project registration to CI provider B's API.
    AppveyorPost { path: String, token: String, project: appveyor::NewProject },
    /// GET an absolute URL with no authentication (the provider
    /// configuration endpoint).
    HttpGet { url: String },
}

/// The outcome of one outbound call, decoded to the value the call was made
/// for. Transport and decode failures arrive as the error they produced.
pub enum OutEvent {
    TokenExchanged(Result<String, Error>),
    RepoFetched(Result<github::Repository, Error>),
    HookRegistered(Result<github::Webhook, Error>),
    TravisRepoFetched(Result<travis::GetRepository, Error>),
    TravisSettingsFetched(Result<travis::GetRepoSettings, Error>),
    AppveyorProjectsFetched(Result<Vec<appveyor::Project>, Error>),
    AppveyorRegistered(Result<appveyor::Project, Error>),
    TravisConfigFetched(Result<travis::GetConfig, Error>),
}

} // verus!
