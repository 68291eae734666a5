//! The account-linking protocol. Per repository it runs
//! `Unlinked -> AuthorizationRequested -> Linked -> CIProviderValidated*`:
//! first the OAuth redirect, then — on the callback — the code-for-token
//! exchange, the repository metadata fetch, the webhook registration, and
//! only after that registration succeeded, the project row. Afterwards CI
//! provider tokens can be validated and stored one provider at a time.
//!
//! Every outbound call is an `OutCall` the embedding program performs; each
//! `on_*` function here takes the call's outcome and decides the next step.
//! Only `on_hook_registered` and the two `*_link_finish` functions touch the
//! stores, so a failure anywhere earlier can leave no partial write.

use vstd::prelude::*;

use crate::appveyor;
use crate::crypto::{generate_webhook_secret, is_alnum_char};
use crate::errors::Error;
use crate::forms::{
    dec_chars, enc_chars, form_fields_of, lookup_field, parse_form, fields_view, find_field,
    repo_ident_ok, split_repo_ident, u32_string, urlencode_str,
};
use crate::gateway::OutCall;
use crate::github;
use crate::models::project::{has_project, project_at, Project, ProjectStore, ProjectView};
use crate::travis;
use crate::Config;

verus! {

/// The onboarding session as it waits for one outbound call after another.
/// It is ephemeral: nothing is persisted before the final step.
pub enum Onboarding {
    /// The callback arrived; the code is being exchanged for a token.
    AwaitingToken { repo: String, code: String },
    /// The token arrived; the repository metadata is being fetched.
    AwaitingRepo { repo: String, token: String },
    /// The webhook registration is in flight; all row fields are ready.
    AwaitingHook { owner: String, name: String, repo_id: i32, token: String, secret: String },
    /// The project row exists.
    Complete { owner: String, name: String },
}

/// The scopes requested from the source host, sufficient to read repository
/// metadata and manage webhooks.
pub open spec fn oauth_scope_list() -> Seq<char> {
    "user:email,repo:status,write:repo_hook,public_repo,user,admin:org"@
}

/// The authorization-request URL for `state`: the source host's OAuth
/// endpoint with the client id, the fixed scope set and the repository
/// identifier as the opaque state parameter, each percent-encoded.
pub open spec fn authorize_url_chars(client_id: Seq<char>, state: Seq<char>) -> Seq<char> {
    "https://github.com/login/oauth/authorize?client_id="@ + enc_chars(client_id) + "&scope="@
        + enc_chars(oauth_scope_list()) + "&state="@ + enc_chars(state)
}

/// Build the authorization-request redirect URL for a submitted repository
/// identifier. No persistence happens at this step.
pub fn authorize_url(cfg: &Config, repo: &str) -> (r: String)
    ensures
        r@ =~= authorize_url_chars(cfg.gh_client_id@, repo@),
{
    let mut url = String::from_str("https://github.com/login/oauth/authorize?client_id=");
    let cid = urlencode_str(cfg.gh_client_id.as_str());
    url.append(cid.as_str());
    url.append("&scope=");
    let sc = urlencode_str("user:email,repo:status,write:repo_hook,public_repo,user,admin:org");
    url.append(sc.as_str());
    url.append("&state=");
    let state = urlencode_str(repo);
    url.append(state.as_str());
    url
}

/// Extract `code` and `state` from the callback query string. Both must be
/// present; anything else is malformed input.
pub fn parse_callback(query: &[u8]) -> (r: Result<(String, String), Error>)
    ensures
        r matches Ok(p) ==> lookup_field(form_fields_of(query@), "code"@) == Some(p.0@)
            && lookup_field(form_fields_of(query@), "state"@) == Some(p.1@),
        r is Ok <==> (lookup_field(form_fields_of(query@), "code"@) is Some && lookup_field(
            form_fields_of(query@),
            "state"@,
        ) is Some),
        r matches Err(e) ==> e is MalformedInput,
{
    let fields = parse_form(query);
    proof {
        assert(fields_view(fields@) =~= form_fields_of(query@));
    }
    let code = match find_field(&fields, "code") {
        Some(c) => c,
        None => return Err(Error::MalformedInput(String::from_str("code not present in url"))),
    };
    let state = match find_field(&fields, "state") {
        Some(s) => s,
        None => return Err(Error::MalformedInput(String::from_str("state not present in url"))),
    };
    Ok((code, state))
}

/// Start the callback handling: remember the repository identifier and ask
/// for the code to be exchanged.
pub fn onboard_start(code: String, state: String) -> (r: (Onboarding, OutCall))
    ensures
        r.0 matches Onboarding::AwaitingToken { repo, code: c } && repo@ == state@ && c@
            == code@,
        r.1 matches OutCall::ExchangeCode { code: c2 } && c2@ == code@,
{
    let c2 = code.clone();
    (Onboarding::AwaitingToken { repo: state, code }, OutCall::ExchangeCode { code: c2 })
}

/// Take the token-exchange outcome. Failure aborts the whole operation;
/// success asks for the repository metadata.
pub fn on_token_exchanged(st: Onboarding, exchanged: Result<String, Error>) -> (out: Result<
    (Onboarding, OutCall),
    Error,
>)
    requires
        st is AwaitingToken,
    ensures
        exchanged matches Err(e) ==> (out matches Err(e2) && e2 == e),
        exchanged matches Ok(tok) ==> (out matches Ok(p) && (p.0 matches Onboarding::AwaitingRepo {
            repo,
            token,
        } && repo@ == st->AwaitingToken_repo@ && token@ == tok@) && (p.1
            matches OutCall::GithubGet { path, token: t2 } && path@ =~= "/repos/"@
            + st->AwaitingToken_repo@ && t2@ == tok@)),
{
    match st {
        Onboarding::AwaitingToken { repo, code: _ } => match exchanged {
            Err(e) => Err(e),
            Ok(tok) => {
                let mut path = String::from_str("/repos/");
                path.append(repo.as_str());
                let call = OutCall::GithubGet { path, token: tok.clone() };
                Ok((Onboarding::AwaitingRepo { repo, token: tok }, call))
            },
        },
        _ => {
            proof {
                assert(false);
            }
            Err(Error::MissingProject)
        },
    }
}

/// What the webhook-creation request must say: the fixed event set, JSON
/// payloads, the delivery URL under this service's host, and the project's
/// secret as the signature key.
pub open spec fn webhook_request_ok(
    w: github::CreateWebhook,
    host: Seq<char>,
    owner: Seq<char>,
    name: Seq<char>,
    secret: Seq<char>,
) -> bool {
    &&& w.name@ == "web"@
    &&& w.active == true
    &&& w.events@.len() == 6
    &&& w.events@[0]@ == "issue_comment"@
    &&& w.events@[1]@ == "issues"@
    &&& w.events@[2]@ == "pull_request"@
    &&& w.events@[3]@ == "pull_request_review"@
    &&& w.events@[4]@ == "pull_request_review_comment"@
    &&& w.events@[5]@ == "status"@
    &&& w.config.content_type@ == "json"@
    &&& w.config.url@ =~= host + "/webhook/github/"@ + owner + "/"@ + name
    &&& w.config.secret@ == secret
}

fn build_webhook_request(host: &str, owner: &str, name: &str, secret: &str) -> (w:
    github::CreateWebhook)
    ensures
        webhook_request_ok(w, host@, owner@, name@, secret@),
{
    let mut events: Vec<String> = Vec::new();
    events.push(String::from_str("issue_comment"));
    events.push(String::from_str("issues"));
    events.push(String::from_str("pull_request"));
    events.push(String::from_str("pull_request_review"));
    events.push(String::from_str("pull_request_review_comment"));
    events.push(String::from_str("status"));
    let mut url = String::from_str(host);
    url.append("/webhook/github/");
    url.append(owner);
    url.append("/");
    url.append(name);
    proof {
        assert(url@ =~= host@ + "/webhook/github/"@ + owner@ + "/"@ + name@);
    }
    github::CreateWebhook {
        name: String::from_str("web"),
        active: true,
        events,
        config: github::CreateWebhookConfig {
            url,
            content_type: String::from_str("json"),
            secret: String::from_str(secret),
        },
    }
}

/// Take the metadata-fetch outcome. Failure aborts; success splits the
/// repository identifier (rejecting one without a non-empty owner and
/// name), generates the webhook secret, and asks for the webhook to be
/// registered.
pub fn on_repo_fetched(
    cfg: &Config,
    st: Onboarding,
    fetched: Result<github::Repository, Error>,
) -> (out: Result<(Onboarding, OutCall), Error>)
    requires
        st is AwaitingRepo,
    ensures
        fetched matches Err(e) ==> (out matches Err(e2) && e2 == e),
        fetched matches Ok(repo) && !repo_ident_ok(st->AwaitingRepo_repo@) ==> (out matches Err(e)
            && e is MalformedInput),
        fetched matches Ok(repo) && repo_ident_ok(st->AwaitingRepo_repo@) ==> (out matches Ok(p)
            && (p.0 matches Onboarding::AwaitingHook { owner, name, repo_id, token, secret } && {
            &&& owner@.len() > 0
            &&& name@.len() > 0
            &&& !owner@.contains('/')
            &&& st->AwaitingRepo_repo@ =~= owner@ + "/"@ + name@
            &&& repo_id == fetched->Ok_0.id
            &&& token@ == st->AwaitingRepo_token@
            &&& secret@.len() == 20
            &&& forall|i: int| 0 <= i < secret@.len() ==> is_alnum_char(#[trigger] secret@[i])
            &&& (p.1 matches OutCall::GithubPost { path, token: t2, webhook } && path@ =~= "/repos/"@
                + owner@ + "/"@ + name@ + "/hooks"@ && t2@ == token@ && webhook_request_ok(
                webhook,
                cfg.host@,
                owner@,
                name@,
                secret@,
            ))
        })),
{
    match st {
        Onboarding::AwaitingRepo { repo, token } => match fetched {
            Err(e) => Err(e),
            Ok(gh_repo) => {
                let (owner, name) = match split_repo_ident(repo.as_str()) {
                    Some(p) => p,
                    None => return Err(
                        Error::MalformedInput(
                            String::from_str("repository identifier must be owner/name"),
                        ),
                    ),
                };
                proof {
                    reveal_strlit("/");
                    assert("/"@ =~= seq!['/']);
                    assert(!owner@.contains('/'));
                }
                let secret = generate_webhook_secret();
                let webhook = build_webhook_request(
                    cfg.host.as_str(),
                    owner.as_str(),
                    name.as_str(),
                    secret.as_str(),
                );
                let mut path = String::from_str("/repos/");
                path.append(owner.as_str());
                path.append("/");
                path.append(name.as_str());
                path.append("/hooks");
                proof {
                    assert(path@ =~= "/repos/"@ + owner@ + "/"@ + name@ + "/hooks"@);
                }
                let call = OutCall::GithubPost { path, token: token.clone(), webhook };
                let next = Onboarding::AwaitingHook {
                    owner,
                    name,
                    repo_id: gh_repo.id,
                    token,
                    secret,
                };
                Ok((next, call))
            },
        },
        _ => {
            proof {
                assert(false);
            }
            Err(Error::MissingProject)
        },
    }
}

/// Take the webhook-registration outcome; this is the only onboarding step
/// that touches the project table. Registration failure changes nothing —
/// webhook registration happens-before persistence, so no partial project
/// row can outlive a failure. On success the row is created, unless the
/// (owner, name) uniqueness constraint turns a duplicate into an error.
pub fn on_hook_registered(
    st: Onboarding,
    store: &mut ProjectStore,
    registered: Result<github::Webhook, Error>,
) -> (out: Result<Project, Error>)
    requires
        st is AwaitingHook,
        old(store).wf(),
        old(store)@.len() < i32::MAX,
    ensures
        final(store).wf(),
        registered matches Err(e) ==> (out matches Err(e2) && e2 == e && final(store)@ == old(
            store,
        )@),
        registered is Ok && has_project(
            old(store)@,
            st->AwaitingHook_owner@,
            st->AwaitingHook_name@,
        ) ==> final(store)@ == old(store)@ && (out matches Err(e) && e is Transport),
        registered is Ok && !has_project(
            old(store)@,
            st->AwaitingHook_owner@,
            st->AwaitingHook_name@,
        ) ==> final(store)@ =~= old(store)@.push(
            ProjectStore::inserted_row(
                old(store)@,
                st->AwaitingHook_owner@,
                st->AwaitingHook_name@,
                st->AwaitingHook_repo_id as int,
                st->AwaitingHook_token@,
                st->AwaitingHook_secret@,
            ),
        ) && (out matches Ok(p) && p@ == ProjectStore::inserted_row(
            old(store)@,
            st->AwaitingHook_owner@,
            st->AwaitingHook_name@,
            st->AwaitingHook_repo_id as int,
            st->AwaitingHook_token@,
            st->AwaitingHook_secret@,
        )),
{
    match st {
        Onboarding::AwaitingHook { owner, name, repo_id, token, secret } => match registered {
            Err(e) => Err(e),
            Ok(_created) => store.insert(
                owner.as_str(),
                name.as_str(),
                repo_id,
                token.as_str(),
                secret.as_str(),
            ),
        },
        _ => {
            proof {
                assert(false);
            }
            Err(Error::MissingProject)
        },
    }
}

/// The listing path for a repository page.
pub fn repo_page_path(owner: &str, name: &str) -> (r: String)
    ensures
        r@ =~= "/repos/"@ + owner@ + "/"@ + name@,
{
    let mut p = String::from_str("/repos/");
    p.append(owner);
    p.append("/");
    p.append(name);
    p
}

/// Begin linking a CI-provider-A token: the project must exist and the form
/// must carry a `token` field; the token is then validated against the
/// provider's repository endpoint before anything is stored.
pub fn travis_link_start(store: &ProjectStore, owner: &str, name: &str, body: &[u8]) -> (r: Result<
    (Project, String, OutCall),
    Error,
>)
    requires
        store.wf(),
    ensures
        lookup_field(form_fields_of(body@), "token"@) is None ==> (r matches Err(e)
            && e is MalformedInput),
        lookup_field(form_fields_of(body@), "token"@) is Some && !has_project(
            store@,
            owner@,
            name@,
        ) ==> (r matches Err(e) && e is MissingProject),
        lookup_field(form_fields_of(body@), "token"@) is Some && has_project(
            store@,
            owner@,
            name@,
        ) ==> (r matches Ok(p) && p.0@ == project_at(store@, owner@, name@) && p.1@
            == lookup_field(form_fields_of(body@), "token"@)->Some_0 && (p.2
            matches OutCall::TravisGet { path, token } && path@ =~= "/repos/"@ + owner@ + "/"@
            + name@ && token@ == lookup_field(form_fields_of(body@), "token"@)->Some_0)),
{
    let fields = parse_form(body);
    proof {
        assert(fields_view(fields@) =~= form_fields_of(body@));
    }
    let token = match find_field(&fields, "token") {
        Some(t) => t,
        None => return Err(Error::MalformedInput(String::from_str("token field missing"))),
    };
    let project = match store.find_by_name(owner, name) {
        Ok(p) => p,
        Err(e) => return Err(e),
    };
    let path = repo_page_path(owner, name);
    let call = OutCall::TravisGet { path, token: token.clone() };
    Ok((project, token, call))
}

/// Take the provider's repository lookup. Failure means the token is
/// invalid: nothing is stored and the repository page is redisplayed with a
/// notice. Success asks for the repository's settings as the final check.
pub fn travis_link_repo(token: &str, fetched: Result<travis::GetRepository, Error>) -> (r: Result<
    OutCall,
    Error,
>)
    ensures
        fetched is Err ==> (r matches Err(e) && (e matches Error::InvalidToken(m) && m@
            == "travis token was invalid"@)),
        fetched matches Ok(gr) && gr.repo.id >= 0 ==> (r matches Ok(c) && (c
            matches OutCall::TravisGet { path, token: t } && path@ =~= "/repos/"@ + dec_chars(
            fetched->Ok_0.repo.id as int,
        ) + "/settings"@ && t@ == token@)),
        fetched matches Ok(gr) && gr.repo.id < 0 ==> (r matches Err(e) && e is Decode),
{
    match fetched {
        Err(_) => Err(Error::InvalidToken(String::from_str("travis token was invalid"))),
        Ok(gr) => {
            if gr.repo.id < 0 {
                return Err(Error::Decode(String::from_str("negative repository id")));
            }
            let mut path = String::from_str("/repos/");
            let id = u32_string(gr.repo.id as u32);
            path.append(id.as_str());
            path.append("/settings");
            proof {
                assert(path@ =~= "/repos/"@ + dec_chars(gr.repo.id as int) + "/settings"@);
            }
            Ok(OutCall::TravisGet { path, token: String::from_str(token) })
        },
    }
}

/// Take the settings lookup and finish. Failure leaves the project's token
/// fields untouched and redisplays the page with a notice; success stores
/// the token — overwriting any previous value — and redirects back to the
/// repository page.
pub fn travis_link_finish(
    store: &mut ProjectStore,
    project_id: i32,
    owner: &str,
    name: &str,
    token: &str,
    settings: Result<travis::GetRepoSettings, Error>,
) -> (r: Result<String, Error>)
    requires
        old(store).wf(),
    ensures
        final(store).wf(),
        settings is Err ==> final(store)@ == old(store)@ && (r matches Err(e) && (e
            matches Error::InvalidToken(m) && m@ == "project not registered?"@)),
        settings is Ok && 1 <= project_id <= old(store)@.len() ==> final(store)@ =~= old(
            store,
        )@.update(
            project_id - 1,
            ProjectView {
                travis_access_token: Some(token@),
                ..old(store)@[project_id - 1]
            },
        ) && (r matches Ok(loc) && loc@ =~= "/repos/"@ + owner@ + "/"@ + name@),
        settings is Ok && !(1 <= project_id <= old(store)@.len()) ==> final(store)@ == old(
            store,
        )@ && (r matches Err(e) && e is MissingProject),
{
    match settings {
        Err(_) => Err(Error::InvalidToken(String::from_str("project not registered?"))),
        Ok(_settings) => match store.set_travis_token(project_id, token) {
            Ok(()) => Ok(repo_page_path(owner, name)),
            Err(e) => Err(e),
        },
    }
}

/// Whether a listed CI-provider-B project is the one for `repo_name` on the
/// source host.
pub open spec fn appveyor_match(p: appveyor::Project, repo_name: Seq<char>) -> bool {
    p.repositoryType@ == "github"@ && p.repositoryName@ == repo_name
}

/// Whether any listed project matches.
pub open spec fn some_appveyor_match(list: Seq<appveyor::Project>, repo_name: Seq<char>) -> bool {
    exists|i: int| 0 <= i < list.len() && appveyor_match(list[i], repo_name)
}

/// Begin linking a CI-provider-B token: the project must exist and the form
/// must carry a `token` field; the token is then validated by listing the
/// account's projects.
pub fn appveyor_link_start(store: &ProjectStore, owner: &str, name: &str, body: &[u8]) -> (r:
    Result<(Project, String, OutCall), Error>)
    requires
        store.wf(),
    ensures
        lookup_field(form_fields_of(body@), "token"@) is None ==> (r matches Err(e)
            && e is MalformedInput),
        lookup_field(form_fields_of(body@), "token"@) is Some && !has_project(
            store@,
            owner@,
            name@,
        ) ==> (r matches Err(e) && e is MissingProject),
        lookup_field(form_fields_of(body@), "token"@) is Some && has_project(
            store@,
            owner@,
            name@,
        ) ==> (r matches Ok(p) && p.0@ == project_at(store@, owner@, name@) && p.1@
            == lookup_field(form_fields_of(body@), "token"@)->Some_0 && (p.2
            matches OutCall::AppveyorGet { path, token } && path@ == "/projects"@ && token@
            == lookup_field(form_fields_of(body@), "token"@)->Some_0)),
{
    let fields = parse_form(body);
    proof {
        assert(fields_view(fields@) =~= form_fields_of(body@));
    }
    let token = match find_field(&fields, "token") {
        Some(t) => t,
        None => return Err(Error::MalformedInput(String::from_str("token field missing"))),
    };
    let project = match store.find_by_name(owner, name) {
        Ok(p) => p,
        Err(e) => return Err(e),
    };
    let call = OutCall::AppveyorGet { path: String::from_str("/projects"), token: token.clone() };
    Ok((project, token, call))
}

/// What follows the project listing: register the repository first, or go
/// straight to storing the token.
pub enum AppveyorStep {
    /// The repository is not yet registered with the provider; this call
    /// registers it.
    Register { call: OutCall },
    /// A matching registration already exists; registration is skipped.
    AlreadyRegistered,
}

/// Take the project-listing outcome. Failure means the token is invalid:
/// nothing is stored. Success checks for an existing registration of
/// `owner/name`; registration is requested only where none matches.
pub fn appveyor_link_projects(
    token: &str,
    owner: &str,
    name: &str,
    fetched: Result<Vec<appveyor::Project>, Error>,
) -> (r: Result<AppveyorStep, Error>)
    ensures
        fetched is Err ==> (r matches Err(e) && (e matches Error::InvalidToken(m) && m@
            == "appveyor token was invalid"@)),
        fetched matches Ok(list) && some_appveyor_match(list@, owner@ + "/"@ + name@) ==> (r
            matches Ok(step) && step is AlreadyRegistered),
        fetched matches Ok(list) && !some_appveyor_match(list@, owner@ + "/"@ + name@) ==> (r
            matches Ok(step) && (step matches AppveyorStep::Register { call } && (call
            matches OutCall::AppveyorPost { path, token: t, project } && path@ == "/projects"@
            && t@ == token@ && project.repositoryProvider@ == "gitHub"@
            && project.repositoryName@ =~= owner@ + "/"@ + name@))),
{
    match fetched {
        Err(_) => Err(Error::InvalidToken(String::from_str("appveyor token was invalid"))),
        Ok(list) => {
            let mut repo_name = String::from_str(owner);
            repo_name.append("/");
            repo_name.append(name);
            proof {
                assert(repo_name@ =~= owner@ + "/"@ + name@);
            }
            let mut i: usize = 0;
            while i < list.len()
                invariant
                    fetched is Ok && fetched->Ok_0@ == list@,
                    repo_name@ =~= owner@ + "/"@ + name@,
                    i <= list@.len(),
                    forall|j: int| 0 <= j < i ==> !appveyor_match(list@[j], repo_name@),
                decreases list@.len() - i,
            {
                if crate::models::project::str_eq(list[i].repositoryType.as_str(), "github")
                    && crate::models::project::str_eq(
                    list[i].repositoryName.as_str(),
                    repo_name.as_str(),
                ) {
                    proof {
                        assert(appveyor_match(list@[i as int], repo_name@));
                    }
                    return Ok(AppveyorStep::AlreadyRegistered);
                }
                i = i + 1;
            }
            let project = appveyor::NewProject {
                repositoryProvider: String::from_str("gitHub"),
                repositoryName: repo_name,
            };
            let call = OutCall::AppveyorPost {
                path: String::from_str("/projects"),
                token: String::from_str(token),
                project,
            };
            Ok(AppveyorStep::Register { call })
        },
    }
}

/// Take the optional registration outcome and finish. A failed registration
/// aborts with its error and stores nothing; otherwise the token is stored —
/// overwriting any previous value — and the repository page is the redirect
/// target.
pub fn appveyor_link_finish(
    store: &mut ProjectStore,
    project_id: i32,
    owner: &str,
    name: &str,
    token: &str,
    registered: Option<Result<appveyor::Project, Error>>,
) -> (r: Result<String, Error>)
    requires
        old(store).wf(),
    ensures
        final(store).wf(),
        registered matches Some(res) ==> (res matches Err(e) ==> (final(store)@ == old(store)@
            && (r matches Err(e2) && e2 == e))),
        (registered is None || (registered matches Some(res) && res is Ok)) && 1 <= project_id
            <= old(store)@.len() ==> final(store)@ =~= old(store)@.update(
            project_id - 1,
            ProjectView { appveyor_token: Some(token@), ..old(store)@[project_id - 1] },
        ) && (r matches Ok(loc) && loc@ =~= "/repos/"@ + owner@ + "/"@ + name@),
        (registered is None || (registered matches Some(res) && res is Ok)) && !(1 <= project_id
            <= old(store)@.len()) ==> final(store)@ == old(store)@ && (r matches Err(e)
            && e is MissingProject),
{
    match registered {
        Some(res) => match res {
            Err(e) => Err(e),
            Ok(_registered_project) => match store.set_appveyor_token(project_id, token) {
                Ok(()) => Ok(repo_page_path(owner, name)),
                Err(e) => Err(e),
            },
        },
        None => match store.set_appveyor_token(project_id, token) {
            Ok(()) => Ok(repo_page_path(owner, name)),
            Err(e) => Err(e),
        },
    }
}

} // verus!
