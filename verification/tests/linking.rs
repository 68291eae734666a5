//! The account-linking protocol: onboarding and CI-token validation, driven
//! with concrete call outcomes.

use bors2::errors::Error;
use bors2::gateway::OutCall;
use bors2::github;
use bors2::models::project::ProjectStore;
use bors2::onboarding::{
    appveyor_link_projects, appveyor_link_start, appveyor_link_finish, authorize_url,
    on_hook_registered, on_repo_fetched, on_token_exchanged, onboard_start, parse_callback,
    travis_link_finish, travis_link_repo, travis_link_start, AppveyorStep, Onboarding,
};
use bors2::travis;
use bors2::{Config, Env};

fn test_config() -> Config {
    Config {
        session_key: "k1".to_string(),
        gh_client_id: "client-id".to_string(),
        gh_client_secret: "k2".to_string(),
        db_url: "postgres://localhost/bors2".to_string(),
        env: Env::Test,
        host: "http://localhost:3000".to_string(),
    }
}

fn created_webhook() -> github::Webhook {
    github::Webhook {
        id: 1,
        url: "http://localhost:3000/webhook/github/acme/widgets".to_string(),
        name: "web".to_string(),
        events: vec!["issues".to_string()],
        active: true,
    }
}

/// Walk the whole onboarding protocol with every call succeeding.
fn onboard(store: &mut ProjectStore, repo: &str) -> Result<bors2::models::project::Project, Error> {
    let (st, call) = onboard_start("the-code".to_string(), repo.to_string());
    assert!(matches!(call, OutCall::ExchangeCode { .. }));
    let (st, call) = on_token_exchanged(st, Ok("the-token".to_string()))?;
    match &call {
        OutCall::GithubGet { path, token } => {
            assert_eq!(path, &format!("/repos/{}", repo));
            assert_eq!(token, "the-token");
        },
        _ => panic!("expected a metadata fetch"),
    }
    let (st, call) = on_repo_fetched(
        &test_config(),
        st,
        Ok(github::Repository { id: 42, name: "widgets".to_string() }),
    )?;
    match &call {
        OutCall::GithubPost { path, token, webhook } => {
            assert_eq!(path, "/repos/acme/widgets/hooks");
            assert_eq!(token, "the-token");
            assert_eq!(webhook.name, "web");
            assert!(webhook.active);
            assert_eq!(
                webhook.events,
                vec![
                    "issue_comment".to_string(),
                    "issues".to_string(),
                    "pull_request".to_string(),
                    "pull_request_review".to_string(),
                    "pull_request_review_comment".to_string(),
                    "status".to_string(),
                ]
            );
            assert_eq!(webhook.config.content_type, "json");
            assert_eq!(webhook.config.url, "http://localhost:3000/webhook/github/acme/widgets");
            assert_eq!(webhook.config.secret.len(), 20);
        },
        _ => panic!("expected a webhook registration"),
    }
    on_hook_registered(st, store, Ok(created_webhook()))
}

#[test]
fn authorize_url_embeds_state_and_scopes() {
    let url = authorize_url(&test_config(), "acme/widgets");
    assert_eq!(
        url,
        "https://github.com/login/oauth/authorize?client_id=client-id&scope=\
         user%3aemail%2crepo%3astatus%2cwrite%3arepo_hook%2cpublic_repo%2cuser%2cadmin%3aorg\
         &state=acme%2fwidgets"
    );
}

#[test]
fn callback_requires_code_and_state() {
    assert_eq!(
        parse_callback(b"code=abc&state=acme%2Fwidgets").unwrap(),
        ("abc".to_string(), "acme/widgets".to_string())
    );
    assert!(matches!(parse_callback(b"code=abc"), Err(Error::MalformedInput(_))));
    assert!(matches!(parse_callback(b"state=acme%2Fwidgets"), Err(Error::MalformedInput(_))));
}

#[test]
fn onboarding_persists_after_successful_registration() {
    let mut store = ProjectStore::new();
    let project = onboard(&mut store, "acme/widgets").unwrap();
    assert_eq!(store.len(), 1);
    assert_eq!(project.repo_user, "acme");
    assert_eq!(project.repo_name, "widgets");
    assert_eq!(project.github_repo_id, 42);
    assert_eq!(project.github_access_token, "the-token");
    assert_eq!(project.github_webhook_secret.len(), 20);
    assert!(project.github_webhook_secret.chars().all(|c| c.is_ascii_alphanumeric()));
    assert_eq!(project.travis_access_token, None);
    assert_eq!(project.appveyor_token, None);
}

#[test]
fn failed_exchange_aborts_onboarding() {
    let (st, _call) = onboard_start("code".to_string(), "acme/widgets".to_string());
    let r = on_token_exchanged(st, Err(Error::Transport("token endpoint down".to_string())));
    assert!(matches!(r, Err(Error::Transport(_))));
}

#[test]
fn malformed_repository_identifier_is_rejected() {
    let (st, _call) = onboard_start("code".to_string(), "no-slash".to_string());
    let (st, _call) = on_token_exchanged(st, Ok("tok".to_string())).unwrap();
    let r = on_repo_fetched(
        &test_config(),
        st,
        Ok(github::Repository { id: 1, name: "x".to_string() }),
    );
    assert!(matches!(r, Err(Error::MalformedInput(_))));
}

#[test]
fn failed_registration_leaves_the_table_unchanged() {
    let mut store = ProjectStore::new();
    let st = Onboarding::AwaitingHook {
        owner: "acme".to_string(),
        name: "widgets".to_string(),
        repo_id: 42,
        token: "tok".to_string(),
        secret: "abcdefghij0123456789".to_string(),
    };
    let r = on_hook_registered(
        st,
        &mut store,
        Err(Error::Transport("hook endpoint down".to_string())),
    );
    assert!(matches!(r, Err(Error::Transport(_))));
    assert_eq!(store.len(), 0);
}

#[test]
fn repeated_onboarding_conflicts_on_the_uniqueness_constraint() {
    let mut store = ProjectStore::new();
    onboard(&mut store, "acme/widgets").unwrap();
    let second = onboard(&mut store, "acme/widgets");
    assert!(matches!(second, Err(Error::Transport(_))));
    assert_eq!(store.len(), 1);
}

#[test]
fn travis_linking_stores_a_validated_token() {
    let mut store = ProjectStore::new();
    let project = onboard(&mut store, "acme/widgets").unwrap();

    let (found, token, call) =
        travis_link_start(&store, "acme", "widgets", b"token=travis-token").unwrap();
    assert_eq!(found.id, project.id);
    assert_eq!(token, "travis-token");
    assert!(matches!(call, OutCall::TravisGet { .. }));

    let call = travis_link_repo(
        &token,
        Ok(travis::GetRepository { repo: travis::Repository { id: 99 } }),
    )
    .unwrap();
    match &call {
        OutCall::TravisGet { path, token } => {
            assert_eq!(path, "/repos/99/settings");
            assert_eq!(token, "travis-token");
        },
        _ => panic!("expected a settings fetch"),
    }

    let settings = travis::GetRepoSettings {
        settings: travis::RepoSettings { maximum_number_of_builds: 1 },
    };
    let loc =
        travis_link_finish(&mut store, project.id, "acme", "widgets", &token, Ok(settings))
            .unwrap();
    assert_eq!(loc, "/repos/acme/widgets");
    let stored = store.find_by_name("acme", "widgets").unwrap();
    assert_eq!(stored.travis_access_token, Some("travis-token".to_string()));
}

#[test]
fn invalid_travis_token_stores_nothing() {
    let mut store = ProjectStore::new();
    let project = onboard(&mut store, "acme/widgets").unwrap();

    let r = travis_link_repo("bad", Err(Error::Transport("401".to_string())));
    match r {
        Err(Error::InvalidToken(m)) => assert_eq!(m, "travis token was invalid"),
        _ => panic!("expected an invalid-token rejection"),
    }

    let r = travis_link_finish(
        &mut store,
        project.id,
        "acme",
        "widgets",
        "bad",
        Err(Error::Transport("404".to_string())),
    );
    match r {
        Err(Error::InvalidToken(m)) => assert_eq!(m, "project not registered?"),
        _ => panic!("expected an invalid-token rejection"),
    }
    let stored = store.find_by_name("acme", "widgets").unwrap();
    assert_eq!(stored.travis_access_token, None);
}

#[test]
fn repeated_valid_tokens_overwrite_last_write_wins() {
    let mut store = ProjectStore::new();
    let project = onboard(&mut store, "acme/widgets").unwrap();
    let settings = || travis::GetRepoSettings {
        settings: travis::RepoSettings { maximum_number_of_builds: 1 },
    };
    travis_link_finish(&mut store, project.id, "acme", "widgets", "first", Ok(settings()))
        .unwrap();
    travis_link_finish(&mut store, project.id, "acme", "widgets", "second", Ok(settings()))
        .unwrap();
    let stored = store.find_by_name("acme", "widgets").unwrap();
    assert_eq!(stored.travis_access_token, Some("second".to_string()));
}

#[test]
fn missing_token_field_is_malformed_input() {
    let store = ProjectStore::new();
    let r = travis_link_start(&store, "acme", "widgets", b"nothing=here");
    assert!(matches!(r, Err(Error::MalformedInput(_))));
}

#[test]
fn unknown_project_cannot_take_a_token() {
    let store = ProjectStore::new();
    let r = travis_link_start(&store, "acme", "widgets", b"token=t");
    assert!(matches!(r, Err(Error::MissingProject)));
}

fn appveyor_listing(repository_name: &str) -> bors2::appveyor::Project {
    bors2::appveyor::Project {
        projectId: 7,
        repositoryType: "github".to_string(),
        slug: "acme-widgets".to_string(),
        name: "widgets".to_string(),
        repositoryName: repository_name.to_string(),
    }
}

#[test]
fn appveyor_linking_registers_unknown_repositories_first() {
    let mut store = ProjectStore::new();
    let project = onboard(&mut store, "acme/widgets").unwrap();

    let (_found, token, _call) =
        appveyor_link_start(&store, "acme", "widgets", b"token=appveyor-token").unwrap();

    // not listed: a registration call must follow
    let step = appveyor_link_projects(&token, "acme", "widgets", Ok(vec![])).unwrap();
    match step {
        AppveyorStep::Register { call } => match call {
            OutCall::AppveyorPost { path, token, project } => {
                assert_eq!(path, "/projects");
                assert_eq!(token, "appveyor-token");
                assert_eq!(project.repositoryProvider, "gitHub");
                assert_eq!(project.repositoryName, "acme/widgets");
            },
            _ => panic!("expected a registration call"),
        },
        AppveyorStep::AlreadyRegistered => panic!("nothing is registered yet"),
    }

    // already listed: registration is skipped
    let step = appveyor_link_projects(
        &token,
        "acme",
        "widgets",
        Ok(vec![appveyor_listing("acme/widgets")]),
    )
    .unwrap();
    assert!(matches!(step, AppveyorStep::AlreadyRegistered));

    let loc = appveyor_link_finish(&mut store, project.id, "acme", "widgets", &token, None)
        .unwrap();
    assert_eq!(loc, "/repos/acme/widgets");
    let stored = store.find_by_name("acme", "widgets").unwrap();
    assert_eq!(stored.appveyor_token, Some("appveyor-token".to_string()));
}

#[test]
fn invalid_appveyor_token_stores_nothing() {
    let mut store = ProjectStore::new();
    let project = onboard(&mut store, "acme/widgets").unwrap();
    let r = appveyor_link_projects("bad", "acme", "widgets", Err(Error::Transport("401".into())));
    match r {
        Err(Error::InvalidToken(m)) => assert_eq!(m, "appveyor token was invalid"),
        _ => panic!("expected an invalid-token rejection"),
    }
    let r = appveyor_link_finish(
        &mut store,
        project.id,
        "acme",
        "widgets",
        "bad",
        Some(Err(Error::Transport("500".into()))),
    );
    assert!(matches!(r, Err(Error::Transport(_))));
    let stored = store.find_by_name("acme", "widgets").unwrap();
    assert_eq!(stored.appveyor_token, None);
}
