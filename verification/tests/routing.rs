//! Routing, page rendering, error translation and the pipeline's
//! transaction discipline.

use bors2::errors::Error;
use bors2::gateway::{OutCall, OutEvent};
use bors2::github;
use bors2::models::event::EventLog;
use bors2::models::project::ProjectStore;
use bors2::onboarding::{on_hook_registered, Onboarding};
use bors2::pipeline::{
    error_response, handle_event, handle_request, html, redirect, repos_page, repo_show_page,
    route, Method, PendingState, Request, RequestHeaders, Response, Route, Step,
};
use bors2::schema::migrations;
use bors2::{Config, Env};

fn test_config() -> Config {
    Config {
        session_key: "k1".to_string(),
        gh_client_id: "client-id".to_string(),
        gh_client_secret: "k2".to_string(),
        db_url: "postgres://localhost/bors2".to_string(),
        env: Env::Test,
        host: "http://localhost:3000".to_string(),
    }
}

fn store_with_project() -> ProjectStore {
    let mut store = ProjectStore::new();
    let st = Onboarding::AwaitingHook {
        owner: "acme".to_string(),
        name: "widgets".to_string(),
        repo_id: 42,
        token: "tok".to_string(),
        secret: "abcdefghij0123456789".to_string(),
    };
    let hook = github::Webhook {
        id: 1,
        url: "u".to_string(),
        name: "web".to_string(),
        events: vec![],
        active: true,
    };
    on_hook_registered(st, &mut store, Ok(hook)).unwrap();
    store
}

fn no_headers() -> RequestHeaders {
    RequestHeaders {
        github_event: None,
        github_signature: None,
        github_delivery: None,
        travis_repo_slug: None,
        travis_signature: None,
    }
}

fn request(method: Method, path: &str, query: &str, body: &[u8]) -> Request {
    Request {
        method,
        path: path.to_string(),
        query: query.to_string(),
        headers: no_headers(),
        body: body.to_vec(),
    }
}

#[test]
fn routes_resolve_as_declared() {
    assert!(matches!(route(Method::Get, "/"), Route::Index));
    assert!(matches!(route(Method::Post, "/repos"), Route::RepoNew));
    assert!(matches!(route(Method::Get, "/authorize/github"), Route::AuthorizeGithub));
    assert!(matches!(route(Method::Post, "/webhook/travis"), Route::TravisWebhook));
    match route(Method::Get, "/repos/acme/widgets") {
        Route::RepoShow { owner, name } => {
            assert_eq!(owner, "acme");
            assert_eq!(name, "widgets");
        },
        _ => panic!("expected the repository page"),
    }
    match route(Method::Post, "/repos/acme/widgets/add-travis-token") {
        Route::AddTravisToken { owner, name } => {
            assert_eq!(owner, "acme");
            assert_eq!(name, "widgets");
        },
        _ => panic!("expected the travis-token route"),
    }
    match route(Method::Post, "/repos/acme/widgets/add-appveyor-token") {
        Route::AddAppveyorToken { owner, name } => {
            assert_eq!(owner, "acme");
            assert_eq!(name, "widgets");
        },
        _ => panic!("expected the appveyor-token route"),
    }
    match route(Method::Post, "/webhook/github/acme/widgets") {
        Route::GithubWebhook { owner, name } => {
            assert_eq!(owner, "acme");
            assert_eq!(name, "widgets");
        },
        _ => panic!("expected the webhook route"),
    }
}

#[test]
fn unmatched_paths_are_not_found() {
    assert!(matches!(route(Method::Get, "/nope"), Route::NotFound));
    assert!(matches!(route(Method::Post, "/"), Route::NotFound));
    assert!(matches!(route(Method::Get, "/repos"), Route::NotFound));
    assert!(matches!(route(Method::Get, "/repos/only-owner"), Route::NotFound));
    assert!(matches!(route(Method::Get, "/repos/a/b/c"), Route::NotFound));
    assert!(matches!(route(Method::Post, "/repos/acme/widgets"), Route::NotFound));
    assert!(matches!(route(Method::Get, "/webhook/github/acme/widgets"), Route::NotFound));
    assert!(matches!(route(Method::Post, "/repos//add-travis-token"), Route::NotFound));
}

#[test]
fn not_found_renders_a_404_page() {
    let cfg = test_config();
    let mut store = ProjectStore::new();
    let mut events = EventLog::new();
    let req = request(Method::Get, "/nope", "", b"");
    match handle_request(&cfg, &mut store, &mut events, &req) {
        Step::Respond(resp) => {
            assert_eq!(resp.status, 404);
            assert_eq!(resp.body, "page not found");
        },
        _ => panic!("a page, not a suspension"),
    }
}

#[test]
fn the_listing_page_lists_projects() {
    let store = store_with_project();
    let page = repos_page(&store, None);
    assert_eq!(page.status, 200);
    assert!(page.body.contains("<a href=\"/repos/acme/widgets\">acme/widgets</a>"));
    assert!(page.body.contains("<form action=\"/repos\""));
}

#[test]
fn the_repository_page_reflects_linking_status() {
    let mut store = store_with_project();
    let page = repo_show_page(&store, "acme", "widgets", None).unwrap();
    assert!(page.body.contains("acme/widgets"));
    assert!(page.body.contains("/add-travis-token"));
    assert!(page.body.contains("/add-appveyor-token"));

    let project = store.find_by_name("acme", "widgets").unwrap();
    store.set_travis_token(project.id, "t").unwrap();
    let page = repo_show_page(&store, "acme", "widgets", None).unwrap();
    assert!(!page.body.contains("/add-travis-token"));
    assert!(page.body.contains("/add-appveyor-token"));

    assert!(matches!(
        repo_show_page(&store, "acme", "nothing", None),
        Err(Error::MissingProject)
    ));
}

#[test]
fn missing_project_translates_to_a_flash_on_the_listing() {
    let store = store_with_project();
    let resp = error_response(&store, &Error::MissingProject);
    assert_eq!(resp.status, 200);
    assert_eq!(resp.flash, Some("user/repo combo not found".to_string()));
    assert!(resp.body.contains("acme/widgets"));
}

#[test]
fn other_errors_translate_to_server_errors() {
    let store = ProjectStore::new();
    let resp = error_response(&store, &Error::Transport("down".to_string()));
    assert_eq!(resp.status, 500);
    let resp = error_response(&store, &Error::InvalidSignature);
    assert_eq!(resp.status, 500);
}

#[test]
fn webhook_delivery_for_unknown_repo_takes_the_flash_path() {
    let cfg = test_config();
    let mut store = ProjectStore::new();
    let mut events = EventLog::new();
    let mut req = request(Method::Post, "/webhook/github/acme/widgets", "", b"{}");
    req.headers.github_event = Some("issues".to_string());
    req.headers.github_signature = Some("sha1=00".to_string());
    req.headers.github_delivery = Some("d-1".to_string());
    match handle_request(&cfg, &mut store, &mut events, &req) {
        Step::Respond(resp) => {
            assert_eq!(resp.status, 200);
            assert_eq!(resp.flash, Some("user/repo combo not found".to_string()));
        },
        _ => panic!("a page, not a suspension"),
    }
    assert_eq!(events.len(), 0);
}

#[test]
fn signed_webhook_delivery_responds_ok_through_the_pipeline() {
    let cfg = test_config();
    let mut store = store_with_project();
    let mut events = EventLog::new();
    let body = b"{\"action\":\"opened\"}".to_vec();
    let header = String::from_utf8(
        bors2::crypto::github_signature_header(b"abcdefghij0123456789", &body).unwrap(),
    )
    .unwrap();
    let mut req = request(Method::Post, "/webhook/github/acme/widgets", "", &body);
    req.headers.github_event = Some("issues".to_string());
    req.headers.github_signature = Some(header);
    req.headers.github_delivery = Some("d-1".to_string());
    match handle_request(&cfg, &mut store, &mut events, &req) {
        Step::Respond(resp) => assert_eq!(resp.status, 200),
        _ => panic!("a page, not a suspension"),
    }
    assert_eq!(events.len(), 1);
}

#[test]
fn onboarding_runs_through_the_pipeline_to_completion() {
    let cfg = test_config();
    let mut store = ProjectStore::new();
    let mut events = EventLog::new();

    // begin onboarding: the form redirects to the authorization URL
    let req = request(Method::Post, "/repos", "", b"repo=acme%2Fwidgets");
    match handle_request(&cfg, &mut store, &mut events, &req) {
        Step::Respond(resp) => {
            assert_eq!(resp.status, 302);
            assert!(resp.location.unwrap().contains("state=acme%2fwidgets"));
        },
        _ => panic!("expected the redirect"),
    }

    // the callback suspends on the token exchange
    let req = request(Method::Get, "/authorize/github", "code=c1&state=acme%2Fwidgets", b"");
    let (pending, call) = match handle_request(&cfg, &mut store, &mut events, &req) {
        Step::Suspend(p, c) => (p, c),
        _ => panic!("expected a suspension"),
    };
    assert!(matches!(call, OutCall::ExchangeCode { .. }));

    // exchange, metadata, registration
    let (pending, _call) = match handle_event(
        &cfg,
        &mut store,
        &mut events,
        pending,
        OutEvent::TokenExchanged(Ok("tok".to_string())),
    ) {
        Step::Suspend(p, c) => (p, c),
        _ => panic!("expected a suspension"),
    };
    let (pending, _call) = match handle_event(
        &cfg,
        &mut store,
        &mut events,
        pending,
        OutEvent::RepoFetched(Ok(github::Repository { id: 42, name: "widgets".to_string() })),
    ) {
        Step::Suspend(p, c) => (p, c),
        _ => panic!("expected a suspension"),
    };
    assert_eq!(store.len(), 0);
    let hook = github::Webhook {
        id: 1,
        url: "u".to_string(),
        name: "web".to_string(),
        events: vec![],
        active: true,
    };
    match handle_event(&cfg, &mut store, &mut events, pending, OutEvent::HookRegistered(Ok(hook)))
    {
        Step::Respond(resp) => {
            assert_eq!(resp.status, 302);
            assert_eq!(resp.location, Some("/".to_string()));
        },
        _ => panic!("expected the final redirect"),
    }
    assert_eq!(store.len(), 1);
}

#[test]
fn invalid_token_flash_keeps_the_store_unchanged_through_the_pipeline() {
    let cfg = test_config();
    let mut store = store_with_project();
    let mut events = EventLog::new();
    let req = request(Method::Post, "/repos/acme/widgets/add-travis-token", "", b"token=bad");
    let (pending, _call) = match handle_request(&cfg, &mut store, &mut events, &req) {
        Step::Suspend(p, c) => (p, c),
        _ => panic!("expected a suspension"),
    };
    match handle_event(
        &cfg,
        &mut store,
        &mut events,
        pending,
        OutEvent::TravisRepoFetched(Err(Error::Transport("401".to_string()))),
    ) {
        Step::Respond(resp) => {
            assert_eq!(resp.status, 200);
            assert_eq!(resp.flash, Some("travis token was invalid".to_string()));
        },
        _ => panic!("expected the flash page"),
    }
    let stored = store.find_by_name("acme", "widgets").unwrap();
    assert_eq!(stored.travis_access_token, None);
}

#[test]
fn helpers_build_plain_responses() {
    let page: Response = html("hello");
    assert_eq!(page.status, 200);
    assert_eq!(page.body, "hello");
    assert_eq!(page.location, None);
    let r = redirect("/repos/a/b");
    assert_eq!(r.status, 302);
    assert_eq!(r.location, Some("/repos/a/b".to_string()));
    assert_eq!(r.body, "");
}

#[test]
fn migrations_carry_distinct_versions_and_the_two_tables() {
    let ms = migrations();
    assert_eq!(ms.len(), 2);
    assert_eq!(ms[0].version, 20161030140653);
    assert_eq!(ms[1].version, 20161030140654);
    assert!(ms[0].up.starts_with("CREATE TABLE projects ("));
    assert!(ms[0].up.contains("UNIQUE (repo_user, repo_name)"));
    assert_eq!(ms[0].down, "DROP TABLE projects");
    assert!(ms[1].up.starts_with("CREATE TABLE events ("));
    assert_eq!(ms[1].down, "DROP TABLE events");
    assert!(ms[0].version != ms[1].version);
}

#[test]
fn appveyor_linking_runs_through_the_pipeline() {
    let cfg = test_config();
    let mut store = store_with_project();
    let mut events = EventLog::new();
    let req = request(
        Method::Post,
        "/repos/acme/widgets/add-appveyor-token",
        "",
        b"token=appveyor-token",
    );
    let (pending, _call) = match handle_request(&cfg, &mut store, &mut events, &req) {
        Step::Suspend(p, c) => (p, c),
        _ => panic!("expected a suspension"),
    };
    // nothing listed yet: the pipeline suspends again on the registration
    let (pending, call) = match handle_event(
        &cfg,
        &mut store,
        &mut events,
        pending,
        OutEvent::AppveyorProjectsFetched(Ok(vec![])),
    ) {
        Step::Suspend(p, c) => (p, c),
        _ => panic!("expected a suspension"),
    };
    assert!(matches!(call, OutCall::AppveyorPost { .. }));
    let registered = bors2::appveyor::Project {
        projectId: 7,
        repositoryType: "github".to_string(),
        slug: "acme-widgets".to_string(),
        name: "widgets".to_string(),
        repositoryName: "acme/widgets".to_string(),
    };
    match handle_event(
        &cfg,
        &mut store,
        &mut events,
        pending,
        OutEvent::AppveyorRegistered(Ok(registered)),
    ) {
        Step::Respond(resp) => {
            assert_eq!(resp.status, 302);
            assert_eq!(resp.location, Some("/repos/acme/widgets".to_string()));
        },
        _ => panic!("expected the final redirect"),
    }
    let stored = store.find_by_name("acme", "widgets").unwrap();
    assert_eq!(stored.appveyor_token, Some("appveyor-token".to_string()));
}

#[test]
fn repo_form_without_a_repository_field_is_a_server_error() {
    let cfg = test_config();
    let mut store = ProjectStore::new();
    let mut events = EventLog::new();
    let req = request(Method::Post, "/repos", "", b"nothing=here");
    match handle_request(&cfg, &mut store, &mut events, &req) {
        Step::Respond(resp) => assert_eq!(resp.status, 500),
        _ => panic!("expected a server error"),
    }
}
