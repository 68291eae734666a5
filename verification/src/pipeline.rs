//! The request pipeline: routing by method and path, dispatch to the
//! handlers and state machines, and error translation. A missing project is
//! the one error shown as a flash notice on the listing page; every other
//! error becomes a server-error response. Responses that report an error —
//! by status or by flash — leave both tables exactly as they were.

use vstd::prelude::*;

use crate::errors::Error;
use crate::crypto::{github_signature_ok, rsa_sha1_verified};
use crate::forms::{
    base64_of, dec_chars, find_field, form_fields_of, fields_view, ident_name, ident_owner,
    lemma_ident_parts, lookup_field, parse_form, repo_ident_ok,
};
use crate::gateway::{OutCall, OutEvent};
use crate::ingest::{travis_webhook_start, TravisDelivery};
use crate::models::event::{EventLog, Provider};
use vstd::utf8::{decode_utf8, encode_utf8, valid_utf8};
use crate::onboarding::{
    appveyor_link_projects, appveyor_link_start, appveyor_link_finish, authorize_url,
    authorize_url_chars, on_hook_registered, on_repo_fetched, on_token_exchanged, onboard_start,
    parse_callback, some_appveyor_match, travis_link_finish, travis_link_repo,
    travis_link_start, webhook_request_ok, AppveyorStep, Onboarding,
};
use crate::Config;
use crate::models::project::{has_project, opt_view, project_at, ProjectStore, ProjectView, str_eq};

verus! {

/// An HTTP method the pipeline routes on.
#[derive(PartialEq, Eq, Structural, Clone, Copy, Debug)]
pub enum Method {
    Get,
    Post,
}

/// The delivery-related headers a request may carry, already extracted by
/// the transport; an absent header is validated, never assumed.
pub struct RequestHeaders {
    pub github_event: Option<String>,
    pub github_signature: Option<String>,
    pub github_delivery: Option<String>,
    pub travis_repo_slug: Option<String>,
    pub travis_signature: Option<String>,
}

/// One inbound request, read fully before handling: the body bytes are
/// exactly what arrived.
pub struct Request {
    pub method: Method,
    pub path: String,
    pub query: String,
    pub headers: RequestHeaders,
    pub body: Vec<u8>,
}

/// One outbound response. The flash field carries the one-shot notice the
/// next rendered page shows.
pub struct Response {
    pub status: u16,
    pub location: Option<String>,
    pub flash: Option<String>,
    pub body: String,
}

/// A successful HTML page.
pub fn html(text: &str) -> (r: Response)
    ensures
        r.status == 200,
        r.location is None,
        r.flash is None,
        r.body@ == text@,
{
    Response { status: 200, location: None, flash: None, body: String::from_str(text) }
}

/// A redirect to `url`.
pub fn redirect(url: &str) -> (r: Response)
    ensures
        r.status == 302,
        r.location matches Some(l) && l@ == url@,
        r.flash is None,
        r.body@.len() == 0,
{
    Response {
        status: 302,
        location: Some(String::from_str(url)),
        flash: None,
        body: String::new(),
    }
}

/// Whether `rest` is exactly two non-empty path segments: one interior
/// slash and no other.
pub open spec fn two_segments(rest: Seq<char>) -> bool {
    exists|i: int|
        0 < i < rest.len() - 1 && #[trigger] rest[i] == '/' && (forall|j: int|
            0 <= j < rest.len() && j != i ==> rest[j] != '/')
}

/// Whether `s` can be one path segment.
pub open spec fn segment_ok(s: Seq<char>) -> bool {
    s.len() > 0 && !s.contains('/')
}

/// Whether `s` begins with `p`.
pub fn starts_with_str(s: &str, p: &str) -> (r: bool)
    ensures
        r <==> (s@.len() >= p@.len() && s@.subrange(0, p@.len() as int) == p@),
{
    let slen = s.unicode_len();
    let plen = p.unicode_len();
    if slen < plen {
        return false;
    }
    let head = s.substring_char(0, plen);
    str_eq(head, p)
}

/// Whether `s` ends with `p`.
pub fn ends_with_str(s: &str, p: &str) -> (r: bool)
    ensures
        r <==> (s@.len() >= p@.len() && s@.subrange(s@.len() - p@.len(), s@.len() as int) == p@),
{
    let slen = s.unicode_len();
    let plen = p.unicode_len();
    if slen < plen {
        return false;
    }
    let tail = s.substring_char(slen - plen, slen);
    str_eq(tail, p)
}

/// Whether `s` contains a slash.
pub fn contains_slash(s: &str) -> (r: bool)
    ensures
        r == s@.contains('/'),
{
    let len = s.unicode_len();
    let mut i: usize = 0;
    while i < len
        invariant
            len == s@.len(),
            i <= len,
            forall|j: int| 0 <= j < i ==> s@[j] != '/',
        decreases len - i,
    {
        if s.get_char(i) == '/' {
            proof {
                assert(s@.contains('/'));
            }
            return true;
        }
        i = i + 1;
    }
    proof {
        assert forall|j: int| 0 <= j < s@.len() implies s@[j] != '/' by {}
    }
    false
}

/// Split `s` into exactly two non-empty, slash-free segments.
pub fn split_two(s: &str) -> (r: Option<(String, String)>)
    ensures
        r matches Some(p) ==> segment_ok(p.0@) && segment_ok(p.1@) && s@ =~= p.0@ + "/"@ + p.1@,
        r is Some <==> two_segments(s@),
{
    proof {
        reveal_strlit("/");
        assert("/"@ =~= seq!['/']);
    }
    let (owner, name) = match crate::forms::split_repo_ident(s) {
        Some(p) => p,
        None => {
            proof {
                assert forall|i: int|
                    !(0 < i < s@.len() - 1 && #[trigger] s@[i] == '/' && (forall|j: int|
                        0 <= j < s@.len() && j != i ==> s@[j] != '/')) by {
                    if 0 < i < s@.len() - 1 && s@[i] == '/' && (forall|j: int|
                        0 <= j < s@.len() && j != i ==> s@[j] != '/') {
                        assert(forall|j: int| 0 <= j < i ==> s@[j] != '/');
                        assert(crate::forms::repo_ident_ok(s@));
                    }
                }
            }
            return None;
        },
    };
    if contains_slash(name.as_str()) {
        proof {
            let k = choose|k: int| 0 <= k < name@.len() && name@[k] == '/';
            let i0 = owner@.len() as int;
            let k2 = i0 + 1 + k;
            assert(s@[k2] == '/');
            assert forall|i: int|
                !(0 < i < s@.len() - 1 && #[trigger] s@[i] == '/' && (forall|j: int|
                    0 <= j < s@.len() && j != i ==> s@[j] != '/')) by {
                if 0 < i < s@.len() - 1 && s@[i] == '/' && (forall|j: int|
                    0 <= j < s@.len() && j != i ==> s@[j] != '/') {
                    assert(s@[i0] == '/');
                    assert(i == i0);
                    assert(s@[k2] != '/');
                }
            }
        }
        return None;
    }
    proof {
        let i0 = owner@.len() as int;
        assert(s@[i0] == '/');
        assert forall|j: int| 0 <= j < s@.len() && j != i0 implies s@[j] != '/' by {
            if j < i0 {
                assert(s@[j] == owner@[j]);
            } else if j > i0 {
                assert(s@[j] == name@[j - i0 - 1]);
                assert(!name@.contains('/'));
            }
        }
        assert(0 < i0 < s@.len() - 1 && s@[i0] == '/');
        assert(two_segments(s@));
    }
    Some((owner, name))
}

/// Whether any declared route matches the method and path: exactly the
/// shapes `route` resolves, so its negation is the not-found page.
pub open spec fn route_matches(m: Method, p: Seq<char>) -> bool {
    ||| (m is Get && p == "/"@)
    ||| (m is Post && p == "/repos"@)
    ||| (m is Get && p == "/authorize/github"@)
    ||| (m is Post && p == "/webhook/travis"@)
    ||| (m is Get && p.len() > 7 && p.subrange(0, 7) == "/repos/"@ && two_segments(p.skip(7)))
    ||| (m is Post && p.len() > 24 && p.subrange(0, 7) == "/repos/"@ && p.subrange(
        p.len() - 17,
        p.len() as int,
    ) == "/add-travis-token"@ && two_segments(p.subrange(7, p.len() - 17)))
    ||| (m is Post && p.len() > 26 && p.subrange(0, 7) == "/repos/"@ && p.subrange(
        p.len() - 19,
        p.len() as int,
    ) == "/add-appveyor-token"@ && two_segments(p.subrange(7, p.len() - 19)))
    ||| (m is Post && p.len() > 16 && p.subrange(0, 16) == "/webhook/github/"@ && two_segments(
        p.skip(16),
    ))
}

/// Where a request is handled.
pub enum Route {
    /// `GET /`: the listing page.
    Index,
    /// `POST /repos`: begin onboarding.
    RepoNew,
    /// `GET /repos/:owner/:name`: a repository's linking status.
    RepoShow { owner: String, name: String },
    /// `POST /repos/:owner/:name/add-travis-token`.
    AddTravisToken { owner: String, name: String },
    /// `POST /repos/:owner/:name/add-appveyor-token`.
    AddAppveyorToken { owner: String, name: String },
    /// `GET /authorize/github`: the OAuth callback.
    AuthorizeGithub,
    /// `POST /webhook/github/:owner/:name`.
    GithubWebhook { owner: String, name: String },
    /// `POST /webhook/travis`.
    TravisWebhook,
    /// Anything else: a rendered not-found page.
    NotFound,
}

/// Resolve a route from method and path. Stateless and exact: each variant
/// holds for precisely the method/path shapes stated here.
pub fn route(method: Method, path: &str) -> (r: Route)
    ensures
        r is NotFound <==> !route_matches(method, path@),
        r is Index <==> (method is Get && path@ == "/"@),
        r is RepoNew <==> (method is Post && path@ == "/repos"@),
        r is AuthorizeGithub <==> (method is Get && path@ == "/authorize/github"@),
        r is TravisWebhook <==> (method is Post && path@ == "/webhook/travis"@),
        r matches Route::RepoShow { owner, name } ==> method is Get && segment_ok(owner@)
            && segment_ok(name@) && path@ =~= "/repos/"@ + owner@ + "/"@ + name@,
        method is Get && path@ != "/authorize/github"@ && path@.len() > 7 && path@.subrange(
            0,
            7,
        ) == "/repos/"@ && two_segments(path@.skip(7)) ==> r is RepoShow,
        r matches Route::AddTravisToken { owner, name } ==> method is Post && segment_ok(owner@)
            && segment_ok(name@) && path@ =~= "/repos/"@ + owner@ + "/"@ + name@
            + "/add-travis-token"@,
        method is Post && path@.len() > 24 && path@.subrange(0, 7) == "/repos/"@
            && path@.subrange(path@.len() - 17, path@.len() as int) == "/add-travis-token"@
            && two_segments(path@.subrange(7, path@.len() - 17)) ==> r is AddTravisToken,
        r matches Route::AddAppveyorToken { owner, name } ==> method is Post && segment_ok(
            owner@,
        ) && segment_ok(name@) && path@ =~= "/repos/"@ + owner@ + "/"@ + name@
            + "/add-appveyor-token"@,
        method is Post && path@.len() > 26 && path@.subrange(0, 7) == "/repos/"@
            && path@.subrange(path@.len() - 17, path@.len() as int) != "/add-travis-token"@
            && path@.subrange(path@.len() - 19, path@.len() as int) == "/add-appveyor-token"@
            && two_segments(path@.subrange(7, path@.len() - 19)) ==> r is AddAppveyorToken,
        r matches Route::GithubWebhook { owner, name } ==> method is Post && segment_ok(owner@)
            && segment_ok(name@) && path@ =~= "/webhook/github/"@ + owner@ + "/"@ + name@,
        method is Post && path@.len() > 16 && path@.subrange(0, 7) != "/repos/"@
            && path@.subrange(0, 16) == "/webhook/github/"@ && two_segments(path@.skip(16))
            ==> r is GithubWebhook,
{
    proof {
        reveal_strlit("/");
        reveal_strlit("/repos");
        reveal_strlit("/authorize/github");
        reveal_strlit("/webhook/travis");
        reveal_strlit("/repos/");
        reveal_strlit("/add-travis-token");
        reveal_strlit("/add-appveyor-token");
        reveal_strlit("/webhook/github/");
        assert("/"@.len() == 1);
        assert("/repos"@.len() == 6);
        assert("/authorize/github"@.len() == 17);
        assert("/webhook/travis"@.len() == 15);
        assert("/repos/"@.len() == 7);
        assert("/add-travis-token"@.len() == 17);
        assert("/add-appveyor-token"@.len() == 19);
        assert("/webhook/github/"@.len() == 16);
    }
    match method {
        Method::Get => {
            if str_eq(path, "/") {
                return Route::Index;
            }
            if str_eq(path, "/authorize/github") {
                return Route::AuthorizeGithub;
            }
            if starts_with_str(path, "/repos/") {
                let len = path.unicode_len();
                let rest = path.substring_char(7, len);
                if let Some((owner, name)) = split_two(rest) {
                    proof {
                        assert(path@ =~= path@.subrange(0, 7) + path@.subrange(
                            7,
                            path@.len() as int,
                        ));
                        assert(path@ =~= "/repos/"@ + rest@);
                        assert(path@ =~= "/repos/"@ + owner@ + "/"@ + name@);
                    }
                    return Route::RepoShow { owner, name };
                }
            }
            Route::NotFound
        },
        Method::Post => {
            if str_eq(path, "/repos") {
                return Route::RepoNew;
            }
            if str_eq(path, "/webhook/travis") {
                return Route::TravisWebhook;
            }
            let len = path.unicode_len();
            if starts_with_str(path, "/repos/") {
                if ends_with_str(path, "/add-travis-token") && len > 24 {
                    let mid = path.substring_char(7, len - 17);
                    if let Some((owner, name)) = split_two(mid) {
                        proof {
                            assert(path@ =~= path@.subrange(0, 7) + path@.subrange(
                                7,
                                path@.len() - 17,
                            ) + path@.subrange(path@.len() - 17, path@.len() as int));
                            assert(path@ =~= "/repos/"@ + mid@ + "/add-travis-token"@);
                            assert(path@ =~= "/repos/"@ + (owner@ + "/"@ + name@)
                                + "/add-travis-token"@);
                            assert(path@ =~= "/repos/"@ + owner@ + "/"@ + name@
                                + "/add-travis-token"@);
                        }
                        return Route::AddTravisToken { owner, name };
                    }
                }
                proof {
                    assert(path@.subrange(0, 7)[1] == path@[1]);
                    assert(path@.len() > 16 ==> path@.subrange(0, 16)[1] == path@[1]);
                }
                if ends_with_str(path, "/add-appveyor-token") && len > 26 {
                    let mid = path.substring_char(7, len - 19);
                    if let Some((owner, name)) = split_two(mid) {
                        proof {
                            assert(path@ =~= path@.subrange(0, 7) + path@.subrange(
                                7,
                                path@.len() - 19,
                            ) + path@.subrange(path@.len() - 19, path@.len() as int));
                            assert(path@ =~= "/repos/"@ + mid@ + "/add-appveyor-token"@);
                            assert(path@ =~= "/repos/"@ + (owner@ + "/"@ + name@)
                                + "/add-appveyor-token"@);
                            assert(path@ =~= "/repos/"@ + owner@ + "/"@ + name@
                                + "/add-appveyor-token"@);
                        }
                        return Route::AddAppveyorToken { owner, name };
                    }
                }
                return Route::NotFound;
            }
            if starts_with_str(path, "/webhook/github/") && len > 16 {
                let rest = path.substring_char(16, len);
                if let Some((owner, name)) = split_two(rest) {
                    proof {
                        assert(path@ =~= path@.subrange(0, 16) + path@.subrange(
                            16,
                            path@.len() as int,
                        ));
                        assert(path@ =~= "/webhook/github/"@ + rest@);
                        assert(path@ =~= "/webhook/github/"@ + owner@ + "/"@ + name@);
                    }
                    return Route::GithubWebhook { owner, name };
                }
            }
            Route::NotFound
        },
    }
}

/// One listing row: a link to the repository page.
pub open spec fn row_chars(p: ProjectView) -> Seq<char> {
    "<a href=\"/repos/"@ + p.repo_user + "/"@ + p.repo_name + "\">"@ + p.repo_user + "/"@
        + p.repo_name + "</a>\n"@
}

/// The listing rows, in table order.
pub open spec fn listing_rows(s: Seq<ProjectView>) -> Seq<char>
    decreases s.len(),
{
    if s.len() == 0 {
        Seq::empty()
    } else {
        row_chars(s[0]) + listing_rows(s.drop_first())
    }
}

/// The listing page: the add-repository form followed by one row per
/// project.
pub open spec fn listing_chars(s: Seq<ProjectView>) -> Seq<char> {
    "<form action=\"/repos\" method=\"post\">Add repo: <input name=\"repo\" type=\"text\"/></form>\n"@
        + listing_rows(s)
}

proof fn lemma_listing_rows_snoc(s: Seq<ProjectView>, p: ProjectView)
    ensures
        listing_rows(s.push(p)) =~= listing_rows(s) + row_chars(p),
    decreases s.len(),
{
    if s.len() == 0 {
        assert(s.push(p).drop_first() =~= Seq::<ProjectView>::empty());
        assert(s =~= Seq::<ProjectView>::empty());
    } else {
        assert(s.push(p).drop_first() =~= s.drop_first().push(p));
        lemma_listing_rows_snoc(s.drop_first(), p);
    }
}

/// Render the listing page, with an optional flash notice.
pub fn repos_page(store: &ProjectStore, flash: Option<String>) -> (r: Response)
    ensures
        r.status == 200,
        r.body@ =~= listing_chars(store@),
        opt_view(r.flash) == opt_view(flash),
        r.location is None,
{
    let rows = store.all();
    let mut body = String::from_str(
        "<form action=\"/repos\" method=\"post\">Add repo: <input name=\"repo\" type=\"text\"/></form>\n",
    );
    let mut i: usize = 0;
    while i < rows.len()
        invariant
            rows@.len() == store@.len(),
            forall|j: int| 0 <= j < rows@.len() ==> (#[trigger] rows@[j])@ == store@[j],
            i <= rows@.len(),
            body@ =~= "<form action=\"/repos\" method=\"post\">Add repo: <input name=\"repo\" type=\"text\"/></form>\n"@
                + listing_rows(store@.subrange(0, i as int)),
        decreases rows@.len() - i,
    {
        body.append("<a href=\"/repos/");
        body.append(rows[i].repo_user.as_str());
        body.append("/");
        body.append(rows[i].repo_name.as_str());
        body.append("\">");
        body.append(rows[i].repo_user.as_str());
        body.append("/");
        body.append(rows[i].repo_name.as_str());
        body.append("</a>\n");
        proof {
            assert(store@.subrange(0, i + 1) =~= store@.subrange(0, i as int).push(
                store@[i as int],
            ));
            lemma_listing_rows_snoc(store@.subrange(0, i as int), store@[i as int]);
        }
        i = i + 1;
    }
    proof {
        assert(store@.subrange(0, store@.len() as int) =~= store@);
    }
    Response { status: 200, location: None, flash, body }
}

/// The token-submission form for a provider, shown only while that
/// provider's token is absent.
pub open spec fn token_form_chars(p: ProjectView, action: Seq<char>) -> Seq<char> {
    "<form action=\"/repos/"@ + p.repo_user + "/"@ + p.repo_name + action
        + "\" method=\"post\"><input type=\"text\" name=\"token\"/></form>\n"@
}

/// The repository page: the heading, and a token form for each provider
/// that has no stored token yet.
pub open spec fn show_chars(p: ProjectView) -> Seq<char> {
    "<h2>"@ + p.repo_user + "/"@ + p.repo_name + "</h2>\n"@ + (if p.travis_access_token
        is None {
        token_form_chars(p, "/add-travis-token"@)
    } else {
        Seq::<char>::empty()
    }) + (if p.appveyor_token is None {
        token_form_chars(p, "/add-appveyor-token"@)
    } else {
        Seq::<char>::empty()
    })
}

fn push_token_form(body: &mut String, user: &str, name: &str, action: &str)
    ensures
        final(body)@ =~= old(body)@ + ("<form action=\"/repos/"@ + user@ + "/"@ + name@ + action@
            + "\" method=\"post\"><input type=\"text\" name=\"token\"/></form>\n"@),
{
    body.append("<form action=\"/repos/");
    body.append(user);
    body.append("/");
    body.append(name);
    body.append(action);
    body.append("\" method=\"post\"><input type=\"text\" name=\"token\"/></form>\n");
}

/// Render a repository page, reflecting its linking status; absent
/// projects surface as the missing-project error.
pub fn repo_show_page(store: &ProjectStore, owner: &str, name: &str, flash: Option<String>) -> (r:
    Result<Response, Error>)
    requires
        store.wf(),
    ensures
        has_project(store@, owner@, name@) ==> (r matches Ok(resp) && resp.status == 200
            && resp.body@ =~= show_chars(project_at(store@, owner@, name@)) && opt_view(
            resp.flash,
        ) == opt_view(flash) && resp.location is None),
        !has_project(store@, owner@, name@) ==> (r matches Err(e) && e is MissingProject),
{
    let project = match store.find_by_name(owner, name) {
        Ok(p) => p,
        Err(e) => return Err(e),
    };
    let mut body = String::from_str("<h2>");
    body.append(project.repo_user.as_str());
    body.append("/");
    body.append(project.repo_name.as_str());
    body.append("</h2>\n");
    if project.travis_access_token.is_none() {
        push_token_form(
            &mut body,
            project.repo_user.as_str(),
            project.repo_name.as_str(),
            "/add-travis-token",
        );
    }
    if project.appveyor_token.is_none() {
        push_token_form(
            &mut body,
            project.repo_user.as_str(),
            project.repo_name.as_str(),
            "/add-appveyor-token",
        );
    }
    proof {
        assert(body@ =~= show_chars(project_at(store@, owner@, name@)));
    }
    Ok(Response { status: 200, location: None, flash, body })
}

/// Translate an error into a response, as the pipeline does at top level:
/// a missing project becomes the listing page with a flash notice; every
/// other kind becomes a generic server error.
pub fn error_response(store: &ProjectStore, e: &Error) -> (r: Response)
    ensures
        e is MissingProject ==> r.status == 200 && (r.flash matches Some(f) && f@
            == "user/repo combo not found"@) && r.body@ =~= listing_chars(store@),
        !(e is MissingProject) ==> r.status == 500 && r.flash is None,
{
    match e {
        Error::MissingProject => {
            let msg = e.describe();
            repos_page(store, Some(String::from_str(msg)))
        },
        _ => Response {
            status: 500,
            location: None,
            flash: None,
            body: String::from_str("internal server error"),
        },
    }
}

/// What a handled request is waiting for, if anything: the state to resume
/// with once the named outbound call completes.
pub enum PendingState {
    /// An onboarding session between outbound calls.
    Onboard(Onboarding),
    /// CI-provider-A linking, awaiting the repository lookup.
    TravisRepo { project_id: i32, owner: String, name: String, token: String },
    /// CI-provider-A linking, awaiting the settings lookup.
    TravisSettings { project_id: i32, owner: String, name: String, token: String },
    /// CI-provider-B linking, awaiting the project listing.
    AppveyorProjects { project_id: i32, owner: String, name: String, token: String },
    /// CI-provider-B linking, awaiting the registration call.
    AppveyorRegister { project_id: i32, owner: String, name: String, token: String },
    /// A CI-provider delivery, awaiting the provider configuration.
    TravisHook(TravisDelivery),
}

/// What one pipeline step produced: a final response, or a suspension on
/// one outbound call.
pub enum Step {
    Respond(Response),
    Suspend(PendingState, OutCall),
}

/// Which event a suspended state is waiting for.
pub open spec fn expects(p: &PendingState, ev: &OutEvent) -> bool {
    match p {
        PendingState::Onboard(st) => match st {
            Onboarding::AwaitingToken { .. } => ev is TokenExchanged,
            Onboarding::AwaitingRepo { .. } => ev is RepoFetched,
            Onboarding::AwaitingHook { .. } => ev is HookRegistered,
            Onboarding::Complete { .. } => false,
        },
        PendingState::TravisRepo { .. } => ev is TravisRepoFetched,
        PendingState::TravisSettings { .. } => ev is TravisSettingsFetched,
        PendingState::AppveyorProjects { .. } => ev is AppveyorProjectsFetched,
        PendingState::AppveyorRegister { .. } => ev is AppveyorRegistered,
        PendingState::TravisHook(_) => ev is TravisConfigFetched,
    }
}

/// Turn an error from a CI-token flow into its response: invalid tokens
/// redisplay the repository page with the notice, everything else takes
/// the top-level translation.
fn ci_error_response(store: &ProjectStore, owner: &str, name: &str, e: Error) -> (r: Response)
    requires
        store.wf(),
    ensures
        r.status == 500 || r.flash is Some,
        e is InvalidToken && has_project(store@, owner@, name@) ==> r.status == 200 && (r.flash
            matches Some(f) && f@ == e->InvalidToken_0@) && r.body@ == show_chars(
            project_at(store@, owner@, name@),
        ),
{
    match e {
        Error::InvalidToken(m) => match repo_show_page(store, owner, name, Some(m)) {
            Ok(resp) => resp,
            Err(e2) => error_response(store, &e2),
        },
        other => error_response(store, &other),
    }
}

/// Handle one inbound request to its first suspension point or response.
///
/// The project table is never written here: creation and token writes
/// happen only when their outbound calls have come back, in `handle_event`.
/// The event table grows only for a verified source-host delivery; an
/// error response — server error or flash — means nothing was recorded.
#[verifier::rlimit(100)]
pub fn handle_request(
    cfg: &Config,
    store: &mut ProjectStore,
    events: &mut EventLog,
    req: &Request,
) -> (r: Step)
    requires
        old(store).wf(),
        old(events).wf(),
        old(events)@.len() < i32::MAX,
    ensures
        final(store).wf(),
        final(events).wf(),
        final(store)@ == old(store)@,
        old(events)@.is_prefix_of(final(events)@),
        r is Suspend ==> final(events)@ == old(events)@,
        r matches Step::Respond(resp) && resp.status == 500 ==> final(events)@ == old(events)@,
        r matches Step::Respond(resp) && resp.flash is Some ==> final(events)@ == old(events)@,
        !route_matches(req.method, req.path@) ==> (r matches Step::Respond(resp) && resp.status
            == 404 && resp.body@ == "page not found"@ && resp.flash is None),
        req.method is Get && req.path@ == "/"@ ==> (r matches Step::Respond(resp) && resp.status
            == 200 && resp.flash is None && resp.body@ == listing_chars(old(store)@)),
        req.method is Post && req.path@ == "/repos"@ && lookup_field(
            form_fields_of(req.body@),
            "repo"@,
        ) is None ==> (r matches Step::Respond(resp) && resp.status == 500),
        req.method is Post && req.path@ == "/repos"@ && lookup_field(
            form_fields_of(req.body@),
            "repo"@,
        ) is Some ==> (r matches Step::Respond(resp) && resp.status == 302 && (resp.location
            matches Some(l) && l@ == authorize_url_chars(
            cfg.gh_client_id@,
            lookup_field(form_fields_of(req.body@), "repo"@)->Some_0,
        ))),
        req.method is Get && req.path@ == "/authorize/github"@ ==> ({
            let fq = form_fields_of(encode_utf8(req.query@));
            &&& (lookup_field(fq, "code"@) is None || lookup_field(fq, "state"@) is None) ==> (r
                matches Step::Respond(resp) && resp.status == 500)
            &&& (lookup_field(fq, "code"@) is Some && lookup_field(fq, "state"@) is Some) ==> (r
                matches Step::Suspend(p, c) && (p matches PendingState::Onboard(st) && st
                matches Onboarding::AwaitingToken { repo, code } && repo@ == lookup_field(
                fq,
                "state"@,
            )->Some_0 && code@ == lookup_field(fq, "code"@)->Some_0) && (c
                matches OutCall::ExchangeCode { code: c2 } && c2@ == lookup_field(
                fq,
                "code"@,
            )->Some_0))
        }),
        req.method is Get && req.path@ != "/authorize/github"@ && req.path@.len() > 7
            && req.path@.subrange(0, 7) == "/repos/"@ && two_segments(req.path@.skip(7)) ==> ({
            let ow = ident_owner(req.path@.skip(7));
            let nm = ident_name(req.path@.skip(7));
            &&& has_project(old(store)@, ow, nm) ==> (r matches Step::Respond(resp)
                && resp.status == 200 && resp.flash is None && resp.body@ == show_chars(
                project_at(old(store)@, ow, nm),
            ))
            &&& !has_project(old(store)@, ow, nm) ==> (r matches Step::Respond(resp)
                && resp.status == 200 && (resp.flash matches Some(f) && f@
                == "user/repo combo not found"@) && resp.body@ == listing_chars(old(store)@))
        }),
        req.method is Post && req.path@.len() > 24 && req.path@.subrange(0, 7) == "/repos/"@
            && req.path@.subrange(req.path@.len() - 17, req.path@.len() as int)
            == "/add-travis-token"@ && two_segments(
            req.path@.subrange(7, req.path@.len() - 17),
        ) ==> ({
            let mid = req.path@.subrange(7, req.path@.len() - 17);
            let ow = ident_owner(mid);
            let nm = ident_name(mid);
            let tok = lookup_field(form_fields_of(req.body@), "token"@);
            &&& tok is None ==> (r matches Step::Respond(resp) && resp.status == 500)
            &&& tok is Some && !has_project(old(store)@, ow, nm) ==> (r matches Step::Respond(
                resp,
            ) && resp.status == 200 && resp.flash is Some)
            &&& tok is Some && has_project(old(store)@, ow, nm) ==> (r matches Step::Suspend(
                p,
                c,
            ) && (p matches PendingState::TravisRepo { project_id, owner, name, token }
                && project_id as int == project_at(old(store)@, ow, nm).id && owner@ == ow
                && name@ == nm && token@ == tok->Some_0) && (c matches OutCall::TravisGet {
                path,
                token: t2,
            } && path@ == "/repos/"@ + ow + "/"@ + nm && t2@ == tok->Some_0))
        }),
        req.method is Post && req.path@.len() > 26 && req.path@.subrange(0, 7) == "/repos/"@
            && req.path@.subrange(req.path@.len() - 17, req.path@.len() as int)
            != "/add-travis-token"@ && req.path@.subrange(
            req.path@.len() - 19,
            req.path@.len() as int,
        ) == "/add-appveyor-token"@ && two_segments(
            req.path@.subrange(7, req.path@.len() - 19),
        ) ==> ({
            let mid = req.path@.subrange(7, req.path@.len() - 19);
            let ow = ident_owner(mid);
            let nm = ident_name(mid);
            let tok = lookup_field(form_fields_of(req.body@), "token"@);
            &&& tok is None ==> (r matches Step::Respond(resp) && resp.status == 500)
            &&& tok is Some && !has_project(old(store)@, ow, nm) ==> (r matches Step::Respond(
                resp,
            ) && resp.status == 200 && resp.flash is Some)
            &&& tok is Some && has_project(old(store)@, ow, nm) ==> (r matches Step::Suspend(
                p,
                c,
            ) && (p matches PendingState::AppveyorProjects { project_id, owner, name, token }
                && project_id as int == project_at(old(store)@, ow, nm).id && owner@ == ow
                && name@ == nm && token@ == tok->Some_0) && (c matches OutCall::AppveyorGet {
                path,
                token: t2,
            } && path@ == "/projects"@ && t2@ == tok->Some_0))
        }),
        req.method is Post && req.path@.len() > 16 && req.path@.subrange(0, 7) != "/repos/"@
            && req.path@.subrange(0, 16) == "/webhook/github/"@ && two_segments(
            req.path@.skip(16),
        ) ==> ({
            let ow = ident_owner(req.path@.skip(16));
            let nm = ident_name(req.path@.skip(16));
            let hp = req.headers.github_event is Some && req.headers.github_signature is Some
                && req.headers.github_delivery is Some;
            &&& r is Respond
            &&& !hp ==> (r matches Step::Respond(resp) && resp.status == 500 && final(events)@
                == old(events)@)
            &&& hp && !has_project(old(store)@, ow, nm) ==> (r matches Step::Respond(resp)
                && resp.status == 200 && (resp.flash matches Some(f) && f@
                == "user/repo combo not found"@) && final(events)@ == old(events)@)
            &&& (r matches Step::Respond(resp) && resp.status == 200 && resp.flash is None)
                ==> hp && has_project(old(store)@, ow, nm) && github_signature_ok(
                encode_utf8(project_at(old(store)@, ow, nm).github_webhook_secret),
                req.body@,
                encode_utf8(req.headers.github_signature->0@),
            ) && valid_utf8(req.body@) && final(events)@ =~= old(events)@.push(
                EventLog::inserted_row(
                    old(events)@,
                    Provider::GitHub,
                    req.headers.github_delivery->0@,
                    req.headers.github_event->0@,
                    decode_utf8(req.body@),
                ),
            )
        }),
        req.method is Post && req.path@ == "/webhook/travis"@ ==> ({
            let fb = form_fields_of(req.body@);
            let slug = req.headers.travis_repo_slug;
            let sigh = req.headers.travis_signature;
            &&& (slug is None || sigh is None || lookup_field(fb, "payload"@) is None) ==> (r
                matches Step::Respond(resp) && resp.status == 500)
            &&& slug is Some && sigh is Some && lookup_field(fb, "payload"@) is Some && (base64_of(
                encode_utf8(sigh->0@),
            ) is None || !repo_ident_ok(slug->0@)) ==> (r matches Step::Respond(resp)
                && resp.status == 500)
            &&& slug is Some && sigh is Some && lookup_field(fb, "payload"@) is Some && base64_of(
                encode_utf8(sigh->0@),
            ) is Some && repo_ident_ok(slug->0@) ==> (r matches Step::Suspend(p, c) && (p
                matches PendingState::TravisHook(d) && d.payload@ == lookup_field(
                fb,
                "payload"@,
            )->Some_0 && Some(d.signature@) == base64_of(encode_utf8(sigh->0@)) && d.owner@
                == ident_owner(slug->0@) && d.name@ == ident_name(slug->0@)) && (c
                matches OutCall::HttpGet { url } && url@ == "https://api.travis-ci.org/config"@))
        }),
{
    proof {
        broadcast use vstd::seq_lib::group_seq_properties;

        reveal_strlit("/repos/");
        reveal_strlit("/add-travis-token");
        reveal_strlit("/add-appveyor-token");
        reveal_strlit("/webhook/github/");
        assert("/repos/"@.len() == 7);
        assert("/add-travis-token"@.len() == 17);
        assert("/add-appveyor-token"@.len() == 19);
        assert("/webhook/github/"@.len() == 16);
    }
    let step = match route(req.method, req.path.as_str()) {
        Route::Index => Step::Respond(repos_page(store, None)),
        Route::RepoNew => {
            let fields = parse_form(req.body.as_slice());
            proof {
                assert(fields_view(fields@) =~= form_fields_of(req.body@));
            }
            match find_field(&fields, "repo") {
                Some(repo) => {
                    let url = authorize_url(cfg, repo.as_str());
                    Step::Respond(redirect(url.as_str()))
                },
                None => Step::Respond(
                    error_response(
                        store,
                        &Error::MalformedInput(String::from_str("repo field missing")),
                    ),
                ),
            }
        },
        Route::RepoShow { owner, name } => {
            proof {
                assert(req.path@.skip(7) =~= owner@ + "/"@ + name@);
                lemma_ident_parts(req.path@.skip(7), owner@, name@);
            }
            match repo_show_page(store, owner.as_str(), name.as_str(), None) {
                Ok(resp) => Step::Respond(resp),
                Err(e) => Step::Respond(error_response(store, &e)),
            }
        },
        Route::AuthorizeGithub => {
            let qbytes = req.query.as_str().as_bytes_vec();
            match parse_callback(qbytes.as_slice()) {
                Ok((code, state)) => {
                    let (session, call) = onboard_start(code, state);
                    Step::Suspend(PendingState::Onboard(session), call)
                },
                Err(e) => Step::Respond(error_response(store, &e)),
            }
        },
        Route::AddTravisToken { owner, name } => {
            proof {
                assert(req.path@.subrange(7, req.path@.len() - 17) =~= owner@ + "/"@ + name@);
                lemma_ident_parts(req.path@.subrange(7, req.path@.len() - 17), owner@, name@);
            }
            match travis_link_start(store, owner.as_str(), name.as_str(), req.body.as_slice()) {
                Ok((project, token, call)) => Step::Suspend(
                    PendingState::TravisRepo { project_id: project.id, owner, name, token },
                    call,
                ),
                Err(e) => Step::Respond(error_response(store, &e)),
            }
        },
        Route::AddAppveyorToken { owner, name } => {
            proof {
                assert(req.path@.subrange(7, req.path@.len() - 19) =~= owner@ + "/"@ + name@);
                lemma_ident_parts(req.path@.subrange(7, req.path@.len() - 19), owner@, name@);
            }
            match appveyor_link_start(store, owner.as_str(), name.as_str(), req.body.as_slice())
            {
                Ok((project, token, call)) => Step::Suspend(
                    PendingState::AppveyorProjects {
                        project_id: project.id,
                        owner,
                        name,
                        token,
                    },
                    call,
                ),
                Err(e) => Step::Respond(error_response(store, &e)),
            }
        },
        Route::GithubWebhook { owner, name } => {
            proof {
                assert(req.path@.skip(16) =~= owner@ + "/"@ + name@);
                lemma_ident_parts(req.path@.skip(16), owner@, name@);
            }
            match crate::ingest::github_webhook(
            store,
            events,
            owner.as_str(),
            name.as_str(),
            req.headers.github_event.as_ref(),
            req.headers.github_signature.as_ref(),
            req.headers.github_delivery.as_ref(),
            &req.body,
        ) {
                Ok(()) => Step::Respond(html("")),
                Err(e) => Step::Respond(error_response(store, &e)),
            }
        },
        Route::TravisWebhook => match travis_webhook_start(
            req.headers.travis_repo_slug.as_ref(),
            req.headers.travis_signature.as_ref(),
            req.body.as_slice(),
        ) {
            Ok((delivery, call)) => {
                proof {
                    lemma_ident_parts(
                        req.headers.travis_repo_slug->0@,
                        delivery.owner@,
                        delivery.name@,
                    );
                }
                Step::Suspend(PendingState::TravisHook(delivery), call)
            },
            Err(e) => Step::Respond(error_response(store, &e)),
        },
        Route::NotFound => {
            let mut resp = html("page not found");
            resp.status = 404;
            Step::Respond(resp)
        },
    };
    step
}

/// Resume a suspended request with the outcome of its outbound call.
///
/// This is where the tables change: a project row appears only when the
/// webhook registration came back successful, and a CI token is stored
/// only after its validation calls succeeded. A suspension or an error
/// response — server error or flash — leaves both tables exactly as they
/// were.
#[verifier::rlimit(100)]
pub fn handle_event(
    cfg: &Config,
    store: &mut ProjectStore,
    events: &mut EventLog,
    pending: PendingState,
    event: OutEvent,
) -> (r: Step)
    requires
        expects(&pending, &event),
        old(store).wf(),
        old(events).wf(),
        old(store)@.len() < i32::MAX,
        old(events)@.len() < i32::MAX,
    ensures
        final(store).wf(),
        final(events).wf(),
        old(events)@.is_prefix_of(final(events)@),
        r is Suspend ==> final(store)@ == old(store)@ && final(events)@ == old(events)@,
        r matches Step::Respond(resp) && resp.status == 500 ==> final(store)@ == old(store)@
            && final(events)@ == old(events)@,
        r matches Step::Respond(resp) && resp.flash is Some ==> final(store)@ == old(store)@
            && final(events)@ == old(events)@,
        pending is Onboard && pending->Onboard_0 is AwaitingToken && event is TokenExchanged
            && event->TokenExchanged_0 is Ok ==> (r matches Step::Suspend(p, c) && (p
            matches PendingState::Onboard(st2) && st2 matches Onboarding::AwaitingRepo {
            repo,
            token,
        } && repo@ == pending->Onboard_0->AwaitingToken_repo@ && token@
            == event->TokenExchanged_0->Ok_0@) && (c matches OutCall::GithubGet {
            path,
            token: t2,
        } && path@ == "/repos/"@ + pending->Onboard_0->AwaitingToken_repo@ && t2@
            == event->TokenExchanged_0->Ok_0@)),
        pending is Onboard && pending->Onboard_0 is AwaitingToken && event is TokenExchanged
            && event->TokenExchanged_0 is Err ==> (r matches Step::Respond(resp) && (resp.status
            == 500 || resp.flash is Some)),
        pending is Onboard && pending->Onboard_0 is AwaitingRepo && event is RepoFetched
            && event->RepoFetched_0 is Ok && repo_ident_ok(
            pending->Onboard_0->AwaitingRepo_repo@,
        ) ==> ({
            let ident = pending->Onboard_0->AwaitingRepo_repo@;
            r matches Step::Suspend(p, c) && (p matches PendingState::Onboard(st2) && st2
                matches Onboarding::AwaitingHook { owner, name, repo_id, token, secret }
                && owner@ == ident_owner(ident) && name@ == ident_name(ident) && repo_id as int
                == event->RepoFetched_0->Ok_0.id as int && token@
                == pending->Onboard_0->AwaitingRepo_token@ && secret@.len() == 20 && (c
                matches OutCall::GithubPost { path, token: t2, webhook } && t2@
                == pending->Onboard_0->AwaitingRepo_token@ && webhook_request_ok(
                webhook,
                cfg.host@,
                owner@,
                name@,
                secret@,
            )))
        }),
        pending is Onboard && pending->Onboard_0 is AwaitingRepo && event is RepoFetched
            && event->RepoFetched_0 is Ok && !repo_ident_ok(
            pending->Onboard_0->AwaitingRepo_repo@,
        ) ==> (r matches Step::Respond(resp) && resp.status == 500),
        pending is Onboard && pending->Onboard_0 is AwaitingHook && event is HookRegistered
            ==> ({
            let ow = pending->Onboard_0->AwaitingHook_owner@;
            let nm = pending->Onboard_0->AwaitingHook_name@;
            &&& event->HookRegistered_0 is Err ==> final(store)@ == old(store)@ && (r
                matches Step::Respond(resp) && (resp.status == 500 || resp.flash is Some))
            &&& event->HookRegistered_0 is Ok && !has_project(old(store)@, ow, nm) ==> final(store)@ =~= old(store)@.push(
                ProjectStore::inserted_row(
                    old(store)@,
                    ow,
                    nm,
                    pending->Onboard_0->AwaitingHook_repo_id as int,
                    pending->Onboard_0->AwaitingHook_token@,
                    pending->Onboard_0->AwaitingHook_secret@,
                ),
            ) && (r matches Step::Respond(resp) && resp.status == 302 && (resp.location
                matches Some(l) && l@ == "/"@))
            &&& event->HookRegistered_0 is Ok && has_project(old(store)@, ow, nm) ==> final(store)@ == old(store)@ && (r matches Step::Respond(resp) && resp.status == 500)
        }),
        pending is TravisRepo && event is TravisRepoFetched ==> ({
            let res = event->TravisRepoFetched_0;
            &&& res is Ok && res->Ok_0.repo.id >= 0 ==> (r matches Step::Suspend(p, c) && (p
                matches PendingState::TravisSettings { project_id, owner, name, token }
                && project_id == pending->TravisRepo_project_id && owner@
                == pending->TravisRepo_owner@ && name@ == pending->TravisRepo_name@ && token@
                == pending->TravisRepo_token@) && (c matches OutCall::TravisGet {
                path,
                token: t2,
            } && path@ == "/repos/"@ + dec_chars(res->Ok_0.repo.id as int) + "/settings"@ && t2@
                == pending->TravisRepo_token@))
            &&& res is Err && has_project(
                old(store)@,
                pending->TravisRepo_owner@,
                pending->TravisRepo_name@,
            ) ==> (r matches Step::Respond(resp) && resp.status == 200 && (resp.flash
                matches Some(f) && f@ == "travis token was invalid"@))
        }),
        pending is TravisSettings && event is TravisSettingsFetched ==> ({
            let id = pending->TravisSettings_project_id;
            let ow = pending->TravisSettings_owner@;
            let nm = pending->TravisSettings_name@;
            &&& event->TravisSettingsFetched_0 is Ok && 1 <= id <= old(store)@.len() ==> final(store)@ =~= old(store)@.update(
                id - 1,
                ProjectView {
                    travis_access_token: Some(pending->TravisSettings_token@),
                    ..old(store)@[id - 1]
                },
            ) && (r matches Step::Respond(resp) && resp.status == 302 && (resp.location
                matches Some(l) && l@ == "/repos/"@ + ow + "/"@ + nm))
            &&& event->TravisSettingsFetched_0 is Err && has_project(old(store)@, ow, nm) ==> (r
                matches Step::Respond(resp) && resp.status == 200 && (resp.flash
                matches Some(f) && f@ == "project not registered?"@))
        }),
        pending is AppveyorProjects && event is AppveyorProjectsFetched ==> ({
            let id = pending->AppveyorProjects_project_id;
            let ow = pending->AppveyorProjects_owner@;
            let nm = pending->AppveyorProjects_name@;
            let tok = pending->AppveyorProjects_token@;
            let res = event->AppveyorProjectsFetched_0;
            &&& res is Ok && !some_appveyor_match(res->Ok_0@, ow + "/"@ + nm) ==> (r
                matches Step::Suspend(p, c) && (p matches PendingState::AppveyorRegister {
                project_id,
                owner,
                name,
                token,
            } && project_id == id && owner@ == ow && name@ == nm && token@ == tok) && (c
                matches OutCall::AppveyorPost { path, token: t2, project } && path@
                == "/projects"@ && t2@ == tok && project.repositoryProvider@ == "gitHub"@
                && project.repositoryName@ == ow + "/"@ + nm))
            &&& res is Ok && some_appveyor_match(res->Ok_0@, ow + "/"@ + nm) && 1 <= id <= old(store)@.len() ==> final(store)@ =~= old(store)@.update(
                id - 1,
                ProjectView { appveyor_token: Some(tok), ..old(store)@[id - 1] },
            ) && (r matches Step::Respond(resp) && resp.status == 302 && (resp.location
                matches Some(l) && l@ == "/repos/"@ + ow + "/"@ + nm))
            &&& res is Err && has_project(old(store)@, ow, nm) ==> (r matches Step::Respond(
                resp,
            ) && resp.status == 200 && (resp.flash matches Some(f) && f@
                == "appveyor token was invalid"@))
        }),
        pending is AppveyorRegister && event is AppveyorRegistered ==> ({
            let id = pending->AppveyorRegister_project_id;
            let ow = pending->AppveyorRegister_owner@;
            let nm = pending->AppveyorRegister_name@;
            &&& event->AppveyorRegistered_0 is Ok && 1 <= id <= old(store)@.len() ==> final(store)@ =~= old(store)@.update(
                id - 1,
                ProjectView {
                    appveyor_token: Some(pending->AppveyorRegister_token@),
                    ..old(store)@[id - 1]
                },
            ) && (r matches Step::Respond(resp) && resp.status == 302 && (resp.location
                matches Some(l) && l@ == "/repos/"@ + ow + "/"@ + nm))
            &&& event->AppveyorRegistered_0 is Err ==> final(store)@ == old(store)@ && (r
                matches Step::Respond(resp) && (resp.status == 500 || resp.flash is Some))
        }),
        pending is TravisHook && event is TravisConfigFetched ==> ({
            let d = pending->TravisHook_0;
            let res = event->TravisConfigFetched_0;
            &&& r is Respond
            &&& (r matches Step::Respond(resp) && resp.status == 200 && resp.flash is None)
                ==> res is Ok && rsa_sha1_verified(
                encode_utf8(res->Ok_0.config.notifications.webhook.public_key@),
                encode_utf8(d.payload@),
                d.signature@,
            ) && has_project(old(store)@, d.owner@, d.name@) && final(events)@ =~= old(events)@.push(
                EventLog::inserted_row(old(events)@, Provider::Travis, ""@, ""@, d.payload@),
            )
            &&& res is Ok && !has_project(old(store)@, d.owner@, d.name@) ==> (r
                matches Step::Respond(resp) && (resp.status == 500 || (resp.status == 200
                && resp.flash is Some)) && final(events)@ == old(events)@)
        }),
    {
    proof {
        broadcast use vstd::seq_lib::group_seq_properties;

    }
    match (pending, event) {
        (PendingState::Onboard(st), OutEvent::TokenExchanged(res)) => match on_token_exchanged(
            st,
            res,
        ) {
            Ok((session, call)) => Step::Suspend(PendingState::Onboard(session), call),
            Err(e) => Step::Respond(error_response(store, &e)),
        },
        (PendingState::Onboard(st), OutEvent::RepoFetched(res)) => match on_repo_fetched(
            cfg,
            st,
            res,
        ) {
            Ok((session, call)) => {
                proof {
                    if session is AwaitingHook {
                        lemma_ident_parts(
                            st->AwaitingRepo_repo@,
                            session->AwaitingHook_owner@,
                            session->AwaitingHook_name@,
                        );
                    }
                }
                Step::Suspend(PendingState::Onboard(session), call)
            },
            Err(e) => Step::Respond(error_response(store, &e)),
        },
        (PendingState::Onboard(st), OutEvent::HookRegistered(res)) => match on_hook_registered(
            st,
            store,
            res,
        ) {
            Ok(_project) => Step::Respond(redirect("/")),
            Err(e) => Step::Respond(error_response(store, &e)),
        },
        (
            PendingState::TravisRepo { project_id, owner, name, token },
            OutEvent::TravisRepoFetched(res),
        ) => match travis_link_repo(token.as_str(), res) {
            Ok(call) => Step::Suspend(
                PendingState::TravisSettings { project_id, owner, name, token },
                call,
            ),
            Err(e) => Step::Respond(ci_error_response(store, owner.as_str(), name.as_str(), e)),
        },
        (
            PendingState::TravisSettings { project_id, owner, name, token },
            OutEvent::TravisSettingsFetched(res),
        ) => match travis_link_finish(
            store,
            project_id,
            owner.as_str(),
            name.as_str(),
            token.as_str(),
            res,
        ) {
            Ok(loc) => Step::Respond(redirect(loc.as_str())),
            Err(e) => Step::Respond(ci_error_response(store, owner.as_str(), name.as_str(), e)),
        },
        (
            PendingState::AppveyorProjects { project_id, owner, name, token },
            OutEvent::AppveyorProjectsFetched(res),
        ) => match appveyor_link_projects(token.as_str(), owner.as_str(), name.as_str(), res) {
            Ok(AppveyorStep::AlreadyRegistered) => match appveyor_link_finish(
                store,
                project_id,
                owner.as_str(),
                name.as_str(),
                token.as_str(),
                None,
            ) {
                Ok(loc) => Step::Respond(redirect(loc.as_str())),
                Err(e) => Step::Respond(
                    ci_error_response(store, owner.as_str(), name.as_str(), e),
                ),
            },
            Ok(AppveyorStep::Register { call }) => Step::Suspend(
                PendingState::AppveyorRegister { project_id, owner, name, token },
                call,
            ),
            Err(e) => Step::Respond(ci_error_response(store, owner.as_str(), name.as_str(), e)),
        },
        (
            PendingState::AppveyorRegister { project_id, owner, name, token },
            OutEvent::AppveyorRegistered(res),
        ) => match appveyor_link_finish(
            store,
            project_id,
            owner.as_str(),
            name.as_str(),
            token.as_str(),
            Some(res),
        ) {
            Ok(loc) => Step::Respond(redirect(loc.as_str())),
            Err(e) => Step::Respond(ci_error_response(store, owner.as_str(), name.as_str(), e)),
        },
        (PendingState::TravisHook(delivery), OutEvent::TravisConfigFetched(res)) => match crate::ingest::travis_webhook_finish(
            store,
            events,
            &delivery,
            res,
        ) {
            Ok(()) => Step::Respond(html("")),
            Err(e) => Step::Respond(error_response(store, &e)),
        },
        _ => {
            proof {
                assert(false);
            }
            Step::Respond(
                Response {
                    status: 500,
                    location: None,
                    flash: None,
                    body: String::new(),
                },
            )
        },
    }
}

} // verus!
