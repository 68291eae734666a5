//! The project table: one row per linked repository, unique by
//! (owner, name), holding the per-project credentials.

use vstd::prelude::*;

use crate::errors::Error;

verus! {

/// The mathematical value of one project row.
#[verifier::ext_equal]
pub ghost struct ProjectView {
    pub id: int,
    pub repo_user: Seq<char>,
    pub repo_name: Seq<char>,
    pub github_repo_id: int,
    pub github_access_token: Seq<char>,
    pub github_webhook_secret: Seq<char>,
    pub appveyor_token: Option<Seq<char>>,
    pub travis_access_token: Option<Seq<char>>,
}

/// One linked repository and its credentials. The webhook secret is set at
/// creation and never changed; the CI tokens start absent and may be
/// overwritten by later linking operations.
pub struct Project {
    pub id: i32,
    pub repo_user: String,
    pub repo_name: String,
    pub github_repo_id: i32,
    pub github_access_token: String,
    pub github_webhook_secret: String,
    pub appveyor_token: Option<String>,
    pub travis_access_token: Option<String>,
}

/// The value of an optional credential.
pub open spec fn opt_view(o: Option<String>) -> Option<Seq<char>> {
    match o {
        Some(s) => Some(s@),
        None => None,
    }
}

impl View for Project {
    type V = ProjectView;

    open spec fn view(&self) -> ProjectView {
        ProjectView {
            id: self.id as int,
            repo_user: self.repo_user@,
            repo_name: self.repo_name@,
            github_repo_id: self.github_repo_id as int,
            github_access_token: self.github_access_token@,
            github_webhook_secret: self.github_webhook_secret@,
            appveyor_token: opt_view(self.appveyor_token),
            travis_access_token: opt_view(self.travis_access_token),
        }
    }
}

fn clone_opt_string(o: &Option<String>) -> (r: Option<String>)
    ensures
        opt_view(r) == opt_view(*o),
{
    match o {
        Some(s) => Some(s.clone()),
        None => None,
    }
}

impl Clone for Project {
    fn clone(&self) -> (r: Self)
        ensures
            r@ == self@,
    {
        let r = Project {
            id: self.id,
            repo_user: self.repo_user.clone(),
            repo_name: self.repo_name.clone(),
            github_repo_id: self.github_repo_id,
            github_access_token: self.github_access_token.clone(),
            github_webhook_secret: self.github_webhook_secret.clone(),
            appveyor_token: clone_opt_string(&self.appveyor_token),
            travis_access_token: clone_opt_string(&self.travis_access_token),
        };
        proof {
            assert(r@ =~= self@);
        }
        r
    }
}

/// Whether row `p` is the row for repository `user/name`.
pub open spec fn matches_repo(p: ProjectView, user: Seq<char>, name: Seq<char>) -> bool {
    p.repo_user == user && p.repo_name == name
}

/// Whether the table holds a row for `user/name`.
pub open spec fn has_project(s: Seq<ProjectView>, user: Seq<char>, name: Seq<char>) -> bool {
    exists|i: int| 0 <= i < s.len() && matches_repo(s[i], user, name)
}

/// The row for `user/name`; meaningful only when `has_project` holds, and
/// unique under `store_wf`.
pub open spec fn project_at(s: Seq<ProjectView>, user: Seq<char>, name: Seq<char>) -> ProjectView {
    s[choose|i: int| 0 <= i < s.len() && matches_repo(s[i], user, name)]
}

/// The table invariant: ids are the row positions (so unique), and no two
/// rows share an (owner, name) pair.
pub open spec fn store_wf(s: Seq<ProjectView>) -> bool {
    &&& forall|i: int| 0 <= i < s.len() ==> (#[trigger] s[i]).id == i + 1
    &&& forall|i: int, j: int|
        0 <= i < j < s.len() ==> !(#[trigger] s[i].repo_user == #[trigger] s[j].repo_user
            && s[i].repo_name == s[j].repo_name)
}

/// The project table. Rows are only ever appended or updated in their CI
/// token fields; identity fields and the webhook secret never change.
pub struct ProjectStore {
    projects: Vec<Project>,
}

impl View for ProjectStore {
    type V = Seq<ProjectView>;

    closed spec fn view(&self) -> Seq<ProjectView> {
        Seq::new(self.projects@.len(), |i: int| self.projects@[i]@)
    }
}

impl ProjectStore {
    /// The table invariant; established by `new` and kept by every method.
    pub open spec fn wf(&self) -> bool {
        store_wf(self@)
    }

    /// An empty table.
    pub fn new() -> (r: ProjectStore)
        ensures
            r@ =~= Seq::<ProjectView>::empty(),
            r.wf(),
    {
        ProjectStore { projects: Vec::new() }
    }

    /// How many projects are linked.
    pub fn len(&self) -> (r: usize)
        ensures
            r == self@.len(),
    {
        self.projects.len()
    }

    /// The row a successful insert appends.
    pub open spec fn inserted_row(
        s: Seq<ProjectView>,
        repo_user: Seq<char>,
        repo_name: Seq<char>,
        github_repo_id: int,
        github_access_token: Seq<char>,
        github_webhook_secret: Seq<char>,
    ) -> ProjectView {
        ProjectView {
            id: s.len() as int + 1,
            repo_user: repo_user,
            repo_name: repo_name,
            github_repo_id: github_repo_id,
            github_access_token: github_access_token,
            github_webhook_secret: github_webhook_secret,
            appveyor_token: None,
            travis_access_token: None,
        }
    }

    /// Create a project row. The (owner, name) uniqueness constraint is
    /// enforced here: a duplicate insert changes nothing and surfaces as a
    /// transport-class error.
    pub fn insert(
        &mut self,
        repo_user: &str,
        repo_name: &str,
        github_repo_id: i32,
        github_access_token: &str,
        github_webhook_secret: &str,
    ) -> (r: Result<Project, Error>)
        requires
            old(self).wf(),
            old(self)@.len() < i32::MAX,
        ensures
            final(self).wf(),
            has_project(old(self)@, repo_user@, repo_name@) ==> final(self)@ == old(self)@ && (r matches
                Err(e) && e is Transport),
            !has_project(old(self)@, repo_user@, repo_name@) ==> {
                &&& final(self)@ =~= old(self)@.push(
                    Self::inserted_row(
                        old(self)@,
                        repo_user@,
                        repo_name@,
                        github_repo_id as int,
                        github_access_token@,
                        github_webhook_secret@,
                    ),
                )
                &&& r matches Ok(p) && p@ == Self::inserted_row(
                    old(self)@,
                    repo_user@,
                    repo_name@,
                    github_repo_id as int,
                    github_access_token@,
                    github_webhook_secret@,
                )
            },
    {
        if self.contains(repo_user, repo_name) {
            return Err(Error::Transport(String::from_str("duplicate repository registration")));
        }
        let id: i32 = (self.projects.len() as i32) + 1;
        let p = Project {
            id: id,
            repo_user: String::from_str(repo_user),
            repo_name: String::from_str(repo_name),
            github_repo_id: github_repo_id,
            github_access_token: String::from_str(github_access_token),
            github_webhook_secret: String::from_str(github_webhook_secret),
            appveyor_token: None,
            travis_access_token: None,
        };
        let row = p.clone();
        self.projects.push(p);
        proof {
            assert(self@ =~= old(self)@.push(row@));
        }
        Ok(row)
    }

    /// Whether a row for `user/name` exists.
    pub fn contains(&self, user: &str, name: &str) -> (r: bool)
        ensures
            r == has_project(self@, user@, name@),
    {
        let mut i: usize = 0;
        while i < self.projects.len()
            invariant
                i <= self@.len(),
                forall|j: int| 0 <= j < i ==> !matches_repo(self@[j], user@, name@),
            decreases self@.len() - i,
        {
            if str_eq(self.projects[i].repo_user.as_str(), user) && str_eq(
                self.projects[i].repo_name.as_str(),
                name,
            ) {
                proof {
                    assert(matches_repo(self@[i as int], user@, name@));
                }
                return true;
            }
            i = i + 1;
        }
        false
    }

    /// Look a project up by owner and name; absent rows surface as the
    /// missing-project error.
    pub fn find_by_name(&self, user: &str, name: &str) -> (r: Result<Project, Error>)
        requires
            self.wf(),
        ensures
            has_project(self@, user@, name@) ==> (r matches Ok(p) && p@ == project_at(
                self@,
                user@,
                name@,
            )),
            !has_project(self@, user@, name@) ==> (r matches Err(e) && e is MissingProject),
    {
        let mut i: usize = 0;
        while i < self.projects.len()
            invariant
                self.wf(),
                i <= self@.len(),
                forall|j: int| 0 <= j < i ==> !matches_repo(self@[j], user@, name@),
            decreases self@.len() - i,
        {
            if str_eq(self.projects[i].repo_user.as_str(), user) && str_eq(
                self.projects[i].repo_name.as_str(),
                name,
            ) {
                proof {
                    lemma_unique_match(self@, user@, name@, i as int);
                }
                return Ok(self.projects[i].clone());
            }
            i = i + 1;
        }
        Err(Error::MissingProject)
    }

    /// Every row, in table order.
    pub fn all(&self) -> (r: Vec<Project>)
        ensures
            r@.len() == self@.len(),
            forall|i: int| 0 <= i < r@.len() ==> (#[trigger] r@[i])@ == self@[i],
    {
        let mut out: Vec<Project> = Vec::new();
        let mut i: usize = 0;
        while i < self.projects.len()
            invariant
                i <= self@.len(),
                out@.len() == i,
                forall|j: int| 0 <= j < i ==> (#[trigger] out@[j])@ == self@[j],
            decreases self@.len() - i,
        {
            out.push(self.projects[i].clone());
            i = i + 1;
        }
        out
    }

    /// Store a validated CI-provider-A token on row `id`, overwriting any
    /// previous value; nothing else changes.
    pub fn set_travis_token(&mut self, id: i32, token: &str) -> (r: Result<(), Error>)
        requires
            old(self).wf(),
        ensures
            final(self).wf(),
            1 <= id <= old(self)@.len() ==> r is Ok && final(self)@ =~= old(self)@.update(
                id - 1,
                ProjectView { travis_access_token: Some(token@), ..old(self)@[id - 1] },
            ),
            !(1 <= id <= old(self)@.len()) ==> (r matches Err(e) && e is MissingProject && final(self)@
                == old(self)@),
    {
        if id >= 1 && (id as usize) <= self.projects.len() {
            let k = (id as usize) - 1;
            self.projects[k].travis_access_token = Some(String::from_str(token));
            proof {
                lemma_token_update_wf(old(self)@, self@, k as int);
            }
            Ok(())
        } else {
            Err(Error::MissingProject)
        }
    }

    /// Store a validated CI-provider-B token on row `id`, overwriting any
    /// previous value; nothing else changes.
    pub fn set_appveyor_token(&mut self, id: i32, token: &str) -> (r: Result<(), Error>)
        requires
            old(self).wf(),
        ensures
            final(self).wf(),
            1 <= id <= old(self)@.len() ==> r is Ok && final(self)@ =~= old(self)@.update(
                id - 1,
                ProjectView { appveyor_token: Some(token@), ..old(self)@[id - 1] },
            ),
            !(1 <= id <= old(self)@.len()) ==> (r matches Err(e) && e is MissingProject && final(self)@
                == old(self)@),
    {
        if id >= 1 && (id as usize) <= self.projects.len() {
            let k = (id as usize) - 1;
            self.projects[k].appveyor_token = Some(String::from_str(token));
            proof {
                lemma_token_update_wf(old(self)@, self@, k as int);
            }
            Ok(())
        } else {
            Err(Error::MissingProject)
        }
    }
}

/// Updating one row's CI token fields keeps the table invariant: identity
/// fields are untouched.
pub proof fn lemma_token_update_wf(s0: Seq<ProjectView>, s1: Seq<ProjectView>, k: int)
    requires
        store_wf(s0),
        s1.len() == s0.len(),
        0 <= k < s0.len(),
        forall|i: int| 0 <= i < s1.len() && i != k ==> s1[i] == s0[i],
        s1[k].id == s0[k].id,
        s1[k].repo_user == s0[k].repo_user,
        s1[k].repo_name == s0[k].repo_name,
    ensures
        store_wf(s1),
{
    assert forall|i: int| 0 <= i < s1.len() implies (#[trigger] s1[i]).id == i + 1 by {
        assert(s0[i].id == i + 1);
    }
    assert forall|i: int, j: int|
        0 <= i < j < s1.len() implies !(#[trigger] s1[i].repo_user == #[trigger] s1[j].repo_user
            && s1[i].repo_name == s1[j].repo_name) by {
        assert(!(s0[i].repo_user == s0[j].repo_user && s0[i].repo_name == s0[j].repo_name));
        assert(s1[i].repo_user == s0[i].repo_user && s1[i].repo_name == s0[i].repo_name);
        assert(s1[j].repo_user == s0[j].repo_user && s1[j].repo_name == s0[j].repo_name);
    }
}

/// Under the table invariant a matching row is unique, so any match is the
/// row `project_at` denotes.
pub proof fn lemma_unique_match(s: Seq<ProjectView>, user: Seq<char>, name: Seq<char>, i: int)
    requires
        store_wf(s),
        0 <= i < s.len(),
        matches_repo(s[i], user, name),
    ensures
        has_project(s, user, name),
        project_at(s, user, name) == s[i],
{
    assert(matches_repo(s[i], user, name));
    let k = choose|k: int| 0 <= k < s.len() && matches_repo(s[k], user, name);
    if k < i {
        assert(!(s[k].repo_user == s[i].repo_user && s[k].repo_name == s[i].repo_name));
    } else if i < k {
        assert(!(s[i].repo_user == s[k].repo_user && s[i].repo_name == s[k].repo_name));
    }
}

/// Exact string comparison, character by character.
pub fn str_eq(a: &str, b: &str) -> (r: bool)
    ensures
        r == (a@ == b@),
{
    let alen = a.unicode_len();
    let blen = b.unicode_len();
    if alen != blen {
        return false;
    }
    let mut i: usize = 0;
    while i < alen
        invariant
            alen == a@.len(),
            blen == b@.len(),
            alen == blen,
            i <= alen,
            forall|j: int| 0 <= j < i ==> a@[j] == b@[j],
        decreases alen - i,
    {
        if a.get_char(i) != b.get_char(i) {
            return false;
        }
        i = i + 1;
    }
    proof {
        assert(a@ =~= b@);
    }
    true
}

} // verus!
