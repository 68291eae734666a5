//! Value types exchanged with CI provider B's API: the project listing used
//! to validate a submitted token, and the registration request for
//! repositories the provider does not know yet.

use vstd::prelude::*;

verus! {

/// One project as the provider lists it.
#[allow(non_snake_case)]
pub struct Project {
    pub projectId: u32,
    pub repositoryType: String,
    pub slug: String,
    pub name: String,
    pub repositoryName: String,
}

/// The request body that registers a repository with the provider.
#[allow(non_snake_case)]
pub struct NewProject {
    pub repositoryProvider: String,
    pub repositoryName: String,
}

} // verus!
