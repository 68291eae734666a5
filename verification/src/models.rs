//! The persisted state the core works against: the project table and the
//! append-only event table, each with its invariant.

use vstd::prelude::*;

pub mod event;
pub mod project;

verus! {

/// A tracked pull request row. The core does not yet act on these; the type
/// records the schema.
pub struct PullRequest {
    pub id: i32,
}

} // verus!
