//! The error taxonomy of the core: every failure a handler can surface is one
//! of these kinds, and the request pipeline decides from the kind how a
//! failure is shown to the user.

use vstd::prelude::*;

verus! {

/// One error kind per failure class.
///
/// `MissingProject` is the only kind given special user-facing treatment by
/// the pipeline (a flash message on the listing page); every other kind
/// becomes a generic server error.
#[derive(Debug)]
pub enum Error {
    /// Network or timeout failure talking to a provider.
    Transport(String),
    /// Non-UTF-8 or otherwise malformed body or response.
    Decode(String),
    /// Lookup of a project by (owner, name) failed.
    MissingProject,
    /// A delivery's cryptographic signature did not verify.
    InvalidSignature,
    /// A CI provider rejected a submitted token.
    InvalidToken(String),
    /// A required form field, header or route parameter was absent.
    MalformedInput(String),
}

impl Error {
    /// A short user-visible description of the error kind.
    pub fn describe(&self) -> (r: &'static str)
        ensures
            self is MissingProject <==> r@ == "user/repo combo not found"@,
    {
        proof {
            reveal_strlit("provider was unreachable");
            reveal_strlit("malformed data");
            reveal_strlit("user/repo combo not found");
            reveal_strlit("invalid signature");
            reveal_strlit("token was invalid");
            reveal_strlit("missing or malformed input");
            assert("user/repo combo not found"@.len() == 25);
            assert("provider was unreachable"@.len() == 24);
            assert("malformed data"@.len() == 14);
            assert("invalid signature"@.len() == 17);
            assert("token was invalid"@.len() == 17);
            assert("missing or malformed input"@.len() == 26);
        }
        match self {
            Error::Transport(_) => "provider was unreachable",
            Error::Decode(_) => "malformed data",
            Error::MissingProject => {
                let s = "user/repo combo not found";
                proof {
                    assert(s@ =~= "user/repo combo not found"@);
                }
                s
            },
            Error::InvalidSignature => "invalid signature",
            Error::InvalidToken(_) => "token was invalid",
            Error::MalformedInput(_) => "missing or malformed input",
        }
    }
}

} // verus!
