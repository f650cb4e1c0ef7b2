//! Errors of the repository queries.

use vstd::prelude::*;

verus! {

/// What a repository query can fail with, apart from failures of the
/// repository backend itself.
#[derive(Copy, Clone, PartialEq, Eq, Debug, Structural)]
pub enum Error {
    /// A status entry's head-to-index delta has no readable new-file path.
    NewFilePathMissing,
    /// A status entry has no readable path.
    IndexPathMissing,
    /// The merge analysis does not allow a fast-forward.
    FastForwardImpossible,
    /// HEAD has no commit yet.
    HeadUnborn,
}

impl Error {
    /// A one-line description for the user.
    pub fn message(&self) -> (r: &'static str) {
        match self {
            Error::NewFilePathMissing => "failed to get path to diff's new file.",
            Error::IndexPathMissing => "failed to get the path to indexed file.",
            Error::FastForwardImpossible => "fast forward merge not possible",
            Error::HeadUnborn => "head is unborn",
        }
    }
}

} // verus!
