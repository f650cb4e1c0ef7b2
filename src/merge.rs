//! Fast-forward merge of a branch from its upstream.

use crate::commit_files::CommitId;
use crate::error::Error;
use vstd::prelude::*;

verus! {

pub const ANALYSIS_NORMAL: u32 = 1;
pub const ANALYSIS_UP_TO_DATE: u32 = 2;
pub const ANALYSIS_FASTFORWARD: u32 = 4;
pub const ANALYSIS_UNBORN: u32 = 8;

/// The outcome of a merge analysis between HEAD and another commit, with
/// the bit layout of libgit2's `git_merge_analysis_t`.
#[derive(Copy, Clone, Hash, PartialEq, Eq, Debug, Structural)]
pub struct MergeAnalysis {
    pub bits: u32,
}

impl MergeAnalysis {
    pub open spec fn has(self, flag: u32) -> bool {
        self.bits & flag != 0
    }

    pub fn new(bits: u32) -> (r: Self)
        ensures
            r.bits == bits,
    {
        MergeAnalysis { bits }
    }

    /// HEAD can be moved to the other commit without a merge commit.
    pub fn is_fast_forward(&self) -> (r: bool)
        ensures
            r == self.has(ANALYSIS_FASTFORWARD),
    {
        self.bits & ANALYSIS_FASTFORWARD != 0
    }

    /// HEAD points at a branch that has no commit yet.
    pub fn is_unborn(&self) -> (r: bool)
        ensures
            r == self.has(ANALYSIS_UNBORN),
    {
        self.bits & ANALYSIS_UNBORN != 0
    }
}

pub open spec fn spec_fast_forward(upstream: CommitId, analysis: MergeAnalysis) -> Result<CommitId, Error> {
    if !analysis.has(ANALYSIS_FASTFORWARD) {
        Err(Error::FastForwardImpossible)
    } else if analysis.has(ANALYSIS_UNBORN) {
        Err(Error::HeadUnborn)
    } else {
        Ok(upstream)
    }
}

/// The commit that a fast-forward merge moves the branch to: the upstream
/// commit where the analysis allows a fast-forward and HEAD has a commit.
/// Any other analysis fails; nothing is merged then.
pub fn fast_forward_target(upstream: CommitId, analysis: MergeAnalysis) -> (r: Result<CommitId, Error>)
    ensures
        r == spec_fast_forward(upstream, analysis),
{
    if !analysis.is_fast_forward() {
        return Err(Error::FastForwardImpossible);
    }
    if analysis.is_unborn() {
        return Err(Error::HeadUnborn);
    }
    Ok(upstream)
}

/// Where HEAD points after the merge was tried: the new target on success,
/// where it was on failure.
pub open spec fn head_after(head: Option<CommitId>, r: Result<CommitId, Error>) -> Option<CommitId> {
    match r {
        Ok(c) => Some(c),
        Err(_) => head,
    }
}

/// A branch that is behind its upstream with nothing of its own (the
/// analysis allows a fast-forward and HEAD has a commit) ends at the
/// upstream commit; a diverged branch (no fast-forward) fails and HEAD stays
/// where it was.
pub proof fn lemma_fast_forward_merge(head: Option<CommitId>, upstream: CommitId, analysis: MergeAnalysis)
    ensures
        analysis.has(ANALYSIS_FASTFORWARD) && !analysis.has(ANALYSIS_UNBORN) ==> head_after(
            head,
            spec_fast_forward(upstream, analysis),
        ) == Some(upstream),
        !analysis.has(ANALYSIS_FASTFORWARD) ==> spec_fast_forward(upstream, analysis) is Err && head_after(
            head,
            spec_fast_forward(upstream, analysis),
        ) == head,
{
}

} // verus!
