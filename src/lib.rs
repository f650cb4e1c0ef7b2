//! Data-access core of a terminal dashboard for a git repository: the
//! decisions behind status listings, commit file lists, fast-forward merges
//! and the single-slot asynchronous jobs that feed the user interface.

pub mod commit_files;
pub mod components;
pub mod error;
pub mod job;
pub mod merge;
pub mod status;

pub use commit_files::{
    classify_commit, commit_files_from_deltas, plan_commit_diff, CommitFilesParams, CommitId, CommitInfo,
    CommitShape, DiffDelta, DiffPlan,
};
pub use components::{
    AppTabs, EventOutcome, InternalEvent, Revlog, StashMsgComponent, StashRequest, StashingOptions, WorkTree,
    WorkTreesTab,
};
pub use error::Error;
pub use job::{AsyncGitNotification, FetchDecision, JobEvent, JobSlot};
pub use merge::{fast_forward_target, MergeAnalysis};
pub use status::{
    discard_reset_count, status_items, workdir_clean, DeltaKind, RepoKind, ShowUntrackedFilesConfig, StatusEntry,
    StatusFlags, StatusItem, StatusItemType, StatusQuery, StatusType,
};
