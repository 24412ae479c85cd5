//! Lifecycle orchestration for multi-repository workspaces.
//!
//! Every orchestration routine is a step machine: it names the next primitive
//! action (a worktree operation, a directory operation, a registry query), and
//! the caller performs it and hands back what came of it. The decisions, the
//! ordering, rollback and short-circuiting are all verified here.
pub mod close;
pub mod create;
pub mod ensure;
pub mod orphan;
pub mod routes;
pub mod step;
pub mod types;

pub use types::{
    join_path, migrating_path, Repo, RepoMergeResult, RepoWorkspaceInput, RepoWorktree,
    WorkspaceError, WorkspaceManager, WorktreeContainer,
};
pub use step::{message_of, Action, CleanupView, ErrorView, Op, Outcome, Step, WorktreeCleanup};
pub use create::{CreatePhase, CreateWorkspace};
pub use close::{DiscardPhase, DiscardWorkspace, MergeWorkspace};
pub use ensure::{EnsurePhase, EnsureWorkspace, MigrateLegacy, MigratePhase};
pub use orphan::{OrphanSweep, SweepPhase};
pub use routes::{
    diff_file_path, status_label, CloseStrategy, CloseWorkspaceRequest, CloseWorkspaceResponse,
    ExecutionStatus, FileDiff, WorkspaceDiffResponse, WorkspaceStatusResponse,
    WorkspaceTranscriptResponse,
};
