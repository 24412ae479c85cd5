use vstd::prelude::*;

use crate::types::WorkspaceError;

verus! {

/// A cleanup request for one worktree: its path and, where known, the
/// canonical repository it belongs to.
pub struct WorktreeCleanup {
    pub worktree_path: String,
    pub git_repo_path: Option<String>,
}

/// A primitive operation that a step machine asks its driver to perform.
pub enum Action {
    /// Create a directory together with its missing parents.
    CreateDirAll { path: String },
    /// Remove a directory, which succeeds only when it is empty.
    RemoveDir { path: String },
    /// Remove a directory and all it holds, if it exists.
    RemoveDirAll { path: String },
    /// Create a worktree of `repo_path` at `worktree_path` on the new branch
    /// `branch`, tracking `base_branch`, started from `start_from_ref` when given.
    CreateWorktree {
        repo_path: String,
        branch: String,
        worktree_path: String,
        base_branch: String,
        start_from_ref: Option<String>,
    },
    /// Make sure a worktree of `repo_path` on `branch` exists at `worktree_path`.
    EnsureWorktree { repo_path: String, branch: String, worktree_path: String },
    /// Move a worktree of `repo_path`, updating git's administrative records.
    MoveWorktree { repo_path: String, from: String, to: String },
    /// Remove one worktree.
    CleanupWorktree { cleanup: WorktreeCleanup },
    /// Remove several worktrees; one failure does not stop the others.
    BatchCleanup { cleanups: Vec<WorktreeCleanup> },
    /// Remove a directory that may or may not be a worktree.
    CleanupSuspectedWorktree { path: String },
    /// Delete `branch` from the canonical clone at `repo_path`.
    DeleteBranch { repo_path: String, branch: String },
    /// Merge `source_branch` into `target_branch` in the canonical clone.
    MergeIntoBranch {
        repo_path: String,
        target_branch: String,
        source_branch: String,
        commit_message: String,
    },
    /// Report what `workspace_dir`, its `.git` entry and `nested_path` are.
    InspectLayout { workspace_dir: String, git_marker: String, nested_path: String },
    /// List the immediate subdirectories of `path`, as full paths.
    ListSubdirectories { path: String },
    /// Ask the registry whether `path` is a live workspace's container.
    IsRegistered { path: String },
}

/// What came of an action.
pub enum Outcome {
    /// The action completed.
    Completed,
    /// The action failed, with a description.
    Failed(String),
    /// A merge produced this commit.
    Merged(String),
    /// A merge stopped on conflicts, with a description.
    Conflicted(String),
    /// The answer to `InspectLayout`.
    Layout { dir_exists: bool, git_is_file: bool, nested_exists: bool },
    /// The answer to `ListSubdirectories`.
    Listed(Vec<String>),
    /// The answer to `IsRegistered`.
    Registered(bool),
}

/// What a step machine asks for next: an action, or the end with its result.
pub enum Step<R> {
    Run(Action),
    Done(R),
}

/// A cleanup request as plain values.
pub struct CleanupView {
    pub worktree_path: Seq<char>,
    pub git_repo_path: Option<Seq<char>>,
}

/// An action as plain values.
pub enum Op {
    CreateDirAll { path: Seq<char> },
    RemoveDir { path: Seq<char> },
    RemoveDirAll { path: Seq<char> },
    CreateWorktree {
        repo_path: Seq<char>,
        branch: Seq<char>,
        worktree_path: Seq<char>,
        base_branch: Seq<char>,
        start_from_ref: Option<Seq<char>>,
    },
    EnsureWorktree { repo_path: Seq<char>, branch: Seq<char>, worktree_path: Seq<char> },
    MoveWorktree { repo_path: Seq<char>, from: Seq<char>, to: Seq<char> },
    CleanupWorktree { cleanup: CleanupView },
    BatchCleanup { cleanups: Seq<CleanupView> },
    CleanupSuspectedWorktree { path: Seq<char> },
    DeleteBranch { repo_path: Seq<char>, branch: Seq<char> },
    MergeIntoBranch {
        repo_path: Seq<char>,
        target_branch: Seq<char>,
        source_branch: Seq<char>,
        commit_message: Seq<char>,
    },
    InspectLayout { workspace_dir: Seq<char>, git_marker: Seq<char>, nested_path: Seq<char> },
    ListSubdirectories { path: Seq<char> },
    IsRegistered { path: Seq<char> },
}

/// A workspace error as plain values.
pub enum ErrorView {
    Worktree(Seq<char>),
    Io(Seq<char>),
    NoRepositories,
    PartialCreation(Seq<char>),
    MergeConflicts { repo_name: Seq<char>, message: Seq<char> },
    Git(Seq<char>),
}

pub open spec fn opt_view(o: Option<String>) -> Option<Seq<char>> {
    match o {
        Some(s) => Some(s@),
        None => None,
    }
}

impl View for WorktreeCleanup {
    type V = CleanupView;

    open spec fn view(&self) -> CleanupView {
        CleanupView { worktree_path: self.worktree_path@, git_repo_path: opt_view(self.git_repo_path) }
    }
}

impl View for Action {
    type V = Op;

    open spec fn view(&self) -> Op {
        match self {
            Action::CreateDirAll { path } => Op::CreateDirAll { path: path@ },
            Action::RemoveDir { path } => Op::RemoveDir { path: path@ },
            Action::RemoveDirAll { path } => Op::RemoveDirAll { path: path@ },
            Action::CreateWorktree { repo_path, branch, worktree_path, base_branch, start_from_ref } =>
                Op::CreateWorktree {
                    repo_path: repo_path@,
                    branch: branch@,
                    worktree_path: worktree_path@,
                    base_branch: base_branch@,
                    start_from_ref: opt_view(*start_from_ref),
                },
            Action::EnsureWorktree { repo_path, branch, worktree_path } => Op::EnsureWorktree {
                repo_path: repo_path@,
                branch: branch@,
                worktree_path: worktree_path@,
            },
            Action::MoveWorktree { repo_path, from, to } => Op::MoveWorktree {
                repo_path: repo_path@,
                from: from@,
                to: to@,
            },
            Action::CleanupWorktree { cleanup } => Op::CleanupWorktree { cleanup: cleanup@ },
            Action::BatchCleanup { cleanups } => Op::BatchCleanup {
                cleanups: cleanups@.map_values(|c: WorktreeCleanup| c@),
            },
            Action::CleanupSuspectedWorktree { path } => Op::CleanupSuspectedWorktree { path: path@ },
            Action::DeleteBranch { repo_path, branch } => Op::DeleteBranch {
                repo_path: repo_path@,
                branch: branch@,
            },
            Action::MergeIntoBranch { repo_path, target_branch, source_branch, commit_message } =>
                Op::MergeIntoBranch {
                    repo_path: repo_path@,
                    target_branch: target_branch@,
                    source_branch: source_branch@,
                    commit_message: commit_message@,
                },
            Action::InspectLayout { workspace_dir, git_marker, nested_path } => Op::InspectLayout {
                workspace_dir: workspace_dir@,
                git_marker: git_marker@,
                nested_path: nested_path@,
            },
            Action::ListSubdirectories { path } => Op::ListSubdirectories { path: path@ },
            Action::IsRegistered { path } => Op::IsRegistered { path: path@ },
        }
    }
}

impl View for WorkspaceError {
    type V = ErrorView;

    open spec fn view(&self) -> ErrorView {
        match self {
            WorkspaceError::Worktree(m) => ErrorView::Worktree(m@),
            WorkspaceError::Io(m) => ErrorView::Io(m@),
            WorkspaceError::NoRepositories => ErrorView::NoRepositories,
            WorkspaceError::PartialCreation(m) => ErrorView::PartialCreation(m@),
            WorkspaceError::MergeConflicts { repo_name, message } => ErrorView::MergeConflicts {
                repo_name: repo_name@,
                message: message@,
            },
            WorkspaceError::Git(m) => ErrorView::Git(m@),
        }
    }
}

/// The operation removes or relocates something on disk or in a repository.
pub open spec fn destructive(op: Op) -> bool {
    match op {
        Op::CreateDirAll { .. } | Op::CreateWorktree { .. } | Op::EnsureWorktree { .. }
        | Op::InspectLayout { .. } | Op::ListSubdirectories { .. } | Op::IsRegistered { .. }
        | Op::MergeIntoBranch { .. } => false,
        _ => true,
    }
}

/// The step's action, seen as plain values, when it asks for one.
pub open spec fn runs<R>(s: Step<R>, op: Op) -> bool {
    s is Run && s->Run_0@ == op
}

/// The step ends with the error `e`.
pub open spec fn fails_with<T>(s: Step<Result<T, WorkspaceError>>, e: ErrorView) -> bool {
    s is Done && s->Done_0 is Err && s->Done_0->Err_0@ == e
}

/// The description carried by an outcome, empty where it carries none.
pub open spec fn outcome_message(o: Outcome) -> Seq<char> {
    match o {
        Outcome::Failed(m) => m@,
        Outcome::Conflicted(m) => m@,
        _ => Seq::empty(),
    }
}

/// The description carried by an outcome, empty where it carries none.
pub fn message_of(o: Outcome) -> (r: String)
    ensures
        r@ == outcome_message(o),
{
    match o {
        Outcome::Failed(m) => m,
        Outcome::Conflicted(m) => m,
        _ => String::new(),
    }
}

} // verus!
