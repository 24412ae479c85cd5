use vstd::prelude::*;
use vstd::string::StringExecFns;

use crate::step::{
    fails_with, message_of, opt_view, outcome_message, runs, Action, CleanupView, ErrorView, Op,
    Outcome, Step, WorktreeCleanup,
};
use crate::types::{
    join_path, join_spec, RepoWorkspaceInput, RepoWorktree, WorkspaceError, WorkspaceManager,
    WorktreeContainer,
};

verus! {

/// `w` is the worktree of `input` inside workspace directory `dir`.
pub open spec fn worktree_for(w: RepoWorktree, dir: Seq<char>, input: RepoWorkspaceInput) -> bool {
    &&& w.repo_id == input.repo.id
    &&& w.repo_name@ == input.repo.name@
    &&& w.source_repo_path@ == input.repo.path@
    &&& w.worktree_path@ == join_spec(dir, input.repo.name@)
}

/// The creation of the worktree of `input` on `branch` inside `dir`.
pub open spec fn create_op(dir: Seq<char>, branch: Seq<char>, input: RepoWorkspaceInput) -> Op {
    Op::CreateWorktree {
        repo_path: input.repo.path@,
        branch,
        worktree_path: join_spec(dir, input.repo.name@),
        base_branch: input.target_branch@,
        start_from_ref: opt_view(input.start_from_ref),
    }
}

/// The removal of a worktree created earlier in the same call.
pub open spec fn rollback_op(w: RepoWorktree) -> Op {
    Op::CleanupWorktree {
        cleanup: CleanupView {
            worktree_path: w.worktree_path@,
            git_repo_path: Some(w.source_repo_path@),
        },
    }
}

/// The description of a failed creation, naming the repository and the cause.
pub open spec fn creation_failure(repo_name: Seq<char>, cause: Seq<char>) -> Seq<char> {
    "Failed to create worktree for repo '"@ + repo_name + "': "@ + cause
}

/// Where a workspace creation stands.
pub enum CreatePhase {
    /// Waiting for the workspace directory to be made.
    MakingDir,
    /// Waiting for the worktree of `repos[created.len()]`.
    Creating,
    /// Removing the worktrees made so far; `next` is the next to remove.
    RollingBack { next: usize, message: String },
    /// Removing the workspace directory if it is empty.
    RemovingDir { message: String },
    Finished,
}

/// A workspace creation in progress: one worktree per repository, made in
/// the given order, and on the first failure a rollback of all made so far.
pub struct CreateWorkspace {
    pub workspace_dir: String,
    pub repos: Vec<RepoWorkspaceInput>,
    pub branch_name: String,
    pub created: Vec<RepoWorktree>,
    pub phase: CreatePhase,
}

/// One step of a workspace creation: from `pre` with `outcome`, to `post`,
/// asking for `r`.
pub open spec fn create_step(
    pre: CreateWorkspace,
    post: CreateWorkspace,
    outcome: Outcome,
    r: Step<Result<WorktreeContainer, WorkspaceError>>,
) -> bool {
    &&& post.wf()
    &&& post.same_request(&pre)
    &&& {
        let dir = pre.workspace_dir@;
        let branch = pre.branch_name@;
        let repos = pre.repos@;
        let k = pre.created@.len() as int;
        match pre.phase {
            CreatePhase::MakingDir => if outcome is Failed {
                &&& fails_with(r, ErrorView::Io(outcome_message(outcome)))
                &&& post.phase is Finished
            } else {
                &&& runs(r, create_op(dir, branch, repos[0]))
                &&& post.phase is Creating
                &&& post.created@.len() == 0
            },
            CreatePhase::Creating => if outcome is Failed {
                &&& post.created@ == pre.created@
                &&& post.failure() == creation_failure(
                    repos[k].repo.name@,
                    outcome_message(outcome),
                )
                &&& if k == 0 {
                    &&& runs(r, Op::RemoveDir { path: dir })
                    &&& post.phase is RemovingDir
                } else {
                    &&& runs(r, rollback_op(pre.created@[0]))
                    &&& post.phase matches CreatePhase::RollingBack { next, .. }
                        && next == 1
                }
            } else if k + 1 < repos.len() {
                &&& post.created@.len() == k + 1
                &&& post.phase is Creating
                &&& runs(r, create_op(dir, branch, repos[k + 1]))
            } else {
                &&& post.phase is Finished
                &&& r matches Step::Done(Ok(c))
                &&& c.workspace_dir@ == dir
                &&& c.worktrees@.len() == repos.len()
                &&& forall|i: int|
                    0 <= i < repos.len() ==> worktree_for(
                        #[trigger] c.worktrees@[i],
                        dir,
                        repos[i],
                    )
            },
            CreatePhase::RollingBack { next, message } => {
                &&& post.created@ == pre.created@
                &&& post.failure() == message@
                &&& if next < k {
                    &&& runs(r, rollback_op(pre.created@[next as int]))
                    &&& post.phase matches CreatePhase::RollingBack { next: n2, .. }
                        && n2 == next + 1
                } else {
                    &&& runs(r, Op::RemoveDir { path: dir })
                    &&& post.phase is RemovingDir
                }
            },
            CreatePhase::RemovingDir { message } => {
                &&& fails_with(r, ErrorView::PartialCreation(message@))
                &&& post.phase is Finished
            },
            CreatePhase::Finished => false,
        }
    }
}

impl CreateWorkspace {
    pub open spec fn wf(&self) -> bool {
        &&& self.repos@.len() > 0
        &&& self.created@.len() <= self.repos@.len()
        &&& forall|i: int|
            0 <= i < self.created@.len() ==> worktree_for(
                #[trigger] self.created@[i],
                self.workspace_dir@,
                self.repos@[i],
            )
        &&& match self.phase {
            CreatePhase::MakingDir => self.created@.len() == 0,
            CreatePhase::Creating => self.created@.len() < self.repos@.len(),
            CreatePhase::RollingBack { next, message } => 1 <= next <= self.created@.len()
                < self.repos@.len(),
            CreatePhase::RemovingDir { message } => self.created@.len() < self.repos@.len(),
            CreatePhase::Finished => true,
        }
    }

    /// The message of the pending failure, once one has occurred.
    pub open spec fn failure(&self) -> Seq<char> {
        match self.phase {
            CreatePhase::RollingBack { next, message } => message@,
            CreatePhase::RemovingDir { message } => message@,
            _ => Seq::empty(),
        }
    }

    pub open spec fn same_request(&self, other: &Self) -> bool {
        &&& self.workspace_dir == other.workspace_dir
        &&& self.repos == other.repos
        &&& self.branch_name == other.branch_name
    }

    fn create_action(&self, k: usize) -> (a: Action)
        requires
            k < self.repos@.len(),
        ensures
            a@ == create_op(self.workspace_dir@, self.branch_name@, self.repos@[k as int]),
    {
        let input = &self.repos[k];
        Action::CreateWorktree {
            repo_path: input.repo.path.clone(),
            branch: self.branch_name.clone(),
            worktree_path: join_path(self.workspace_dir.as_str(), input.repo.name.as_str()),
            base_branch: input.target_branch.clone(),
            start_from_ref: match &input.start_from_ref {
                Some(s) => Some(s.clone()),
                None => None,
            },
        }
    }

    fn rollback_action(&self, j: usize) -> (a: Action)
        requires
            j < self.created@.len(),
        ensures
            a@ == rollback_op(self.created@[j as int]),
    {
        let w = &self.created[j];
        Action::CleanupWorktree {
            cleanup: WorktreeCleanup {
                worktree_path: w.worktree_path.clone(),
                git_repo_path: Some(w.source_repo_path.clone()),
            },
        }
    }

    /// Takes the outcome of the last action and says what comes next.
    ///
    /// The worktrees are made in the order of `repos`. When one fails, each
    /// one made before it is removed, in the same order, whatever the
    /// removals report; then the workspace directory is removed if it is
    /// empty, and the call fails with `PartialCreation` naming the repository
    /// that failed and the cause.
    pub fn resume(&mut self, outcome: Outcome) -> (r: Step<Result<WorktreeContainer, WorkspaceError>>)
        requires
            old(self).wf(),
            !(old(self).phase is Finished),
        ensures
            create_step(*old(self), *final(self), outcome, r),
    {
        let k = self.created.len();
        match &self.phase {
            CreatePhase::MakingDir => {
                if let Outcome::Failed(m) = outcome {
                    self.phase = CreatePhase::Finished;
                    Step::Done(Err(WorkspaceError::Io(m)))
                } else {
                    self.phase = CreatePhase::Creating;
                    Step::Run(self.create_action(0))
                }
            },
            CreatePhase::Creating => {
                if matches!(outcome, Outcome::Failed(_)) {
                    let mut message = String::from_str("Failed to create worktree for repo '");
                    message.append(self.repos[k].repo.name.as_str());
                    message.append("': ");
                    let cause = message_of(outcome);
                    message.append(cause.as_str());
                    if k == 0 {
                        self.phase = CreatePhase::RemovingDir { message };
                        Step::Run(Action::RemoveDir { path: self.workspace_dir.clone() })
                    } else {
                        self.phase = CreatePhase::RollingBack { next: 1, message };
                        Step::Run(self.rollback_action(0))
                    }
                } else {
                    let input = &self.repos[k];
                    let w = RepoWorktree {
                        repo_id: input.repo.id,
                        repo_name: input.repo.name.clone(),
                        source_repo_path: input.repo.path.clone(),
                        worktree_path: join_path(self.workspace_dir.as_str(), input.repo.name.as_str()),
                    };
                    self.created.push(w);
                    if k < self.repos.len() - 1 {
                        Step::Run(self.create_action(k + 1))
                    } else {
                        let mut worktrees = Vec::new();
                        std::mem::swap(&mut worktrees, &mut self.created);
                        self.phase = CreatePhase::Finished;
                        Step::Done(Ok(WorktreeContainer { workspace_dir: self.workspace_dir.clone(), worktrees }))
                    }
                }
            },
            CreatePhase::RollingBack { next, message } => {
                let next = *next;
                if next < k {
                    let message = message.clone();
                    self.phase = CreatePhase::RollingBack { next: next + 1, message };
                    Step::Run(self.rollback_action(next))
                } else {
                    let message = message.clone();
                    self.phase = CreatePhase::RemovingDir { message };
                    Step::Run(Action::RemoveDir { path: self.workspace_dir.clone() })
                }
            },
            CreatePhase::RemovingDir { message } => {
                let message = message.clone();
                self.phase = CreatePhase::Finished;
                Step::Done(Err(WorkspaceError::PartialCreation(message)))
            },
            CreatePhase::Finished => Step::Done(Err(WorkspaceError::NoRepositories)),
        }
    }
}

impl WorkspaceManager {
    /// Starts the creation of a workspace in `workspace_dir` with one
    /// worktree per repository, all on `branch_name`.
    pub fn create_workspace(workspace_dir: String, repos: Vec<RepoWorkspaceInput>, branch_name: String) -> (r: (
        CreateWorkspace,
        Step<Result<WorktreeContainer, WorkspaceError>>,
    ))
        ensures
            r.0.workspace_dir == workspace_dir,
            r.0.repos == repos,
            r.0.branch_name == branch_name,
            repos@.len() == 0 ==> fails_with(r.1, ErrorView::NoRepositories) && r.0.phase is Finished,
            repos@.len() > 0 ==> {
                &&& r.0.wf()
                &&& r.0.phase is MakingDir
                &&& runs(r.1, Op::CreateDirAll { path: workspace_dir@ })
            },
    {
        let empty = repos.len() == 0;
        let path = workspace_dir.clone();
        let s = CreateWorkspace {
            workspace_dir,
            repos,
            branch_name,
            created: Vec::new(),
            phase: if empty { CreatePhase::Finished } else { CreatePhase::MakingDir },
        };
        if empty {
            (s, Step::Done(Err(WorkspaceError::NoRepositories)))
        } else {
            (s, Step::Run(Action::CreateDirAll { path }))
        }
    }
}

/// The first `j` steps of a creation whose directory and first `j - 1`
/// worktrees were made: each asked for the next worktree in order.
proof fn lemma_create_prefix(
    s: Seq<CreateWorkspace>,
    o: Seq<Outcome>,
    r: Seq<Step<Result<WorktreeContainer, WorkspaceError>>>,
    j: int,
)
    requires
        s[0].wf(),
        s[0].phase is MakingDir,
        1 <= j <= s[0].repos@.len(),
        j < s.len(),
        s.len() == r.len() + 1,
        o.len() == r.len(),
        forall|i: int| 0 <= i < j ==> !(#[trigger] o[i] is Failed),
        forall|i: int| 0 <= i < r.len() ==> create_step(s[i], s[i + 1], o[i], #[trigger] r[i]),
    ensures
        s[j].phase is Creating,
        s[j].created@.len() == j - 1,
        s[j].same_request(&s[0]),
        forall|i: int|
            0 <= i < j ==> runs(
                #[trigger] r[i],
                create_op(s[0].workspace_dir@, s[0].branch_name@, s[0].repos@[i]),
            ),
    decreases j,
{
    assert(create_step(s[j - 1], s[j], o[j - 1], r[j - 1]));
    if j > 1 {
        lemma_create_prefix(s, o, r, j - 1);
    }
}

/// A creation in which the workspace directory and every worktree are made
/// asks for the worktrees in the order of the repositories and yields a
/// container with exactly one worktree per repository, the i-th at
/// `workspace_dir/<name of repository i>`.
pub proof fn lemma_create_all_succeed(
    s: Seq<CreateWorkspace>,
    o: Seq<Outcome>,
    r: Seq<Step<Result<WorktreeContainer, WorkspaceError>>>,
)
    requires
        s[0].wf(),
        s[0].phase is MakingDir,
        s.len() == s[0].repos@.len() + 2,
        s.len() == r.len() + 1,
        o.len() == r.len(),
        forall|i: int| 0 <= i < o.len() ==> !(#[trigger] o[i] is Failed),
        forall|i: int| 0 <= i < r.len() ==> create_step(s[i], s[i + 1], o[i], #[trigger] r[i]),
    ensures
        ({
            let dir = s[0].workspace_dir@;
            let repos = s[0].repos@;
            &&& forall|i: int|
                0 <= i < repos.len() ==> runs(#[trigger] r[i], create_op(dir, s[0].branch_name@, repos[i]))
            &&& r.last() matches Step::Done(Ok(c))
            &&& c.workspace_dir@ == dir
            &&& c.worktrees@.len() == repos.len()
            &&& forall|i: int|
                0 <= i < repos.len() ==> worktree_for(#[trigger] c.worktrees@[i], dir, repos[i])
        }),
{
    let n = s[0].repos@.len() as int;
    lemma_create_prefix(s, o, r, n);
    assert(create_step(s[n], s[n + 1], o[n], r[n]));
}

/// The rollback steps of a creation that failed at repository `k`: step
/// `k + 1 + j` removes the worktree of repository `j`.
proof fn lemma_create_rollback_prefix(
    s: Seq<CreateWorkspace>,
    o: Seq<Outcome>,
    r: Seq<Step<Result<WorktreeContainer, WorkspaceError>>>,
    k: int,
    j: int,
)
    requires
        s[k + 1].phase is Creating,
        s[k + 1].created@.len() == k,
        s[k + 1].wf(),
        o[k + 1] is Failed,
        1 <= j <= k,
        k + 1 + j < s.len(),
        s.len() == r.len() + 1,
        o.len() == r.len(),
        forall|i: int| 0 <= i < r.len() ==> create_step(s[i], s[i + 1], o[i], #[trigger] r[i]),
    ensures
        s[k + 1 + j].phase matches CreatePhase::RollingBack { next, .. } && next == j,
        s[k + 1 + j].created@ == s[k + 1].created@,
        s[k + 1 + j].same_request(&s[k + 1]),
        s[k + 1 + j].failure() == creation_failure(
            s[k + 1].repos@[k].repo.name@,
            outcome_message(o[k + 1]),
        ),
        forall|i: int|
            0 <= i < j ==> runs(#[trigger] r[k + 1 + i], rollback_op(s[k + 1].created@[i])),
    decreases j,
{
    assert(create_step(s[k + j], s[k + 1 + j], o[k + j], r[k + j]));
    if j > 1 {
        lemma_create_rollback_prefix(s, o, r, k, j - 1);
    }
}

/// A creation in which the directory and the worktrees of repositories
/// `0..k` are made and the worktree of repository `k` fails: repositories
/// after `k` are never attempted; the worktrees of repositories `0..k` are
/// removed in order, whatever their removals report; then the workspace
/// directory is removed if it is empty; and the call fails with
/// `PartialCreation` naming repository `k` and the cause.
pub proof fn lemma_create_rolls_back(
    s: Seq<CreateWorkspace>,
    o: Seq<Outcome>,
    r: Seq<Step<Result<WorktreeContainer, WorkspaceError>>>,
    k: int,
)
    requires
        s[0].wf(),
        s[0].phase is MakingDir,
        0 <= k < s[0].repos@.len(),
        r.len() == 2 * k + 3,
        s.len() == r.len() + 1,
        o.len() == r.len(),
        forall|i: int| 0 <= i <= k ==> !(#[trigger] o[i] is Failed),
        o[k + 1] is Failed,
        forall|i: int| 0 <= i < r.len() ==> create_step(s[i], s[i + 1], o[i], #[trigger] r[i]),
    ensures
        ({
            let dir = s[0].workspace_dir@;
            let repos = s[0].repos@;
            &&& forall|i: int|
                0 <= i <= k ==> runs(#[trigger] r[i], create_op(dir, s[0].branch_name@, repos[i]))
            &&& forall|i: int|
                0 <= i < k ==> runs(
                    #[trigger] r[k + 1 + i],
                    Op::CleanupWorktree {
                        cleanup: CleanupView {
                            worktree_path: join_spec(dir, repos[i].repo.name@),
                            git_repo_path: Some(repos[i].repo.path@),
                        },
                    },
                )
            &&& runs(r[2 * k + 1], Op::RemoveDir { path: dir })
            &&& fails_with(
                r[2 * k + 2],
                ErrorView::PartialCreation(
                    creation_failure(repos[k].repo.name@, outcome_message(o[k + 1])),
                ),
            )
        }),
{
    let dir = s[0].workspace_dir@;
    let repos = s[0].repos@;
    if k == 0 {
        assert(create_step(s[0], s[1], o[0], r[0]));
    } else {
        lemma_create_prefix(s, o, r, k + 1);
    }
    assert(s[k + 1].phase is Creating && s[k + 1].created@.len() == k && s[k + 1].same_request(&s[0]));
    assert(create_step(s[k + 1], s[k + 2], o[k + 1], r[k + 1]));
    if k > 0 {
        lemma_create_rollback_prefix(s, o, r, k, k);
        assert(create_step(s[2 * k + 1], s[2 * k + 2], o[2 * k + 1], r[2 * k + 1]));
        assert forall|i: int| 0 <= i < k implies runs(
            #[trigger] r[k + 1 + i],
            Op::CleanupWorktree {
                cleanup: CleanupView {
                    worktree_path: join_spec(dir, repos[i].repo.name@),
                    git_repo_path: Some(repos[i].repo.path@),
                },
            },
        ) by {
            assert(worktree_for(s[k + 1].created@[i], dir, repos[i]));
        }
    }
    assert(create_step(s[2 * k + 2], s[2 * k + 3], o[2 * k + 2], r[2 * k + 2]));
}

} // verus!
