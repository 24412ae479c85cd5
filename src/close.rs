use vstd::prelude::*;
use vstd::string::StringExecFns;

use crate::step::{
    fails_with, message_of, opt_view, outcome_message, runs, Action, CleanupView, ErrorView, Op, Outcome,
    Step, WorktreeCleanup,
};
use crate::types::{join_path, join_spec, Repo, RepoMergeResult, WorkspaceError, WorkspaceManager};

verus! {

/// The cleanup request for the worktree of `repo` inside `dir`.
pub open spec fn cleanup_of(dir: Seq<char>, repo: Repo) -> CleanupView {
    CleanupView { worktree_path: join_spec(dir, repo.name@), git_repo_path: Some(repo.path@) }
}

/// Where the removal of a workspace stands.
pub enum DiscardPhase {
    /// Waiting for the batch removal of the worktrees.
    RemovingWorktrees,
    /// Waiting for the removal of the workspace directory.
    RemovingDir,
    /// Waiting for the deletion of the branch from `repos[next]`.
    DeletingBranch { next: usize },
    Finished,
}

/// The removal of a workspace: its worktrees as one batch, then its
/// directory, then, when `branch_name` is given, that branch in every
/// repository. No failure stops it; a failure of the batch removal, kept in
/// `batch_failure`, is reported at the end.
pub struct DiscardWorkspace {
    pub workspace_dir: String,
    pub repos: Vec<Repo>,
    pub branch_name: Option<String>,
    pub batch_failure: Option<String>,
    pub phase: DiscardPhase,
}

/// `s` has just started removing the workspace in `dir`, and `r` asks for the
/// batch removal of the worktree of every repository.
pub open spec fn discard_started(
    s: DiscardWorkspace,
    r: Step<Result<(), WorkspaceError>>,
    dir: Seq<char>,
    repos: Vec<Repo>,
    branch_name: Option<String>,
) -> bool {
    &&& s.wf()
    &&& s.workspace_dir@ == dir
    &&& s.repos == repos
    &&& s.branch_name == branch_name
    &&& s.batch_failure is None
    &&& s.phase is RemovingWorktrees
    &&& runs(r, Op::BatchCleanup { cleanups: repos@.map_values(|repo: Repo| cleanup_of(dir, repo)) })
}

/// One step of a workspace removal: from `pre` with `outcome`, to `post`,
/// asking for `r`.
pub open spec fn discard_step(
    pre: DiscardWorkspace,
    post: DiscardWorkspace,
    outcome: Outcome,
    r: Step<Result<(), WorkspaceError>>,
) -> bool {
    &&& post.wf()
    &&& post.same_request(&pre)
    &&& match pre.phase {
        DiscardPhase::RemovingWorktrees => {
            &&& runs(r, Op::RemoveDirAll { path: pre.workspace_dir@ })
            &&& post.phase is RemovingDir
            &&& opt_view(post.batch_failure) == if outcome is Failed {
                Some(outcome_message(outcome))
            } else {
                None
            }
        },
        DiscardPhase::RemovingDir => {
            &&& post.batch_failure == pre.batch_failure
            &&& if pre.branch_name is Some && pre.repos@.len() > 0 {
                &&& runs(r, pre.delete_op(0))
                &&& post.phase == (DiscardPhase::DeletingBranch { next: 0 })
            } else {
                &&& pre.ends_with(r)
                &&& post.phase is Finished
            }
        },
        DiscardPhase::DeletingBranch { next } => {
            &&& post.batch_failure == pre.batch_failure
            &&& if next + 1 < pre.repos@.len() {
                &&& runs(r, pre.delete_op(next + 1))
                &&& post.phase matches DiscardPhase::DeletingBranch { next: n2 } && n2 == next + 1
            } else {
                &&& pre.ends_with(r)
                &&& post.phase is Finished
            }
        },
        DiscardPhase::Finished => false,
    }
}

impl DiscardWorkspace {
    pub open spec fn wf(&self) -> bool {
        match self.phase {
            DiscardPhase::DeletingBranch { next } => self.branch_name is Some && next
                < self.repos@.len(),
            _ => true,
        }
    }

    pub open spec fn same_request(&self, other: &Self) -> bool {
        &&& self.workspace_dir == other.workspace_dir
        &&& self.repos == other.repos
        &&& self.branch_name == other.branch_name
    }

    /// `r` ends the removal: with the failure of the batch removal if it
    /// failed, else with success.
    pub open spec fn ends_with(&self, r: Step<Result<(), WorkspaceError>>) -> bool {
        match self.batch_failure {
            Some(m) => fails_with(r, ErrorView::Worktree(m@)),
            None => r matches Step::Done(Ok(())),
        }
    }

    fn end(&self) -> (r: Step<Result<(), WorkspaceError>>)
        ensures
            self.ends_with(r),
    {
        match &self.batch_failure {
            Some(m) => Step::Done(Err(WorkspaceError::Worktree(m.clone()))),
            None => Step::Done(Ok(())),
        }
    }

    /// The deletion of the workspace branch from `repos[i]`.
    pub open spec fn delete_op(&self, i: int) -> Op {
        Op::DeleteBranch { repo_path: self.repos@[i].path@, branch: self.branch_name->Some_0@ }
    }

    fn delete_action(&self, i: usize) -> (a: Action)
        requires
            self.branch_name is Some,
            i < self.repos@.len(),
        ensures
            a@ == self.delete_op(i as int),
    {
        let branch = match &self.branch_name {
            Some(b) => b.clone(),
            None => String::new(),
        };
        Action::DeleteBranch { repo_path: self.repos[i].path.clone(), branch }
    }

    /// Takes the outcome of the last action and says what comes next.
    ///
    /// Whatever the batch removal reports, the directory is then removed and
    /// each branch deletion is attempted in turn. The call fails with the
    /// batch removal's failure if there was one, and succeeds otherwise,
    /// whatever the directory removal and the deletions report.
    pub fn resume(&mut self, outcome: Outcome) -> (r: Step<Result<(), WorkspaceError>>)
        requires
            old(self).wf(),
            !(old(self).phase is Finished),
        ensures
            discard_step(*old(self), *final(self), outcome, r),
    {
        match self.phase {
            DiscardPhase::RemovingWorktrees => {
                if let Outcome::Failed(m) = outcome {
                    self.batch_failure = Some(m);
                } else {
                    self.batch_failure = None;
                }
                self.phase = DiscardPhase::RemovingDir;
                Step::Run(Action::RemoveDirAll { path: self.workspace_dir.clone() })
            },
            DiscardPhase::RemovingDir => {
                if self.branch_name.is_some() && self.repos.len() > 0 {
                    self.phase = DiscardPhase::DeletingBranch { next: 0 };
                    Step::Run(self.delete_action(0))
                } else {
                    self.phase = DiscardPhase::Finished;
                    self.end()
                }
            },
            DiscardPhase::DeletingBranch { next } => {
                if next < self.repos.len() - 1 {
                    self.phase = DiscardPhase::DeletingBranch { next: next + 1 };
                    Step::Run(self.delete_action(next + 1))
                } else {
                    self.phase = DiscardPhase::Finished;
                    self.end()
                }
            },
            DiscardPhase::Finished => Step::Done(Ok(())),
        }
    }
}

/// `m` records the merge of `repo` into `target`, which made commit `sha`.
pub open spec fn merge_record(m: RepoMergeResult, repo: Repo, target: Seq<char>, sha: Seq<char>) -> bool {
    &&& m.repo_id == repo.id
    &&& m.repo_name@ == repo.name@
    &&& m.merge_commit_sha@ == sha
    &&& m.target_branch@ == target
}

/// The description of a merge that failed other than on conflicts.
pub open spec fn merge_failure(repo_name: Seq<char>, cause: Seq<char>) -> Seq<char> {
    "Merge failed in repo '"@ + repo_name + "': "@ + cause
}

/// The merge of the workspace branch of every repository into its target
/// branch, in the canonical clones, one after another. The first repository
/// that does not merge stops it; the merges made before it stay, and stay
/// listed in `results`.
pub struct MergeWorkspace {
    pub repos_with_targets: Vec<(Repo, String)>,
    pub workspace_branch: String,
    pub commit_message: String,
    pub results: Vec<RepoMergeResult>,
    pub finished: bool,
}

/// One step of a merge: from `pre` with `outcome`, to `post`, asking for
/// `r`.
pub open spec fn merge_step(
    pre: MergeWorkspace,
    post: MergeWorkspace,
    outcome: Outcome,
    r: Step<Result<Vec<RepoMergeResult>, WorkspaceError>>,
) -> bool {
    &&& post.wf()
    &&& post.same_request(&pre)
    &&& ({
        let k = pre.results@.len() as int;
        let n = pre.repos_with_targets@.len();
        let repo = pre.repos_with_targets@[k].0;
        match outcome {
            Outcome::Merged(sha) => {
                &&& post.results@.len() == k + 1
                &&& post.results@.take(k) == pre.results@
                &&& merge_record(post.results@[k], repo, pre.repos_with_targets@[k].1@, sha@)
                &&& if k + 1 < n {
                    !post.finished && runs(r, pre.merge_op(k + 1))
                } else {
                    post.finished && (r matches Step::Done(Ok(v)) && v@ == post.results@)
                }
            },
            Outcome::Conflicted(m) => {
                &&& post.finished
                &&& post.results@ == pre.results@
                &&& fails_with(r, ErrorView::MergeConflicts { repo_name: repo.name@, message: m@ })
            },
            _ => {
                &&& post.finished
                &&& post.results@ == pre.results@
                &&& fails_with(r, ErrorView::Git(merge_failure(repo.name@, outcome_message(outcome))))
            },
        }
    })
}

impl MergeWorkspace {
    pub open spec fn wf(&self) -> bool {
        &&& self.results@.len() <= self.repos_with_targets@.len()
        &&& !self.finished ==> self.results@.len() < self.repos_with_targets@.len()
        &&& forall|i: int|
            0 <= i < self.results@.len() ==> #[trigger] self.results@[i].repo_id
                == self.repos_with_targets@[i].0.id && self.results@[i].repo_name@
                == self.repos_with_targets@[i].0.name@ && self.results@[i].target_branch@
                == self.repos_with_targets@[i].1@
    }

    pub open spec fn same_request(&self, other: &Self) -> bool {
        &&& self.repos_with_targets == other.repos_with_targets
        &&& self.workspace_branch == other.workspace_branch
        &&& self.commit_message == other.commit_message
    }

    /// The merge for `repos_with_targets[i]`.
    pub open spec fn merge_op(&self, i: int) -> Op {
        Op::MergeIntoBranch {
            repo_path: self.repos_with_targets@[i].0.path@,
            target_branch: self.repos_with_targets@[i].1@,
            source_branch: self.workspace_branch@,
            commit_message: self.commit_message@,
        }
    }

    fn merge_action(&self, i: usize) -> (a: Action)
        requires
            i < self.repos_with_targets@.len(),
        ensures
            a@ == self.merge_op(i as int),
    {
        Action::MergeIntoBranch {
            repo_path: self.repos_with_targets[i].0.path.clone(),
            target_branch: self.repos_with_targets[i].1.clone(),
            source_branch: self.workspace_branch.clone(),
            commit_message: self.commit_message.clone(),
        }
    }

    /// Takes the outcome of the last merge and says what comes next.
    ///
    /// A merge commit is recorded and the next repository is merged; on
    /// conflicts the call ends with `MergeConflicts` naming the repository;
    /// on any other outcome it ends with `Git`. No later repository is
    /// attempted after a failure, and no earlier merge is undone.
    pub fn resume(&mut self, outcome: Outcome) -> (r: Step<Result<Vec<RepoMergeResult>, WorkspaceError>>)
        requires
            old(self).wf(),
            !old(self).finished,
        ensures
            merge_step(*old(self), *final(self), outcome, r),
    {
        let k = self.results.len();
        match outcome {
            Outcome::Merged(sha) => {
                let record = RepoMergeResult {
                    repo_id: self.repos_with_targets[k].0.id,
                    repo_name: self.repos_with_targets[k].0.name.clone(),
                    merge_commit_sha: sha,
                    target_branch: self.repos_with_targets[k].1.clone(),
                };
                self.results.push(record);
                proof {
                    assert(self.results@.take(k as int) =~= old(self).results@);
                }
                if k < self.repos_with_targets.len() - 1 {
                    Step::Run(self.merge_action(k + 1))
                } else {
                    self.finished = true;
                    let mut v = Vec::new();
                    let mut i: usize = 0;
                    while i < self.results.len()
                        invariant
                            i <= self.results@.len(),
                            v@ == self.results@.take(i as int),
                        decreases self.results@.len() - i,
                    {
                        v.push(self.results[i].clone_record());
                        proof {
                            assert(self.results@.take(i + 1) =~= self.results@.take(i as int).push(self.results@[i as int]));
                        }
                        i = i + 1;
                    }
                    proof {
                        assert(self.results@.take(self.results@.len() as int) =~= self.results@);
                    }
                    Step::Done(Ok(v))
                }
            },
            Outcome::Conflicted(m) => {
                self.finished = true;
                Step::Done(Err(WorkspaceError::MergeConflicts { repo_name: self.repos_with_targets[k].0.name.clone(), message: m }))
            },
            other => {
                let mut message = String::from_str("Merge failed in repo '");
                message.append(self.repos_with_targets[k].0.name.as_str());
                message.append("': ");
                let cause = message_of(other);
                message.append(cause.as_str());
                self.finished = true;
                Step::Done(Err(WorkspaceError::Git(message)))
            },
        }
    }
}

impl RepoMergeResult {
    /// A copy of this record.
    pub fn clone_record(&self) -> (r: Self)
        ensures
            r == *self,
    {
        RepoMergeResult {
            repo_id: self.repo_id,
            repo_name: self.repo_name.clone(),
            merge_commit_sha: self.merge_commit_sha.clone(),
            target_branch: self.target_branch.clone(),
        }
    }
}

impl WorkspaceManager {
    /// Starts merging `workspace_branch` into the target branch of each
    /// repository, with `commit_message`.
    pub fn close_workspace_merge(repos_with_targets: Vec<(Repo, String)>, workspace_branch: String, commit_message: String) -> (r: (
        MergeWorkspace,
        Step<Result<Vec<RepoMergeResult>, WorkspaceError>>,
    ))
        ensures
            r.0.wf(),
            r.0.repos_with_targets == repos_with_targets,
            r.0.workspace_branch == workspace_branch,
            r.0.commit_message == commit_message,
            r.0.results@.len() == 0,
            repos_with_targets@.len() == 0 ==> r.0.finished && (r.1 matches Step::Done(Ok(v)) && v@.len() == 0),
            repos_with_targets@.len() > 0 ==> !r.0.finished && runs(r.1, r.0.merge_op(0)),
    {
        let empty = repos_with_targets.len() == 0;
        let s = MergeWorkspace { repos_with_targets, workspace_branch, commit_message, results: Vec::new(), finished: empty };
        if empty {
            (s, Step::Done(Ok(Vec::new())))
        } else {
            let a = s.merge_action(0);
            (s, Step::Run(a))
        }
    }

    fn start_discard(workspace_dir: String, repos: Vec<Repo>, branch_name: Option<String>) -> (r: (
        DiscardWorkspace,
        Step<Result<(), WorkspaceError>>,
    ))
        ensures
            discard_started(r.0, r.1, workspace_dir@, repos, branch_name),
    {
        let mut cleanups: Vec<WorktreeCleanup> = Vec::new();
        let mut i: usize = 0;
        while i < repos.len()
            invariant
                i <= repos@.len(),
                cleanups@.len() == i,
                forall|j: int| 0 <= j < i ==> #[trigger] cleanups@[j]@ == cleanup_of(workspace_dir@, repos@[j]),
            decreases repos@.len() - i,
        {
            cleanups.push(WorktreeCleanup {
                worktree_path: join_path(workspace_dir.as_str(), repos[i].name.as_str()),
                git_repo_path: Some(repos[i].path.clone()),
            });
            i = i + 1;
        }
        let ghost dir = workspace_dir@;
        proof {
            assert(cleanups@.map_values(|c: WorktreeCleanup| c@) =~= repos@.map_values(
                |repo: Repo| cleanup_of(dir, repo),
            ));
        }
        let s = DiscardWorkspace {
            workspace_dir,
            repos,
            branch_name,
            batch_failure: None,
            phase: DiscardPhase::RemovingWorktrees,
        };
        (s, Step::Run(Action::BatchCleanup { cleanups }))
    }
}

impl WorkspaceManager {
    /// Starts removing every worktree of the workspace in `workspace_dir`,
    /// then the directory itself.
    pub fn cleanup_workspace(workspace_dir: String, repos: Vec<Repo>) -> (r: (DiscardWorkspace, Step<Result<(), WorkspaceError>>))
        ensures
            discard_started(r.0, r.1, workspace_dir@, repos, None),
    {
        Self::start_discard(workspace_dir, repos, None)
    }

    /// Starts closing the workspace in `workspace_dir` without keeping its
    /// changes: the cleanup of `cleanup_workspace`, then the deletion of
    /// `branch_name` from every repository.
    pub fn close_workspace_discard(workspace_dir: String, repos: Vec<Repo>, branch_name: String) -> (r: (DiscardWorkspace, Step<Result<(), WorkspaceError>>))
        ensures
            discard_started(r.0, r.1, workspace_dir@, repos, Some(branch_name)),
    {
        Self::start_discard(workspace_dir, repos, Some(branch_name))
    }
}

/// The first `j` steps of a merge whose first `j` repositories merged.
proof fn lemma_merge_prefix(
    s: Seq<MergeWorkspace>,
    o: Seq<Outcome>,
    r: Seq<Step<Result<Vec<RepoMergeResult>, WorkspaceError>>>,
    j: int,
)
    requires
        s[0].wf(),
        !s[0].finished,
        s[0].results@.len() == 0,
        0 <= j < s[0].repos_with_targets@.len(),
        j < s.len(),
        s.len() == r.len() + 1,
        o.len() == r.len(),
        forall|i: int| 0 <= i < j ==> #[trigger] o[i] is Merged,
        forall|i: int| 0 <= i < r.len() ==> merge_step(s[i], s[i + 1], o[i], #[trigger] r[i]),
    ensures
        !s[j].finished,
        s[j].results@.len() == j,
        s[j].same_request(&s[0]),
        forall|i: int| 0 <= i < j ==> runs(#[trigger] r[i], s[0].merge_op(i + 1)),
        forall|i: int|
            0 <= i < j ==> merge_record(
                #[trigger] s[j].results@[i],
                s[0].repos_with_targets@[i].0,
                s[0].repos_with_targets@[i].1@,
                o[i]->Merged_0@,
            ),
    decreases j,
{
    if j > 0 {
        lemma_merge_prefix(s, o, r, j - 1);
        assert(merge_step(s[j - 1], s[j], o[j - 1], r[j - 1]));
        assert forall|i: int| 0 <= i < j - 1 implies s[j].results@[i] == s[j - 1].results@[i] by {
            assert(s[j].results@.take(j - 1)[i] == s[j].results@[i]);
        }
    }
}

/// A merge in which repositories `0..k` merge and repository `k` stops on
/// conflicts: the merges are asked for in order; the call fails with
/// `MergeConflicts` naming repository `k` and carrying the conflict's
/// description; the merges of repositories `0..k` stay recorded; and the
/// merge is over, so no later repository is attempted.
pub proof fn lemma_merge_stops_at_conflict(
    s: Seq<MergeWorkspace>,
    o: Seq<Outcome>,
    r: Seq<Step<Result<Vec<RepoMergeResult>, WorkspaceError>>>,
    k: int,
)
    requires
        s[0].wf(),
        !s[0].finished,
        s[0].results@.len() == 0,
        0 <= k < s[0].repos_with_targets@.len(),
        s.len() == k + 2,
        r.len() == k + 1,
        o.len() == k + 1,
        forall|i: int| 0 <= i < k ==> #[trigger] o[i] is Merged,
        o[k] is Conflicted,
        forall|i: int| 0 <= i < r.len() ==> merge_step(s[i], s[i + 1], o[i], #[trigger] r[i]),
    ensures
        ({
            let pairs = s[0].repos_with_targets@;
            &&& forall|i: int| 0 <= i < k ==> runs(#[trigger] r[i], s[0].merge_op(i + 1))
            &&& fails_with(
                r[k],
                ErrorView::MergeConflicts {
                    repo_name: pairs[k].0.name@,
                    message: outcome_message(o[k]),
                },
            )
            &&& s[k + 1].finished
            &&& s[k + 1].results@.len() == k
            &&& forall|i: int|
                0 <= i < k ==> merge_record(
                    #[trigger] s[k + 1].results@[i],
                    pairs[i].0,
                    pairs[i].1@,
                    o[i]->Merged_0@,
                )
        }),
{
    lemma_merge_prefix(s, o, r, k);
    assert(merge_step(s[k], s[k + 1], o[k], r[k]));
}

/// The steps of a discard up to the deletion of the branch from
/// repository `j`.
proof fn lemma_discard_prefix(
    s: Seq<DiscardWorkspace>,
    o: Seq<Outcome>,
    r: Seq<Step<Result<(), WorkspaceError>>>,
    j: int,
)
    requires
        s[0].wf(),
        s[0].phase is RemovingWorktrees,
        s[0].branch_name is Some,
        0 <= j < s[0].repos@.len(),
        j + 2 < s.len(),
        s.len() == r.len() + 1,
        o.len() == r.len(),
        forall|i: int| 0 <= i < r.len() ==> discard_step(s[i], s[i + 1], o[i], #[trigger] r[i]),
    ensures
        s[j + 2].phase matches DiscardPhase::DeletingBranch { next } && next == j,
        s[j + 2].same_request(&s[0]),
        s[j + 2].batch_failure == s[1].batch_failure,
        runs(r[0], Op::RemoveDirAll { path: s[0].workspace_dir@ }),
        forall|i: int| 0 <= i <= j ==> runs(#[trigger] r[i + 1], s[0].delete_op(i)),
    decreases j,
{
    assert(discard_step(s[0], s[1], o[0], r[0]));
    assert(discard_step(s[1], s[2], o[1], r[1]));
    if j > 0 {
        lemma_discard_prefix(s, o, r, j - 1);
        assert(discard_step(s[j + 1], s[j + 2], o[j + 1], r[j + 1]));
    }
}

/// A discard goes on whatever fails: it removes the workspace directory,
/// then asks for the deletion of the branch from every repository in order,
/// and ends with the failure of the batch removal of worktrees if that
/// failed, and with success otherwise.
pub proof fn lemma_discard_reaches_every_repo(
    s: Seq<DiscardWorkspace>,
    o: Seq<Outcome>,
    r: Seq<Step<Result<(), WorkspaceError>>>,
)
    requires
        s[0].wf(),
        s[0].phase is RemovingWorktrees,
        s[0].branch_name is Some,
        s.len() == s[0].repos@.len() + 3,
        s.len() == r.len() + 1,
        o.len() == r.len(),
        forall|i: int| 0 <= i < r.len() ==> discard_step(s[i], s[i + 1], o[i], #[trigger] r[i]),
    ensures
        runs(r[0], Op::RemoveDirAll { path: s[0].workspace_dir@ }),
        forall|i: int| 0 <= i < s[0].repos@.len() ==> runs(#[trigger] r[i + 1], s[0].delete_op(i)),
        if o[0] is Failed {
            fails_with(r.last(), ErrorView::Worktree(outcome_message(o[0])))
        } else {
            r.last() matches Step::Done(Ok(()))
        },
{
    let n = s[0].repos@.len() as int;
    assert(discard_step(s[0], s[1], o[0], r[0]));
    if n == 0 {
        assert(discard_step(s[1], s[2], o[1], r[1]));
    } else {
        lemma_discard_prefix(s, o, r, n - 1);
        assert(discard_step(s[n + 1], s[n + 2], o[n + 1], r[n + 1]));
    }
}

} // verus!
