use vstd::prelude::*;

use crate::step::{
    destructive, fails_with, outcome_message, runs, Action, ErrorView, Op, Outcome, Step,
};
use crate::types::{
    join_path, join_spec, migrating_path, migrating_spec, Repo, WorkspaceError, WorkspaceManager,
};

verus! {

/// Where a legacy-layout migration stands.
pub enum MigratePhase {
    /// Waiting for the description of the workspace directory.
    Inspecting,
    /// Waiting for the worktree to move from the root to the temporary sibling.
    MovingOut,
    /// Waiting for the workspace directory to be made again.
    Recreating,
    /// Waiting for the worktree to move from the sibling to its nested place.
    MovingIn,
    /// Waiting for the temporary sibling to be removed.
    RemovingTemp,
    Finished,
}

/// The upgrade of a workspace whose root is itself the single worktree to
/// the layout where the worktree sits at `workspace_dir/<repo name>`.
pub struct MigrateLegacy {
    pub workspace_dir: String,
    pub repo: Repo,
    pub phase: MigratePhase,
}

/// The outcome describes a legacy layout: the directory exists, its `.git`
/// entry is a file, and the nested worktree path does not exist.
pub open spec fn legacy_layout(o: Outcome) -> bool {
    o matches Outcome::Layout { dir_exists, git_is_file, nested_exists } && dir_exists
        && git_is_file && !nested_exists
}

/// The path of the worktree of `repo` in the current layout.
pub open spec fn nested_path(dir: Seq<char>, repo: Repo) -> Seq<char> {
    join_spec(dir, repo.name@)
}

/// What a migration step does: from `pre` with `outcome`, to `post`,
/// asking for `r`.
pub open spec fn migration_step(
    pre: MigrateLegacy,
    post: MigrateLegacy,
    outcome: Outcome,
    r: Step<Result<bool, WorkspaceError>>,
) -> bool {
    let dir = pre.workspace_dir@;
    let temp = migrating_spec(dir);
    let repo_path = pre.repo.path@;
    &&& post.workspace_dir == pre.workspace_dir
    &&& post.repo == pre.repo
    &&& match pre.phase {
        MigratePhase::Inspecting => if legacy_layout(outcome) {
            &&& runs(r, Op::MoveWorktree { repo_path, from: dir, to: temp })
            &&& post.phase is MovingOut
        } else {
            &&& r matches Step::Done(Ok(false))
            &&& post.phase is Finished
        },
        MigratePhase::MovingOut => if outcome is Failed {
            &&& fails_with(r, ErrorView::Worktree(outcome_message(outcome)))
            &&& post.phase is Finished
        } else {
            &&& runs(r, Op::CreateDirAll { path: dir })
            &&& post.phase is Recreating
        },
        MigratePhase::Recreating => if outcome is Failed {
            &&& fails_with(r, ErrorView::Io(outcome_message(outcome)))
            &&& post.phase is Finished
        } else {
            &&& runs(r, Op::MoveWorktree { repo_path, from: temp, to: nested_path(dir, pre.repo) })
            &&& post.phase is MovingIn
        },
        MigratePhase::MovingIn => if outcome is Failed {
            &&& fails_with(r, ErrorView::Worktree(outcome_message(outcome)))
            &&& post.phase is Finished
        } else {
            &&& runs(r, Op::RemoveDirAll { path: temp })
            &&& post.phase is RemovingTemp
        },
        MigratePhase::RemovingTemp => {
            &&& r matches Step::Done(Ok(true))
            &&& post.phase is Finished
        },
        MigratePhase::Finished => false,
    }
}

impl MigrateLegacy {
    /// Takes the outcome of the last action and says what comes next.
    ///
    /// Nothing is moved unless the directory has the legacy layout; then the
    /// worktree moves to a temporary sibling, the directory is made again,
    /// the worktree moves to its nested place and the sibling is removed.
    /// The result tells whether a migration was performed. A failed step ends
    /// the migration with its error and is not undone.
    pub fn resume(&mut self, outcome: Outcome) -> (r: Step<Result<bool, WorkspaceError>>)
        requires
            !(old(self).phase is Finished),
        ensures
            migration_step(*old(self), *final(self), outcome, r),
    {
        match self.phase {
            MigratePhase::Inspecting => {
                let legacy = match outcome {
                    Outcome::Layout { dir_exists, git_is_file, nested_exists } => dir_exists
                        && git_is_file && !nested_exists,
                    _ => false,
                };
                if legacy {
                    self.phase = MigratePhase::MovingOut;
                    Step::Run(Action::MoveWorktree {
                        repo_path: self.repo.path.clone(),
                        from: self.workspace_dir.clone(),
                        to: migrating_path(self.workspace_dir.as_str()),
                    })
                } else {
                    self.phase = MigratePhase::Finished;
                    Step::Done(Ok(false))
                }
            },
            MigratePhase::MovingOut => {
                if let Outcome::Failed(m) = outcome {
                    self.phase = MigratePhase::Finished;
                    Step::Done(Err(WorkspaceError::Worktree(m)))
                } else {
                    self.phase = MigratePhase::Recreating;
                    Step::Run(Action::CreateDirAll { path: self.workspace_dir.clone() })
                }
            },
            MigratePhase::Recreating => {
                if let Outcome::Failed(m) = outcome {
                    self.phase = MigratePhase::Finished;
                    Step::Done(Err(WorkspaceError::Io(m)))
                } else {
                    self.phase = MigratePhase::MovingIn;
                    Step::Run(Action::MoveWorktree {
                        repo_path: self.repo.path.clone(),
                        from: migrating_path(self.workspace_dir.as_str()),
                        to: join_path(self.workspace_dir.as_str(), self.repo.name.as_str()),
                    })
                }
            },
            MigratePhase::MovingIn => {
                if let Outcome::Failed(m) = outcome {
                    self.phase = MigratePhase::Finished;
                    Step::Done(Err(WorkspaceError::Worktree(m)))
                } else {
                    self.phase = MigratePhase::RemovingTemp;
                    Step::Run(Action::RemoveDirAll { path: migrating_path(self.workspace_dir.as_str()) })
                }
            },
            MigratePhase::RemovingTemp => {
                self.phase = MigratePhase::Finished;
                Step::Done(Ok(true))
            },
            MigratePhase::Finished => Step::Done(Ok(false)),
        }
    }
}

/// Where the reconciliation of a workspace stands.
pub enum EnsurePhase {
    /// The single repository's legacy layout is being migrated.
    Migrating,
    /// Waiting for the workspace directory to be made.
    MakingDir,
    /// Waiting for the worktree of `repos[next]` to be ensured.
    Ensuring { next: usize },
    Finished,
}

/// The reconciliation of a workspace after a restart: a worktree of every
/// repository on the workspace branch, each at its nested path.
pub struct EnsureWorkspace {
    pub workspace_dir: String,
    pub repos: Vec<Repo>,
    pub branch_name: String,
    pub migration: Option<MigrateLegacy>,
    pub phase: EnsurePhase,
}

/// One step of a reconciliation: from `pre` with `outcome`, to `post`,
/// asking for `r`.
pub open spec fn ensure_step(
    pre: EnsureWorkspace,
    post: EnsureWorkspace,
    outcome: Outcome,
    r: Step<Result<(), WorkspaceError>>,
) -> bool {
    &&& post.wf()
    &&& post.same_request(&pre)
    &&& (r is Run && destructive(r->Run_0@)) ==> pre.phase is Migrating
        && !(pre.migration->Some_0.phase is Inspecting && !legacy_layout(outcome))
    &&& (match pre.phase {
                EnsurePhase::Migrating => exists|inner: Step<Result<bool, WorkspaceError>>|
                    post.migration is Some && migration_step(
                        pre.migration->Some_0,
                        post.migration->Some_0,
                        outcome,
                        inner,
                    )
                        && #[trigger] post.follows_migration(inner, r),
                EnsurePhase::MakingDir => if outcome is Failed {
                    &&& fails_with(r, ErrorView::Io(outcome_message(outcome)))
                    &&& post.phase is Finished
                } else {
                    &&& runs(r, pre.ensure_op(0))
                    &&& post.phase == (EnsurePhase::Ensuring { next: 0 })
                },
                EnsurePhase::Ensuring { next } => if outcome is Failed {
                    &&& fails_with(r, ErrorView::Worktree(outcome_message(outcome)))
                    &&& post.phase is Finished
                } else if next + 1 < pre.repos@.len() {
                    &&& runs(r, pre.ensure_op(next + 1))
                    &&& post.phase == (EnsurePhase::Ensuring { next: (next + 1) as usize })
                } else {
                    &&& r matches Step::Done(Ok(()))
                    &&& post.phase is Finished
                },
                EnsurePhase::Finished => false,
            })
}

impl EnsureWorkspace {
    pub open spec fn wf(&self) -> bool {
        &&& !(self.phase is Finished) ==> self.repos@.len() > 0
        &&& match self.phase {
            EnsurePhase::Migrating => {
                &&& self.repos@.len() == 1
                &&& self.migration is Some
                &&& !(self.migration->Some_0.phase is Finished)
                &&& self.migration->Some_0.workspace_dir == self.workspace_dir
                &&& self.migration->Some_0.repo == self.repos@[0]
            },
            EnsurePhase::Ensuring { next } => next < self.repos@.len(),
            _ => true,
        }
    }

    pub open spec fn same_request(&self, other: &Self) -> bool {
        &&& self.workspace_dir == other.workspace_dir
        &&& self.repos == other.repos
        &&& self.branch_name == other.branch_name
    }

    /// Ensuring the worktree of `repos[i]`.
    pub open spec fn ensure_op(&self, i: int) -> Op {
        Op::EnsureWorktree {
            repo_path: self.repos@[i].path@,
            branch: self.branch_name@,
            worktree_path: nested_path(self.workspace_dir@, self.repos@[i]),
        }
    }

    /// A step of the migration phase: `r` passes on what the migration asked
    /// for, ending the call when it migrated or failed and going on to the
    /// current layout when there was nothing to migrate.
    pub open spec fn follows_migration(
        &self,
        inner: Step<Result<bool, WorkspaceError>>,
        r: Step<Result<(), WorkspaceError>>,
    ) -> bool {
        match inner {
            Step::Run(a) => r is Run && r->Run_0@ == a@ && self.phase is Migrating,
            Step::Done(Ok(true)) => r matches Step::Done(Ok(())) && self.phase is Finished,
            Step::Done(Ok(false)) => runs(r, Op::CreateDirAll { path: self.workspace_dir@ })
                && self.phase is MakingDir,
            Step::Done(Err(e)) => fails_with(r, e@) && self.phase is Finished,
        }
    }

    fn ensure_action(&self, i: usize) -> (a: Action)
        requires
            i < self.repos@.len(),
        ensures
            a@ == self.ensure_op(i as int),
    {
        Action::EnsureWorktree {
            repo_path: self.repos[i].path.clone(),
            branch: self.branch_name.clone(),
            worktree_path: join_path(self.workspace_dir.as_str(), self.repos[i].name.as_str()),
        }
    }

    /// Takes the outcome of the last action and says what comes next.
    ///
    /// Outside a legacy migration nothing destructive is asked for: the
    /// directory is made if missing and each worktree is ensured in turn, so
    /// a workspace that is already in place is left as it is.
    pub fn resume(&mut self, outcome: Outcome) -> (r: Step<Result<(), WorkspaceError>>)
        requires
            old(self).wf(),
            !(old(self).phase is Finished),
        ensures
            ensure_step(*old(self), *final(self), outcome, r),
    {
        match self.phase {
            EnsurePhase::Migrating => {
                let inner = match &mut self.migration {
                    Some(m) => m.resume(outcome),
                    None => Step::Done(Ok(false)),
                };
                let ghost g = inner;
                let r = match inner {
                    Step::Run(a) => Step::Run(a),
                    Step::Done(Ok(true)) => {
                        self.phase = EnsurePhase::Finished;
                        Step::Done(Ok(()))
                    },
                    Step::Done(Ok(false)) => {
                        self.phase = EnsurePhase::MakingDir;
                        Step::Run(Action::CreateDirAll { path: self.workspace_dir.clone() })
                    },
                    Step::Done(Err(e)) => {
                        self.phase = EnsurePhase::Finished;
                        Step::Done(Err(e))
                    },
                };
                assert(self.follows_migration(g, r));
                r
            },
            EnsurePhase::MakingDir => {
                if let Outcome::Failed(m) = outcome {
                    self.phase = EnsurePhase::Finished;
                    Step::Done(Err(WorkspaceError::Io(m)))
                } else {
                    self.phase = EnsurePhase::Ensuring { next: 0 };
                    Step::Run(self.ensure_action(0))
                }
            },
            EnsurePhase::Ensuring { next } => {
                if let Outcome::Failed(m) = outcome {
                    self.phase = EnsurePhase::Finished;
                    Step::Done(Err(WorkspaceError::Worktree(m)))
                } else if next < self.repos.len() - 1 {
                    self.phase = EnsurePhase::Ensuring { next: next + 1 };
                    Step::Run(self.ensure_action(next + 1))
                } else {
                    self.phase = EnsurePhase::Finished;
                    Step::Done(Ok(()))
                }
            },
            EnsurePhase::Finished => Step::Done(Ok(())),
        }
    }
}

impl WorkspaceManager {
    /// Starts the migration of `workspace_dir`, which holds the worktree of
    /// `repo`, by asking what the directory holds.
    pub fn migrate_legacy_worktree(workspace_dir: String, repo: Repo) -> (r: (MigrateLegacy, Step<Result<bool, WorkspaceError>>))
        ensures
            r.0.workspace_dir == workspace_dir,
            r.0.repo == repo,
            r.0.phase is Inspecting,
            runs(
                r.1,
                Op::InspectLayout {
                    workspace_dir: workspace_dir@,
                    git_marker: join_spec(workspace_dir@, ".git"@),
                    nested_path: nested_path(workspace_dir@, repo),
                },
            ),
    {
        let a = Action::InspectLayout {
            workspace_dir: workspace_dir.clone(),
            git_marker: join_path(workspace_dir.as_str(), ".git"),
            nested_path: join_path(workspace_dir.as_str(), repo.name.as_str()),
        };
        (MigrateLegacy { workspace_dir, repo, phase: MigratePhase::Inspecting }, Step::Run(a))
    }
}

impl WorkspaceManager {
    /// Starts reconciling `workspace_dir` with one worktree per repository on
    /// `branch_name`. With a single repository a legacy layout is migrated
    /// first, and a migration that took place ends the call. An empty
    /// repository list fails with `NoRepositories`.
    pub fn ensure_workspace_exists(workspace_dir: String, repos: Vec<Repo>, branch_name: String) -> (r: (EnsureWorkspace, Step<Result<(), WorkspaceError>>))
        ensures
            repos@.len() == 0 ==> fails_with(r.1, ErrorView::NoRepositories) && r.0.phase is Finished,
            r.0.wf(),
            r.0.workspace_dir == workspace_dir,
            r.0.repos == repos,
            r.0.branch_name == branch_name,
            repos@.len() == 1 ==> (r.0.migration matches Some(m) && m.phase is Inspecting
                && m.workspace_dir == workspace_dir && m.repo == repos@[0]),
            repos@.len() == 1 ==> r.0.phase is Migrating && runs(
                r.1,
                Op::InspectLayout {
                    workspace_dir: workspace_dir@,
                    git_marker: join_spec(workspace_dir@, ".git"@),
                    nested_path: nested_path(workspace_dir@, repos@[0]),
                },
            ),
            repos@.len() > 1 ==> r.0.phase is MakingDir && runs(r.1, Op::CreateDirAll { path: workspace_dir@ }),
    {
        if repos.len() == 0 {
            return (EnsureWorkspace { workspace_dir, repos, branch_name, migration: None, phase: EnsurePhase::Finished }, Step::Done(Err(WorkspaceError::NoRepositories)));
        }
        let first = repos[0].clone_repo();
        let (migration, first_step) = WorkspaceManager::migrate_legacy_worktree(workspace_dir.clone(), first);
        let migration = Some(migration);
        if repos.len() == 1 {
            let first_step = match first_step {
                Step::Run(a) => Step::Run(a),
                Step::Done(_) => Step::Done(Ok(())),
            };
            (EnsureWorkspace { workspace_dir, repos, branch_name, migration, phase: EnsurePhase::Migrating }, first_step)
        } else {
            let path = workspace_dir.clone();
            (EnsureWorkspace { workspace_dir, repos, branch_name, migration, phase: EnsurePhase::MakingDir }, Step::Run(Action::CreateDirAll { path }))
        }
    }
}

/// The layout report of a directory whose worktree already sits at its
/// nested path.
pub open spec fn nested_in_place(o: Outcome) -> bool {
    o matches Outcome::Layout { nested_exists, .. } && nested_exists
}

/// Migrating again what a migration left is a no-op: once the nested
/// worktree is in place, the migration asks for nothing more and reports
/// that nothing was migrated.
pub proof fn lemma_migration_idempotent(
    pre: MigrateLegacy,
    post: MigrateLegacy,
    outcome: Outcome,
    r: Step<Result<bool, WorkspaceError>>,
)
    requires
        pre.phase is Inspecting,
        nested_in_place(outcome),
        migration_step(pre, post, outcome, r),
    ensures
        r matches Step::Done(Ok(false)),
        post.phase is Finished,
{
}

/// A migration from the legacy layout in which every step completes moves
/// the worktree from the root to the temporary sibling, makes the root
/// again, moves the worktree from the sibling to its nested place, removes
/// the sibling, and reports that a migration took place.
pub proof fn lemma_migration_relocates(
    s: Seq<MigrateLegacy>,
    layout: Outcome,
    r: Seq<Step<Result<bool, WorkspaceError>>>,
)
    requires
        s.len() == 6,
        r.len() == 5,
        s[0].phase is Inspecting,
        legacy_layout(layout),
        migration_step(s[0], s[1], layout, r[0]),
        forall|i: int| 1 <= i < 5 ==> migration_step(s[i], s[i + 1], Outcome::Completed, #[trigger] r[i]),
    ensures
        ({
            let dir = s[0].workspace_dir@;
            let temp = migrating_spec(dir);
            let repo_path = s[0].repo.path@;
            &&& runs(r[0], Op::MoveWorktree { repo_path, from: dir, to: temp })
            &&& runs(r[1], Op::CreateDirAll { path: dir })
            &&& runs(r[2], Op::MoveWorktree { repo_path, from: temp, to: nested_path(dir, s[0].repo) })
            &&& runs(r[3], Op::RemoveDirAll { path: temp })
            &&& r[4] matches Step::Done(Ok(true))
        }),
{
    assert(migration_step(s[1], s[2], Outcome::Completed, r[1]));
    assert(migration_step(s[2], s[3], Outcome::Completed, r[2]));
    assert(migration_step(s[3], s[4], Outcome::Completed, r[3]));
    assert(migration_step(s[4], s[5], Outcome::Completed, r[4]));
}

/// Reconciling a workspace that an earlier reconciliation completed is
/// harmless: while the layout reports say that the nested worktree is in
/// place, no step asks for anything destructive, no migration move is ever
/// entered, and no step whose action completed ends in an error.
pub proof fn lemma_reconcile_again_harmless(
    pre: EnsureWorkspace,
    post: EnsureWorkspace,
    outcome: Outcome,
    r: Step<Result<(), WorkspaceError>>,
)
    requires
        pre.wf(),
        !(pre.phase is Finished),
        pre.phase is Migrating ==> pre.migration->Some_0.phase is Inspecting && nested_in_place(outcome),
        ensure_step(pre, post, outcome, r),
    ensures
        !(r is Run && destructive(r->Run_0@)),
        post.phase is Migrating ==> post.migration->Some_0.phase is Inspecting,
        !(outcome is Failed) ==> !(r matches Step::Done(Err(_))),
{
    if pre.phase is Migrating {
        let inner = choose|inner: Step<Result<bool, WorkspaceError>>|
            post.migration is Some && migration_step(
                pre.migration->Some_0,
                post.migration->Some_0,
                outcome,
                inner,
            ) && #[trigger] post.follows_migration(inner, r);
        lemma_migration_idempotent(pre.migration->Some_0, post.migration->Some_0, outcome, inner);
    }
}

/// The first `j` steps of a reconciliation run in which every layout report
/// says that the nested worktree is in place.
proof fn lemma_reconcile_again_prefix(
    s: Seq<EnsureWorkspace>,
    o: Seq<Outcome>,
    r: Seq<Step<Result<(), WorkspaceError>>>,
    j: int,
)
    requires
        s.len() == r.len() + 1,
        o.len() == r.len(),
        0 <= j < r.len(),
        s[0].wf(),
        s[0].phase is Migrating ==> s[0].migration->Some_0.phase is Inspecting,
        forall|i: int| 0 <= i < r.len() && (#[trigger] s[i]).phase is Migrating ==> nested_in_place(o[i]),
        forall|i: int| 0 <= i < r.len() ==> ensure_step(s[i], s[i + 1], o[i], #[trigger] r[i]),
    ensures
        s[j].wf(),
        !(s[j].phase is Finished),
        s[j].phase is Migrating ==> s[j].migration->Some_0.phase is Inspecting,
    decreases j,
{
    assert(ensure_step(s[j], s[j + 1], o[j], r[j]));
    if j > 0 {
        lemma_reconcile_again_prefix(s, o, r, j - 1);
        assert(ensure_step(s[j - 1], s[j], o[j - 1], r[j - 1]));
        assert(s[j - 1].phase is Migrating ==> nested_in_place(o[j - 1]));
        lemma_reconcile_again_harmless(s[j - 1], s[j], o[j - 1], r[j - 1]);
    }
}

/// A second reconciliation, called with the arguments of one that
/// completed, is harmless and succeeds: in a run that starts where
/// `ensure_workspace_exists` starts, in which every layout report says that
/// the nested worktree is in place and every other action completes, no
/// step asks for anything destructive and the run ends in `Ok(())`.
pub proof fn lemma_reconcile_again_run(
    s: Seq<EnsureWorkspace>,
    o: Seq<Outcome>,
    r: Seq<Step<Result<(), WorkspaceError>>>,
)
    requires
        s.len() == r.len() + 1,
        o.len() == r.len(),
        s[0].wf(),
        s[0].phase is Migrating ==> s[0].migration->Some_0.phase is Inspecting,
        forall|i: int| 0 <= i < r.len() && (#[trigger] s[i]).phase is Migrating ==> nested_in_place(o[i]),
        forall|i: int| 0 <= i < o.len() ==> !(#[trigger] o[i] is Failed),
        forall|i: int| 0 <= i < r.len() ==> ensure_step(s[i], s[i + 1], o[i], #[trigger] r[i]),
    ensures
        forall|i: int| 0 <= i < r.len() ==> !(#[trigger] r[i] is Run && destructive(r[i]->Run_0@)),
        forall|i: int| 0 <= i < r.len() ==> !(#[trigger] r[i] matches Step::Done(Err(_))),
{
    assert forall|i: int| 0 <= i < r.len() implies !(#[trigger] r[i] is Run && destructive(r[i]->Run_0@))
        && !(r[i] matches Step::Done(Err(_))) by {
        lemma_reconcile_again_prefix(s, o, r, i);
        assert(ensure_step(s[i], s[i + 1], o[i], r[i]));
        assert(s[i].phase is Migrating ==> nested_in_place(o[i]));
        assert(!(o[i] is Failed));
        lemma_reconcile_again_harmless(s[i], s[i + 1], o[i], r[i]);
    }
}

} // verus!
