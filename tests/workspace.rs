use std::collections::{BTreeMap, BTreeSet};

use uuid::Uuid;
use workspace_manager::{
    diff_file_path, join_path, message_of, migrating_path, status_label, Action, CloseStrategy,
    CloseWorkspaceRequest, ExecutionStatus, Outcome, Repo, RepoWorkspaceInput, Step,
    WorkspaceError, WorkspaceManager,
};

/// An in-memory stand-in for the filesystem, git and the registry.
#[derive(Default)]
struct World {
    dirs: BTreeSet<String>,
    git_files: BTreeSet<String>,
    registered: BTreeSet<String>,
    fail_paths: BTreeSet<String>,
    fail_branch_repos: BTreeSet<String>,
    conflict_repos: BTreeSet<String>,
    log: Vec<String>,
}

impl World {
    fn children(&self, dir: &str) -> Vec<String> {
        let prefix = format!("{}/", dir);
        self.dirs
            .iter()
            .filter(|d| d.starts_with(&prefix) && !d[prefix.len()..].contains('/'))
            .cloned()
            .collect()
    }

    fn remove_tree(&mut self, dir: &str) {
        let prefix = format!("{}/", dir);
        self.dirs.retain(|d| d != dir && !d.starts_with(&prefix));
        self.git_files.retain(|d| d != dir && !d.starts_with(&prefix));
    }

    fn move_tree(&mut self, from: &str, to: &str) {
        let prefix = format!("{}/", from);
        let moved: Vec<String> =
            self.dirs.iter().filter(|d| *d == from || d.starts_with(&prefix)).cloned().collect();
        let moved_git: Vec<String> =
            self.git_files.iter().filter(|d| *d == from || d.starts_with(&prefix)).cloned().collect();
        self.remove_tree(from);
        for d in moved {
            self.dirs.insert(format!("{}{}", to, &d[from.len()..]));
        }
        for d in moved_git {
            self.git_files.insert(format!("{}{}", to, &d[from.len()..]));
        }
    }

    fn perform(&mut self, a: &Action) -> Outcome {
        match a {
            Action::CreateDirAll { path } => {
                self.log.push(format!("mkdir {}", path));
                self.dirs.insert(path.clone());
                Outcome::Completed
            }
            Action::RemoveDir { path } => {
                self.log.push(format!("rmdir {}", path));
                if self.children(path).is_empty() {
                    self.dirs.remove(path);
                    Outcome::Completed
                } else {
                    Outcome::Failed("not empty".to_string())
                }
            }
            Action::RemoveDirAll { path } => {
                self.log.push(format!("rm -r {}", path));
                self.remove_tree(path);
                Outcome::Completed
            }
            Action::CreateWorktree { worktree_path, .. } => {
                self.log.push(format!("create {}", worktree_path));
                if self.fail_paths.contains(worktree_path) {
                    Outcome::Failed("boom".to_string())
                } else {
                    self.dirs.insert(worktree_path.clone());
                    self.git_files.insert(worktree_path.clone());
                    Outcome::Completed
                }
            }
            Action::EnsureWorktree { worktree_path, .. } => {
                self.log.push(format!("ensure {}", worktree_path));
                self.dirs.insert(worktree_path.clone());
                self.git_files.insert(worktree_path.clone());
                Outcome::Completed
            }
            Action::MoveWorktree { from, to, .. } => {
                self.log.push(format!("move {} {}", from, to));
                self.move_tree(from, to);
                Outcome::Completed
            }
            Action::CleanupWorktree { cleanup } => {
                self.log.push(format!("cleanup {}", cleanup.worktree_path));
                self.remove_tree(&cleanup.worktree_path);
                Outcome::Completed
            }
            Action::BatchCleanup { cleanups } => {
                for c in cleanups {
                    self.log.push(format!("cleanup {}", c.worktree_path));
                    self.remove_tree(&c.worktree_path);
                }
                Outcome::Completed
            }
            Action::CleanupSuspectedWorktree { path } => {
                self.log.push(format!("suspect {}", path));
                self.remove_tree(path);
                Outcome::Completed
            }
            Action::DeleteBranch { repo_path, branch } => {
                self.log.push(format!("delete-branch {} {}", repo_path, branch));
                if self.fail_branch_repos.contains(repo_path) {
                    Outcome::Failed("no such branch".to_string())
                } else {
                    Outcome::Completed
                }
            }
            Action::MergeIntoBranch { repo_path, target_branch, .. } => {
                self.log.push(format!("merge {} {}", repo_path, target_branch));
                if self.conflict_repos.contains(repo_path) {
                    Outcome::Conflicted("conflict in a.txt".to_string())
                } else {
                    Outcome::Merged(format!("sha-{}", repo_path))
                }
            }
            Action::InspectLayout { workspace_dir, git_marker, nested_path } => {
                self.log.push(format!("inspect {}", workspace_dir));
                Outcome::Layout {
                    dir_exists: self.dirs.contains(workspace_dir),
                    git_is_file: self.git_files.contains(workspace_dir)
                        && !self.dirs.contains(git_marker),
                    nested_exists: self.dirs.contains(nested_path),
                }
            }
            Action::ListSubdirectories { path } => {
                self.log.push(format!("list {}", path));
                if self.dirs.contains(path) {
                    Outcome::Listed(self.children(path))
                } else {
                    Outcome::Failed("missing".to_string())
                }
            }
            Action::IsRegistered { path } => {
                self.log.push(format!("registered? {}", path));
                Outcome::Registered(self.registered.contains(path))
            }
        }
    }

    fn destructive_count(&self) -> usize {
        self.log
            .iter()
            .filter(|l| {
                ["rmdir", "rm -r", "move", "cleanup", "suspect", "delete-branch"]
                    .iter()
                    .any(|p| l.starts_with(p))
            })
            .count()
    }
}

fn drive<R>(
    world: &mut World,
    mut step: Step<R>,
    mut resume: impl FnMut(Outcome) -> Step<R>,
) -> R {
    loop {
        match step {
            Step::Done(r) => return r,
            Step::Run(a) => {
                let o = world.perform(&a);
                step = resume(o);
            }
        }
    }
}

fn repo(n: u128, name: &str) -> Repo {
    Repo { id: Uuid::from_u128(n), name: name.to_string(), path: format!("/repos/{}", name) }
}

fn inputs(names: &[&str]) -> Vec<RepoWorkspaceInput> {
    names
        .iter()
        .enumerate()
        .map(|(i, n)| RepoWorkspaceInput::new(repo(i as u128 + 1, n), "main".to_string()))
        .collect()
}

#[test]
fn create_workspace_makes_one_worktree_per_repo() {
    let mut w = World::default();
    let (mut s, first) =
        WorkspaceManager::create_workspace("/ws/one".to_string(), inputs(&["a", "b", "c"]), "feat".to_string());
    let r = drive(&mut w, first, |o| s.resume(o));
    let c = match r {
        Ok(c) => c,
        Err(_) => panic!("creation failed"),
    };
    assert_eq!(c.workspace_dir, "/ws/one");
    assert_eq!(c.worktrees.len(), 3);
    let paths: Vec<&str> = c.worktrees.iter().map(|t| t.worktree_path.as_str()).collect();
    assert_eq!(paths, vec!["/ws/one/a", "/ws/one/b", "/ws/one/c"]);
    assert_eq!(c.worktrees[1].repo_id, Uuid::from_u128(2));
    assert_eq!(c.worktrees[2].source_repo_path, "/repos/c");
    assert!(w.dirs.contains("/ws/one/b"));
}

#[test]
fn create_workspace_passes_start_ref_and_branches() {
    let input = RepoWorkspaceInput::with_start_from_ref(
        repo(9, "x"),
        "develop".to_string(),
        Some("v1.2".to_string()),
    );
    let (mut s, first) =
        WorkspaceManager::create_workspace("/ws/r".to_string(), vec![input], "feat".to_string());
    assert!(matches!(first, Step::Run(Action::CreateDirAll { ref path }) if path == "/ws/r"));
    match s.resume(Outcome::Completed) {
        Step::Run(Action::CreateWorktree { repo_path, branch, worktree_path, base_branch, start_from_ref }) => {
            assert_eq!(repo_path, "/repos/x");
            assert_eq!(branch, "feat");
            assert_eq!(worktree_path, "/ws/r/x");
            assert_eq!(base_branch, "develop");
            assert_eq!(start_from_ref.as_deref(), Some("v1.2"));
        }
        _ => panic!("expected a worktree creation"),
    }
}

#[test]
fn create_workspace_rolls_back_on_failure() {
    let mut w = World::default();
    w.fail_paths.insert("/ws/two/c".to_string());
    let (mut s, first) =
        WorkspaceManager::create_workspace("/ws/two".to_string(), inputs(&["a", "b", "c", "d"]), "feat".to_string());
    let r = drive(&mut w, first, |o| s.resume(o));
    match r {
        Err(WorkspaceError::PartialCreation(m)) => {
            assert_eq!(m, "Failed to create worktree for repo 'c': boom")
        }
        _ => panic!("expected a partial creation failure"),
    }
    assert!(!w.dirs.contains("/ws/two/a"));
    assert!(!w.dirs.contains("/ws/two/b"));
    assert!(!w.dirs.contains("/ws/two"));
    assert!(!w.log.iter().any(|l| l == "create /ws/two/d"));
    let rollback: Vec<&String> = w.log.iter().filter(|l| l.starts_with("cleanup")).collect();
    assert_eq!(rollback, vec!["cleanup /ws/two/a", "cleanup /ws/two/b"]);
}

#[test]
fn create_workspace_keeps_non_empty_dir_after_rollback() {
    let mut w = World::default();
    w.dirs.insert("/ws/three".to_string());
    w.dirs.insert("/ws/three/notes".to_string());
    w.fail_paths.insert("/ws/three/a".to_string());
    let (mut s, first) =
        WorkspaceManager::create_workspace("/ws/three".to_string(), inputs(&["a"]), "feat".to_string());
    let r = drive(&mut w, first, |o| s.resume(o));
    assert!(matches!(r, Err(WorkspaceError::PartialCreation(_))));
    assert!(w.dirs.contains("/ws/three"));
    assert!(w.log.iter().any(|l| l == "rmdir /ws/three"));
}

#[test]
fn create_workspace_dir_failure_is_io() {
    let (mut s, _) =
        WorkspaceManager::create_workspace("/ws/io".to_string(), inputs(&["a"]), "feat".to_string());
    match s.resume(Outcome::Failed("denied".to_string())) {
        Step::Done(Err(WorkspaceError::Io(m))) => assert_eq!(m, "denied"),
        _ => panic!("expected an io error"),
    }
}

#[test]
fn create_workspace_without_repos_fails_first() {
    let (_s, first) =
        WorkspaceManager::create_workspace("/ws/none".to_string(), Vec::new(), "feat".to_string());
    assert!(matches!(first, Step::Done(Err(WorkspaceError::NoRepositories))));
}

#[test]
fn ensure_workspace_exists_is_idempotent() {
    let mut w = World::default();
    let repos = || vec![repo(1, "a"), repo(2, "b")];
    let (mut s, first) =
        WorkspaceManager::ensure_workspace_exists("/ws/e".to_string(), repos(), "feat".to_string());
    assert!(drive(&mut w, first, |o| s.resume(o)).is_ok());
    let state = w.dirs.clone();
    w.log.clear();
    let (mut s, first) =
        WorkspaceManager::ensure_workspace_exists("/ws/e".to_string(), repos(), "feat".to_string());
    assert!(drive(&mut w, first, |o| s.resume(o)).is_ok());
    assert_eq!(w.destructive_count(), 0);
    assert_eq!(w.dirs, state);
    assert_eq!(w.log, vec!["mkdir /ws/e", "ensure /ws/e/a", "ensure /ws/e/b"]);
}

#[test]
fn ensure_single_repo_twice_does_nothing_destructive() {
    let mut w = World::default();
    let (mut s, first) =
        WorkspaceManager::ensure_workspace_exists("/ws/s".to_string(), vec![repo(1, "a")], "feat".to_string());
    assert!(drive(&mut w, first, |o| s.resume(o)).is_ok());
    w.log.clear();
    let (mut s, first) =
        WorkspaceManager::ensure_workspace_exists("/ws/s".to_string(), vec![repo(1, "a")], "feat".to_string());
    assert!(drive(&mut w, first, |o| s.resume(o)).is_ok());
    assert_eq!(w.destructive_count(), 0);
}

#[test]
fn ensure_without_repos_fails() {
    let (_s, first) =
        WorkspaceManager::ensure_workspace_exists("/ws/n".to_string(), Vec::new(), "feat".to_string());
    assert!(matches!(first, Step::Done(Err(WorkspaceError::NoRepositories))));
}

#[test]
fn ensure_worktree_failure_is_passed_on() {
    let (mut s, _) = WorkspaceManager::ensure_workspace_exists(
        "/ws/f".to_string(),
        vec![repo(1, "a"), repo(2, "b")],
        "feat".to_string(),
    );
    assert!(matches!(s.resume(Outcome::Completed), Step::Run(Action::EnsureWorktree { .. })));
    match s.resume(Outcome::Failed("locked".to_string())) {
        Step::Done(Err(WorkspaceError::Worktree(m))) => assert_eq!(m, "locked"),
        _ => panic!("expected a worktree error"),
    }
}

#[test]
fn legacy_worktree_is_migrated_once() {
    let mut w = World::default();
    w.dirs.insert("/ws/old".to_string());
    w.git_files.insert("/ws/old".to_string());
    w.dirs.insert("/ws/old/src".to_string());
    let (mut s, first) = WorkspaceManager::migrate_legacy_worktree("/ws/old".to_string(), repo(1, "a"));
    assert!(matches!(drive(&mut w, first, |o| s.resume(o)), Ok(true)));
    assert!(w.dirs.contains("/ws/old/a"));
    assert!(w.dirs.contains("/ws/old/a/src"));
    assert!(w.git_files.contains("/ws/old/a"));
    assert!(!w.git_files.contains("/ws/old"));
    assert!(!w.dirs.contains("/ws/old-migrating"));
    let (mut s, first) = WorkspaceManager::migrate_legacy_worktree("/ws/old".to_string(), repo(1, "a"));
    assert!(matches!(drive(&mut w, first, |o| s.resume(o)), Ok(false)));
}

#[test]
fn ensure_single_repo_migrates_legacy_layout() {
    let mut w = World::default();
    w.dirs.insert("/ws/leg".to_string());
    w.git_files.insert("/ws/leg".to_string());
    let (mut s, first) =
        WorkspaceManager::ensure_workspace_exists("/ws/leg".to_string(), vec![repo(1, "a")], "feat".to_string());
    assert!(drive(&mut w, first, |o| s.resume(o)).is_ok());
    assert!(w.git_files.contains("/ws/leg/a"));
    assert!(!w.log.iter().any(|l| l.starts_with("ensure")));
}

#[test]
fn migration_move_failure_is_passed_on() {
    let (mut s, _) = WorkspaceManager::migrate_legacy_worktree("/ws/m".to_string(), repo(1, "a"));
    let layout = Outcome::Layout { dir_exists: true, git_is_file: true, nested_exists: false };
    match s.resume(layout) {
        Step::Run(Action::MoveWorktree { from, to, .. }) => {
            assert_eq!(from, "/ws/m");
            assert_eq!(to, "/ws/m-migrating");
        }
        _ => panic!("expected a move"),
    }
    match s.resume(Outcome::Failed("busy".to_string())) {
        Step::Done(Err(WorkspaceError::Worktree(m))) => assert_eq!(m, "busy"),
        _ => panic!("expected a worktree error"),
    }
}

#[test]
fn merge_stops_at_conflict() {
    let mut w = World::default();
    w.conflict_repos.insert("/repos/b".to_string());
    let pairs = vec![
        (repo(1, "a"), "main".to_string()),
        (repo(2, "b"), "main".to_string()),
        (repo(3, "c"), "dev".to_string()),
    ];
    let (mut s, first) =
        WorkspaceManager::close_workspace_merge(pairs, "feat".to_string(), "msg".to_string());
    let r = drive(&mut w, first, |o| s.resume(o));
    match r {
        Err(WorkspaceError::MergeConflicts { repo_name, message }) => {
            assert_eq!(repo_name, "b");
            assert_eq!(message, "conflict in a.txt");
        }
        _ => panic!("expected merge conflicts"),
    }
    assert_eq!(s.results.len(), 1);
    assert_eq!(s.results[0].repo_name, "a");
    assert_eq!(s.results[0].merge_commit_sha, "sha-/repos/a");
    assert!(!w.log.iter().any(|l| l.starts_with("merge /repos/c")));
}

#[test]
fn merge_records_every_repo() {
    let mut w = World::default();
    let pairs = vec![(repo(1, "a"), "main".to_string()), (repo(2, "b"), "dev".to_string())];
    let (mut s, first) =
        WorkspaceManager::close_workspace_merge(pairs, "feat".to_string(), "msg".to_string());
    let r = match drive(&mut w, first, |o| s.resume(o)) {
        Ok(r) => r,
        Err(_) => panic!("merge failed"),
    };
    assert_eq!(r.len(), 2);
    assert_eq!(r[1].repo_id, Uuid::from_u128(2));
    assert_eq!(r[1].target_branch, "dev");
    assert_eq!(r[1].merge_commit_sha, "sha-/repos/b");
}

#[test]
fn merge_other_failure_is_git_error() {
    let pairs = vec![(repo(1, "a"), "main".to_string())];
    let (mut s, _) = WorkspaceManager::close_workspace_merge(pairs, "feat".to_string(), "msg".to_string());
    match s.resume(Outcome::Failed("detached".to_string())) {
        Step::Done(Err(WorkspaceError::Git(m))) => assert_eq!(m, "Merge failed in repo 'a': detached"),
        _ => panic!("expected a git error"),
    }
}

#[test]
fn merge_of_no_repos_is_empty() {
    let (_s, first) = WorkspaceManager::close_workspace_merge(Vec::new(), "f".to_string(), "m".to_string());
    assert!(matches!(first, Step::Done(Ok(ref v)) if v.is_empty()));
}

#[test]
fn discard_deletes_every_branch_despite_failures() {
    let mut w = World::default();
    w.dirs.insert("/ws/d".to_string());
    w.dirs.insert("/ws/d/a".to_string());
    w.dirs.insert("/ws/d/b".to_string());
    w.fail_branch_repos.insert("/repos/a".to_string());
    let (mut s, first) = WorkspaceManager::close_workspace_discard(
        "/ws/d".to_string(),
        vec![repo(1, "a"), repo(2, "b"), repo(3, "c")],
        "feat".to_string(),
    );
    assert!(drive(&mut w, first, |o| s.resume(o)).is_ok());
    assert!(!w.dirs.contains("/ws/d"));
    let deletions: Vec<&String> = w.log.iter().filter(|l| l.starts_with("delete-branch")).collect();
    assert_eq!(
        deletions,
        vec!["delete-branch /repos/a feat", "delete-branch /repos/b feat", "delete-branch /repos/c feat"]
    );
}

#[test]
fn cleanup_workspace_removes_worktrees_and_dir() {
    let mut w = World::default();
    w.dirs.insert("/ws/c".to_string());
    w.dirs.insert("/ws/c/a".to_string());
    let (mut s, first) = WorkspaceManager::cleanup_workspace("/ws/c".to_string(), vec![repo(1, "a")]);
    assert!(drive(&mut w, first, |o| s.resume(o)).is_ok());
    assert!(w.dirs.is_empty());
    assert!(!w.log.iter().any(|l| l.starts_with("delete-branch")));
}

#[test]
fn cleanup_batch_failure_is_passed_on() {
    let (mut s, _) = WorkspaceManager::cleanup_workspace("/ws/c".to_string(), vec![repo(1, "a")]);
    match s.resume(Outcome::Failed("stuck".to_string())) {
        Step::Run(Action::RemoveDirAll { path }) => assert_eq!(path, "/ws/c"),
        _ => panic!("expected the directory removal"),
    }
    match s.resume(Outcome::Completed) {
        Step::Done(Err(WorkspaceError::Worktree(m))) => assert_eq!(m, "stuck"),
        _ => panic!("expected a worktree error"),
    }
}

#[test]
fn discard_goes_on_after_failed_batch() {
    let (mut s, _) = WorkspaceManager::close_workspace_discard(
        "/ws/d".to_string(),
        vec![repo(1, "a"), repo(2, "b")],
        "feat".to_string(),
    );
    assert!(matches!(s.resume(Outcome::Failed("stuck".to_string())), Step::Run(Action::RemoveDirAll { .. })));
    match s.resume(Outcome::Failed("busy".to_string())) {
        Step::Run(Action::DeleteBranch { repo_path, branch }) => {
            assert_eq!(repo_path, "/repos/a");
            assert_eq!(branch, "feat");
        }
        _ => panic!("expected a branch deletion"),
    }
    match s.resume(Outcome::Failed("no such branch".to_string())) {
        Step::Run(Action::DeleteBranch { repo_path, .. }) => assert_eq!(repo_path, "/repos/b"),
        _ => panic!("expected a branch deletion"),
    }
    match s.resume(Outcome::Completed) {
        Step::Done(Err(WorkspaceError::Worktree(m))) => assert_eq!(m, "stuck"),
        _ => panic!("expected the batch failure"),
    }
}

#[test]
fn orphan_sweep_removes_only_unregistered() {
    let mut w = World::default();
    for d in ["/base", "/base/w1", "/base/w1/a", "/base/w2", "/base/w2/a", "/base/w2/b"] {
        w.dirs.insert(d.to_string());
    }
    w.registered.insert("/base/w1".to_string());
    let m = WorkspaceManager::new("/base".to_string(), None);
    let (mut s, first) = m.cleanup_orphan_workspaces(false);
    drive(&mut w, first, |o| s.resume(o));
    assert!(w.dirs.contains("/base/w1"));
    assert!(w.dirs.contains("/base/w1/a"));
    assert!(!w.dirs.contains("/base/w2"));
    assert!(w.log.iter().any(|l| l == "suspect /base/w2/a"));
    assert!(w.log.iter().any(|l| l == "suspect /base/w2/b"));
    assert!(!w.log.iter().any(|l| l.contains("/base/w1") && !l.starts_with("registered?")));
}

#[test]
fn orphan_sweep_disabled_touches_nothing() {
    let mut w = World::default();
    for d in ["/base", "/base/w1", "/base/w2"] {
        w.dirs.insert(d.to_string());
    }
    w.registered.insert("/base/w1".to_string());
    let m = WorkspaceManager::new("/base".to_string(), None);
    let (_s, first) = m.cleanup_orphan_workspaces(true);
    assert!(matches!(first, Step::Done(())));
    assert_eq!(w.dirs.len(), 3);
}

#[test]
fn orphan_sweep_covers_configured_dir_and_skips_missing() {
    let mut w = World::default();
    for d in ["/custom", "/custom/w9"] {
        w.dirs.insert(d.to_string());
    }
    let m = WorkspaceManager::new("/default".to_string(), Some("/custom".to_string()));
    let (mut s, first) = m.cleanup_orphan_workspaces(false);
    drive(&mut w, first, |o| s.resume(o));
    assert_eq!(w.log[0], "list /default");
    assert!(!w.dirs.contains("/custom/w9"));
    assert!(w.dirs.contains("/custom"));
}

#[test]
fn orphan_sweep_same_dirs_listed_once() {
    let mut w = World::default();
    let m = WorkspaceManager::new("/b".to_string(), Some("/b".to_string()));
    let (mut s, first) = m.cleanup_orphan_workspaces(false);
    drive(&mut w, first, |o| s.resume(o));
    assert_eq!(w.log, vec!["list /b"]);
}

#[test]
fn unlistable_orphan_is_removed_directly() {
    let m = WorkspaceManager::new("/b".to_string(), None);
    let (mut s, _) = m.cleanup_orphan_workspaces(false);
    assert!(matches!(s.resume(Outcome::Listed(vec!["/b/x".to_string()])), Step::Run(Action::IsRegistered { .. })));
    assert!(matches!(s.resume(Outcome::Registered(false)), Step::Run(Action::ListSubdirectories { .. })));
    match s.resume(Outcome::Failed("denied".to_string())) {
        Step::Run(Action::RemoveDirAll { path }) => assert_eq!(path, "/b/x"),
        _ => panic!("expected a direct removal"),
    }
    assert!(matches!(s.resume(Outcome::Completed), Step::Done(())));
    assert!(s.failures.is_empty());
}

#[test]
fn failed_direct_removal_is_recorded() {
    let m = WorkspaceManager::new("/b".to_string(), None);
    let (mut s, _) = m.cleanup_orphan_workspaces(false);
    s.resume(Outcome::Listed(vec!["/b/x".to_string(), "/b/y".to_string()]));
    s.resume(Outcome::Registered(false));
    s.resume(Outcome::Failed("denied".to_string()));
    match s.resume(Outcome::Failed("busy".to_string())) {
        Step::Run(Action::IsRegistered { path }) => assert_eq!(path, "/b/y"),
        _ => panic!("expected the next lookup"),
    }
    assert_eq!(s.failures.len(), 1);
    assert!(matches!(&s.failures[0], WorkspaceError::Io(m) if m == "busy"));
}

#[test]
fn failed_removal_after_listing_is_not_recorded() {
    let m = WorkspaceManager::new("/b".to_string(), None);
    let (mut s, _) = m.cleanup_orphan_workspaces(false);
    s.resume(Outcome::Listed(vec!["/b/x".to_string()]));
    s.resume(Outcome::Registered(false));
    assert!(matches!(s.resume(Outcome::Listed(Vec::new())), Step::Run(Action::RemoveDirAll { .. })));
    assert!(matches!(s.resume(Outcome::Failed("busy".to_string())), Step::Done(())));
    assert!(s.failures.is_empty());
}

#[test]
fn registry_error_leaves_dir_alone() {
    let m = WorkspaceManager::new("/b".to_string(), None);
    let (mut s, _) = m.cleanup_orphan_workspaces(false);
    s.resume(Outcome::Listed(vec!["/b/x".to_string()]));
    assert!(matches!(s.resume(Outcome::Failed("db down".to_string())), Step::Done(())));
}

#[test]
fn base_dir_prefers_configured() {
    assert_eq!(WorkspaceManager::new("/d".to_string(), None).get_workspace_base_dir(), "/d");
    assert_eq!(
        WorkspaceManager::new("/d".to_string(), Some("/c".to_string())).get_workspace_base_dir(),
        "/c"
    );
}

#[test]
fn paths_join_and_migrate() {
    assert_eq!(join_path("/ws", "a"), "/ws/a");
    assert_eq!(join_path("/ws/", "a"), "/ws/a");
    assert_eq!(join_path("", "a"), "a");
    assert_eq!(migrating_path("/ws/x"), "/ws/x-migrating");
    assert_eq!(migrating_path("/ws/x/"), "/ws/x-migrating");
    assert_eq!(migrating_path("/ws/x//"), "/ws/x-migrating");
}

#[test]
fn messages_of_outcomes() {
    assert_eq!(message_of(Outcome::Failed("f".to_string())), "f");
    assert_eq!(message_of(Outcome::Conflicted("c".to_string())), "c");
    assert_eq!(message_of(Outcome::Completed), "");
}

#[test]
fn status_labels() {
    assert_eq!(status_label(Some(ExecutionStatus::Running)), "running");
    assert_eq!(status_label(Some(ExecutionStatus::Killed)), "killed");
    assert_eq!(status_label(None), "none");
}

#[test]
fn close_strategies() {
    let req = |s: &str| CloseWorkspaceRequest { strategy: s.to_string() };
    assert!(matches!(req("merge").close_strategy(), Ok(CloseStrategy::Merge)));
    assert!(matches!(req("discard").close_strategy(), Ok(CloseStrategy::Discard)));
    match req("squash").close_strategy() {
        Err(m) => assert_eq!(m, "Invalid strategy 'squash'. Must be 'merge' or 'discard'"),
        Ok(_) => panic!("expected a refusal"),
    }
}

#[test]
fn diff_paths() {
    assert_eq!(diff_file_path(Some("n".to_string()), Some("o".to_string())), "n");
    assert_eq!(diff_file_path(None, Some("o".to_string())), "o");
    assert_eq!(diff_file_path(None, None), "unknown");
}

#[test]
fn ensure_single_repo_starts_by_inspecting_layout() {
    let (mut s, first) =
        WorkspaceManager::ensure_workspace_exists("/ws/i".to_string(), vec![repo(1, "a")], "feat".to_string());
    match first {
        Step::Run(Action::InspectLayout { workspace_dir, git_marker, nested_path }) => {
            assert_eq!(workspace_dir, "/ws/i");
            assert_eq!(git_marker, "/ws/i/.git");
            assert_eq!(nested_path, "/ws/i/a");
        }
        _ => panic!("expected a layout inspection"),
    }
    let layout = Outcome::Layout { dir_exists: true, git_is_file: false, nested_exists: true };
    assert!(matches!(s.resume(layout), Step::Run(Action::CreateDirAll { ref path }) if path == "/ws/i"));
    assert!(matches!(s.resume(Outcome::Completed), Step::Run(Action::EnsureWorktree { ref worktree_path, .. }) if worktree_path == "/ws/i/a"));
    assert!(matches!(s.resume(Outcome::Completed), Step::Done(Ok(()))));
}
