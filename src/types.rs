use vstd::prelude::*;
use vstd::string::StrSliceExecFns;
use vstd::string::StringExecFns;

verus! {

/// `uuid::Uuid`, the identity of a repository. It is only carried from the
/// repository records into the results; nothing is read from it.
#[verifier::external_type_specification]
#[verifier::external_body]
pub struct ExUuid(uuid::Uuid);

/// A repository registered with the system: its identity, display name and
/// the path of its canonical clone.
pub struct Repo {
    pub id: uuid::Uuid,
    pub name: String,
    pub path: String,
}

impl Repo {
    /// A copy of this repository record.
    pub fn clone_repo(&self) -> (r: Self)
        ensures
            r == *self,
    {
        Repo { id: self.id, name: self.name.clone(), path: self.path.clone() }
    }
}

/// One repository's participation in a new workspace.
pub struct RepoWorkspaceInput {
    pub repo: Repo,
    pub target_branch: String,
    /// Optional git ref (commit, tag, branch) to start the worktree from
    /// instead of the tip of `target_branch`.
    pub start_from_ref: Option<String>,
}

impl RepoWorkspaceInput {
    /// The participation of `repo`, started from the tip of `target_branch`.
    pub fn new(repo: Repo, target_branch: String) -> (r: Self)
        ensures
            r.repo == repo,
            r.target_branch == target_branch,
            r.start_from_ref is None,
    {
        RepoWorkspaceInput { repo, target_branch, start_from_ref: None }
    }

    /// The participation of `repo`, started from `start_from_ref` when given.
    pub fn with_start_from_ref(repo: Repo, target_branch: String, start_from_ref: Option<String>) -> (r: Self)
        ensures
            r.repo == repo,
            r.target_branch == target_branch,
            r.start_from_ref == start_from_ref,
    {
        RepoWorkspaceInput { repo, target_branch, start_from_ref }
    }
}

/// Result of merging the workspace branch of one repository.
pub struct RepoMergeResult {
    pub repo_id: uuid::Uuid,
    pub repo_name: String,
    pub merge_commit_sha: String,
    pub target_branch: String,
}

/// A worktree created for one repository inside a workspace.
pub struct RepoWorktree {
    pub repo_id: uuid::Uuid,
    pub repo_name: String,
    pub source_repo_path: String,
    pub worktree_path: String,
}

/// A workspace directory holding one worktree per repository.
pub struct WorktreeContainer {
    pub workspace_dir: String,
    pub worktrees: Vec<RepoWorktree>,
}

/// The failures of workspace orchestration.
pub enum WorkspaceError {
    /// A failure reported by the worktree primitives, passed on as it came.
    Worktree(String),
    /// A filesystem failure.
    Io(String),
    /// The repository list was empty.
    NoRepositories,
    /// One repository failed during creation; the others were rolled back.
    PartialCreation(String),
    /// A merge stopped on conflicts in the named repository.
    MergeConflicts { repo_name: String, message: String },
    /// Any other version-control failure.
    Git(String),
}

/// The path `name` inside directory `dir`: `dir/name`, with no separator
/// added when `dir` is empty or already ends in one.
pub open spec fn join_spec(dir: Seq<char>, name: Seq<char>) -> Seq<char> {
    if dir.len() == 0 || dir.last() == '/' {
        dir + name
    } else {
        dir + seq!['/'] + name
    }
}

/// `dir` without its trailing separators.
pub open spec fn trim_separators(dir: Seq<char>) -> Seq<char>
    decreases dir.len(),
{
    if dir.len() > 0 && dir.last() == '/' {
        trim_separators(dir.drop_last())
    } else {
        dir
    }
}

/// The sibling of directory `dir` that a legacy worktree passes through while
/// it is moved into its nested place: `dir` without its trailing separators,
/// followed by `-migrating`.
pub open spec fn migrating_spec(dir: Seq<char>) -> Seq<char> {
    trim_separators(dir) + "-migrating"@
}

fn ends_with_separator(s: &str) -> (r: bool)
    ensures
        r == (s@.len() > 0 && s@.last() == '/'),
{
    let n = s.unicode_len();
    n > 0 && s.get_char(n - 1) == '/'
}

/// Joins `name` onto directory `dir`. `name` is taken as one relative path
/// component (a repository name or `.git`), never an absolute path.
pub fn join_path(dir: &str, name: &str) -> (r: String)
    ensures
        r@ == join_spec(dir@, name@),
{
    let mut r = String::from_str(dir);
    if dir.unicode_len() != 0 && !ends_with_separator(dir) {
        r.append("/");
    }
    r.append(name);
    proof {
        reveal_strlit("/");
    }
    r
}

/// The temporary sibling path used while migrating a legacy worktree.
pub fn migrating_path(dir: &str) -> (r: String)
    ensures
        r@ == migrating_spec(dir@),
{
    let mut n = dir.unicode_len();
    assert(dir@.take(n as int) =~= dir@);
    while n > 0 && dir.get_char(n - 1) == '/'
        invariant
            n <= dir@.len(),
            trim_separators(dir@) == trim_separators(dir@.take(n as int)),
        decreases n,
    {
        assert(dir@.take(n as int).drop_last() =~= dir@.take(n - 1));
        n = n - 1;
    }
    let mut r = String::from_str(dir.substring_char(0, n));
    r.append("-migrating");
    r
}

/// The orchestrator of workspaces, with the base directories that the
/// worktree service is configured with.
pub struct WorkspaceManager {
    /// The default root of workspace directories.
    pub default_base_dir: String,
    /// A root configured in place of the default, if any.
    pub configured_base_dir: Option<String>,
}

impl WorkspaceManager {
    pub fn new(default_base_dir: String, configured_base_dir: Option<String>) -> (r: Self)
        ensures
            r.default_base_dir == default_base_dir,
            r.configured_base_dir == configured_base_dir,
    {
        WorkspaceManager { default_base_dir, configured_base_dir }
    }

    /// The root of workspace directories: the configured one, else the default.
    pub open spec fn base_dir(&self) -> Seq<char> {
        match self.configured_base_dir {
            Some(d) => d@,
            None => self.default_base_dir@,
        }
    }

    /// The root of workspace directories: the configured one, else the default.
    pub fn get_workspace_base_dir(&self) -> (r: String)
        ensures
            r@ == self.base_dir(),
    {
        match &self.configured_base_dir {
            Some(d) => d.clone(),
            None => self.default_base_dir.clone(),
        }
    }
}

} // verus!
