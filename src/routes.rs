use vstd::prelude::*;
use vstd::string::StrSliceExecFns;
use vstd::string::StringExecFns;

verus! {

/// Status of a workspace: its latest coding-agent run and its diff totals.
pub struct WorkspaceStatusResponse {
    pub workspace_id: String,
    /// "running", "completed", "failed", "killed", or "none".
    pub status: String,
    pub files_changed: Option<usize>,
    pub lines_added: Option<usize>,
    pub lines_removed: Option<usize>,
}

/// The prompt, summary and session of a workspace's latest agent turn.
pub struct WorkspaceTranscriptResponse {
    pub workspace_id: String,
    pub prompt: Option<String>,
    pub summary: Option<String>,
    pub agent_session_id: Option<String>,
}

/// The diff of one file.
pub struct FileDiff {
    pub path: String,
    pub additions: usize,
    pub deletions: usize,
    pub diff_content: String,
}

/// The diffs of all files of a workspace.
pub struct WorkspaceDiffResponse {
    pub workspace_id: String,
    pub files: Vec<FileDiff>,
}

/// A request to close a workspace with the strategy "merge" or "discard".
pub struct CloseWorkspaceRequest {
    pub strategy: String,
}

/// The outcome of closing a workspace.
pub struct CloseWorkspaceResponse {
    pub workspace_id: String,
    pub success: bool,
    pub message: String,
    pub merge_commit_sha: Option<String>,
}

/// The state of an execution process.
#[derive(PartialEq, Eq, Structural, Clone, Copy)]
pub enum ExecutionStatus {
    Running,
    Completed,
    Failed,
    Killed,
}

/// How a workspace is closed.
#[derive(PartialEq, Eq, Structural, Clone, Copy)]
pub enum CloseStrategy {
    /// Merge the workspace branch into each target branch, then discard.
    Merge,
    /// Discard the workspace's changes.
    Discard,
}

/// The label of the latest run's status, "none" where there was no run.
pub open spec fn status_label_spec(status: Option<ExecutionStatus>) -> Seq<char> {
    match status {
        Some(ExecutionStatus::Running) => "running"@,
        Some(ExecutionStatus::Completed) => "completed"@,
        Some(ExecutionStatus::Failed) => "failed"@,
        Some(ExecutionStatus::Killed) => "killed"@,
        None => "none"@,
    }
}

/// The label of the latest run's status, "none" where there was no run.
pub fn status_label(status: Option<ExecutionStatus>) -> (r: String)
    ensures
        r@ == status_label_spec(status),
{
    match status {
        Some(ExecutionStatus::Running) => String::from_str("running"),
        Some(ExecutionStatus::Completed) => String::from_str("completed"),
        Some(ExecutionStatus::Failed) => String::from_str("failed"),
        Some(ExecutionStatus::Killed) => String::from_str("killed"),
        None => String::from_str("none"),
    }
}

fn same_text(a: &str, b: &str) -> (r: bool)
    ensures
        r == (a@ == b@),
{
    let n = a.unicode_len();
    if n != b.unicode_len() {
        return false;
    }
    let mut i: usize = 0;
    while i < n
        invariant
            n == a@.len(),
            n == b@.len(),
            i <= n,
            a@.take(i as int) == b@.take(i as int),
        decreases n - i,
    {
        if a.get_char(i) != b.get_char(i) {
            return false;
        }
        assert(a@.take(i + 1) == a@.take(i as int).push(a@[i as int]));
        assert(b@.take(i + 1) == b@.take(i as int).push(b@[i as int]));
        i = i + 1;
    }
    assert(a@ == a@.take(n as int));
    assert(b@ == b@.take(n as int));
    true
}

/// The description of a strategy that is neither "merge" nor "discard".
pub open spec fn invalid_strategy(s: Seq<char>) -> Seq<char> {
    "Invalid strategy '"@ + s + "'. Must be 'merge' or 'discard'"@
}

impl CloseWorkspaceRequest {
    /// The strategy this request names; any other word is refused with a
    /// description that quotes it.
    pub fn close_strategy(&self) -> (r: Result<CloseStrategy, String>)
        ensures
            self.strategy@ == "merge"@ ==> r == Ok::<CloseStrategy, String>(CloseStrategy::Merge),
            self.strategy@ == "discard"@ ==> r == Ok::<CloseStrategy, String>(CloseStrategy::Discard),
            self.strategy@ != "merge"@ && self.strategy@ != "discard"@ ==> r is Err && r->Err_0@
                == invalid_strategy(self.strategy@),
    {
        proof {
            reveal_strlit("merge");
            reveal_strlit("discard");
            assert("merge"@.len() == 5);
            assert("discard"@.len() == 7);
        }
        if same_text(self.strategy.as_str(), "merge") {
            Ok(CloseStrategy::Merge)
        } else if same_text(self.strategy.as_str(), "discard") {
            Ok(CloseStrategy::Discard)
        } else {
            let mut m = String::from_str("Invalid strategy '");
            m.append(self.strategy.as_str());
            m.append("'. Must be 'merge' or 'discard'");
            Err(m)
        }
    }
}

/// The path a file diff is listed under: the new path, else the old one,
/// else "unknown".
pub fn diff_file_path(new_path: Option<String>, old_path: Option<String>) -> (r: String)
    ensures
        r@ == match (new_path, old_path) {
            (Some(p), _) => p@,
            (None, Some(p)) => p@,
            (None, None) => "unknown"@,
        },
{
    match new_path {
        Some(p) => p,
        None => match old_path {
            Some(p) => p,
            None => String::from_str("unknown"),
        },
    }
}

} // verus!
