//! How the server answers the `git.*` API methods: which workspace and repository a request
//! targets, which background job or popup command it becomes, and how a job's outcome turns
//! into a result or an API error.
use vstd::prelude::*;

use crate::actions::GitFileActionKind;
use crate::command::strings;
use crate::diff::FileDiff;
use crate::lists::GitListEntry;
use crate::picker::views;
use crate::schema::{
    git_file_diff_from, git_picker_entries_from, GitBranchNameParams, GitCommitParams,
    GitDiffGetParams, GitFileDiff, GitFileTargetParams, GitPickerEntry, GitPickerKind,
    GitPickerListParams, GitRepoCommandParams, GitStashApplyParams,
};

verus! {

/// An API error: a machine-readable code and a message for people.
#[derive(Debug, Clone, PartialEq, Eq)]
pub struct GitApiFailure {
    pub code: String,
    pub message: String,
}

impl GitApiFailure {
    pub fn new(code: &str, message: String) -> (r: Self)
        ensures
            r.code@ == code@,
            r.message == message,
    {
        GitApiFailure { code: String::from_str(code), message }
    }
}

pub open spec fn failure_is(f: GitApiFailure, code: Seq<char>, message: Seq<char>) -> bool {
    f.code@ == code && f.message@ == message
}

/// What a `git.*` request reads of a workspace: its id, and its repository root when it is
/// inside one.
#[derive(Debug, Clone)]
pub struct ApiWorkspace {
    pub id: String,
    pub repo_root: Option<String>,
}

pub open spec fn has_workspace(ws: Seq<ApiWorkspace>, id: Seq<char>) -> bool {
    exists|i: int| 0 <= i < ws.len() && #[trigger] ws[i].id@ == id
}

/// Resolves a request's `workspace_id` into its index and repository root: every `git.*`
/// handler needs exactly this. The first workspace with that id is taken; an unknown id gives
/// `workspace_not_found`, a workspace outside any repository `not_a_git_repository`.
pub fn resolve_git_workspace(workspaces: &[ApiWorkspace], workspace_id: &String) -> (r: Result<(usize, String), GitApiFailure>)
    ensures
        !has_workspace(workspaces@, workspace_id@) ==> (r matches Err(f) && failure_is(f, "workspace_not_found"@,
            "workspace "@ + workspace_id@ + " not found"@)),
        has_workspace(workspaces@, workspace_id@) ==> exists|i: int| {
            &&& 0 <= i < workspaces@.len()
            &&& #[trigger] workspaces@[i].id@ == workspace_id@
            &&& forall|j: int| 0 <= j < i ==> workspaces@[j].id@ != workspace_id@
            &&& match workspaces@[i].repo_root {
                Some(root) => r matches Ok((idx, rr)) && idx == i && rr@ == root@,
                None => r matches Err(f) && failure_is(f, "not_a_git_repository"@, "workspace is not inside a git repository"@),
            }
        },
{
    let mut i: usize = 0;
    while i < workspaces.len()
        invariant
            i <= workspaces@.len(),
            forall|j: int| 0 <= j < i ==> workspaces@[j].id@ != workspace_id@,
        decreases workspaces@.len() - i,
    {
        if workspaces[i].id == *workspace_id {
            let r = match &workspaces[i].repo_root {
                Some(root) => Ok((i, root.clone())),
                None => Err(GitApiFailure::new(
                    "not_a_git_repository",
                    String::from_str("workspace is not inside a git repository"),
                )),
            };
            assert(workspaces@[i as int].id@ == workspace_id@);
            return r;
        }
        i = i + 1;
    }
    let mut message = String::from_str("workspace ");
    message.append(workspace_id.as_str());
    message.append(" not found");
    Err(GitApiFailure::new("workspace_not_found", message))
}

/// The `git.*` API methods and their parameters.
#[derive(Debug, Clone)]
pub enum GitApiMethod {
    GitRepoFetch(GitRepoCommandParams),
    GitRepoPull(GitRepoCommandParams),
    GitRepoPush(GitRepoCommandParams),
    GitRepoLog(GitRepoCommandParams),
    GitStashPush(GitRepoCommandParams),
    GitStashPop(GitStashApplyParams),
    GitBranchCreate(GitBranchNameParams),
    GitBranchSwitch(GitBranchNameParams),
    GitBranchDelete(GitBranchNameParams),
    GitFileStage(GitFileTargetParams),
    GitFileUnstage(GitFileTargetParams),
    GitFileDiscard(GitFileTargetParams),
    GitCommit(GitCommitParams),
    GitDiffGet(GitDiffGetParams),
    GitPickerList(GitPickerListParams),
}

/// What answering a request takes.
#[derive(Debug, Clone)]
pub enum GitApiJob {
    /// Run this argv in a popup pane rooted at the repository, and answer at once. The argv is
    /// always built from server-known strings (a fixed subcommand, or a branch or stash name
    /// passed as one argument), never a shell command line.
    Popup(Vec<String>),
    /// Stage, unstage or discard a file in the background and answer when it finishes.
    FileMutation { path: String, action: GitFileActionKind },
    /// Commit with this message in the background and answer when it finishes.
    Commit { message: String },
    /// Compute a file's diff in the background and answer with it.
    DiffGet { path: String, staged: bool, untracked: bool },
    /// List stashes or branches in the background and answer with them.
    PickerList { kind: GitPickerKind },
}

pub open spec fn method_workspace(m: GitApiMethod) -> Seq<char> {
    match m {
        GitApiMethod::GitRepoFetch(p) => p.workspace_id@,
        GitApiMethod::GitRepoPull(p) => p.workspace_id@,
        GitApiMethod::GitRepoPush(p) => p.workspace_id@,
        GitApiMethod::GitRepoLog(p) => p.workspace_id@,
        GitApiMethod::GitStashPush(p) => p.workspace_id@,
        GitApiMethod::GitStashPop(p) => p.workspace_id@,
        GitApiMethod::GitBranchCreate(p) => p.workspace_id@,
        GitApiMethod::GitBranchSwitch(p) => p.workspace_id@,
        GitApiMethod::GitBranchDelete(p) => p.workspace_id@,
        GitApiMethod::GitFileStage(p) => p.workspace_id@,
        GitApiMethod::GitFileUnstage(p) => p.workspace_id@,
        GitApiMethod::GitFileDiscard(p) => p.workspace_id@,
        GitApiMethod::GitCommit(p) => p.workspace_id@,
        GitApiMethod::GitDiffGet(p) => p.workspace_id@,
        GitApiMethod::GitPickerList(p) => p.workspace_id@,
    }
}

/// The job a request becomes (argv in full for popups).
pub open spec fn job_matches(m: GitApiMethod, j: GitApiJob) -> bool {
    match m {
        GitApiMethod::GitRepoFetch(_) => j matches GitApiJob::Popup(a) && views(a@) == seq!["git"@, "fetch"@, "--all"@, "--prune"@],
        GitApiMethod::GitRepoPull(_) => j matches GitApiJob::Popup(a) && views(a@) == seq!["git"@, "pull"@],
        GitApiMethod::GitRepoPush(_) => j matches GitApiJob::Popup(a) && views(a@) == seq!["git"@, "push"@],
        GitApiMethod::GitRepoLog(_) => j matches GitApiJob::Popup(a) && views(a@) == seq![
            "git"@, "log"@, "--oneline"@, "--graph"@, "--decorate"@, "-n"@, "200"@,
        ],
        GitApiMethod::GitStashPush(_) => j matches GitApiJob::Popup(a) && views(a@) == seq!["git"@, "stash"@, "push"@],
        GitApiMethod::GitStashPop(p) => j matches GitApiJob::Popup(a) && views(a@) == seq!["git"@, "stash"@, "pop"@, p.stash_ref@],
        GitApiMethod::GitBranchCreate(p) => j matches GitApiJob::Popup(a) && views(a@) == seq!["git"@, "switch"@, "-c"@, p.name@],
        GitApiMethod::GitBranchSwitch(p) => j matches GitApiJob::Popup(a) && views(a@) == seq!["git"@, "switch"@, p.name@],
        GitApiMethod::GitBranchDelete(p) => j matches GitApiJob::Popup(a) && views(a@) == seq!["git"@, "branch"@, "-d"@, p.name@],
        GitApiMethod::GitFileStage(p) => j matches GitApiJob::FileMutation { path, action } && path@ == p.path@ && action == GitFileActionKind::Stage,
        GitApiMethod::GitFileUnstage(p) => j matches GitApiJob::FileMutation { path, action } && path@ == p.path@ && action == GitFileActionKind::Unstage,
        GitApiMethod::GitFileDiscard(p) => j matches GitApiJob::FileMutation { path, action } && path@ == p.path@ && action == GitFileActionKind::Discard,
        GitApiMethod::GitCommit(p) => j matches GitApiJob::Commit { message } && message@ == p.message@,
        GitApiMethod::GitDiffGet(p) => j matches GitApiJob::DiffGet { path, staged, untracked } && path@ == p.path@ && staged == p.staged && untracked == p.untracked,
        GitApiMethod::GitPickerList(p) => j matches GitApiJob::PickerList { kind } && kind == p.kind,
    }
}

/// Plans a `git.*` request: the repository it targets (see `resolve_git_workspace`) and the
/// job that answers it, or the error that answers it at once.
pub fn plan_git_api_request(method: &GitApiMethod, workspaces: &[ApiWorkspace]) -> (r: Result<(String, GitApiJob), GitApiFailure>)
    ensures
        !has_workspace(workspaces@, method_workspace(*method)) ==> (r matches Err(f) && failure_is(f, "workspace_not_found"@,
            "workspace "@ + method_workspace(*method) + " not found"@)),
        has_workspace(workspaces@, method_workspace(*method)) ==> exists|i: int| {
            &&& 0 <= i < workspaces@.len()
            &&& #[trigger] workspaces@[i].id@ == method_workspace(*method)
            &&& forall|j: int| 0 <= j < i ==> workspaces@[j].id@ != method_workspace(*method)
            &&& match workspaces@[i].repo_root {
                Some(root) => r matches Ok((rr, job)) && rr@ == root@ && job_matches(*method, job),
                None => r matches Err(f) && failure_is(f, "not_a_git_repository"@, "workspace is not inside a git repository"@),
            }
        },
{
    let workspace_id = match method {
        GitApiMethod::GitRepoFetch(p) => &p.workspace_id,
        GitApiMethod::GitRepoPull(p) => &p.workspace_id,
        GitApiMethod::GitRepoPush(p) => &p.workspace_id,
        GitApiMethod::GitRepoLog(p) => &p.workspace_id,
        GitApiMethod::GitStashPush(p) => &p.workspace_id,
        GitApiMethod::GitStashPop(p) => &p.workspace_id,
        GitApiMethod::GitBranchCreate(p) => &p.workspace_id,
        GitApiMethod::GitBranchSwitch(p) => &p.workspace_id,
        GitApiMethod::GitBranchDelete(p) => &p.workspace_id,
        GitApiMethod::GitFileStage(p) => &p.workspace_id,
        GitApiMethod::GitFileUnstage(p) => &p.workspace_id,
        GitApiMethod::GitFileDiscard(p) => &p.workspace_id,
        GitApiMethod::GitCommit(p) => &p.workspace_id,
        GitApiMethod::GitDiffGet(p) => &p.workspace_id,
        GitApiMethod::GitPickerList(p) => &p.workspace_id,
    };
    let root = match resolve_git_workspace(workspaces, workspace_id) {
        Err(f) => return Err(f),
        Ok((_, root)) => root,
    };
    proof {
        reveal_strlit("git");
        reveal_strlit("fetch");
        reveal_strlit("--all");
        reveal_strlit("--prune");
        reveal_strlit("pull");
        reveal_strlit("push");
        reveal_strlit("log");
        reveal_strlit("--oneline");
        reveal_strlit("--graph");
        reveal_strlit("--decorate");
        reveal_strlit("-n");
        reveal_strlit("200");
        reveal_strlit("stash");
        reveal_strlit("pop");
        reveal_strlit("switch");
        reveal_strlit("-c");
        reveal_strlit("branch");
        reveal_strlit("-d");
    }
    let job = match method {
        GitApiMethod::GitRepoFetch(_) => {
            let a = strings(&["git", "fetch", "--all", "--prune"]);
            assert(views(a@) =~= seq!["git"@, "fetch"@, "--all"@, "--prune"@]);
            GitApiJob::Popup(a)
        },
        GitApiMethod::GitRepoPull(_) => {
            let a = strings(&["git", "pull"]);
            assert(views(a@) =~= seq!["git"@, "pull"@]);
            GitApiJob::Popup(a)
        },
        GitApiMethod::GitRepoPush(_) => {
            let a = strings(&["git", "push"]);
            assert(views(a@) =~= seq!["git"@, "push"@]);
            GitApiJob::Popup(a)
        },
        GitApiMethod::GitRepoLog(_) => {
            let a = strings(&["git", "log", "--oneline", "--graph", "--decorate", "-n", "200"]);
            assert(views(a@) =~= seq!["git"@, "log"@, "--oneline"@, "--graph"@, "--decorate"@, "-n"@, "200"@]);
            GitApiJob::Popup(a)
        },
        GitApiMethod::GitStashPush(_) => {
            let a = strings(&["git", "stash", "push"]);
            assert(views(a@) =~= seq!["git"@, "stash"@, "push"@]);
            GitApiJob::Popup(a)
        },
        GitApiMethod::GitStashPop(p) => {
            let mut a = strings(&["git", "stash", "pop"]);
            a.push(p.stash_ref.clone());
            assert(views(a@) =~= seq!["git"@, "stash"@, "pop"@, p.stash_ref@]);
            GitApiJob::Popup(a)
        },
        GitApiMethod::GitBranchCreate(p) => {
            let mut a = strings(&["git", "switch", "-c"]);
            a.push(p.name.clone());
            assert(views(a@) =~= seq!["git"@, "switch"@, "-c"@, p.name@]);
            GitApiJob::Popup(a)
        },
        GitApiMethod::GitBranchSwitch(p) => {
            let mut a = strings(&["git", "switch"]);
            a.push(p.name.clone());
            assert(views(a@) =~= seq!["git"@, "switch"@, p.name@]);
            GitApiJob::Popup(a)
        },
        GitApiMethod::GitBranchDelete(p) => {
            let mut a = strings(&["git", "branch", "-d"]);
            a.push(p.name.clone());
            assert(views(a@) =~= seq!["git"@, "branch"@, "-d"@, p.name@]);
            GitApiJob::Popup(a)
        },
        GitApiMethod::GitFileStage(p) => GitApiJob::FileMutation { path: p.path.clone(), action: GitFileActionKind::Stage },
        GitApiMethod::GitFileUnstage(p) => GitApiJob::FileMutation { path: p.path.clone(), action: GitFileActionKind::Unstage },
        GitApiMethod::GitFileDiscard(p) => GitApiJob::FileMutation { path: p.path.clone(), action: GitFileActionKind::Discard },
        GitApiMethod::GitCommit(p) => GitApiJob::Commit { message: p.message.clone() },
        GitApiMethod::GitDiffGet(p) => GitApiJob::DiffGet { path: p.path.clone(), staged: p.staged, untracked: p.untracked },
        GitApiMethod::GitPickerList(p) => GitApiJob::PickerList { kind: p.kind },
    };
    assert(job_matches(*method, job));
    Ok((root, job))
}

/// The answer to `git.diff.get` once the diff was computed: the diff in its wire form, or
/// `git_diff_failed` when git could not produce one.
pub fn git_diff_get_result(diff: Option<FileDiff>) -> (r: Result<GitFileDiff, GitApiFailure>)
    ensures
        match diff {
            Some(d) => r matches Ok(w) && w@ == d@,
            None => r matches Err(f) && failure_is(f, "git_diff_failed"@, "failed to compute diff"@),
        },
{
    match diff {
        Some(d) => Ok(git_file_diff_from(&d)),
        None => Err(GitApiFailure::new("git_diff_failed", String::from_str("failed to compute diff"))),
    }
}

/// The answer to `git.picker.list` once the listing ran: its entries in wire form, or
/// `git_picker_list_failed` when git could not list them.
pub fn git_picker_list_result(entries: Option<Vec<GitListEntry>>) -> (r: Result<Vec<GitPickerEntry>, GitApiFailure>)
    ensures
        match entries {
            Some(es) => r matches Ok(w) && w@.len() == es@.len() && forall|i: int| 0 <= i < es@.len() ==> #[trigger] w@[i]@ == es@[i]@,
            None => r matches Err(f) && failure_is(f, "git_picker_list_failed"@, "failed to list entries"@),
        },
{
    match entries {
        Some(es) => Ok(git_picker_entries_from(es)),
        None => Err(GitApiFailure::new("git_picker_list_failed", String::from_str("failed to list entries"))),
    }
}

/// The error when a popup pane could not be opened for a repository command.
pub fn popup_failure(reason: String) -> (r: GitApiFailure)
    ensures
        r.code@ == "popup_unavailable"@,
        r.message == reason,
{
    GitApiFailure::new("popup_unavailable", reason)
}

} // verus!
