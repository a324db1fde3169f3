use herdr::actions::GitFileActionKind;
use herdr::diff::FileDiff;
use herdr::git_api::{
    git_diff_get_result, git_picker_list_result, plan_git_api_request, popup_failure,
    resolve_git_workspace, ApiWorkspace, GitApiJob, GitApiMethod,
};
use herdr::lists::GitListEntry;
use herdr::schema::{GitBranchNameParams, GitFileTargetParams, GitRepoCommandParams};

fn workspaces() -> Vec<ApiWorkspace> {
    vec![
        ApiWorkspace { id: "plain".into(), repo_root: None },
        ApiWorkspace { id: "repo".into(), repo_root: Some("/repo".into()) },
    ]
}

#[test]
fn stage_reports_workspace_not_found() {
    let method = GitApiMethod::GitFileStage(GitFileTargetParams {
        workspace_id: "missing".into(),
        path: "f.txt".into(),
    });
    let err = plan_git_api_request(&method, &workspaces()).unwrap_err();
    assert_eq!(err.code, "workspace_not_found");
    assert_eq!(err.message, "workspace missing not found");
}

#[test]
fn stage_reports_not_a_git_repository() {
    let method = GitApiMethod::GitFileStage(GitFileTargetParams {
        workspace_id: "plain".into(),
        path: "f.txt".into(),
    });
    let err = plan_git_api_request(&method, &workspaces()).unwrap_err();
    assert_eq!(err.code, "not_a_git_repository");
}

#[test]
fn stage_becomes_a_background_mutation() {
    let method = GitApiMethod::GitFileStage(GitFileTargetParams {
        workspace_id: "repo".into(),
        path: "f.txt".into(),
    });
    let (root, job) = plan_git_api_request(&method, &workspaces()).unwrap();
    assert_eq!(root, "/repo");
    assert!(matches!(job, GitApiJob::FileMutation { ref path, action: GitFileActionKind::Stage } if path == "f.txt"));
}

#[test]
fn repository_commands_become_popups_with_argv() {
    let fetch = GitApiMethod::GitRepoFetch(GitRepoCommandParams { workspace_id: "repo".into() });
    match plan_git_api_request(&fetch, &workspaces()).unwrap().1 {
        GitApiJob::Popup(argv) => assert_eq!(argv, vec!["git", "fetch", "--all", "--prune"]),
        _ => panic!("expected a popup"),
    }
    let hostile = GitApiMethod::GitBranchDelete(GitBranchNameParams {
        workspace_id: "repo".into(),
        name: "x; rm -rf /".into(),
    });
    match plan_git_api_request(&hostile, &workspaces()).unwrap().1 {
        GitApiJob::Popup(argv) => assert_eq!(argv, vec!["git", "branch", "-d", "x; rm -rf /"]),
        _ => panic!("expected a popup"),
    }
}

#[test]
fn resolving_returns_the_index_and_root() {
    assert_eq!(resolve_git_workspace(&workspaces(), &"repo".to_string()).unwrap(), (1, "/repo".to_string()));
}

#[test]
fn job_outcomes_become_results_or_errors() {
    assert!(git_diff_get_result(Some(FileDiff::default())).is_ok());
    assert_eq!(git_diff_get_result(None).unwrap_err().code, "git_diff_failed");
    let entries = vec![GitListEntry { value: "main".into(), label: "main".into() }];
    assert_eq!(git_picker_list_result(Some(entries)).unwrap()[0].value, "main");
    assert_eq!(git_picker_list_result(None).unwrap_err().message, "failed to list entries");
    assert_eq!(popup_failure("no room".into()).code, "popup_unavailable");
}
