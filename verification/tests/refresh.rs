use herdr::refresh::{
    distinct_roots, fan_out, git_working_tree_refresh_targets, refresh_git_working_trees,
    RefreshClock, RefreshWorkspace,
};
use herdr::worktree_status::{GitFileEntry, GitFileStatusKind, GitWorkingTreeStatus};

fn status_with(path: &str) -> GitWorkingTreeStatus {
    GitWorkingTreeStatus {
        staged: Vec::new(),
        unstaged: vec![GitFileEntry { path: path.into(), original_path: None, status: GitFileStatusKind::Untracked }],
    }
}

const INTERVAL: u64 = 2000;

fn ws(id: &str, demand: bool, root: Option<&str>) -> RefreshWorkspace {
    RefreshWorkspace { id: id.into(), git_panel_demand: demand, repo_root: root.map(str::to_owned) }
}

#[test]
fn deadline_is_none_without_any_demand() {
    let clock = RefreshClock { last_refresh_ms: 0, in_flight: false };
    assert_eq!(clock.git_working_tree_refresh_deadline(&[ws("test", false, None)], INTERVAL), None);
}

#[test]
fn deadline_is_set_once_a_workspace_demands_the_panel() {
    let clock = RefreshClock { last_refresh_ms: 100, in_flight: false };
    assert_eq!(clock.git_working_tree_refresh_deadline(&[ws("test", true, None)], INTERVAL), Some(2100));
    let busy = RefreshClock { last_refresh_ms: 100, in_flight: true };
    assert_eq!(busy.git_working_tree_refresh_deadline(&[ws("test", true, None)], INTERVAL), None);
}

#[test]
fn refresh_skips_workspaces_without_a_git_repo() {
    let now = 10_000;
    let mut clock = RefreshClock { last_refresh_ms: now - INTERVAL, in_flight: false };

    let started = clock.start_git_working_tree_refresh_if_due(now, &[ws("test", true, None)], INTERVAL);

    assert!(started.is_none());
    assert!(!clock.in_flight);
    assert_eq!(clock.last_refresh_ms, now);
}

#[test]
fn a_due_refresh_covers_watched_repositories_only() {
    let mut clock = RefreshClock { last_refresh_ms: 0, in_flight: false };
    let workspaces = [ws("a", true, Some("/r1")), ws("b", false, Some("/r2")), ws("c", true, Some("/r1"))];
    assert!(clock.start_git_working_tree_refresh_if_due(1000, &workspaces, INTERVAL).is_none());
    assert_eq!(clock.last_refresh_ms, 0);
    let targets = clock.start_git_working_tree_refresh_if_due(2000, &workspaces, INTERVAL).unwrap();
    assert!(clock.in_flight);
    assert_eq!(targets, vec![("a".to_string(), "/r1".to_string()), ("c".to_string(), "/r1".to_string())]);
    assert_eq!(git_working_tree_refresh_targets(&workspaces), targets);
}

#[test]
fn refresh_deduplicates_targets_sharing_a_repo_root() {
    let targets = vec![
        ("ws1".to_string(), "/repo".to_string()),
        ("ws2".to_string(), "/repo".to_string()),
        ("ws3".to_string(), "/other".to_string()),
    ];
    let (roots, index) = distinct_roots(&targets);
    assert_eq!(roots, vec!["/repo".to_string(), "/other".to_string()]);
    assert_eq!(index, vec![0, 0, 1]);
    let statuses = vec![Some(status_with("untracked.txt")), None];
    let updates = fan_out(&targets, &index, &statuses);
    assert_eq!(updates.len(), 3);
    assert_eq!(updates[0].1, updates[1].1);
    assert_eq!(updates[0], ("ws1".to_string(), Some(status_with("untracked.txt"))));
    assert_eq!(updates[2], ("ws3".to_string(), None));

    let asked: std::cell::RefCell<Vec<String>> = std::cell::RefCell::new(Vec::new());
    let updates = refresh_git_working_trees(&targets, |root: &String| {
        asked.borrow_mut().push(root.clone());
        if root == "/repo" { Some(status_with(root)) } else { None }
    });
    assert_eq!(asked.into_inner(), vec!["/repo".to_string(), "/other".to_string()]);
    assert_eq!(updates.len(), 3);
    assert_eq!(updates[0].1, updates[1].1);
    assert_eq!(updates[1], ("ws2".to_string(), Some(status_with("/repo"))));
    assert_eq!(updates[2], ("ws3".to_string(), None));
}

#[test]
fn forcing_a_refresh_makes_it_due_now() {
    let mut clock = RefreshClock { last_refresh_ms: 9_000, in_flight: false };
    clock.force_git_working_tree_refresh_now(10_000, INTERVAL);
    assert_eq!(clock.git_working_tree_refresh_deadline(&[ws("a", true, Some("/r"))], INTERVAL), Some(10_000));
    clock.force_git_working_tree_refresh_now(5, INTERVAL);
    assert_eq!(clock.last_refresh_ms, 0);
}

#[test]
fn git_panel_demand_is_set_per_workspace_and_reports_changes() {
    let ws = |id: &str, demand: bool| herdr::refresh::RefreshWorkspace {
        id: id.to_string(),
        git_panel_demand: demand,
        repo_root: Some("/repo".to_string()),
    };
    let mut workspaces = vec![ws("one", false), ws("two", false)];
    assert!(!herdr::refresh::any_workspace_wants_git_panel(&workspaces));
    assert!(herdr::refresh::set_git_panel_demand(&mut workspaces, "two", true));
    assert!(workspaces[1].git_panel_demand);
    assert!(!workspaces[0].git_panel_demand);
    assert!(herdr::refresh::any_workspace_wants_git_panel(&workspaces));
    // Setting the same value again, or an unknown workspace, changes nothing.
    assert!(!herdr::refresh::set_git_panel_demand(&mut workspaces, "two", true));
    assert!(!herdr::refresh::set_git_panel_demand(&mut workspaces, "three", true));
    assert!(herdr::refresh::set_git_panel_demand(&mut workspaces, "two", false));
    assert!(!herdr::refresh::any_workspace_wants_git_panel(&workspaces));
}
