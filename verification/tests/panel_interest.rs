use herdr::panel_interest::GitPanelInterest;

fn server_with_workspaces(labels: &[&str]) -> GitPanelInterest {
    GitPanelInterest::new(labels.iter().map(|label| label.to_string()).collect())
}

#[test]
fn last_watcher_leaving_clears_workspace_demand() {
    let mut server = server_with_workspaces(&["one"]);
    let workspace_id = server.workspaces[0].workspace_id.clone();
    server.add_client(1);
    server.add_client(2);

    assert!(server.set_git_panel_watch(1, workspace_id.clone(), true));
    assert!(server.workspaces[0].git_panel_demand);
    assert!(!server.set_git_panel_watch(2, workspace_id.clone(), true));

    assert!(!server.set_git_panel_watch(1, workspace_id.clone(), false));
    assert!(server.workspaces[0].git_panel_demand);

    assert!(server.set_git_panel_watch(2, workspace_id, false));
    assert!(!server.workspaces[0].git_panel_demand);
}

#[test]
fn switching_watched_workspace_releases_the_previous_one() {
    let mut server = server_with_workspaces(&["one", "two"]);
    let first = server.workspaces[0].workspace_id.clone();
    let second = server.workspaces[1].workspace_id.clone();
    server.add_client(1);

    assert!(server.set_git_panel_watch(1, first, true));
    assert!(server.set_git_panel_watch(1, second, true));

    assert!(!server.workspaces[0].git_panel_demand);
    assert!(server.workspaces[1].git_panel_demand);
}

#[test]
fn reactivating_the_same_workspace_is_a_no_op() {
    let mut server = server_with_workspaces(&["one"]);
    let workspace_id = server.workspaces[0].workspace_id.clone();
    server.add_client(1);

    assert!(server.set_git_panel_watch(1, workspace_id.clone(), true));
    assert!(!server.set_git_panel_watch(1, workspace_id, true));
}

#[test]
fn disconnecting_without_deactivating_releases_the_watch() {
    let mut server = server_with_workspaces(&["one"]);
    let workspace_id = server.workspaces[0].workspace_id.clone();
    server.add_client(1);
    server.set_git_panel_watch(1, workspace_id, true);

    server.remove_client(1);

    assert!(!server.workspaces[0].git_panel_demand);
}

#[test]
fn unknown_client_changes_nothing() {
    let mut server = server_with_workspaces(&["one"]);
    assert!(!server.set_git_panel_watch(9, "one".to_string(), true));
    assert!(!server.workspaces[0].git_panel_demand);
    assert!(server.watchers.is_empty());
}

#[test]
fn watching_an_unknown_workspace_records_the_watch_but_no_demand() {
    let mut server = server_with_workspaces(&["one"]);
    server.add_client(1);
    assert!(!server.set_git_panel_watch(1, "elsewhere".to_string(), true));
    assert_eq!(server.watchers.len(), 1);
    assert_eq!(server.git_panel_demand(&"one".to_string()), Some(false));
    assert_eq!(server.git_panel_demand(&"elsewhere".to_string()), None);
}

#[test]
fn adding_a_client_twice_is_refused() {
    let mut server = server_with_workspaces(&["one"]);
    assert!(server.add_client(1));
    assert!(!server.add_client(1));
    assert_eq!(server.clients.len(), 1);
}

#[test]
fn demand_follows_watchers_across_clients_and_workspaces() {
    let mut server = server_with_workspaces(&["a", "b"]);
    server.add_client(1);
    server.add_client(2);
    server.set_git_panel_watch(1, "a".to_string(), true);
    server.set_git_panel_watch(2, "b".to_string(), true);
    assert_eq!(server.git_panel_demand(&"a".to_string()), Some(true));
    assert_eq!(server.git_panel_demand(&"b".to_string()), Some(true));
    assert!(server.set_git_panel_watch(2, "a".to_string(), true));
    assert_eq!(server.git_panel_demand(&"b".to_string()), Some(false));
    server.remove_client(1);
    assert_eq!(server.git_panel_demand(&"a".to_string()), Some(true));
    server.remove_client(2);
    assert_eq!(server.git_panel_demand(&"a".to_string()), Some(false));
}
