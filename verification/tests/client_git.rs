use herdr::client_git::{
    ClientGitFileEntry, ClientGitFileStatus, ClientGitPanelState, ClientGitShell,
    ClientGitSnapshot, ClientGitWorkingTree, ClientGitWorkspace, ClientShellInput, GitPanelMethod,
    GitSidebarFocus, PanelKey, PanelKeyCode, PendingEndpointKind, SidebarSpacesView,
};

fn test_state_with_working_tree(working_tree: ClientGitWorkingTree) -> ClientGitShell {
    ClientGitShell {
        sidebar_view: SidebarSpacesView::Git,
        git_panel: ClientGitPanelState::default(),
        snapshot: Some(ClientGitSnapshot {
            focused_workspace_id: Some("w1".into()),
            workspaces: vec![ClientGitWorkspace {
                workspace_id: "w1".into(),
                git_repo: true,
                branch: Some("main".into()),
                git_ahead_behind: None,
                git_working_tree: Some(working_tree),
            }],
        }),
    }
}

fn one_unstaged_file() -> ClientGitWorkingTree {
    ClientGitWorkingTree {
        staged: Vec::new(),
        unstaged: vec![ClientGitFileEntry {
            path: "f.rs".into(),
            original_path: None,
            status: ClientGitFileStatus::Modified,
        }],
    }
}

fn key(code: PanelKeyCode) -> PanelKey {
    PanelKey { code, control: false, alt: false, shift: false, other_modifier: false }
}

fn ctrl_key(code: PanelKeyCode) -> PanelKey {
    PanelKey { code, control: true, alt: false, shift: false, other_modifier: false }
}

#[test]
fn stage_key_sends_stage_request_for_selected_file() {
    let mut state = test_state_with_working_tree(one_unstaged_file());
    let mut outcome = ClientShellInput::new();

    let consumed = state.route_git_panel_key(&key(PanelKeyCode::Char('s')), &mut outcome);

    assert!(consumed);
    assert_eq!(outcome.actions.len(), 1);
    assert_eq!(outcome.actions[0].kind, PendingEndpointKind::GitFileAction);
    assert!(matches!(
        &outcome.actions[0].method,
        GitPanelMethod::GitFileStage(params) if params.path == "f.rs" && params.workspace_id == "w1"
    ));
}

#[test]
fn discard_key_requires_confirmation() {
    let mut state = test_state_with_working_tree(one_unstaged_file());
    let mut outcome = ClientShellInput::new();

    state.route_git_panel_key(&key(PanelKeyCode::Char('d')), &mut outcome);
    assert_eq!(state.git_panel.pending_discard.as_deref(), Some("f.rs"));
    assert!(outcome.actions.is_empty());

    let mut outcome = ClientShellInput::new();
    let consumed = state.route_git_panel_key(&key(PanelKeyCode::Char('y')), &mut outcome);
    assert!(consumed);
    assert!(state.git_panel.pending_discard.is_none());
    assert_eq!(outcome.actions.len(), 1);
    assert!(matches!(
        &outcome.actions[0].method,
        GitPanelMethod::GitFileDiscard(params) if params.path == "f.rs"
    ));
}

#[test]
fn discard_key_cancels_on_any_other_key() {
    let mut state = test_state_with_working_tree(one_unstaged_file());
    let mut outcome = ClientShellInput::new();
    state.route_git_panel_key(&key(PanelKeyCode::Char('d')), &mut outcome);

    let mut outcome = ClientShellInput::new();
    let consumed = state.route_git_panel_key(&key(PanelKeyCode::Char('n')), &mut outcome);

    assert!(consumed);
    assert!(state.git_panel.pending_discard.is_none());
    assert!(outcome.actions.is_empty());
    assert!(outcome.repaint);
}

#[test]
fn tab_switches_focus_between_file_list_and_commit_box() {
    let mut state = test_state_with_working_tree(one_unstaged_file());
    let mut outcome = ClientShellInput::new();

    state.route_git_panel_key(&key(PanelKeyCode::Tab), &mut outcome);
    assert_eq!(state.git_panel.focus, GitSidebarFocus::CommitBox);

    state.route_git_panel_key(&key(PanelKeyCode::Tab), &mut outcome);
    assert_eq!(state.git_panel.focus, GitSidebarFocus::FileList);
}

#[test]
fn typing_in_commit_box_appends_to_the_message() {
    let mut state = test_state_with_working_tree(one_unstaged_file());
    state.git_panel.focus = GitSidebarFocus::CommitBox;
    let mut outcome = ClientShellInput::new();

    state.route_git_panel_key(&key(PanelKeyCode::Char('h')), &mut outcome);
    state.route_git_panel_key(&key(PanelKeyCode::Char('i')), &mut outcome);

    assert_eq!(state.git_panel.commit_message, "hi");
}

#[test]
fn ctrl_enter_submits_a_non_empty_commit_message() {
    let mut state = test_state_with_working_tree(one_unstaged_file());
    state.git_panel.focus = GitSidebarFocus::CommitBox;
    state.git_panel.commit_message = "fix bug".into();
    let mut outcome = ClientShellInput::new();

    let consumed = state.route_git_panel_key(&ctrl_key(PanelKeyCode::Enter), &mut outcome);

    assert!(consumed);
    assert!(state.git_panel.commit_in_flight);
    assert_eq!(outcome.actions.len(), 1);
    assert!(matches!(
        &outcome.actions[0].method,
        GitPanelMethod::GitCommit(params) if params.message == "fix bug"
    ));
}

#[test]
fn ctrl_enter_does_nothing_for_an_empty_message() {
    let mut state = test_state_with_working_tree(one_unstaged_file());
    state.git_panel.focus = GitSidebarFocus::CommitBox;
    let mut outcome = ClientShellInput::new();

    state.route_git_panel_key(&ctrl_key(PanelKeyCode::Enter), &mut outcome);

    assert!(!state.git_panel.commit_in_flight);
    assert!(outcome.actions.is_empty());
}

#[test]
fn git_commit_success_clears_the_draft_message() {
    let mut state = test_state_with_working_tree(one_unstaged_file());
    state.git_panel.commit_in_flight = true;
    state.git_panel.commit_message = "fix bug".into();

    let repaint = state.handle_git_endpoint_result(PendingEndpointKind::GitCommit, Ok(()));

    assert!(repaint);
    assert!(!state.git_panel.commit_in_flight);
    assert!(state.git_panel.commit_message.is_empty());
    assert!(state.git_panel.last_error.is_none());
}

#[test]
fn git_commit_failure_keeps_the_draft_and_records_the_error() {
    let mut state = test_state_with_working_tree(one_unstaged_file());
    state.git_panel.commit_in_flight = true;
    state.git_panel.commit_message = "fix bug".into();

    let repaint = state.handle_git_endpoint_result(
        PendingEndpointKind::GitCommit,
        Err("nothing to commit".into()),
    );

    assert!(repaint);
    assert!(!state.git_panel.commit_in_flight);
    assert_eq!(state.git_panel.commit_message, "fix bug");
    assert_eq!(state.git_panel.last_error.as_deref(), Some("nothing to commit"));
}

#[test]
fn commit_message_is_trimmed_before_sending() {
    let mut state = test_state_with_working_tree(one_unstaged_file());
    state.git_panel.focus = GitSidebarFocus::CommitBox;
    state.git_panel.commit_message = "  fix bug \n".into();
    let mut outcome = ClientShellInput::new();
    state.route_git_panel_key(&ctrl_key(PanelKeyCode::Enter), &mut outcome);
    assert!(matches!(
        &outcome.actions[0].method,
        GitPanelMethod::GitCommit(params) if params.message == "fix bug"
    ));
}

#[test]
fn selection_moves_are_clamped_to_the_rows() {
    let tree = ClientGitWorkingTree {
        staged: vec![ClientGitFileEntry {
            path: "a.rs".into(),
            original_path: None,
            status: ClientGitFileStatus::Added,
        }],
        unstaged: one_unstaged_file().unstaged,
    };
    let mut state = test_state_with_working_tree(tree);
    let mut outcome = ClientShellInput::new();
    state.route_git_panel_key(&key(PanelKeyCode::Char('k')), &mut outcome);
    assert_eq!(state.git_panel.selected, 0);
    assert!(!outcome.repaint);
    state.route_git_panel_key(&key(PanelKeyCode::Down), &mut outcome);
    assert_eq!(state.git_panel.selected, 1);
    assert!(outcome.repaint);
    state.route_git_panel_key(&key(PanelKeyCode::Char('j')), &mut outcome);
    assert_eq!(state.git_panel.selected, 1);
    assert_eq!(state.selected_git_file_path().as_deref(), Some("f.rs"));
    state.route_git_panel_key(&key(PanelKeyCode::Char('u')), &mut outcome);
    assert!(matches!(
        &outcome.actions[0].method,
        GitPanelMethod::GitFileUnstage(params) if params.path == "f.rs"
    ));
}

#[test]
fn esc_in_the_file_list_returns_to_spaces_and_releases_the_watch() {
    let mut state = test_state_with_working_tree(one_unstaged_file());
    state.git_panel.commit_message = "draft".into();
    let mut outcome = ClientShellInput::new();
    assert!(state.route_git_panel_key(&key(PanelKeyCode::Esc), &mut outcome));
    assert_eq!(state.sidebar_view, SidebarSpacesView::Spaces);
    assert!(state.git_panel.commit_message.is_empty());
    assert_eq!(outcome.actions.len(), 1);
    assert!(matches!(
        &outcome.actions[0].method,
        GitPanelMethod::GitPanelSetActive(params) if params.workspace_id == "w1" && !params.active
    ));
}

#[test]
fn backspace_and_enter_edit_the_draft() {
    let mut state = test_state_with_working_tree(one_unstaged_file());
    state.git_panel.focus = GitSidebarFocus::CommitBox;
    state.git_panel.commit_message = "ab".into();
    let mut outcome = ClientShellInput::new();
    state.route_git_panel_key(&key(PanelKeyCode::Backspace), &mut outcome);
    state.route_git_panel_key(&key(PanelKeyCode::Enter), &mut outcome);
    assert_eq!(state.git_panel.commit_message, "a\n");
    let consumed = state.route_git_panel_key(&ctrl_key(PanelKeyCode::Char('x')), &mut outcome);
    assert!(!consumed);
    assert_eq!(state.git_panel.commit_message, "a\n");
}

#[test]
fn file_action_results_record_or_clear_the_error() {
    let mut state = test_state_with_working_tree(one_unstaged_file());
    assert!(state.handle_git_endpoint_result(PendingEndpointKind::GitFileAction, Err("boom".into())));
    assert_eq!(state.git_panel.last_error.as_deref(), Some("boom"));
    assert!(state.handle_git_endpoint_result(PendingEndpointKind::GitFileAction, Ok(())));
    assert!(state.git_panel.last_error.is_none());
    assert!(!state.handle_git_endpoint_result(PendingEndpointKind::Generic, Err("x".into())));
}

#[test]
fn toggling_the_sidebar_tells_the_server() {
    let mut state = test_state_with_working_tree(one_unstaged_file());
    state.sidebar_view = SidebarSpacesView::Spaces;
    let mut outcome = ClientShellInput::new();
    state.toggle_sidebar_git_view(&mut outcome);
    assert_eq!(state.sidebar_view, SidebarSpacesView::Git);
    assert!(matches!(
        &outcome.actions[0].method,
        GitPanelMethod::GitPanelSetActive(params) if params.active
    ));
}
