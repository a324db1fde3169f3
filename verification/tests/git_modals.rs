use herdr::actions::GitFileActionKind;
use herdr::client_git::GitSidebarFocus;
use herdr::git_modals::{AppMode, GitModalEffect, GitModalState, PromptKey, PromptKeyCode};
use herdr::lists::GitListEntry;
use herdr::picker::{GitPickerKind, GitRepoCommand, PickerKey};

fn state(repo: Option<&str>) -> GitModalState {
    GitModalState {
        mode: AppMode::SidebarGit,
        has_active_pane: true,
        name_input: String::new(),
        name_input_replace_on_type: true,
        git_picker: None,
        picker_generation: 0,
        target_repo_root: repo.map(str::to_string),
        active_repo_root: None,
        last_error: None,
        pending_discard: None,
        focus: GitSidebarFocus::CommitBox,
    }
}

fn key(code: PromptKeyCode) -> PromptKey {
    PromptKey { code, non_shift_modifier: false }
}

fn popup(e: &GitModalEffect) -> (Vec<String>, String, String) {
    match e {
        GitModalEffect::Popup { argv, label, repo_root } => (argv.clone(), label.clone(), repo_root.clone()),
        other => panic!("expected a popup, got {other:?}"),
    }
}

#[test]
fn missing_repository_reports_an_error_instead_of_spawning() {
    let mut app = state(None);
    let effect = app.run_git_repo_command(GitRepoCommand::Push);
    assert!(matches!(effect, GitModalEffect::Nothing), "nothing should be spawned");
    assert!(app.last_error.is_some());
    assert_eq!(app.last_error.as_deref(), Some("no git repository for this space"));
}

#[test]
fn branch_prompt_collects_a_name_and_cancels_cleanly() {
    let mut app = state(Some("/repo"));
    app.open_git_branch_create();
    assert_eq!(app.mode, AppMode::GitBranchCreate);

    for ch in "feat/x".chars() {
        app.handle_git_branch_create_key(key(PromptKeyCode::Char(ch)));
    }
    assert_eq!(app.name_input, "feat/x");

    app.handle_git_branch_create_key(key(PromptKeyCode::Backspace));
    assert_eq!(app.name_input, "feat/");

    let effect = app.handle_git_branch_create_key(key(PromptKeyCode::Esc));
    assert_ne!(app.mode, AppMode::GitBranchCreate);
    assert!(app.name_input.is_empty(), "cancelling must not leave the typed name behind for the next dialog");
    assert!(matches!(effect, GitModalEffect::Nothing), "esc must not run anything");
}

#[test]
fn confirmed_branch_name_runs_switch_create_in_a_popup() {
    let mut app = state(Some("/repo"));
    app.open_git_branch_create();
    for ch in " topic ".chars() {
        app.handle_git_branch_create_key(key(PromptKeyCode::Char(ch)));
    }
    // A character typed with ctrl is not text.
    app.handle_git_branch_create_key(PromptKey { code: PromptKeyCode::Char('c'), non_shift_modifier: true });
    let effect = app.handle_git_branch_create_key(key(PromptKeyCode::Enter));
    assert_eq!(popup(&effect), (vec!["git".into(), "switch".into(), "-c".into(), "topic".into()], "branch create".into(), "/repo".into()));
    assert_eq!(app.mode, AppMode::Terminal);
    assert!(app.name_input.is_empty());

    let mut empty = state(Some("/repo"));
    empty.open_git_branch_create();
    assert!(matches!(empty.handle_git_branch_create_key(key(PromptKeyCode::Enter)), GitModalEffect::Nothing));
}

#[test]
fn pickers_open_with_a_fresh_generation_and_confirm_into_a_popup() {
    let mut app = state(Some("/repo"));
    app.has_active_pane = false;
    let effect = app.open_git_picker(GitPickerKind::SwitchBranch);
    match effect {
        GitModalEffect::ListEntries { kind, generation, repo_root } => {
            assert_eq!(kind, GitPickerKind::SwitchBranch);
            assert_eq!(generation, 1);
            assert_eq!(repo_root, "/repo");
        }
        other => panic!("unexpected {other:?}"),
    }
    assert_eq!(app.mode, AppMode::GitPicker);
    assert!(app.git_picker.as_ref().unwrap().loading);

    // A listing for a superseded picker is dropped; the current one fills it.
    let listing = vec![
        GitListEntry { value: "main".into(), label: "main".into() },
        GitListEntry { value: "dev".into(), label: "dev".into() },
    ];
    assert!(!app.handle_git_picker_entries_ready(0, &"/repo".to_string(), Some(listing.clone())));
    assert!(app.handle_git_picker_entries_ready(1, &"/repo".to_string(), Some(listing)));
    assert!(matches!(app.handle_git_picker_modal_key(PickerKey::Down), GitModalEffect::Nothing));

    let effect = app.handle_git_picker_modal_key(PickerKey::Enter);
    assert_eq!(popup(&effect), (vec!["git".into(), "switch".into(), "dev".into()], "switch".into(), "/repo".into()));
    assert!(app.git_picker.is_none());
    assert_eq!(app.mode, AppMode::Navigate);

    app.open_git_picker(GitPickerKind::ApplyStash);
    assert_eq!(app.picker_generation, 2);
    assert!(matches!(app.handle_git_picker_modal_key(PickerKey::Esc), GitModalEffect::Nothing));
    assert!(app.git_picker.is_none());
}

#[test]
fn menu_actions_dispatch_to_commands_pickers_and_the_discard_prompt() {
    let mut app = state(Some("/repo"));
    let effect = app.apply_git_repo_menu_action("Fetch");
    assert_eq!(popup(&effect).0, vec!["git", "fetch", "--all", "--prune"]);
    assert!(matches!(app.apply_git_repo_menu_action("Delete branch..."), GitModalEffect::ListEntries { kind: GitPickerKind::DeleteBranch, .. }));
    app.apply_git_repo_menu_action("New branch...");
    assert_eq!(app.mode, AppMode::GitBranchCreate);
    assert!(matches!(app.apply_git_repo_menu_action("Bogus"), GitModalEffect::Nothing));

    let effect = app.apply_git_file_menu_action("a.rs".into(), false, false, "Stage");
    match effect {
        GitModalEffect::FileAction { repo_root, path, action } => {
            assert_eq!((repo_root.as_str(), path.as_str(), action), ("/repo", "a.rs", GitFileActionKind::Stage));
        }
        other => panic!("unexpected {other:?}"),
    }
    let effect = app.apply_git_file_menu_action("a.rs".into(), false, false, "Discard changes...");
    assert!(matches!(effect, GitModalEffect::Nothing));
    assert_eq!(app.pending_discard.as_deref(), Some("a.rs"));
    assert_eq!(app.mode, AppMode::SidebarGit);
    assert_eq!(app.focus, GitSidebarFocus::FileList);

    let mut none = state(None);
    assert!(matches!(none.apply_git_file_menu_action("a.rs".into(), true, false, "Open diff"), GitModalEffect::Nothing));
    assert!(none.last_error.is_some());
}

#[test]
fn a_popup_that_fails_to_start_is_reported() {
    let mut app = state(Some("/repo"));
    assert!(app.handle_git_popup_started("push", Ok(())));
    assert!(app.last_error.is_none());
    assert!(!app.handle_git_popup_started("push", Err("no pty".into())));
    assert_eq!(app.last_error.as_deref(), Some("push failed to start: no pty"));
}
