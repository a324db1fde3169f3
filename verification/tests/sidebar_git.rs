use herdr::actions::GitFileActionKind;
use herdr::client_git::GitSidebarFocus;
use herdr::diff::{DiffHunk, DiffLine, DiffLineKind, FileDiff};
use herdr::picker::SelectionListState;
use herdr::sidebar_git::{
    AppGitState, DiffViewKey, GitDiffViewState, GitSidebarState, SidebarGitEffect, SidebarKey,
    SidebarKeyCode, SidebarRow,
};
use herdr::worktree_status::GitFileStatusKind;

fn row(path: &str, status: GitFileStatusKind, staged: bool) -> SidebarRow {
    SidebarRow { path: path.into(), status, staged }
}

fn state() -> AppGitState {
    AppGitState {
        sidebar: GitSidebarState {
            rows: vec![
                row("a.rs", GitFileStatusKind::Modified, true),
                row("b.rs", GitFileStatusKind::Modified, false),
                row("c.rs", GitFileStatusKind::Untracked, false),
            ],
            selected: SelectionListState::new(0),
            focus: GitSidebarFocus::FileList,
            pending_discard: None,
            commit_message: String::new(),
            commit_in_flight: false,
            last_error: None,
        },
        diff_view: None,
        diff_fetch_generation: 0,
    }
}

fn key(code: SidebarKeyCode) -> SidebarKey {
    SidebarKey { code, control: false, non_shift_modifier: false }
}

fn view(path: &str) -> GitDiffViewState {
    GitDiffViewState {
        repo_root: "/repo".into(),
        path: path.into(),
        staged: false,
        diff: None,
        scroll: 0,
        row_count: 0,
        loading: true,
    }
}

#[test]
fn stale_generation_is_ignored() {
    let mut app = state();
    app.diff_view = Some(view("f.rs"));
    app.diff_fetch_generation = 5;

    app.handle_git_diff_ready(3, &"/repo".to_string(), &"f.rs".to_string(), false, Some(FileDiff::default()));

    assert!(app.diff_view.as_ref().unwrap().diff.is_none());
    assert!(app.diff_view.as_ref().unwrap().loading);
}

#[test]
fn matching_generation_and_selection_applies_diff() {
    let mut app = state();
    app.diff_view = Some(view("f.rs"));
    app.diff_fetch_generation = 1;

    let diff = FileDiff {
        hunks: vec![DiffHunk {
            old_start: 1,
            new_start: 1,
            lines: vec![
                DiffLine { kind: DiffLineKind::Deletion, old_lineno: Some(1), new_lineno: None, text: "a".into() },
                DiffLine { kind: DiffLineKind::Deletion, old_lineno: Some(2), new_lineno: None, text: "b".into() },
                DiffLine { kind: DiffLineKind::Addition, old_lineno: None, new_lineno: Some(1), text: "c".into() },
            ],
        }],
        binary: false,
    };
    assert!(app.handle_git_diff_ready(1, &"/repo".to_string(), &"f.rs".to_string(), false, Some(diff)));

    let view = app.diff_view.as_ref().unwrap();
    assert!(view.diff.is_some());
    assert!(!view.loading);
    assert_eq!(view.row_count, 2);
}

#[test]
fn result_for_a_different_selection_is_ignored() {
    let mut app = state();
    app.diff_view = Some(view("other.rs"));
    app.diff_fetch_generation = 1;

    app.handle_git_diff_ready(1, &"/repo".to_string(), &"f.rs".to_string(), false, Some(FileDiff::default()));

    assert!(app.diff_view.as_ref().unwrap().diff.is_none());
}

#[test]
fn opening_a_diff_moves_the_highlight_and_starts_a_new_fetch() {
    let mut app = state();
    let generation = app.open_git_diff("/repo".into(), "b.rs".into(), false);
    assert_eq!(generation, 1);
    assert_eq!(app.sidebar.selected.selected, 1);
    assert!(app.diff_view.as_ref().unwrap().loading);
    assert_eq!(app.open_git_diff("/repo".into(), "zzz.rs".into(), true), 2);
    assert_eq!(app.sidebar.selected.selected, 1);
}

#[test]
fn keys_stage_unstage_and_guard_discard() {
    let mut app = state();
    // The staged row cannot be staged again, but it can be unstaged.
    assert!(matches!(app.handle_sidebar_git_key(key(SidebarKeyCode::Char('s')), true), SidebarGitEffect::Nothing));
    assert!(matches!(
        app.handle_sidebar_git_key(key(SidebarKeyCode::Char('u')), true),
        SidebarGitEffect::FileAction { ref path, action: GitFileActionKind::Unstage } if path == "a.rs"
    ));
    // Discard is refused for a staged row.
    app.handle_sidebar_git_key(key(SidebarKeyCode::Char('d')), true);
    assert!(app.sidebar.pending_discard.is_none());
    app.handle_sidebar_git_key(key(SidebarKeyCode::Down), true);
    app.handle_sidebar_git_key(key(SidebarKeyCode::Char('d')), true);
    assert_eq!(app.sidebar.pending_discard.as_deref(), Some("b.rs"));
    assert!(matches!(
        app.handle_sidebar_git_key(key(SidebarKeyCode::Char('Y')), true),
        SidebarGitEffect::FileAction { ref path, action: GitFileActionKind::Discard } if path == "b.rs"
    ));
    assert!(app.sidebar.pending_discard.is_none());
    // Untracked files cannot be discarded.
    app.handle_sidebar_git_key(key(SidebarKeyCode::Char('j')), true);
    app.handle_sidebar_git_key(key(SidebarKeyCode::Char('d')), true);
    assert!(app.sidebar.pending_discard.is_none());
    assert!(matches!(
        app.handle_sidebar_git_key(key(SidebarKeyCode::Enter), true),
        SidebarGitEffect::OpenDiff { ref path, staged: false, untracked: true } if path == "c.rs"
    ));
    assert!(matches!(app.handle_sidebar_git_key(key(SidebarKeyCode::Enter), false), SidebarGitEffect::Nothing));
}

#[test]
fn esc_unwinds_one_step_at_a_time() {
    let mut app = state();
    app.sidebar.pending_discard = Some("b.rs".into());
    app.diff_view = Some(view("b.rs"));
    assert!(matches!(app.handle_sidebar_git_key(key(SidebarKeyCode::Esc), true), SidebarGitEffect::Nothing));
    assert!(app.sidebar.pending_discard.is_none());
    assert!(app.diff_view.is_some());
    assert!(matches!(app.handle_sidebar_git_key(key(SidebarKeyCode::Esc), true), SidebarGitEffect::Nothing));
    assert!(app.diff_view.is_none());
    assert!(matches!(app.handle_sidebar_git_key(key(SidebarKeyCode::Esc), true), SidebarGitEffect::LeaveMode));
}

#[test]
fn commit_box_typing_and_submitting() {
    let mut app = state();
    app.handle_sidebar_git_key(key(SidebarKeyCode::Tab), true);
    assert_eq!(app.sidebar.focus, GitSidebarFocus::CommitBox);
    for c in " fix".chars() {
        app.handle_sidebar_git_key(key(SidebarKeyCode::Char(c)), true);
    }
    let ctrl = SidebarKey { code: SidebarKeyCode::Char('x'), control: true, non_shift_modifier: true };
    app.handle_sidebar_git_key(ctrl, true);
    assert_eq!(app.sidebar.commit_message, " fix");
    let submit = SidebarKey { code: SidebarKeyCode::Enter, control: true, non_shift_modifier: true };
    assert!(matches!(
        app.handle_sidebar_git_key(submit, true),
        SidebarGitEffect::Commit { ref message } if message == "fix"
    ));
    assert!(app.sidebar.commit_in_flight);
    // A second submit while one is in flight does nothing.
    assert!(matches!(app.handle_sidebar_git_key(submit, true), SidebarGitEffect::Nothing));
    app.handle_git_commit_finished(Err("hook failed".into()));
    assert!(!app.sidebar.commit_in_flight);
    assert_eq!(app.sidebar.last_error.as_deref(), Some("commit failed: hook failed"));
    assert_eq!(app.sidebar.commit_message, " fix");
    app.handle_git_commit_finished(Ok(()));
    assert!(app.sidebar.commit_message.is_empty());
    assert!(app.sidebar.last_error.is_none());
}

#[test]
fn file_action_results_are_reported() {
    let mut app = state();
    app.sidebar.pending_discard = Some("b.rs".into());
    app.handle_git_file_action_finished(GitFileActionKind::Stage, &"b.rs".to_string(), Err("locked".into()));
    assert_eq!(app.sidebar.last_error.as_deref(), Some("Stage b.rs failed: locked"));
    assert!(app.sidebar.pending_discard.is_some());
    app.handle_git_file_action_finished(GitFileActionKind::Discard, &"b.rs".to_string(), Ok(()));
    assert!(app.sidebar.last_error.is_none());
    assert!(app.sidebar.pending_discard.is_none());
}

#[test]
fn diff_view_keys_scroll_within_bounds_and_close() {
    let mut app = state();
    app.diff_view = Some(view("b.rs"));
    assert!(!app.handle_git_diff_key(DiffViewKey::Down, 12));
    assert_eq!(app.diff_view.as_ref().unwrap().scroll, 1);
    assert!(!app.handle_git_diff_key(DiffViewKey::PageDown, 12));
    assert_eq!(app.diff_view.as_ref().unwrap().scroll, 11);
    // Over-scrolling stops at the last row's offset.
    app.handle_git_diff_key(DiffViewKey::PageDown, 12);
    assert_eq!(app.diff_view.as_ref().unwrap().scroll, 12);
    app.handle_git_diff_key(DiffViewKey::Char('k'), 12);
    assert_eq!(app.diff_view.as_ref().unwrap().scroll, 11);
    app.handle_git_diff_key(DiffViewKey::PageUp, 12);
    app.handle_git_diff_key(DiffViewKey::PageUp, 12);
    assert_eq!(app.diff_view.as_ref().unwrap().scroll, 0);
    assert!(!app.handle_git_diff_key(DiffViewKey::Char('x'), 12));
    assert!(app.handle_git_diff_key(DiffViewKey::Char('q'), 12));
    assert!(app.diff_view.is_none());
}
