use herdr::panel_view::PanelRect;
use herdr::sidebar_layout::compute_git_file_row_areas;
use herdr::sidebar_view::{
    render_branch_header, render_commit_box, render_git_file_list, render_git_file_row,
    status_glyph_and_color, FileRowContent, PanelColor,
};
use herdr::worktree_status::{GitFileEntry, GitFileStatusKind};

fn entry(path: &str, status: GitFileStatusKind) -> GitFileEntry {
    GitFileEntry { path: path.to_string(), original_path: None, status }
}

fn texts(line: &[herdr::sidebar_view::ColoredText]) -> Vec<(&str, PanelColor)> {
    line.iter().map(|t| (t.text.as_str(), t.color)).collect()
}

#[test]
fn branch_line_shows_branch_and_upstream_distance() {
    let line = render_branch_header(Some("main"), Some((2, 13)));
    assert_eq!(
        texts(&line),
        vec![
            (" ", PanelColor::Text),
            ("main", PanelColor::Mauve),
            ("  ", PanelColor::Text),
            ("↓13", PanelColor::Red),
            (" ", PanelColor::Text),
            ("↑2", PanelColor::Green),
        ]
    );
    let line = render_branch_header(None, None);
    assert_eq!(texts(&line), vec![(" ", PanelColor::Text), ("no branch", PanelColor::Overlay)]);
}

#[test]
fn commit_box_shows_placeholder_focus_and_progress() {
    let box_rect = PanelRect { x: 0, y: 1, width: 30, height: 5 };
    let submit = PanelRect { x: 21, y: 4, width: 8, height: 1 };
    let view = render_commit_box(box_rect, submit, true, "", false).unwrap();
    assert_eq!(view.border, PanelColor::Accent);
    assert!(view.placeholder);
    assert_eq!(view.text, "commit message…");
    assert_eq!(view.submit, Some((submit, "commit".to_string(), false)));

    let view = render_commit_box(box_rect, submit, false, "fix bug", true).unwrap();
    assert_eq!(view.border, PanelColor::SurfaceDim);
    assert!(!view.placeholder);
    assert_eq!(view.text, "fix bug");
    assert_eq!(view.submit, Some((submit, "committing…".to_string(), true)));

    let no_button = PanelRect { x: 0, y: 0, width: 0, height: 0 };
    assert!(render_commit_box(box_rect, no_button, false, "x", false).unwrap().submit.is_none());
    assert!(render_commit_box(no_button, submit, false, "x", false).is_none());
}

#[test]
fn status_glyphs_follow_the_file_status() {
    assert_eq!(status_glyph_and_color(GitFileStatusKind::Modified), ('M', PanelColor::Yellow));
    assert_eq!(status_glyph_and_color(GitFileStatusKind::Added), ('A', PanelColor::Green));
    assert_eq!(status_glyph_and_color(GitFileStatusKind::Deleted), ('D', PanelColor::Red));
    assert_eq!(status_glyph_and_color(GitFileStatusKind::Renamed), ('R', PanelColor::Mauve));
    assert_eq!(status_glyph_and_color(GitFileStatusKind::Untracked), ('U', PanelColor::Overlay));
    assert_eq!(status_glyph_and_color(GitFileStatusKind::Conflicted), ('!', PanelColor::Red));
}

#[test]
fn file_list_draws_headers_rows_and_buttons() {
    let area = PanelRect { x: 0, y: 0, width: 30, height: 20 };
    let staged = vec![entry("staged.rs", GitFileStatusKind::Added)];
    let unstaged = vec![entry("a.rs", GitFileStatusKind::Modified), entry("b.rs", GitFileStatusKind::Untracked)];
    let rows = compute_git_file_row_areas(&staged, &unstaged, 0, area);
    let selected = "a.rs".to_string();
    let view = render_git_file_list(area, &rows, &staged, &unstaged, Some((&selected, false)), None).unwrap();

    let staged_header = view.staged_header.unwrap();
    assert_eq!(staged_header.rect, PanelRect { x: 0, y: 6, width: 30, height: 1 });
    assert_eq!(staged_header.text, " staged changes (1)");
    let unstaged_header = view.unstaged_header.unwrap();
    assert_eq!(unstaged_header.rect.y, 8);
    assert_eq!(unstaged_header.text, " changes (2)");
    assert!(view.empty_notice.is_none());

    assert_eq!(view.rows.len(), 3);
    match &view.rows[0].content {
        FileRowContent::Normal { glyph, name, name_budget, toggle, discard, emphasised, .. } => {
            assert_eq!(*glyph, 'A');
            assert_eq!(name, "staged.rs");
            assert_eq!(*name_budget, 24);
            assert_eq!(toggle.unwrap().1, '-');
            assert!(discard.is_none());
            assert!(!emphasised);
        }
        other => panic!("unexpected {other:?}"),
    }
    assert!(view.rows[1].highlighted);
    match &view.rows[1].content {
        FileRowContent::Normal { glyph, name_budget, toggle, discard, emphasised, .. } => {
            assert_eq!(*glyph, 'M');
            assert_eq!(*name_budget, 21);
            assert_eq!(toggle.unwrap().1, '+');
            assert_eq!(*discard, Some(PanelRect { x: 27, y: 9, width: 3, height: 1 }));
            assert!(*emphasised);
        }
        other => panic!("unexpected {other:?}"),
    }
    match &view.rows[2].content {
        FileRowContent::Normal { glyph, discard, .. } => {
            assert_eq!(*glyph, 'U');
            assert!(discard.is_none());
        }
        other => panic!("unexpected {other:?}"),
    }
}

#[test]
fn pending_discard_replaces_the_row_with_a_prompt() {
    let area = PanelRect { x: 0, y: 0, width: 40, height: 20 };
    let unstaged = vec![entry("a.rs", GitFileStatusKind::Modified)];
    let rows = compute_git_file_row_areas(&[], &unstaged, 0, area);
    let pending = "a.rs".to_string();
    let view = render_git_file_row(&rows[0], &unstaged, None, Some(&pending));
    match view.content {
        FileRowContent::PendingDiscard(t) => assert_eq!(t, " discard changes to a.rs? (y/n)"),
        other => panic!("unexpected {other:?}"),
    }
    // A row whose file left the list draws nothing but its highlight.
    let view = render_git_file_row(&rows[0], &Vec::new(), None, None);
    assert!(matches!(view.content, FileRowContent::Missing));
}

#[test]
fn an_empty_tree_shows_the_no_changes_notice() {
    let area = PanelRect { x: 2, y: 1, width: 30, height: 12 };
    let view = render_git_file_list(area, &Vec::new(), &Vec::new(), &Vec::new(), None, None).unwrap();
    assert!(view.staged_header.is_none() && view.unstaged_header.is_none());
    assert_eq!(view.empty_notice, Some(PanelRect { x: 2, y: 8, width: 30, height: 1 }));
    assert!(render_git_file_list(PanelRect { x: 0, y: 0, width: 30, height: 6 }, &Vec::new(), &Vec::new(), &Vec::new(), None, None).is_none());
}
