use herdr::diff::SideBySideCell;
use herdr::panel_view::PanelRect;
use herdr::diff_overlay::{
    git_diff_overlay_frame, side_by_side_cell_view, side_by_side_row_areas, CellTone,
    all_rows, git_diff_overlay_content, hunk_to_side_by_side, lineno_label, ClientGitDiffOverlay,
    OverlayBody, git_diff_overlay_body_view, OverlayBodyView,
};
use herdr::schema::{GitDiffHunk, GitDiffLine, GitDiffLineKind, GitFileDiff};

fn line(kind: GitDiffLineKind, old: Option<u32>, new: Option<u32>, text: &str) -> GitDiffLine {
    GitDiffLine { kind, old_lineno: old, new_lineno: new, text: text.into() }
}

#[test]
fn git_diff_overlay_side_by_side_pairs_equal_length_blocks() {
    let hunk = GitDiffHunk {
        old_start: 1,
        new_start: 1,
        lines: vec![
            line(GitDiffLineKind::Deletion, Some(1), None, "old1"),
            line(GitDiffLineKind::Addition, None, Some(1), "new1"),
        ],
    };
    let rows = hunk_to_side_by_side(&hunk);
    assert_eq!(rows.len(), 1);
    assert_eq!(rows[0].left.as_ref().unwrap().text, "old1");
    assert_eq!(rows[0].right.as_ref().unwrap().text, "new1");
}

#[test]
fn git_diff_overlay_side_by_side_pads_shorter_side_with_blank_cells() {
    let hunk = GitDiffHunk {
        old_start: 1,
        new_start: 1,
        lines: vec![
            line(GitDiffLineKind::Deletion, Some(1), None, "old1"),
            line(GitDiffLineKind::Deletion, Some(2), None, "old2"),
            line(GitDiffLineKind::Addition, None, Some(1), "new1"),
        ],
    };
    let rows = hunk_to_side_by_side(&hunk);
    assert_eq!(rows.len(), 2);
    assert_eq!(rows[0].left.as_ref().unwrap().text, "old1");
    assert_eq!(rows[0].right.as_ref().unwrap().text, "new1");
    assert_eq!(rows[1].left.as_ref().unwrap().text, "old2");
    assert!(rows[1].right.is_none());
}

#[test]
fn git_diff_overlay_side_by_side_keeps_context_rows_unchanged() {
    let hunk = GitDiffHunk {
        old_start: 1,
        new_start: 1,
        lines: vec![line(GitDiffLineKind::Context, Some(1), Some(1), "same")],
    };
    let rows = hunk_to_side_by_side(&hunk);
    assert_eq!(rows.len(), 1);
    assert!(!rows[0].left.as_ref().unwrap().changed);
    assert!(!rows[0].right.as_ref().unwrap().changed);
}

fn overlay(diff: Option<GitFileDiff>, loading: bool, error: Option<&str>) -> ClientGitDiffOverlay {
    ClientGitDiffOverlay {
        path: "f.rs".into(),
        staged: false,
        diff,
        scroll: 0,
        loading,
        error: error.map(str::to_owned),
    }
}

fn body_text(body: &OverlayBody) -> String {
    match body {
        OverlayBody::Message(text, _) => text.clone(),
        OverlayBody::Blank => String::new(),
        OverlayBody::Rows(rows) => rows
            .iter()
            .map(|row| {
                let left = row.left.as_ref().map(|c| format!("{}{}", lineno_label(c.lineno), c.text));
                let right = row.right.as_ref().map(|c| format!("{}{}", lineno_label(c.lineno), c.text));
                format!("{}|{}", left.unwrap_or_default(), right.unwrap_or_default())
            })
            .collect::<Vec<_>>()
            .join("\n"),
    }
}

#[test]
fn loading_state_shows_a_placeholder() {
    let (_, body) = git_diff_overlay_content(&overlay(None, true, None), 16);
    assert!(body_text(&body).contains("loading"));
}

#[test]
fn error_state_shows_the_message() {
    let (_, body) = git_diff_overlay_content(&overlay(None, false, Some("boom")), 16);
    assert!(body_text(&body).contains("boom"));
    assert!(matches!(body, OverlayBody::Message(_, true)));
}

#[test]
fn binary_diff_shows_a_placeholder_instead_of_content() {
    let diff = GitFileDiff { hunks: Vec::new(), binary: true };
    let (_, body) = git_diff_overlay_content(&overlay(Some(diff), false, None), 16);
    assert!(body_text(&body).contains("binary"));
}

#[test]
fn renders_diff_line_text_and_line_numbers() {
    let diff = GitFileDiff {
        hunks: vec![GitDiffHunk {
            old_start: 1,
            new_start: 1,
            lines: vec![
                line(GitDiffLineKind::Deletion, Some(5), None, "removed line"),
                line(GitDiffLineKind::Addition, None, Some(5), "added line"),
            ],
        }],
        binary: false,
    };
    let (title, body) = git_diff_overlay_content(&overlay(Some(diff), false, None), 16);
    let text = body_text(&body);
    assert!(text.contains("removed line"));
    assert!(text.contains("added line"));
    assert!(text.contains("   5 "));
    assert!(title.contains("f.rs"));
    assert_eq!(title, " f.rs (worktree)");
}

#[test]
fn an_empty_diff_has_no_visible_changes() {
    let diff = GitFileDiff { hunks: Vec::new(), binary: false };
    let (_, body) = git_diff_overlay_content(&overlay(Some(diff), false, None), 16);
    assert_eq!(body_text(&body), " no visible changes");
    let (_, body) = git_diff_overlay_content(&overlay(None, false, None), 16);
    assert!(matches!(body, OverlayBody::Blank));
}

#[test]
fn scrolling_is_clamped_to_the_last_row() {
    let lines: Vec<GitDiffLine> = (1..=5)
        .map(|n| line(GitDiffLineKind::Context, Some(n), Some(n), &format!("l{n}")))
        .collect();
    let diff = GitFileDiff { hunks: vec![GitDiffHunk { old_start: 1, new_start: 1, lines }], binary: false };
    assert_eq!(all_rows(&diff).len(), 5);
    let mut o = overlay(Some(diff), false, None);
    o.scroll = 99;
    let (_, body) = git_diff_overlay_content(&o, 3);
    match body {
        OverlayBody::Rows(rows) => {
            assert_eq!(rows.len(), 1);
            assert_eq!(rows[0].left.as_ref().unwrap().text, "l5");
        }
        _ => panic!("expected rows"),
    }
    o.scroll = 1;
    let (_, body) = git_diff_overlay_content(&o, 3);
    match body {
        OverlayBody::Rows(rows) => assert_eq!(rows.len(), 3),
        _ => panic!("expected rows"),
    }
}

#[test]
fn line_numbers_are_right_aligned() {
    assert_eq!(lineno_label(5), "   5 ");
    assert_eq!(lineno_label(0), "   0 ");
    assert_eq!(lineno_label(12345), "12345 ");
}

#[test]
fn overlay_frame_places_title_close_button_and_body() {
    let f = git_diff_overlay_frame(PanelRect { x: 2, y: 1, width: 40, height: 10 }).unwrap();
    assert_eq!(f.title_rect, PanelRect { x: 2, y: 1, width: 40, height: 1 });
    assert_eq!(f.close_rect, PanelRect { x: 31, y: 1, width: 11, height: 1 });
    assert_eq!(f.body, PanelRect { x: 2, y: 3, width: 40, height: 8 });
    assert!(git_diff_overlay_frame(PanelRect { x: 0, y: 0, width: 9, height: 10 }).is_none());
    assert!(git_diff_overlay_frame(PanelRect { x: 0, y: 0, width: 10, height: 3 }).is_none());
    let narrow = git_diff_overlay_frame(PanelRect { x: 0, y: 0, width: 10, height: 4 }).unwrap();
    assert_eq!(narrow.close_rect.x, 0);
}

#[test]
fn rows_split_the_body_into_two_halves() {
    let body = PanelRect { x: 1, y: 4, width: 41, height: 5 };
    let (left, right) = side_by_side_row_areas(body, 2);
    assert_eq!(left, PanelRect { x: 1, y: 6, width: 20, height: 1 });
    assert_eq!(right, PanelRect { x: 21, y: 6, width: 21, height: 1 });
}

#[test]
fn cells_show_a_line_number_gutter_then_the_text() {
    let area = PanelRect { x: 0, y: 3, width: 20, height: 1 };
    let cell = SideBySideCell { lineno: 7, text: "let x = 1;".to_string(), changed: true };
    let v = side_by_side_cell_view(area, Some(&cell), true);
    assert_eq!(v.tone, CellTone::Removed);
    assert_eq!(v.number, Some((PanelRect { x: 0, y: 3, width: 5, height: 1 }, "   7 ".to_string())));
    assert_eq!(v.text, Some((PanelRect { x: 5, y: 3, width: 15, height: 1 }, "let x = 1;".to_string())));
    assert_eq!(side_by_side_cell_view(area, Some(&cell), false).tone, CellTone::Added);
    let plain = SideBySideCell { lineno: 1, text: "x".to_string(), changed: false };
    assert_eq!(side_by_side_cell_view(area, Some(&plain), true).tone, CellTone::Plain);
    let blank = side_by_side_cell_view(area, None, true);
    assert_eq!(blank.tone, CellTone::Blank);
    assert!(blank.number.is_none() && blank.text.is_none());
    let tiny = side_by_side_cell_view(PanelRect { x: 0, y: 0, width: 3, height: 1 }, Some(&plain), false);
    assert_eq!(tiny.number.unwrap().0.width, 3);
    assert_eq!(tiny.text.unwrap().0, PanelRect { x: 3, y: 0, width: 0, height: 1 });
}

#[test]
fn the_body_puts_messages_on_its_first_row_and_row_k_on_row_k() {
    let body = PanelRect { x: 2, y: 3, width: 20, height: 4 };
    match git_diff_overlay_body_view(body, &OverlayBody::Message(" loading…".into(), false)) {
        OverlayBodyView::Message(r, t, err) => {
            assert_eq!(r, PanelRect { x: 2, y: 3, width: 20, height: 1 });
            assert_eq!(t, " loading…");
            assert!(!err);
        }
        _ => panic!("expected a message"),
    }
    assert!(matches!(git_diff_overlay_body_view(body, &OverlayBody::Blank), OverlayBodyView::Blank));

    let lines: Vec<GitDiffLine> = vec![
        line(GitDiffLineKind::Context, Some(7), Some(7), "same"),
        line(GitDiffLineKind::Deletion, Some(8), None, "gone"),
    ];
    let diff = GitFileDiff { hunks: vec![GitDiffHunk { old_start: 7, new_start: 7, lines }], binary: false };
    let (_, content) = git_diff_overlay_content(&overlay(Some(diff), false, None), 4);
    match git_diff_overlay_body_view(body, &content) {
        OverlayBodyView::Rows(rows) => {
            assert_eq!(rows.len(), 2);
            assert_eq!(rows[0].left_area, PanelRect { x: 2, y: 3, width: 10, height: 1 });
            assert_eq!(rows[0].right_area, PanelRect { x: 12, y: 3, width: 10, height: 1 });
            assert_eq!(rows[1].left_area.y, 4);
            assert_eq!(rows[0].left.tone, CellTone::Plain);
            assert_eq!(rows[1].left.tone, CellTone::Removed);
            assert_eq!(rows[1].right.tone, CellTone::Blank);
            assert_eq!(rows[1].left.text.as_ref().unwrap().1, "gone");
            assert_eq!(rows[1].left.number.as_ref().unwrap().1, "   8 ");
        }
        _ => panic!("expected rows"),
    }
    let empty = PanelRect { x: 0, y: 0, width: 0, height: 0 };
    assert!(matches!(git_diff_overlay_body_view(empty, &OverlayBody::Blank), OverlayBodyView::Blank));
}
