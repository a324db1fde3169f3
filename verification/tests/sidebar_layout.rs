use herdr::client_git::SidebarSpacesView;
use herdr::panel_view::PanelRect;
use herdr::sidebar_layout::{
    compute_git_commit_box_rects, compute_git_file_row_areas, git_file_list_capacity,
    sidebar_tab_hit_areas,
};
use herdr::worktree_status::{GitFileEntry, GitFileStatusKind};

fn rect(x: u16, y: u16, width: u16, height: u16) -> PanelRect {
    PanelRect { x, y, width, height }
}

fn entry(path: &str, status: GitFileStatusKind) -> GitFileEntry {
    GitFileEntry { path: path.to_string(), original_path: None, status }
}

/// The clickable area of each tab must cover the columns its label is actually drawn on.
#[test]
fn tab_hit_areas_cover_the_columns_their_labels_render_on() {
    let area = rect(0, 0, 26, 1);
    let hits = sidebar_tab_hit_areas(area);
    assert_eq!(hits.len(), 2);

    // " spaces " | " " | " git "  ->  labels at x=1..=6 and x=10..=12.
    let (spaces_view, spaces_rect) = hits[0];
    let (git_view, git_rect) = hits[1];
    assert_eq!(spaces_view, SidebarSpacesView::Spaces);
    assert_eq!(git_view, SidebarSpacesView::Git);

    let covers = |rect: PanelRect, x: u16| x >= rect.x && x < rect.x + rect.width;
    for x in 1..=6 {
        assert!(covers(spaces_rect, x), "spaces label column {x} not covered");
    }
    for x in 10..=12 {
        assert!(covers(git_rect, x), "git label column {x} not covered");
    }
    assert!(
        !covers(spaces_rect, 10),
        "the spaces tab must not swallow clicks on the git label"
    );
}

#[test]
fn tab_hit_areas_are_clamped_to_a_narrow_sidebar() {
    let hits = sidebar_tab_hit_areas(rect(0, 0, 5, 1));
    for (_, rect) in hits {
        assert!(rect.x + rect.width <= 5, "hit area overflows the sidebar");
    }
}

#[test]
fn tab_hit_areas_are_exact_and_empty_without_room() {
    let hits = sidebar_tab_hit_areas(rect(2, 4, 26, 1));
    assert_eq!(hits, vec![
        (SidebarSpacesView::Spaces, rect(2, 4, 8, 1)),
        (SidebarSpacesView::Git, rect(11, 4, 5, 1)),
    ]);
    assert_eq!(sidebar_tab_hit_areas(rect(0, 0, 5, 1)), vec![(SidebarSpacesView::Spaces, rect(0, 0, 5, 1))]);
    assert_eq!(sidebar_tab_hit_areas(rect(0, 0, 11, 1)), vec![
        (SidebarSpacesView::Spaces, rect(0, 0, 8, 1)),
        (SidebarSpacesView::Git, rect(9, 0, 2, 1)),
    ]);
    assert!(sidebar_tab_hit_areas(rect(0, 0, 0, 1)).is_empty());
    assert!(sidebar_tab_hit_areas(rect(0, 0, 10, 0)).is_empty());
}

#[test]
fn commit_box_sits_below_the_branch_row_with_its_button_right_aligned() {
    let (box_rect, submit) = compute_git_commit_box_rects(rect(0, 0, 30, 20));
    assert_eq!(box_rect, rect(0, 1, 30, 5));
    assert_eq!(submit, rect(21, 4, 8, 1));

    // A short panel clips the box; under three rows there is no button.
    let (box_rect, submit) = compute_git_commit_box_rects(rect(3, 2, 30, 3));
    assert_eq!(box_rect, rect(3, 3, 30, 2));
    assert_eq!(submit, rect(0, 0, 0, 0));

    // A narrow box shrinks the button to the width less two.
    let (_, submit) = compute_git_commit_box_rects(rect(0, 0, 6, 10));
    assert_eq!(submit, rect(1, 4, 4, 1));

    assert_eq!(compute_git_commit_box_rects(rect(0, 0, 30, 1)), (rect(0, 0, 0, 0), rect(0, 0, 0, 0)));
    assert_eq!(compute_git_commit_box_rects(rect(0, 0, 0, 10)), (rect(0, 0, 0, 0), rect(0, 0, 0, 0)));
}

#[test]
fn file_list_capacity_leaves_room_for_both_section_headers() {
    assert_eq!(git_file_list_capacity(rect(0, 0, 30, 30)), 22);
    assert_eq!(git_file_list_capacity(rect(0, 5, 30, 8)), 0);
    assert_eq!(git_file_list_capacity(rect(0, 0, 30, 4)), 0);
}

#[test]
fn untracked_file_rows_have_no_discard_target() {
    let unstaged = vec![
        entry("tracked.rs", GitFileStatusKind::Modified),
        entry("untracked.rs", GitFileStatusKind::Untracked),
    ];
    let rows = compute_git_file_row_areas(&[], &unstaged, 0, rect(0, 0, 40, 30));
    assert_eq!(rows.len(), 2);

    let kept = &rows[0];
    assert_eq!(kept.path, "tracked.rs");
    assert!(kept.can_discard);
    assert_eq!(kept.discard_rect, rect(37, 8, 3, 1));
    assert_eq!(kept.stage_toggle_rect, rect(34, 8, 3, 1));

    let loose = &rows[1];
    assert_eq!(loose.path, "untracked.rs");
    assert!(!loose.can_discard);
    assert_eq!(loose.discard_rect.width, 0);
    assert_eq!(loose.stage_toggle_rect, rect(34, 9, 3, 1));
}

#[test]
fn staged_rows_come_first_under_their_own_header() {
    let staged = vec![entry("staged.rs", GitFileStatusKind::Added)];
    let unstaged = vec![entry("changed.rs", GitFileStatusKind::Modified)];
    let rows = compute_git_file_row_areas(&staged, &unstaged, 0, rect(0, 0, 30, 20));
    assert_eq!(rows.len(), 2);
    assert_eq!(rows[0].path, "staged.rs");
    assert!(rows[0].staged);
    assert!(!rows[0].can_discard);
    assert_eq!(rows[0].row_rect, rect(0, 7, 30, 1));
    assert_eq!(rows[0].discard_rect, rect(0, 0, 0, 0));
    assert_eq!(rows[1].path, "changed.rs");
    assert!(!rows[1].staged);
    assert_eq!(rows[1].row_rect, rect(0, 9, 30, 1));
}

#[test]
fn scrolled_file_rows_start_at_the_offset_and_stop_at_the_bottom() {
    let unstaged: Vec<GitFileEntry> = (0..40)
        .map(|i| entry(&format!("file_{i:02}.rs"), GitFileStatusKind::Modified))
        .collect();
    let area = rect(0, 0, 30, 20);
    let top = compute_git_file_row_areas(&[], &unstaged, 0, area);
    assert_eq!(top.len(), 12);
    assert_eq!(top[0].path, "file_00.rs");
    assert_eq!(top[11].row_rect.y, 19);

    // Scrolling into the unstaged section drops its header row too.
    let scrolled = compute_git_file_row_areas(&[], &unstaged, 30, area);
    assert_eq!(scrolled.len(), 10);
    assert_eq!(scrolled[0].path, "file_30.rs");
    assert_eq!(scrolled[0].row_rect.y, 7);
    assert_eq!(scrolled[9].path, "file_39.rs");

    // Nothing fits when the list starts below the panel.
    assert!(compute_git_file_row_areas(&[], &unstaged, 0, rect(0, 0, 30, 6)).is_empty());
}
