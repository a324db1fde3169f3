use herdr::client_git::{
    ClientGitFileEntry, ClientGitFileStatus, ClientGitPanelState, ClientGitWorkingTree,
    ClientGitWorkspace, GitSidebarFocus,
};
use herdr::commit_box::display_width;
use herdr::panel_view::{render_git_panel, GitPanelRender, PanelRect, COMMIT_BOX_MESSAGE_ROWS};

/// Paints the text runs into a character grid the way the terminal buffer clips them, and
/// returns every cell's symbol in row order.
fn buffer_text(area: PanelRect, render: &GitPanelRender) -> String {
    let mut grid = vec![vec![' '; area.width as usize]; area.height as usize];
    for t in &render.texts {
        if t.width == 0 || t.y >= area.y + area.height || t.x >= area.x + area.width {
            continue;
        }
        let row = (t.y - area.y) as usize;
        let mut col = (t.x - area.x) as usize;
        let limit = col + t.width as usize;
        for c in t.text.chars() {
            if col >= limit || col >= area.width as usize {
                break;
            }
            grid[row][col] = c;
            col += 1;
        }
    }
    grid.into_iter().map(|r| r.into_iter().collect::<String>()).collect()
}

fn symbol_at(area: PanelRect, render: &GitPanelRender, x: u16, y: u16) -> char {
    let text = buffer_text(area, render);
    let row: Vec<char> = text.chars().collect();
    row[((y - area.y) as usize) * area.width as usize + (x - area.x) as usize]
}

fn workspace(git_repo: bool, git_working_tree: Option<ClientGitWorkingTree>) -> ClientGitWorkspace {
    ClientGitWorkspace {
        workspace_id: "w1".into(),
        git_repo,
        branch: Some("main".into()),
        git_ahead_behind: Some((2, 1)),
        git_working_tree,
    }
}

fn file(path: &str, status: ClientGitFileStatus) -> ClientGitFileEntry {
    ClientGitFileEntry { path: path.into(), original_path: None, status }
}

fn empty_tree() -> ClientGitWorkingTree {
    ClientGitWorkingTree { staged: Vec::new(), unstaged: Vec::new() }
}

fn panel() -> ClientGitPanelState {
    ClientGitPanelState::default()
}

#[test]
fn no_focused_workspace_shows_placeholder() {
    let area = PanelRect::new(0, 0, 30, 10);
    let render = render_git_panel(area, None, &panel());
    assert!(render.hits.is_empty());
    assert!(buffer_text(area, &render).contains("no focused workspace"));
}

#[test]
fn non_git_workspace_shows_placeholder() {
    let area = PanelRect::new(0, 0, 30, 10);
    let ws = workspace(false, None);
    let render = render_git_panel(area, Some(&ws), &panel());
    assert!(render.hits.is_empty());
    assert!(buffer_text(area, &render).contains("not a git repository"));
}

#[test]
fn placeholders_do_not_read_the_commit_cursor() {
    // A cursor past the end of the draft is never looked at where no commit box is drawn.
    let mut p = panel();
    p.commit_message = "é".into();
    p.commit_cursor = 1;
    let area = PanelRect::new(0, 0, 30, 10);
    let render = render_git_panel(area, None, &p);
    assert!(buffer_text(area, &render).contains("no focused workspace"));
    let ws = workspace(false, None);
    let render = render_git_panel(area, Some(&ws), &p);
    assert!(buffer_text(area, &render).contains("not a git repository"));
    let render = render_git_panel(PanelRect::new(0, 0, 0, 0), Some(&ws), &p);
    assert!(render.texts.is_empty() && render.hits.is_empty() && render.commit_box == PanelRect::new(0, 0, 0, 0));
    // A git workspace in an area too short for the commit box's message rows.
    let ws = workspace(true, None);
    let render = render_git_panel(PanelRect::new(0, 0, 30, 1), Some(&ws), &p);
    assert!(render.message_area.is_none() && render.cursor.is_none());
}

#[test]
fn pending_demand_shows_loading() {
    let area = PanelRect::new(0, 0, 30, 10);
    let ws = workspace(true, None);
    let render = render_git_panel(area, Some(&ws), &panel());
    assert!(render.hits.is_empty());
    let text = buffer_text(area, &render);
    assert!(text.contains("main"));
    assert!(text.contains("loading"));
}

#[test]
fn empty_working_tree_shows_no_changes() {
    let area = PanelRect::new(0, 0, 30, 10);
    let ws = workspace(true, Some(empty_tree()));
    let render = render_git_panel(area, Some(&ws), &panel());
    assert!(render.hits.is_empty());
    assert!(buffer_text(area, &render).contains("no changes"));
}

#[test]
fn renders_branch_ahead_behind_and_file_rows() {
    let area = PanelRect::new(0, 0, 30, 16);
    let working_tree = ClientGitWorkingTree {
        staged: vec![file("staged.rs", ClientGitFileStatus::Added)],
        unstaged: vec![file("unstaged.rs", ClientGitFileStatus::Modified)],
    };
    let ws = workspace(true, Some(working_tree));
    let render = render_git_panel(area, Some(&ws), &panel());
    let hits = &render.hits;

    let text = buffer_text(area, &render);
    assert!(text.contains("main"));
    assert!(text.contains("↑2"));
    assert!(text.contains("↓1"));
    assert!(text.contains("STAGED CHANGES"));
    assert!(text.contains("staged.rs"));
    assert!(text.contains("CHANGES"));
    assert!(text.contains("unstaged.rs"));
    assert_eq!(hits.len(), 2);
    assert_eq!(hits[0].1, 0);
    assert_eq!(hits[1].1, 1);
    assert!(hits[0].0.y < hits[1].0.y);
}

#[test]
fn commit_box_hit_rect_sits_below_the_file_rows() {
    let area = PanelRect::new(0, 0, 30, 10);
    let working_tree = ClientGitWorkingTree {
        staged: vec![file("staged.rs", ClientGitFileStatus::Added)],
        unstaged: Vec::new(),
    };
    let ws = workspace(true, Some(working_tree));
    let render = render_git_panel(area, Some(&ws), &panel());
    let commit_box = render.commit_box;

    assert_eq!(commit_box.height, COMMIT_BOX_MESSAGE_ROWS + 1);
    assert_eq!(commit_box.y, area.bottom() - (COMMIT_BOX_MESSAGE_ROWS + 1));
    assert!(render.hits.iter().all(|(rect, _)| rect.y < commit_box.y));
}

#[test]
fn scroll_skips_leading_lines() {
    let area = PanelRect::new(0, 0, 30, 10);
    let working_tree = ClientGitWorkingTree {
        staged: vec![file("staged.rs", ClientGitFileStatus::Added)],
        unstaged: Vec::new(),
    };
    let ws = workspace(true, Some(working_tree));

    let no_scroll = render_git_panel(area, Some(&ws), &panel());
    assert!(buffer_text(area, &no_scroll).contains("STAGED CHANGES"));

    let scrolled_state = ClientGitPanelState { selected: 0, scroll: 1, ..panel() };
    let scrolled = render_git_panel(area, Some(&ws), &scrolled_state);
    let text = buffer_text(area, &scrolled);
    assert!(!text.contains("STAGED CHANGES"));
    assert!(text.contains("staged.rs"));
    assert_eq!(scrolled.hits.len(), 1);
}

#[test]
fn commit_box_shows_the_full_wrapped_message_not_just_the_first_line() {
    let area = PanelRect::new(0, 0, 30, 15);
    let ws = workspace(true, Some(empty_tree()));
    let state = ClientGitPanelState {
        commit_message: "first line\nsecond line\nthird line".into(),
        ..panel()
    };
    let render = render_git_panel(area, Some(&ws), &state);
    let text = buffer_text(area, &render);
    assert!(text.contains("first line"));
    assert!(text.contains("second line"));
    assert!(text.contains("third line"));
    assert!(!text.contains("(+2)"));
}

#[test]
fn commit_box_height_is_fixed_regardless_of_message_length() {
    let area = PanelRect::new(0, 0, 30, 20);
    let ws = workspace(true, Some(empty_tree()));

    let short = ClientGitPanelState { commit_message: "short".into(), ..panel() };
    let short_box = render_git_panel(area, Some(&ws), &short).commit_box;

    let long = ClientGitPanelState {
        commit_message: "one two three four five six seven eight nine ten eleven twelve \
                         thirteen fourteen fifteen sixteen"
            .into(),
        ..panel()
    };
    let long_box = render_git_panel(area, Some(&ws), &long).commit_box;

    assert_eq!(short_box.height, COMMIT_BOX_MESSAGE_ROWS + 1);
    assert_eq!(long_box.height, COMMIT_BOX_MESSAGE_ROWS + 1);
}

#[test]
fn commit_box_scrolls_to_show_the_tail_of_a_message_taller_than_the_box() {
    let area = PanelRect::new(0, 0, 30, 20);
    let ws = workspace(true, Some(empty_tree()));
    let message = "one\ntwo\nthree\nfour\nfive\nsix\nseven\neight";
    let state = ClientGitPanelState {
        commit_message: message.into(),
        commit_cursor: message.len(),
        ..panel()
    };
    let render = render_git_panel(area, Some(&ws), &state);
    let text = buffer_text(area, &render);
    assert!(!text.contains("one"));
    assert!(!text.contains("two"));
    assert!(!text.contains("three"));
    assert!(text.contains("four"));
    assert!(text.contains("eight"));
}

#[test]
fn empty_commit_box_shows_placeholder_text() {
    let area = PanelRect::new(0, 0, 30, 10);
    let ws = workspace(true, Some(empty_tree()));
    let render = render_git_panel(area, Some(&ws), &panel());
    assert!(buffer_text(area, &render).contains("Message…"));
}

#[test]
fn focused_commit_box_draws_a_cursor_after_the_text() {
    let area = PanelRect::new(0, 0, 30, 10);
    let ws = workspace(true, Some(empty_tree()));
    let state = ClientGitPanelState {
        commit_message: "hi".into(),
        commit_cursor: 2,
        focus: GitSidebarFocus::CommitBox,
        ..panel()
    };
    let render = render_git_panel(area, Some(&ws), &state);
    let commit_box = render.commit_box;

    let message_y = commit_box.y + 1;
    let cursor_x = area.x + 1 + display_width("hi");
    assert_eq!(render.cursor, Some((cursor_x, message_y)));
}

#[test]
fn commit_box_scrolls_up_to_reveal_a_cursor_earlier_in_a_long_message() {
    let area = PanelRect::new(0, 0, 30, 20);
    let ws = workspace(true, Some(empty_tree()));
    let message = "one\ntwo\nthree\nfour\nfive\nsix\nseven\neight";
    let state = ClientGitPanelState {
        commit_message: message.into(),
        commit_cursor: 0,
        focus: GitSidebarFocus::CommitBox,
        ..panel()
    };
    let render = render_git_panel(area, Some(&ws), &state);
    let text = buffer_text(area, &render);
    assert!(text.contains("one"));
    assert!(text.contains("two"));
    assert!(!text.contains("eight"));
}

#[test]
fn file_row_shows_the_name_first_and_the_status_glyph_at_the_right_edge() {
    let area = PanelRect::new(0, 0, 30, 10);
    let working_tree = ClientGitWorkingTree {
        staged: vec![file("staged.rs", ClientGitFileStatus::Added)],
        unstaged: Vec::new(),
    };
    let ws = workspace(true, Some(working_tree));
    let render = render_git_panel(area, Some(&ws), &panel());

    let file_row_y = render.hits[0].0.y;
    assert_eq!(symbol_at(area, &render, area.x + 1, file_row_y), 's');
    assert_eq!(symbol_at(area, &render, area.right() - 1, file_row_y), 'A');
}

#[test]
fn selected_row_gets_highlighted_background() {
    let area = PanelRect::new(0, 0, 30, 10);
    let working_tree = ClientGitWorkingTree {
        staged: vec![file("a.rs", ClientGitFileStatus::Added), file("b.rs", ClientGitFileStatus::Added)],
        unstaged: Vec::new(),
    };
    let ws = workspace(true, Some(working_tree));
    let state = ClientGitPanelState { selected: 1, ..panel() };
    let render = render_git_panel(area, Some(&ws), &state);

    let selected_rect = render.hits.iter().find(|(_, index)| *index == 1).unwrap().0;
    let other_rect = render.hits.iter().find(|(_, index)| *index == 0).unwrap().0;
    assert_eq!(render.highlight, Some(selected_rect));
    assert_ne!(render.highlight, Some(other_rect));
}

#[test]
fn a_pending_discard_replaces_the_error_line() {
    let area = PanelRect::new(0, 0, 30, 12);
    let ws = workspace(true, Some(empty_tree()));
    let state = ClientGitPanelState {
        pending_discard: Some("f.rs".into()),
        last_error: Some("boom".into()),
        ..panel()
    };
    let text = buffer_text(area, &render_git_panel(area, Some(&ws), &state));
    assert!(text.contains("discard f.rs? (y/n)"));
    assert!(!text.contains("boom"));
    let detached = ClientGitWorkspace { branch: None, git_ahead_behind: None, ..ws };
    let text = buffer_text(area, &render_git_panel(area, Some(&detached), &panel()));
    assert!(text.contains("(detached)"));
}

#[test]
fn a_tiny_panel_has_no_commit_box() {
    let area = PanelRect::new(0, 0, 30, 1);
    let ws = workspace(true, Some(empty_tree()));
    let render = render_git_panel(area, Some(&ws), &panel());
    assert_eq!(render.commit_box, PanelRect::empty());
    assert_eq!(render.texts.len(), 1);
    let empty = render_git_panel(PanelRect::new(0, 0, 0, 5), Some(&ws), &panel());
    assert!(empty.texts.is_empty());
}
