use herdr::lists::GitListEntry;
use herdr::panel_view::PanelRect;
use herdr::picker::{GitPickerKind, GitPickerState, SelectionListState};
use herdr::picker_view::{
    render_git_branch_create_overlay, render_git_picker_body, render_git_picker_overlay,
    ClientGitPickerOverlay, ModalStack, PickerBody,
};

fn client(loading: bool, error: Option<&str>, labels: &[&str], selected: usize) -> ClientGitPickerOverlay {
    ClientGitPickerOverlay {
        title: "switch branch".to_string(),
        loading,
        error: error.map(str::to_string),
        labels: labels.iter().map(|l| l.to_string()).collect(),
        selected,
    }
}

const INNER: PanelRect = PanelRect { x: 10, y: 5, width: 30, height: 6 };

#[test]
fn client_picker_lists_entries_below_the_title() {
    let view = render_git_picker_overlay(&client(false, None, &["main", "dev", "a", "b", "c"], 1), INNER).unwrap();
    assert_eq!(view.title, "switch branch");
    assert_eq!(view.title_rect, PanelRect { x: 10, y: 5, width: 30, height: 1 });
    match view.body {
        PickerBody::Rows(rows) => {
            assert_eq!(rows.len(), 4);
            assert_eq!(rows[0].rect, PanelRect { x: 10, y: 7, width: 30, height: 1 });
            assert_eq!(rows[0].text, " main");
            assert!(!rows[0].selected);
            assert!(rows[1].selected);
            assert_eq!(rows[3].text, " b");
        }
        other => panic!("unexpected {other:?}"),
    }
}

#[test]
fn client_picker_shows_loading_errors_and_empty_lists() {
    let message = |p: ClientGitPickerOverlay| match render_git_picker_overlay(&p, INNER).unwrap().body {
        PickerBody::Message(t, error) => (t, error),
        other => panic!("unexpected {other:?}"),
    };
    assert_eq!(message(client(true, Some("x"), &["main"], 0)), (" loading…".to_string(), false));
    assert_eq!(message(client(false, Some("not a repo"), &["main"], 0)), (" not a repo".to_string(), true));
    assert_eq!(message(client(false, None, &[], 0)), (" nothing to choose from".to_string(), false));
    assert!(render_git_picker_overlay(&client(false, None, &[], 0), PanelRect { x: 0, y: 0, width: 9, height: 10 }).is_none());
    assert!(render_git_picker_overlay(&client(false, None, &[], 0), PanelRect { x: 0, y: 0, width: 20, height: 3 }).is_none());
}

fn picker(entries: &[&str], selected: usize, loading: bool, error: Option<&str>) -> GitPickerState {
    GitPickerState {
        kind: GitPickerKind::SwitchBranch,
        generation: 1,
        repo_root: "/repo".to_string(),
        entries: entries
            .iter()
            .map(|e| GitListEntry { value: e.to_string(), label: e.to_string() })
            .collect(),
        selected: SelectionListState::new(selected),
        loading,
        error: error.map(str::to_string),
    }
}

fn stack(height: u16, footer: bool) -> ModalStack {
    ModalStack {
        header: PanelRect { x: 1, y: 1, width: 20, height: 1 },
        content: PanelRect { x: 1, y: 3, width: 20, height },
        footer: if footer { Some(PanelRect { x: 1, y: 9, width: 20, height: 1 }) } else { None },
    }
}

#[test]
fn server_picker_keeps_the_highlighted_entry_on_screen() {
    let p = picker(&["a", "b", "c", "d", "e", "f"], 4, false, None);
    let view = render_git_picker_body(&p, "switch branch", "no branches", stack(3, true));
    assert_eq!(view.title, " switch branch");
    assert!(view.message.is_none());
    let labels: Vec<&str> = view.rows.iter().map(|r| r.label.as_str()).collect();
    assert_eq!(labels, vec!["c", "d", "e"]);
    assert!(view.rows[2].selected);
    assert_eq!(view.rows[0].rect, PanelRect { x: 1, y: 3, width: 20, height: 1 });
    assert_eq!(view.rows[0].label_budget, 19);
    let (rect, text) = view.footer.unwrap();
    assert_eq!(rect.y, 9);
    assert_eq!(text, " enter apply   esc cancel   ↑/↓ move");

    let top = render_git_picker_body(&picker(&["a", "b", "c", "d"], 1, false, None), "t", "none", stack(3, false));
    let labels: Vec<&str> = top.rows.iter().map(|r| r.label.as_str()).collect();
    assert_eq!(labels, vec!["a", "b", "c"]);
    assert!(top.footer.is_none());
}

#[test]
fn server_picker_messages_use_the_error_colour_when_an_error_is_set() {
    let m = |p: GitPickerState| render_git_picker_body(&p, "t", "no stashes", stack(3, true)).message.unwrap();
    assert_eq!(m(picker(&[], 0, true, None)), (" loading…".to_string(), false));
    assert_eq!(m(picker(&[], 0, true, Some("boom"))), (" loading…".to_string(), true));
    assert_eq!(m(picker(&["a"], 0, false, Some("boom"))), (" boom".to_string(), true));
    assert_eq!(m(picker(&[], 0, false, None)), (" no stashes".to_string(), false));
    assert!(render_git_picker_body(&picker(&[], 0, true, None), "t", "x", stack(0, true)).message.is_none());
}

#[test]
fn branch_prompt_shows_placeholder_until_a_name_is_typed() {
    let inner = PanelRect { x: 2, y: 3, width: 40, height: 5 };
    let view = render_git_branch_create_overlay(inner, "").unwrap();
    assert_eq!(view.input, "branch name…");
    assert!(view.placeholder);
    assert_eq!(view.input_rect, PanelRect { x: 2, y: 5, width: 40, height: 1 });
    assert_eq!(view.footer_rect, PanelRect { x: 2, y: 7, width: 40, height: 1 });
    let view = render_git_branch_create_overlay(inner, "feature/x").unwrap();
    assert_eq!(view.input, "feature/x");
    assert!(!view.placeholder);
    assert!(render_git_branch_create_overlay(PanelRect { x: 0, y: 0, width: 40, height: 2 }, "x").is_none());
}
