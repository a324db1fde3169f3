use herdr::mode_bar::{CopyModeStatus, ModeBarKeys, ModeBarRun};
use herdr::overlay_bars::{
    render_copy_mode_overlay, render_global_launcher_menu, render_navigate_overlay,
    render_prefix_overlay, render_resize_overlay, BottomBar, NavigateKeys,
};
use herdr::panel_view::PanelRect;

fn area(width: u16, height: u16) -> PanelRect {
    PanelRect { x: 0, y: 0, width, height }
}

fn line(runs: &[ModeBarRun], width: usize) -> String {
    let mut row: Vec<char> = vec![' '; width];
    for run in runs {
        for (i, c) in run.text.chars().take(run.max_width as usize).enumerate() {
            let x = run.x as usize + i;
            if x < width {
                row[x] = c;
            }
        }
    }
    row.into_iter().collect::<String>().trim_end().to_string()
}

fn text(bar: &BottomBar) -> String {
    line(&bar.runs, bar.rect.width as usize)
}

fn nav_keys() -> NavigateKeys {
    let k = |s: &str| Some(s.to_string());
    NavigateKeys {
        workspace_up: k("k"),
        workspace_down: k("j"),
        goto: k("g"),
        new_tab: k("c"),
        split_vertical: k("v"),
        split_horizontal: k("-"),
        close_pane: k("x"),
        zoom: k("z"),
        resize: k("r"),
        help: k("?"),
        settings: None,
        detach: k("d"),
    }
}

#[test]
fn navigate_bar_lists_the_pane_keys_and_marks_unset_ones() {
    let (bar, notice) = render_navigate_overlay(area(300, 20), &nav_keys(), false);
    assert_eq!(bar.rect, PanelRect { x: 0, y: 19, width: 300, height: 1 });
    assert!(notice.is_none());
    assert_eq!(
        text(&bar),
        " NAVIGATE  esc back  k / j ws  ⇥ pane  g navigator  c new tab  v split│  - split─  x close  z zoom  r resize  ? keybinds  unset settings  d detach"
    );
}

#[test]
fn navigate_bar_reserves_the_update_notice_at_its_right_edge() {
    let (_, notice) = render_navigate_overlay(PanelRect { x: 4, y: 2, width: 60, height: 10 }, &nav_keys(), true);
    assert_eq!(notice, Some(PanelRect { x: 51, y: 11, width: 13, height: 1 }));
    let (_, notice) = render_navigate_overlay(area(9, 3), &nav_keys(), true);
    assert_eq!(notice, Some(PanelRect { x: 0, y: 2, width: 9, height: 1 }));
}

#[test]
fn prefix_bar_gives_way_to_the_keybinding_panel() {
    let keys = ModeBarKeys { prefix: "ctrl+b".to_string(), workspace_picker: Some("w".to_string()), help: None };
    assert!(render_prefix_overlay(area(80, 10), &keys, true).is_none());
    let bar = render_prefix_overlay(area(80, 10), &keys, false).unwrap();
    assert_eq!(text(&bar), " PREFIX  esc cancel  ctrl+b send prefix  w workspace nav  unset keybinds");
}

#[test]
fn resize_and_copy_bars_sit_on_the_bottom_row() {
    let bar = render_resize_overlay(area(20, 0));
    assert_eq!(bar.rect, PanelRect { x: 0, y: 0, width: 20, height: 1 });
    assert_eq!(text(&bar), " RESIZE   h/l width");

    assert!(render_copy_mode_overlay(area(80, 5), None).is_none());
    let copy = CopyModeStatus {
        search_prompt: None,
        selecting: false,
        search_current_global: Some(0),
        search_total: 4,
        search_query: "x".to_string(),
    };
    let bar = render_copy_mode_overlay(area(200, 5), Some(&copy)).unwrap();
    assert!(text(&bar).contains("n/N repeat 1/4  v/space select  y/enter copy  esc clear  q exit"));
}

#[test]
fn launcher_menu_rows_fill_the_panel_from_the_top() {
    let items = vec![
        ("new workspace".to_string(), false),
        ("update".to_string(), true),
        ("quit".to_string(), false),
    ];
    let inner = PanelRect { x: 5, y: 7, width: 20, height: 2 };
    let rows = render_global_launcher_menu(inner, &items, 1);
    assert_eq!(rows.len(), 2);
    assert_eq!(rows[0].rect, PanelRect { x: 5, y: 7, width: 20, height: 1 });
    assert_eq!(rows[0].text, " new workspace ");
    assert!(!rows[0].selected && !rows[0].badge);
    assert_eq!(rows[1].rect.y, 8);
    assert!(rows[1].selected && rows[1].badge);
    assert_eq!(rows[1].text, " update ");
}
