use herdr::panel_view::PanelRect;
use herdr::prefix_hint::{
    fit_prefix_hint_columns, layout_prefix_hint_panel, pad_prefix_hint_cell,
    prefix_hint_cell_width, prefix_hint_columns, render_prefix_hint_lines,
    render_prefix_hint_panel, panel_frame_glyph, prefix_hint_panel_shell, HintMeasure, HintStyle, PrefixHintGroup, PrefixHintTimer,
};

fn group(title: &str, entries: &[(&str, &str)]) -> PrefixHintGroup {
    PrefixHintGroup {
        title: title.to_string(),
        entries: entries.iter().map(|(k, l)| (k.to_string(), l.to_string())).collect(),
    }
}

fn groups() -> Vec<PrefixHintGroup> {
    vec![
        group("panes", &[("prefix+v", "split vertical"), ("prefix+s", "split horizontal")]),
        group("tabs", &[("prefix+c", "new tab")]),
    ]
}

#[test]
fn columns_are_sized_to_their_widest_entry_and_long_groups_wrap() {
    let columns = prefix_hint_columns(&groups(), 12, HintMeasure::Columns);
    assert_eq!(columns.len(), 2);
    assert_eq!(columns[0].title, "panes");
    assert_eq!(columns[0].width, 26);
    assert_eq!(columns[0].entries.len(), 2);
    assert_eq!(columns[1].title, "tabs");
    assert_eq!(columns[1].width, 17);

    // One row per column: the group continues untitled, each part sized on its own.
    let columns = prefix_hint_columns(&groups(), 1, HintMeasure::Columns);
    assert_eq!(columns.len(), 3);
    assert_eq!((columns[0].title.as_str(), columns[0].width), ("panes", 24));
    assert_eq!((columns[1].title.as_str(), columns[1].width), ("", 26));
    assert_eq!(columns[1].entries[0].0, "prefix+s");
    assert_eq!((columns[2].title.as_str(), columns[2].width), ("tabs", 17));

    // A row limit of zero still lays out one entry per column.
    assert_eq!(prefix_hint_columns(&groups(), 0, HintMeasure::Columns).len(), 3);

    // Narrow entries still get the minimum column width; an empty group has no column.
    let small = vec![group("x", &[("a", "b")]), group("empty", &[])];
    let columns = prefix_hint_columns(&small, 12, HintMeasure::Chars);
    assert_eq!(columns.len(), 1);
    assert_eq!(columns[0].width, 14);
}

#[test]
fn wide_characters_count_as_two_columns_but_one_character() {
    let wide = vec![group("t", &[("全角", "abcdefghij")])];
    assert_eq!(prefix_hint_columns(&wide, 12, HintMeasure::Columns)[0].width, 16);
    assert_eq!(prefix_hint_columns(&wide, 12, HintMeasure::Chars)[0].width, 14);
}

#[test]
fn only_whole_columns_that_fit_are_kept() {
    let columns = prefix_hint_columns(&groups(), 1, HintMeasure::Columns);
    let fitted = fit_prefix_hint_columns(columns.clone(), 30);
    assert_eq!(fitted.len(), 1);
    // 24 + (26 + 2) = 52 fits exactly; the third column would need 19 more.
    let fitted = fit_prefix_hint_columns(columns.clone(), 52);
    assert_eq!(fitted.len(), 2);
    assert_eq!(fit_prefix_hint_columns(columns.clone(), 71).len(), 3);
    assert!(fit_prefix_hint_columns(columns, 23).is_empty());
}

#[test]
fn panel_is_anchored_to_the_bottom_and_lays_out_columns_and_footer() {
    let area = PanelRect { x: 0, y: 0, width: 120, height: 30 };
    let panel = render_prefix_hint_panel(area, &groups(), "ctrl+b").unwrap();
    assert_eq!(panel.rect, PanelRect { x: 0, y: 23, width: 120, height: 7 });
    assert_eq!(panel.inner, PanelRect { x: 1, y: 24, width: 118, height: 5 });
    assert_eq!(panel.columns.len(), 2);

    let texts: Vec<(u16, u16, u16, &str, HintStyle)> = panel
        .texts
        .iter()
        .map(|t| (t.x, t.y, t.width, t.text.as_str(), t.style))
        .collect();
    assert_eq!(
        texts,
        vec![
            (2, 23, 116, " PREFIX ", HintStyle::Key),
            (1, 24, 26, "panes", HintStyle::Title),
            (1, 25, 8, "prefix+v", HintStyle::Key),
            (9, 25, 18, "  split vertical", HintStyle::Dim),
            (1, 26, 8, "prefix+s", HintStyle::Key),
            (9, 26, 18, "  split horizontal", HintStyle::Dim),
            (29, 24, 17, "tabs", HintStyle::Title),
            (29, 25, 8, "prefix+c", HintStyle::Key),
            (37, 25, 9, "  new tab", HintStyle::Dim),
            (1, 28, 3, "esc", HintStyle::Key),
            (4, 28, 10, " cancel   ", HintStyle::Dim),
            (14, 28, 6, "ctrl+b", HintStyle::Key),
            (20, 28, 12, " send prefix", HintStyle::Dim),
        ]
    );
}

#[test]
fn panel_is_skipped_when_it_cannot_fit() {
    let groups = groups();
    assert!(render_prefix_hint_panel(PanelRect { x: 0, y: 0, width: 120, height: 5 }, &groups, "ctrl+b").is_none());
    assert!(render_prefix_hint_panel(PanelRect { x: 0, y: 0, width: 15, height: 30 }, &groups, "ctrl+b").is_none());
    // 16 columns leave 14 inside the border: less than the first column's 26.
    assert!(render_prefix_hint_panel(PanelRect { x: 0, y: 0, width: 16, height: 30 }, &groups, "ctrl+b").is_none());
    assert!(render_prefix_hint_panel(PanelRect { x: 0, y: 0, width: 120, height: 30 }, &Vec::new(), "ctrl+b").is_none());
}

#[test]
fn a_short_area_limits_the_rows_per_column() {
    // Six rows leave one for entries: each entry gets its own column.
    let area = PanelRect { x: 0, y: 0, width: 120, height: 6 };
    let panel = render_prefix_hint_panel(area, &groups(), "ctrl+b").unwrap();
    assert_eq!(panel.rect, PanelRect { x: 0, y: 0, width: 120, height: 6 });
    assert_eq!(panel.columns.len(), 3);
    assert_eq!(panel.columns[1].title, "");
}

#[test]
fn cells_are_padded_or_cut_to_their_width() {
    assert_eq!(pad_prefix_hint_cell("panes", 8), "panes   ");
    assert_eq!(pad_prefix_hint_cell("panes", 3), "pan");
    assert_eq!(pad_prefix_hint_cell("", 2), "  ");
    assert_eq!(pad_prefix_hint_cell("ab", 2), "ab");
    assert_eq!(prefix_hint_cell_width(14, false), 16);
    assert_eq!(prefix_hint_cell_width(14, true), 14);
}

fn line_text(line: &[(String, HintStyle)]) -> String {
    line.iter().map(|(t, _)| t.as_str()).collect()
}

#[test]
fn server_panel_writes_titles_padded_rows_and_footer() {
    let area = PanelRect { x: 0, y: 0, width: 120, height: 30 };
    let panel = render_prefix_hint_lines(area, &groups(), "ctrl+b", "?").unwrap();
    assert_eq!(panel.rect, PanelRect { x: 0, y: 23, width: 120, height: 7 });
    assert_eq!(panel.name_rect, Some(PanelRect { x: 2, y: 23, width: 116, height: 1 }));
    assert_eq!(panel.lines.len(), 5);
    // Columns are 26 (+2 gap) and 17 wide.
    assert_eq!(line_text(&panel.lines[0]), format!("{:<28}{:<17}", "panes", "tabs"));
    assert_eq!(line_text(&panel.lines[1]), format!("{:<28}{}", "prefix+v  split vertical", "prefix+c  new tab"));
    // The last column adds nothing on a row it has no entry for.
    assert_eq!(line_text(&panel.lines[2]), format!("{:<28}", "prefix+s  split horizontal"));
    assert!(panel.lines[3].is_empty());
    assert_eq!(line_text(&panel.lines[4]), "esc cancel   ctrl+b send prefix   ? all keybinds");
    assert_eq!(panel.lines[4][4], ("?".to_string(), HintStyle::Key));
    assert_eq!(panel.lines[1][2].1, HintStyle::Plain);

    let (rect, columns, rows) = layout_prefix_hint_panel(area, &groups(), HintMeasure::Chars).unwrap();
    assert_eq!((rect.height, columns.len(), rows), (7, 2, 2));
    assert!(render_prefix_hint_lines(PanelRect { x: 0, y: 0, width: 120, height: 5 }, &groups(), "x", "y").is_none());
}

/// The panel's delay as configured (milliseconds).
const DELAY: u64 = 400;

#[test]
fn prefix_hint_appears_only_after_the_delay() {
    let mut state = PrefixHintTimer::new(Some(DELAY));
    let delay = state.delay_ms.expect("panel enabled by default");
    let start = 10_000;

    assert!(!state.tick_prefix_hint(true, start));
    assert!(!state.visible);
    assert_eq!(state.deadline, Some(start + delay));

    // A second pass before the deadline must not re-arm it.
    assert!(!state.tick_prefix_hint(true, start + delay / 2));
    assert_eq!(state.deadline, Some(start + delay));

    assert!(state.tick_prefix_hint(true, start + delay));
    assert!(state.visible);
    assert_eq!(state.deadline, None);
    // Already visible: nothing left to change.
    assert!(!state.tick_prefix_hint(true, start + delay * 2));
}

#[test]
fn prefix_hint_clears_when_prefix_mode_is_left() {
    let mut state = PrefixHintTimer::new(Some(DELAY));
    let delay = state.delay_ms.expect("panel enabled by default");
    let start = 10_000;

    state.tick_prefix_hint(true, start);
    assert!(state.tick_prefix_hint(true, start + delay));

    assert!(state.tick_prefix_hint(false, start + delay));
    assert!(!state.visible);
    assert_eq!(state.deadline, None);

    // Re-entering prefix mode starts the delay over.
    let reentry = start + delay * 3;
    assert!(!state.tick_prefix_hint(true, reentry));
    assert_eq!(state.deadline, Some(reentry + delay));
}

#[test]
fn prefix_hint_stays_hidden_when_disabled() {
    let mut state = PrefixHintTimer::new(None);
    let now = 10_000;

    assert!(!state.tick_prefix_hint(true, now));
    assert!(!state.visible);
    assert_eq!(state.deadline, None);
    assert!(!state.tick_prefix_hint(true, now + 60_000));
    assert!(!state.visible);
}

#[test]
fn prefix_hint_deadline_wakes_the_loop() {
    let mut state = PrefixHintTimer::new(Some(DELAY));
    let delay = state.delay_ms.expect("panel enabled by default");
    let now = 10_000;

    state.tick_prefix_hint(true, now);

    assert!(state.wake_delay(now).unwrap() <= delay);
    assert_eq!(state.wake_delay(now + delay + 5), Some(0));
}

#[test]
fn the_frame_has_corners_edges_and_an_inner_area() {
    let area = PanelRect { x: 2, y: 3, width: 5, height: 4 };
    assert_eq!(prefix_hint_panel_shell(area), Some(PanelRect { x: 3, y: 4, width: 3, height: 2 }));
    assert!(prefix_hint_panel_shell(PanelRect { x: 0, y: 0, width: 1, height: 4 }).is_none());
    let row = |y: u16| -> String {
        (2..7).map(|x| panel_frame_glyph(area, x, y).unwrap_or(' ')).collect()
    };
    assert_eq!(row(3), "┌───┐");
    assert_eq!(row(4), "│   │");
    assert_eq!(row(6), "└───┘");
}

/// The held-prefix keybindings as the panel lists them: grouped, with the prefix itself
/// dropped from each key (the panel only shows once the prefix is held).
fn held_prefix_groups() -> Vec<PrefixHintGroup> {
    vec![
        group("panes", &[("v", "split vertical"), ("s", "split horizontal")]),
        group("tabs", &[("c", "new tab")]),
    ]
}

/// What a `width` x `height` screen shows once the panel's texts are drawn on it (when the
/// panel is drawn at all), one line per row.
fn drawn(width: u16, height: u16, panel: Option<&herdr::prefix_hint::PrefixHintPanel>) -> String {
    let mut grid = vec![vec![' '; usize::from(width)]; usize::from(height)];
    if let Some(panel) = panel {
        for t in &panel.texts {
            for (i, c) in t.text.chars().take(usize::from(t.width)).enumerate() {
                let x = usize::from(t.x) + i;
                if x < usize::from(width) && t.y < height {
                    grid[usize::from(t.y)][x] = c;
                }
            }
        }
    }
    grid.into_iter().map(|row| row.into_iter().collect::<String>()).collect::<Vec<_>>().join("\n")
}

#[test]
fn prefix_hint_panel_lists_grouped_prefix_keybindings() {
    let mut timer = PrefixHintTimer::new(Some(DELAY));
    timer.tick_prefix_hint(true, 0);
    timer.tick_prefix_hint(true, DELAY);
    assert!(timer.visible);
    let area = PanelRect { x: 0, y: 0, width: 120, height: 29 };
    let panel = render_prefix_hint_panel(area, &held_prefix_groups(), "ctrl+b");
    let rendered = drawn(120, 29, panel.as_ref());

    assert!(rendered.contains("PREFIX"), "{rendered}");
    assert!(rendered.contains("panes"), "{rendered}");
    assert!(rendered.contains("split vertical"), "{rendered}");
    assert!(!rendered.contains("prefix+"), "{rendered}");
    // The way out of the panel stays on screen.
    assert!(rendered.contains("esc cancel"), "{rendered}");
}

#[test]
fn prefix_hint_panel_is_hidden_until_the_delay_elapses() {
    let mut timer = PrefixHintTimer::new(Some(DELAY));
    timer.tick_prefix_hint(true, 0);
    assert!(!timer.visible);
    let area = PanelRect { x: 0, y: 0, width: 120, height: 29 };
    let panel = if timer.visible { render_prefix_hint_panel(area, &held_prefix_groups(), "ctrl+b") } else { None };
    let rendered = drawn(120, 29, panel.as_ref());

    assert!(!rendered.contains("split vertical"), "{rendered}");
}

#[test]
fn prefix_hint_panel_is_skipped_when_it_cannot_fit() {
    // A 40x6 screen less its mode bar row leaves five rows: no room for the frame and a row.
    let area = PanelRect { x: 0, y: 0, width: 40, height: 5 };
    let panel = render_prefix_hint_panel(area, &held_prefix_groups(), "ctrl+b");
    let rendered = drawn(40, 5, panel.as_ref());

    assert!(!rendered.contains("split vertical"), "{rendered}");
}
