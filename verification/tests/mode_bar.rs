use herdr::mode_bar::{
    mode_bar_segments, render_mode_bar, ClientShellMode, CopyModeStatus, CopySearchDirection,
    CopySearchPrompt, ModeBarKeys, ModeBarRender, ModeBarStyle,
};
use herdr::panel_view::PanelRect;

fn keys() -> ModeBarKeys {
    ModeBarKeys {
        prefix: "ctrl+b".to_string(),
        workspace_picker: Some("w".to_string()),
        help: Some("?".to_string()),
    }
}

fn area(width: u16, height: u16) -> PanelRect {
    PanelRect { x: 0, y: 0, width, height }
}

/// Paints the bar's runs the way the terminal buffer does (one column per character here).
fn bar_text(render: &ModeBarRender) -> String {
    let mut row: Vec<char> = vec![' '; render.bar.width as usize];
    let runs = render.runs.iter().chain(render.update_badge.iter());
    for run in runs {
        for (i, c) in run.text.chars().take(run.max_width as usize).enumerate() {
            let x = (run.x - render.bar.x) as usize + i;
            if x < row.len() {
                row[x] = c;
            }
        }
    }
    row.into_iter().collect()
}

fn texts(segments: &[(String, ModeBarStyle)]) -> Vec<&str> {
    segments.iter().map(|(t, _)| t.as_str()).collect()
}

#[test]
fn sidebar_git_mode_bar_shows_commit_and_generate_shortcuts() {
    let bar = render_mode_bar(area(200, 10), ClientShellMode::SidebarGit, None, None, false, true, &keys())
        .unwrap();
    assert!(bar.reported);
    let text = bar_text(&bar);
    assert!(text.contains("ctrl+enter"));
    assert!(text.contains("commit"));
    assert!(text.contains("ctrl+g"));
    assert!(text.contains("generate"));
}

#[test]
fn sidebar_git_mode_bar_hides_generate_when_unsupported() {
    let bar = render_mode_bar(area(200, 10), ClientShellMode::SidebarGit, None, None, false, false, &keys())
        .unwrap();
    let text = bar_text(&bar);
    assert!(text.contains("ctrl+enter"));
    assert!(!text.contains("ctrl+g"));
}

#[test]
fn terminal_mode_shows_no_bar_unless_an_endpoint_error_is_pending() {
    assert!(render_mode_bar(area(80, 10), ClientShellMode::Terminal, None, None, true, true, &keys()).is_none());
    assert!(render_mode_bar(area(0, 10), ClientShellMode::Navigate, None, None, false, true, &keys()).is_none());
    assert!(render_mode_bar(area(80, 0), ClientShellMode::Navigate, None, None, false, true, &keys()).is_none());

    let bar = render_mode_bar(
        PanelRect { x: 2, y: 3, width: 40, height: 10 },
        ClientShellMode::Terminal,
        None,
        Some("connection lost"),
        false,
        true,
        &keys(),
    )
    .unwrap();
    assert_eq!(bar.bar, PanelRect { x: 2, y: 12, width: 40, height: 1 });
    assert_eq!(bar.runs.len(), 2);
    assert_eq!(bar.runs[0].text, " ERROR ");
    assert_eq!(bar.runs[0].style, ModeBarStyle::Mode);
    assert_eq!(bar.runs[0].x, 2);
    assert_eq!(bar.runs[1].text, " connection lost");
    assert_eq!(bar.runs[1].x, 9);
    assert_eq!(bar.runs[1].max_width, 33);
}

#[test]
fn prefix_mode_quotes_the_configured_keys_and_marks_unset_bindings() {
    let segments = mode_bar_segments(ClientShellMode::Prefix, None, None, true, &keys()).unwrap();
    assert_eq!(
        texts(&segments),
        vec![" PREFIX ", " ", "esc", " cancel  ", "ctrl+b", " send prefix  ", "w", " workspace nav  ", "?", " keybinds"]
    );
    let unset = ModeBarKeys { prefix: "ctrl+a".to_string(), workspace_picker: None, help: None };
    let segments = mode_bar_segments(ClientShellMode::Prefix, None, None, true, &unset).unwrap();
    assert_eq!(segments[6].0, "unset");
    assert_eq!(segments[8].0, "unset");
    assert_eq!(segments[4], ("ctrl+a".to_string(), ModeBarStyle::Key));
}

#[test]
fn copy_mode_reports_search_position_selection_and_exit_keys() {
    let idle = CopyModeStatus {
        search_prompt: None,
        selecting: false,
        search_current_global: None,
        search_total: 0,
        search_query: String::new(),
    };
    let segments = mode_bar_segments(ClientShellMode::Copy, Some(&idle), None, true, &keys()).unwrap();
    assert_eq!(segments.len(), 14);
    assert_eq!(segments[7].0, " repeat  ");
    assert_eq!(segments[9].0, " select  ");
    assert_eq!(segments[12].0, "q/esc");
    assert_eq!(segments[13].0, " exit");

    let searching = CopyModeStatus {
        search_prompt: None,
        selecting: true,
        search_current_global: Some(2),
        search_total: 7,
        search_query: "foo".to_string(),
    };
    let segments = mode_bar_segments(ClientShellMode::Copy, Some(&searching), None, true, &keys()).unwrap();
    assert_eq!(segments[7].0, " repeat 3/7  ");
    assert_eq!(segments[9].0, " selecting  ");
    assert_eq!(segments[12].0, "esc");
    assert_eq!(segments[13].0, " clear  q exit");

    let no_match = CopyModeStatus { search_current_global: None, selecting: false, ..searching.clone() };
    let segments = mode_bar_segments(ClientShellMode::Copy, Some(&no_match), None, true, &keys()).unwrap();
    assert_eq!(segments[7].0, " repeat 0/0  ");

    let prompt = CopyModeStatus {
        search_prompt: Some(CopySearchPrompt { direction: CopySearchDirection::Backward, query: "ab".to_string() }),
        ..idle.clone()
    };
    let segments = mode_bar_segments(ClientShellMode::Copy, Some(&prompt), None, true, &keys()).unwrap();
    assert_eq!(texts(&segments), vec![" COPY ", " ", "?", "ab", "█", "  enter search  esc cancel"]);
    assert_eq!(segments[3].1, ModeBarStyle::Query);

    // Copy mode without its state paints a blank bar and reports none.
    let bar = render_mode_bar(area(80, 10), ClientShellMode::Copy, None, None, false, true, &keys()).unwrap();
    assert!(!bar.reported);
    assert!(bar.runs.is_empty());
    assert!(mode_bar_segments(ClientShellMode::Copy, None, None, true, &keys()).is_none());
}

#[test]
fn segments_are_clipped_at_the_right_edge_of_a_narrow_bar() {
    let bar = render_mode_bar(area(12, 5), ClientShellMode::Resize, None, None, false, true, &keys()).unwrap();
    // " RESIZE " (8) + "  " (2) + "h/l" clipped to 2.
    assert_eq!(bar.runs.len(), 3);
    assert_eq!(bar.runs[2].x, 10);
    assert_eq!(bar.runs[2].max_width, 2);
    assert_eq!(bar_text(&bar), " RESIZE   h/");
}

#[test]
fn navigate_mode_shows_the_update_badge_at_the_right_edge() {
    let bar = render_mode_bar(area(100, 5), ClientShellMode::Navigate, None, None, true, true, &keys()).unwrap();
    let badge = bar.update_badge.clone().unwrap();
    assert_eq!(badge.x, 87);
    assert_eq!(badge.max_width, 13);
    assert!(bar_text(&bar).ends_with(" update ready"));
    assert!(bar_text(&bar).starts_with(" NAVIGATE  esc back  ↑/↓ workspace  tab pane  ? keybinds"));

    let narrow = render_mode_bar(area(8, 5), ClientShellMode::Navigate, None, None, true, true, &keys()).unwrap();
    let badge = narrow.update_badge.unwrap();
    assert_eq!((badge.x, badge.max_width), (0, 8));

    let other = render_mode_bar(area(100, 5), ClientShellMode::Resize, None, None, true, true, &keys()).unwrap();
    assert!(other.update_badge.is_none());
}
