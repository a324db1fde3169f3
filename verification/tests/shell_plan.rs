use herdr::mode_bar::{put_right_text, put_segment, put_text_visible};
use herdr::panel_view::PanelRect;
use herdr::shell_plan::{plan_shell_render, ShellHitMap, ShellLayoutAreas, SidebarRenderer};

fn rect(x: u16, y: u16, width: u16, height: u16) -> PanelRect {
    PanelRect { x, y, width, height }
}

#[test]
fn the_sidebar_renderer_follows_endpoints_and_collapse() {
    let layout = ShellLayoutAreas { mobile_header: rect(0, 0, 0, 0), sidebar: rect(0, 0, 26, 40), tab_bar: rect(26, 0, 80, 1) };
    let plan = plan_shell_render(layout, 1, false, true);
    assert_eq!(plan.sidebar, Some(SidebarRenderer::Full));
    assert!(!plan.mobile_header);
    assert!(plan.tab_bar);
    assert!(plan.keep_mouse_targets);
    assert_eq!(plan_shell_render(layout, 1, true, true).sidebar, Some(SidebarRenderer::Collapsed));
    assert_eq!(plan_shell_render(layout, 2, false, true).sidebar, Some(SidebarRenderer::EndpointsExpanded));
    assert_eq!(plan_shell_render(layout, 3, true, true).sidebar, Some(SidebarRenderer::EndpointsCollapsed));
    assert!(!plan_shell_render(layout, 1, false, false).keep_mouse_targets);

    let mobile = ShellLayoutAreas { mobile_header: rect(0, 0, 40, 2), sidebar: rect(0, 0, 0, 40), tab_bar: rect(0, 2, 40, 0) };
    let plan = plan_shell_render(mobile, 2, false, true);
    assert!(plan.mobile_header);
    assert!(plan.sidebar.is_none());
    assert!(!plan.tab_bar);
}

#[test]
fn text_placement_clips_to_the_room_left() {
    assert_eq!(put_right_text(rect(10, 0, 20, 1), "abc"), (27, 3));
    assert_eq!(put_right_text(rect(10, 0, 2, 1), "abc"), (10, 2));
    assert_eq!(put_segment(5, 20, "hello"), (5, 10));
    assert_eq!(put_segment(18, 20, "hello"), (2, 20));
    assert_eq!(put_segment(25, 20, "hello"), (0, 25));
    let buffer = rect(0, 0, 10, 5);
    assert!(put_text_visible(buffer, 3, 4, 2));
    assert!(!put_text_visible(buffer, 3, 5, 2));
    assert!(!put_text_visible(buffer, 10, 0, 2));
    assert!(!put_text_visible(buffer, 3, 0, 0));
}

type HitMap = ShellHitMap<u32, u32, u32, u32, u32, String>;

fn recorded_hits() -> HitMap {
    ShellHitMap {
        sidebar_divider: rect(26, 0, 1, 40),
        sidebar_section_divider: rect(0, 20, 26, 1),
        workspace_scrollbar: rect(25, 1, 1, 10),
        agent_scrollbar: rect(25, 21, 1, 10),
        agent_sort_toggle: rect(20, 20, 3, 1),
        new_workspace: rect(0, 0, 3, 1),
        machines: vec![1],
        workspaces: vec![1, 2],
        agents: vec![3],
        endpoint_agents: vec![4],
        tab_scroll_left: rect(26, 0, 1, 1),
        tab_scroll_right: rect(105, 0, 1, 1),
        new_tab: rect(100, 0, 3, 1),
        pane_splits: vec![5],
        rest: "panel".to_string(),
    }
}

#[test]
fn without_mouse_capture_the_click_targets_are_dropped() {
    let mut hits = recorded_hits();
    hits.clear_mouse_targets(false);
    let empty = rect(0, 0, 0, 0);
    assert_eq!(hits.sidebar_divider, empty);
    assert_eq!(hits.sidebar_section_divider, empty);
    assert_eq!(hits.workspace_scrollbar, empty);
    assert_eq!(hits.agent_scrollbar, empty);
    assert_eq!(hits.agent_sort_toggle, empty);
    assert_eq!(hits.new_workspace, empty);
    assert!(hits.machines.is_empty() && hits.workspaces.is_empty());
    assert!(hits.agents.is_empty() && hits.endpoint_agents.is_empty());
    assert_eq!(hits.tab_scroll_left, empty);
    assert_eq!(hits.tab_scroll_right, empty);
    assert_eq!(hits.new_tab, empty);
    assert!(hits.pane_splits.is_empty());
    assert_eq!(hits.rest, "panel");
}

#[test]
fn with_mouse_capture_the_click_targets_stay() {
    let mut hits = recorded_hits();
    hits.clear_mouse_targets(true);
    assert_eq!(hits.sidebar_divider, rect(26, 0, 1, 40));
    assert_eq!(hits.workspaces, vec![1, 2]);
    assert_eq!(hits.new_tab, rect(100, 0, 3, 1));
    assert_eq!(hits.pane_splits, vec![5]);
}
