//! Which parts of the client shell get drawn, and by which renderer, for a computed layout.
use vstd::prelude::*;

use crate::panel_view::PanelRect;

verus! {

/// The layout's areas that decide what is drawn (an area of no size is not drawn).
#[derive(Debug, Clone, Copy)]
pub struct ShellLayoutAreas {
    pub mobile_header: PanelRect,
    pub sidebar: PanelRect,
    pub tab_bar: PanelRect,
}

/// How the sidebar is drawn: with more than one endpoint, the endpoints sidebar (collapsed or
/// expanded); otherwise the workspace sidebar (collapsed or full).
#[derive(Debug, Clone, Copy, PartialEq, Eq, Structural)]
pub enum SidebarRenderer {
    EndpointsCollapsed,
    EndpointsExpanded,
    Collapsed,
    Full,
}

/// What the shell draws, and whether the click targets it records are kept (they are dropped
/// when the terminal does not report the mouse).
#[derive(Debug, Clone, Copy, PartialEq, Eq)]
pub struct ShellRenderPlan {
    pub mobile_header: bool,
    pub sidebar: Option<SidebarRenderer>,
    pub tab_bar: bool,
    pub keep_mouse_targets: bool,
}

pub fn plan_shell_render(layout: ShellLayoutAreas, endpoint_count: usize, sidebar_collapsed: bool, mouse_capture: bool) -> (p: ShellRenderPlan)
    ensures
        p.mobile_header == (layout.mobile_header.height > 0),
        p.tab_bar == (layout.tab_bar.height > 0),
        p.keep_mouse_targets == mouse_capture,
        layout.sidebar.width == 0 ==> p.sidebar is None,
        layout.sidebar.width > 0 ==> p.sidebar == Some(if endpoint_count > 1 {
            if sidebar_collapsed { SidebarRenderer::EndpointsCollapsed } else { SidebarRenderer::EndpointsExpanded }
        } else if sidebar_collapsed {
            SidebarRenderer::Collapsed
        } else {
            SidebarRenderer::Full
        }),
{
    let sidebar = if layout.sidebar.width == 0 {
        None
    } else if endpoint_count > 1 {
        Some(if sidebar_collapsed { SidebarRenderer::EndpointsCollapsed } else { SidebarRenderer::EndpointsExpanded })
    } else if sidebar_collapsed {
        Some(SidebarRenderer::Collapsed)
    } else {
        Some(SidebarRenderer::Full)
    };
    ShellRenderPlan {
        mobile_header: layout.mobile_header.height > 0,
        sidebar,
        tab_bar: layout.tab_bar.height > 0,
        keep_mouse_targets: mouse_capture,
    }
}

/// The click targets one frame of the shell records: the sidebar's dividers, scrollbars and
/// buttons, the machine, workspace and agent rows, the tab bar's scroll and new-tab buttons,
/// the pane split handles, and everything else the frame records (`rest`).
#[derive(Debug, Clone)]
pub struct ShellHitMap<Machine, Workspace, Agent, EndpointAgent, Split, Rest> {
    pub sidebar_divider: PanelRect,
    pub sidebar_section_divider: PanelRect,
    pub workspace_scrollbar: PanelRect,
    pub agent_scrollbar: PanelRect,
    pub agent_sort_toggle: PanelRect,
    pub new_workspace: PanelRect,
    pub machines: Vec<Machine>,
    pub workspaces: Vec<Workspace>,
    pub agents: Vec<Agent>,
    pub endpoint_agents: Vec<EndpointAgent>,
    pub tab_scroll_left: PanelRect,
    pub tab_scroll_right: PanelRect,
    pub new_tab: PanelRect,
    pub pane_splits: Vec<Split>,
    pub rest: Rest,
}

impl<Machine, Workspace, Agent, EndpointAgent, Split, Rest> ShellHitMap<Machine, Workspace, Agent, EndpointAgent, Split, Rest> {
    /// No sidebar, tab-bar or pane-split click target is recorded: every such rectangle is
    /// empty and every such list is empty.
    pub open spec fn mouse_targets_cleared(self) -> bool {
        let empty = PanelRect { x: 0, y: 0, width: 0, height: 0 };
        &&& self.sidebar_divider == empty
        &&& self.sidebar_section_divider == empty
        &&& self.workspace_scrollbar == empty
        &&& self.agent_scrollbar == empty
        &&& self.agent_sort_toggle == empty
        &&& self.new_workspace == empty
        &&& self.machines@.len() == 0
        &&& self.workspaces@.len() == 0
        &&& self.agents@.len() == 0
        &&& self.endpoint_agents@.len() == 0
        &&& self.tab_scroll_left == empty
        &&& self.tab_scroll_right == empty
        &&& self.new_tab == empty
        &&& self.pane_splits@.len() == 0
    }

    /// The end of a shell frame: when the terminal does not report the mouse, the sidebar,
    /// tab-bar and pane-split click targets the frame recorded are dropped; everything else it
    /// recorded stays. With mouse capture on, nothing changes.
    pub fn clear_mouse_targets(&mut self, mouse_capture: bool)
        ensures
            mouse_capture ==> *final(self) == *old(self),
            !mouse_capture ==> final(self).mouse_targets_cleared() && final(self).rest == old(self).rest,
    {
        if !mouse_capture {
            self.sidebar_divider = PanelRect::empty();
            self.sidebar_section_divider = PanelRect::empty();
            self.workspace_scrollbar = PanelRect::empty();
            self.agent_scrollbar = PanelRect::empty();
            self.agent_sort_toggle = PanelRect::empty();
            self.new_workspace = PanelRect::empty();
            self.machines.clear();
            self.workspaces.clear();
            self.agents.clear();
            self.endpoint_agents.clear();
            self.tab_scroll_left = PanelRect::empty();
            self.tab_scroll_right = PanelRect::empty();
            self.new_tab = PanelRect::empty();
            self.pane_splits.clear();
        }
    }
}

} // verus!
