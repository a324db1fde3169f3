pub mod command;
pub mod text;
pub mod worktree_status;
pub mod diff;
pub mod lists;
pub mod actions;
pub mod commit_agent;
pub mod schema;
pub mod config;
pub mod handoff;
pub mod panel_interest;
pub mod client_git;
pub mod picker;
pub mod commit_box;
pub mod panel_view;
pub mod diff_overlay;
pub mod sidebar_git;
pub mod refresh;
pub mod git_api;
pub mod sidebar_layout;
pub mod mode_bar;
pub mod prefix_hint;
pub mod overlay_bars;
pub mod diff_view;
pub mod sidebar_view;
pub mod picker_view;
pub mod git_modals;
pub mod shell_plan;
