//! The server-side terminal UI's one-row mode overlays (prefix, copy, navigate, resize) drawn
//! over the bottom row of the pane area, and its launcher menu rows.
use vstd::prelude::*;

use crate::mode_bar::{
    copy_counts_fit, copy_segments, key_label, layout_mode_bar_runs,
    mode_bar_segments, mode_bar_segments_spec, resize_segments, runs_laid_out, seg, seg_views, ClientShellMode,
    CopyModeStatus, ModeBarKeys, ModeBarRun, ModeBarStyle,
};
use crate::panel_view::PanelRect;
use crate::sidebar_layout::min_int;

verus! {

/// A one-row bar and the runs drawn on it.
#[derive(Debug, Clone)]
pub struct BottomBar {
    pub rect: PanelRect,
    pub runs: Vec<ModeBarRun>,
}

/// The bottom row of `area` (its top row when it has no height).
pub open spec fn bottom_row(area: PanelRect) -> PanelRect {
    PanelRect {
        x: area.x,
        y: (area.y + (if area.height > 0 { area.height - 1 } else { 0 })) as u16,
        width: area.width,
        height: 1,
    }
}

pub open spec fn bar_is(b: BottomBar, area: PanelRect, segs: Seq<(Seq<char>, ModeBarStyle)>) -> bool {
    &&& b.rect == bottom_row(area)
    &&& runs_laid_out(b.runs@, segs, area.x as int, area.x + area.width)
}

fn bottom_bar(area: PanelRect, segments: &Vec<(String, ModeBarStyle)>) -> (b: BottomBar)
    requires
        area.wf(),
    ensures
        bar_is(b, area, seg_views(segments@)),
{
    let y = if area.height > 0 { area.y + (area.height - 1) } else { area.y };
    let rect = PanelRect::new(area.x, y, area.width, 1);
    let runs = layout_mode_bar_runs(segments, area.x, area.x + area.width);
    BottomBar { rect, runs }
}

/// The prefix-mode bar, unless the keybinding panel is already showing in its place.
pub fn render_prefix_overlay(area: PanelRect, keys: &ModeBarKeys, hint_panel_shown: bool) -> (r: Option<BottomBar>)
    requires
        area.wf(),
    ensures
        hint_panel_shown ==> r is None,
        !hint_panel_shown ==> (r matches Some(b) && mode_bar_segments_spec(ClientShellMode::Prefix, None, None, false, *keys) matches Some(s)
            && bar_is(b, area, s)),
{
    if hint_panel_shown {
        return None;
    }
    match mode_bar_segments(ClientShellMode::Prefix, None, None, false, keys) {
        Some(segments) => Some(bottom_bar(area, &segments)),
        None => None,
    }
}

/// The copy-mode bar: the search prompt being typed, or the copy-mode keys with the search
/// position; nothing without copy-mode state.
pub fn render_copy_mode_overlay(area: PanelRect, copy_mode: Option<&CopyModeStatus>) -> (r: Option<BottomBar>)
    requires
        area.wf(),
        copy_counts_fit(copy_mode),
    ensures
        copy_mode is None ==> r is None,
        copy_mode matches Some(c) ==> (r matches Some(b) && bar_is(b, area, copy_segments(*c))),
{
    let keys = ModeBarKeys { prefix: String::new(), workspace_picker: None, help: None };
    match mode_bar_segments(ClientShellMode::Copy, copy_mode, None, false, &keys) {
        Some(segments) => Some(bottom_bar(area, &segments)),
        None => None,
    }
}

/// The resize-mode bar.
pub fn render_resize_overlay(area: PanelRect) -> (b: BottomBar)
    requires
        area.wf(),
    ensures
        bar_is(b, area, resize_segments()),
{
    let keys = ModeBarKeys { prefix: String::new(), workspace_picker: None, help: None };
    let segments = mode_bar_segments(ClientShellMode::Resize, None, None, false, &keys);
    match segments {
        Some(segments) => bottom_bar(area, &segments),
        None => BottomBar { rect: PanelRect::empty(), runs: Vec::new() },
    }
}

/// The key labels the navigate bar quotes (`None` where a binding is unset): the keys after the
/// prefix for each action, and the two workspace-navigation keys.
#[derive(Debug, Clone)]
pub struct NavigateKeys {
    pub workspace_up: Option<String>,
    pub workspace_down: Option<String>,
    pub goto: Option<String>,
    pub new_tab: Option<String>,
    pub split_vertical: Option<String>,
    pub split_horizontal: Option<String>,
    pub close_pane: Option<String>,
    pub zoom: Option<String>,
    pub resize: Option<String>,
    pub help: Option<String>,
    pub settings: Option<String>,
    pub detach: Option<String>,
}

pub open spec fn navigate_segments(k: NavigateKeys) -> Seq<(Seq<char>, ModeBarStyle)> {
    seq![
        seg(" NAVIGATE "@, ModeBarStyle::Mode),
        seg(" "@, ModeBarStyle::Base),
        seg("esc"@, ModeBarStyle::Key),
        seg(" back  "@, ModeBarStyle::Base),
        seg(key_label(k.workspace_up) + " / "@ + key_label(k.workspace_down), ModeBarStyle::Key),
        seg(" ws  "@, ModeBarStyle::Base),
        seg("⇥"@, ModeBarStyle::Key),
        seg(" pane  "@, ModeBarStyle::Base),
        seg(key_label(k.goto), ModeBarStyle::Key),
        seg(" navigator  "@, ModeBarStyle::Base),
        seg(key_label(k.new_tab), ModeBarStyle::Key),
        seg(" new tab  "@, ModeBarStyle::Base),
        seg(key_label(k.split_vertical), ModeBarStyle::Key),
        seg(" split│  "@, ModeBarStyle::Base),
        seg(key_label(k.split_horizontal), ModeBarStyle::Key),
        seg(" split─  "@, ModeBarStyle::Base),
        seg(key_label(k.close_pane), ModeBarStyle::Key),
        seg(" close  "@, ModeBarStyle::Base),
        seg(key_label(k.zoom), ModeBarStyle::Key),
        seg(" zoom  "@, ModeBarStyle::Base),
        seg(key_label(k.resize), ModeBarStyle::Key),
        seg(" resize  "@, ModeBarStyle::Base),
        seg(key_label(k.help), ModeBarStyle::Key),
        seg(" keybinds  "@, ModeBarStyle::Base),
        seg(key_label(k.settings), ModeBarStyle::Key),
        seg(" settings  "@, ModeBarStyle::Base),
        seg(key_label(k.detach), ModeBarStyle::Key),
        seg(" detach"@, ModeBarStyle::Base),
    ]
}

fn label(l: &Option<String>) -> (r: String)
    ensures
        r@ == key_label(*l),
{
    match l {
        Some(t) => t.clone(),
        None => "unset".to_owned(),
    }
}

fn push(v: &mut Vec<(String, ModeBarStyle)>, text: String, style: ModeBarStyle)
    ensures
        seg_views(final(v)@) == seg_views(old(v)@).push(seg(text@, style)),
{
    let ghost before = v@;
    v.push((text, style));
    assert(seg_views(v@) =~= seg_views(before).push(seg(text@, style)));
}

/// The navigate-mode bar, and where the " update ready" notice goes when an update is
/// available: the bar's last (up to) 13 columns.
pub fn render_navigate_overlay(area: PanelRect, keys: &NavigateKeys, update_available: bool) -> (r: (BottomBar, Option<PanelRect>))
    requires
        area.wf(),
    ensures
        bar_is(r.0, area, navigate_segments(*keys)),
        update_available ==> r.1 == Some(PanelRect {
            x: (area.x + area.width - min_int(13, area.width as int)) as u16,
            y: bottom_row(area).y,
            width: min_int(13, area.width as int) as u16,
            height: 1,
        }),
        !update_available ==> r.1 is None,
{
    let mut v: Vec<(String, ModeBarStyle)> = Vec::new();
    assert(seg_views(v@) =~= Seq::empty());
    let mut nav = label(&keys.workspace_up);
    nav.append(" / ");
    nav.append(label(&keys.workspace_down).as_str());
    push(&mut v, " NAVIGATE ".to_owned(), ModeBarStyle::Mode);
    push(&mut v, " ".to_owned(), ModeBarStyle::Base);
    push(&mut v, "esc".to_owned(), ModeBarStyle::Key);
    push(&mut v, " back  ".to_owned(), ModeBarStyle::Base);
    push(&mut v, nav, ModeBarStyle::Key);
    push(&mut v, " ws  ".to_owned(), ModeBarStyle::Base);
    push(&mut v, "⇥".to_owned(), ModeBarStyle::Key);
    push(&mut v, " pane  ".to_owned(), ModeBarStyle::Base);
    push(&mut v, label(&keys.goto), ModeBarStyle::Key);
    push(&mut v, " navigator  ".to_owned(), ModeBarStyle::Base);
    push(&mut v, label(&keys.new_tab), ModeBarStyle::Key);
    push(&mut v, " new tab  ".to_owned(), ModeBarStyle::Base);
    push(&mut v, label(&keys.split_vertical), ModeBarStyle::Key);
    push(&mut v, " split│  ".to_owned(), ModeBarStyle::Base);
    push(&mut v, label(&keys.split_horizontal), ModeBarStyle::Key);
    push(&mut v, " split─  ".to_owned(), ModeBarStyle::Base);
    push(&mut v, label(&keys.close_pane), ModeBarStyle::Key);
    push(&mut v, " close  ".to_owned(), ModeBarStyle::Base);
    push(&mut v, label(&keys.zoom), ModeBarStyle::Key);
    push(&mut v, " zoom  ".to_owned(), ModeBarStyle::Base);
    push(&mut v, label(&keys.resize), ModeBarStyle::Key);
    push(&mut v, " resize  ".to_owned(), ModeBarStyle::Base);
    push(&mut v, label(&keys.help), ModeBarStyle::Key);
    push(&mut v, " keybinds  ".to_owned(), ModeBarStyle::Base);
    push(&mut v, label(&keys.settings), ModeBarStyle::Key);
    push(&mut v, " settings  ".to_owned(), ModeBarStyle::Base);
    push(&mut v, label(&keys.detach), ModeBarStyle::Key);
    push(&mut v, " detach".to_owned(), ModeBarStyle::Base);
    assert(seg_views(v@) =~= navigate_segments(*keys));
    let bar = bottom_bar(area, &v);
    let notice = if update_available {
        let width: u16 = if 13 < area.width { 13 } else { area.width };
        Some(PanelRect::new(area.x + (area.width - width), bar.rect.y, width, 1))
    } else {
        None
    };
    (bar, notice)
}

/// One launcher menu row: its line, whether it is highlighted, whether it carries the badge
/// dot, and its label text (" <item> ").
#[derive(Debug, Clone)]
pub struct LauncherMenuRow {
    pub rect: PanelRect,
    pub selected: bool,
    pub badge: bool,
    pub text: String,
}

/// The launcher menu's rows inside `inner`: one line per item from the top, as many as fit,
/// the highlighted one marked.
pub fn render_global_launcher_menu(inner: PanelRect, items: &Vec<(String, bool)>, highlighted: usize) -> (rows: Vec<LauncherMenuRow>)
    requires
        inner.wf(),
    ensures
        rows@.len() == min_int(items@.len() as int, inner.height as int),
        forall|i: int| 0 <= i < rows@.len() ==> {
            &&& (#[trigger] rows@[i]).rect == (PanelRect { x: inner.x, y: (inner.y + i) as u16, width: inner.width, height: 1 })
            &&& rows@[i].selected == (i == highlighted)
            &&& rows@[i].badge == items@[i].1
            &&& rows@[i].text@ == " "@ + items@[i].0@ + " "@
        },
{
    let mut rows: Vec<LauncherMenuRow> = Vec::new();
    let mut i: usize = 0;
    while i < items.len() && i < inner.height as usize
        invariant
            i <= items@.len(),
            i <= inner.height,
            inner.wf(),
            rows@.len() == i,
            forall|k: int| 0 <= k < rows@.len() ==> {
                &&& (#[trigger] rows@[k]).rect == (PanelRect { x: inner.x, y: (inner.y + k) as u16, width: inner.width, height: 1 })
                &&& rows@[k].selected == (k == highlighted)
                &&& rows@[k].badge == items@[k].1
                &&& rows@[k].text@ == " "@ + items@[k].0@ + " "@
            },
        decreases items@.len() - i,
    {
        let mut text = " ".to_owned();
        text.append(items[i].0.as_str());
        text.append(" ");
        let y: u16 = inner.y + i as u16;
        rows.push(LauncherMenuRow {
            rect: PanelRect::new(inner.x, y, inner.width, 1),
            selected: i == highlighted,
            badge: items[i].1,
            text,
        });
        i = i + 1;
    }
    rows
}

} // verus!
