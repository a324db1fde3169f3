//! The client shell's mode bar: the one-row strip at the bottom of the pane area that names the
//! current input mode and lists its shortcuts, or shows an endpoint error. It is built as a
//! list of styled segments laid out left to right and clipped at the bar's right edge.
use vstd::prelude::*;

use crate::commit_box::{columns_u16, display_width};
use crate::panel_view::PanelRect;
use crate::sidebar_layout::min_int;
use crate::text::{decimal, usize_decimal};

verus! {

/// The client shell's input mode.
#[derive(Debug, Clone, Copy, PartialEq, Eq, Structural)]
pub enum ClientShellMode {
    Terminal,
    Prefix,
    Navigate,
    Resize,
    Copy,
    SidebarGit,
}

#[derive(Debug, Clone, Copy, PartialEq, Eq, Structural)]
pub enum CopySearchDirection {
    Forward,
    Backward,
}

/// A search being typed in copy mode.
#[derive(Debug, Clone)]
pub struct CopySearchPrompt {
    pub direction: CopySearchDirection,
    pub query: String,
}

/// What the mode bar shows of copy mode: the search prompt being typed, whether a selection
/// is active, and the current search's match position.
#[derive(Debug, Clone)]
pub struct CopyModeStatus {
    pub search_prompt: Option<CopySearchPrompt>,
    pub selecting: bool,
    pub search_current_global: Option<usize>,
    pub search_total: usize,
    pub search_query: String,
}

/// The key labels the bar quotes: the prefix key, and the keys that follow the prefix for the
/// workspace picker and the keybinding help (`None` where the binding is unset).
#[derive(Debug, Clone)]
pub struct ModeBarKeys {
    pub prefix: String,
    pub workspace_picker: Option<String>,
    pub help: Option<String>,
}

/// How a segment is drawn: plain bar text, a highlighted key, the mode badge, or typed text.
#[derive(Debug, Clone, Copy, PartialEq, Eq, Structural)]
pub enum ModeBarStyle {
    Base,
    Key,
    Mode,
    Query,
}

pub open spec fn seg(text: Seq<char>, style: ModeBarStyle) -> (Seq<char>, ModeBarStyle) {
    (text, style)
}

pub open spec fn seg_views(v: Seq<(String, ModeBarStyle)>) -> Seq<(Seq<char>, ModeBarStyle)> {
    v.map_values(|p: (String, ModeBarStyle)| (p.0@, p.1))
}

pub open spec fn key_label(l: Option<String>) -> Seq<char> {
    match l {
        Some(t) => t@,
        None => "unset"@,
    }
}

/// The search position after "repeat": ` <n>/<total>` on a match, ` 0/0` for a search with
/// none, nothing without a search.
pub open spec fn match_status(c: CopyModeStatus) -> Seq<char> {
    match c.search_current_global {
        Some(g) => " "@ + decimal((g + 1) as nat) + "/"@ + decimal(c.search_total as nat),
        None => if c.search_query@.len() > 0 {
            " 0/0"@
        } else {
            Seq::empty()
        },
    }
}

pub open spec fn copy_segments(c: CopyModeStatus) -> Seq<(Seq<char>, ModeBarStyle)> {
    match c.search_prompt {
        Some(p) => seq![
            seg(" COPY "@, ModeBarStyle::Mode),
            seg(" "@, ModeBarStyle::Base),
            seg(if p.direction == CopySearchDirection::Forward { "/"@ } else { "?"@ }, ModeBarStyle::Key),
            seg(p.query@, ModeBarStyle::Query),
            seg("█"@, ModeBarStyle::Key),
            seg("  enter search  esc cancel"@, ModeBarStyle::Base),
        ],
        None => {
            let idle = c.search_query@.len() == 0 && !c.selecting;
            seq![
                seg(" COPY "@, ModeBarStyle::Mode),
                seg(" "@, ModeBarStyle::Base),
                seg("h/j/k/l w/b/e { }"@, ModeBarStyle::Key),
                seg(" move  "@, ModeBarStyle::Base),
                seg("/ ?"@, ModeBarStyle::Key),
                seg(" search  "@, ModeBarStyle::Base),
                seg("n/N"@, ModeBarStyle::Key),
                seg(" repeat"@ + match_status(c) + "  "@, ModeBarStyle::Base),
                seg("v/space"@, ModeBarStyle::Key),
                seg(" "@ + (if c.selecting { "selecting"@ } else { "select"@ }) + "  "@, ModeBarStyle::Base),
                seg("y/enter"@, ModeBarStyle::Key),
                seg(" copy  "@, ModeBarStyle::Base),
                seg(if idle { "q/esc"@ } else { "esc"@ }, ModeBarStyle::Key),
                seg(if idle { " exit"@ } else { " clear  q exit"@ }, ModeBarStyle::Base),
            ]
        },
    }
}

pub open spec fn git_segments(generate: bool) -> Seq<(Seq<char>, ModeBarStyle)> {
    seq![
        seg(" GIT "@, ModeBarStyle::Mode),
        seg(" "@, ModeBarStyle::Base),
        seg("tab"@, ModeBarStyle::Key),
        seg(" file list/commit  "@, ModeBarStyle::Base),
        seg("j/k"@, ModeBarStyle::Key),
        seg(" select  "@, ModeBarStyle::Base),
        seg("s/u/d"@, ModeBarStyle::Key),
        seg(" stage/unstage/discard  "@, ModeBarStyle::Base),
        seg("enter"@, ModeBarStyle::Key),
        seg(" diff  "@, ModeBarStyle::Base),
        seg("m"@, ModeBarStyle::Key),
        seg(" menu  "@, ModeBarStyle::Base),
        seg("ctrl+enter"@, ModeBarStyle::Key),
        seg(" commit  "@, ModeBarStyle::Base),
    ] + (if generate {
        seq![seg("ctrl+g"@, ModeBarStyle::Key), seg(" generate  "@, ModeBarStyle::Base)]
    } else {
        Seq::empty()
    }) + seq![seg("esc"@, ModeBarStyle::Key), seg(" back"@, ModeBarStyle::Base)]
}

pub open spec fn resize_segments() -> Seq<(Seq<char>, ModeBarStyle)> {
    seq![
        seg(" RESIZE "@, ModeBarStyle::Mode),
        seg("  "@, ModeBarStyle::Base),
        seg("h/l"@, ModeBarStyle::Key),
        seg(" width  "@, ModeBarStyle::Base),
        seg("j/k"@, ModeBarStyle::Key),
        seg(" height  "@, ModeBarStyle::Base),
        seg("esc"@, ModeBarStyle::Key),
        seg(" done"@, ModeBarStyle::Base),
    ]
}

/// The bar's segments: an endpoint error wins over the mode; copy mode without its state has
/// none (the bar is painted blank), and so has terminal mode, which shows no bar.
pub open spec fn mode_bar_segments_spec(
    mode: ClientShellMode,
    copy: Option<CopyModeStatus>,
    error: Option<Seq<char>>,
    generate: bool,
    keys: ModeBarKeys,
) -> Option<Seq<(Seq<char>, ModeBarStyle)>> {
    match error {
        Some(e) => Some(seq![seg(" ERROR "@, ModeBarStyle::Mode), seg(" "@ + e, ModeBarStyle::Base)]),
        None => match mode {
            ClientShellMode::Terminal => None,
            ClientShellMode::Prefix => Some(
                seq![
                    seg(" PREFIX "@, ModeBarStyle::Mode),
                    seg(" "@, ModeBarStyle::Base),
                    seg("esc"@, ModeBarStyle::Key),
                    seg(" cancel  "@, ModeBarStyle::Base),
                    seg(keys.prefix@, ModeBarStyle::Key),
                    seg(" send prefix  "@, ModeBarStyle::Base),
                    seg(key_label(keys.workspace_picker), ModeBarStyle::Key),
                    seg(" workspace nav  "@, ModeBarStyle::Base),
                    seg(key_label(keys.help), ModeBarStyle::Key),
                    seg(" keybinds"@, ModeBarStyle::Base),
                ],
            ),
            ClientShellMode::Navigate => Some(
                seq![
                    seg(" NAVIGATE "@, ModeBarStyle::Mode),
                    seg(" esc back  "@, ModeBarStyle::Base),
                    seg("↑/↓"@, ModeBarStyle::Key),
                    seg(" workspace  "@, ModeBarStyle::Base),
                    seg("tab"@, ModeBarStyle::Key),
                    seg(" pane  "@, ModeBarStyle::Base),
                    seg(key_label(keys.help), ModeBarStyle::Key),
                    seg(" keybinds"@, ModeBarStyle::Base),
                ],
            ),
            ClientShellMode::Resize => Some(resize_segments()),
            ClientShellMode::Copy => match copy {
                Some(c) => Some(copy_segments(c)),
                None => None,
            },
            ClientShellMode::SidebarGit => Some(git_segments(generate)),
        },
    }
}

pub open spec fn copy_view(c: Option<&CopyModeStatus>) -> Option<CopyModeStatus> {
    match c {
        Some(x) => Some(*x),
        None => None,
    }
}

pub open spec fn str_view(e: Option<&str>) -> Option<Seq<char>> {
    match e {
        Some(x) => Some(x@),
        None => None,
    }
}

pub open spec fn copy_counts_fit(c: Option<&CopyModeStatus>) -> bool {
    match c {
        Some(x) => match x.search_current_global {
            Some(g) => g < usize::MAX,
            None => true,
        },
        None => true,
    }
}

fn push_seg(v: &mut Vec<(String, ModeBarStyle)>, text: String, style: ModeBarStyle)
    ensures
        seg_views(final(v)@) == seg_views(old(v)@).push(seg(text@, style)),
{
    let ghost before = v@;
    v.push((text, style));
    assert(seg_views(v@) =~= seg_views(before).push(seg(text@, style)));
}

fn push_lit(v: &mut Vec<(String, ModeBarStyle)>, text: &str, style: ModeBarStyle)
    ensures
        seg_views(final(v)@) == seg_views(old(v)@).push(seg(text@, style)),
{
    push_seg(v, text.to_owned(), style);
}

fn label_or_unset(l: &Option<String>) -> (r: String)
    ensures
        r@ == key_label(*l),
{
    match l {
        Some(t) => t.clone(),
        None => "unset".to_owned(),
    }
}

fn copy_mode_segments(c: &CopyModeStatus) -> (v: Vec<(String, ModeBarStyle)>)
    requires
        copy_counts_fit(Some(c)),
    ensures
        seg_views(v@) == copy_segments(*c),
{
    let mut v: Vec<(String, ModeBarStyle)> = Vec::new();
    assert(seg_views(v@) =~= Seq::empty());
    match &c.search_prompt {
        Some(prompt) => {
            let marker = match prompt.direction {
                CopySearchDirection::Forward => "/",
                CopySearchDirection::Backward => "?",
            };
            push_lit(&mut v, " COPY ", ModeBarStyle::Mode);
            push_lit(&mut v, " ", ModeBarStyle::Base);
            push_lit(&mut v, marker, ModeBarStyle::Key);
            push_seg(&mut v, prompt.query.clone(), ModeBarStyle::Query);
            push_lit(&mut v, "█", ModeBarStyle::Key);
            push_lit(&mut v, "  enter search  esc cancel", ModeBarStyle::Base);
        },
        None => {
            let query_empty = c.search_query.as_str().unicode_len() == 0;
            let idle = query_empty && !c.selecting;
            let mut status = String::new();
            match c.search_current_global {
                Some(g) => {
                    status.append(" ");
                    status.append(usize_decimal(g + 1).as_str());
                    status.append("/");
                    status.append(usize_decimal(c.search_total).as_str());
                },
                None => {
                    if !query_empty {
                        status.append(" 0/0");
                    }
                },
            }
            assert(status@ =~= match_status(*c));
            let mut repeat = " repeat".to_owned();
            repeat.append(status.as_str());
            repeat.append("  ");
            let mut select = " ".to_owned();
            select.append(if c.selecting { "selecting" } else { "select" });
            select.append("  ");
            push_lit(&mut v, " COPY ", ModeBarStyle::Mode);
            push_lit(&mut v, " ", ModeBarStyle::Base);
            push_lit(&mut v, "h/j/k/l w/b/e { }", ModeBarStyle::Key);
            push_lit(&mut v, " move  ", ModeBarStyle::Base);
            push_lit(&mut v, "/ ?", ModeBarStyle::Key);
            push_lit(&mut v, " search  ", ModeBarStyle::Base);
            push_lit(&mut v, "n/N", ModeBarStyle::Key);
            push_seg(&mut v, repeat, ModeBarStyle::Base);
            push_lit(&mut v, "v/space", ModeBarStyle::Key);
            push_seg(&mut v, select, ModeBarStyle::Base);
            push_lit(&mut v, "y/enter", ModeBarStyle::Key);
            push_lit(&mut v, " copy  ", ModeBarStyle::Base);
            push_lit(&mut v, if idle { "q/esc" } else { "esc" }, ModeBarStyle::Key);
            push_lit(&mut v, if idle { " exit" } else { " clear  q exit" }, ModeBarStyle::Base);
        },
    }
    v
}

fn git_mode_segments(generate: bool) -> (v: Vec<(String, ModeBarStyle)>)
    ensures
        seg_views(v@) == git_segments(generate),
{
    let mut v: Vec<(String, ModeBarStyle)> = Vec::new();
    assert(seg_views(v@) =~= Seq::empty());
    push_lit(&mut v, " GIT ", ModeBarStyle::Mode);
    push_lit(&mut v, " ", ModeBarStyle::Base);
    push_lit(&mut v, "tab", ModeBarStyle::Key);
    push_lit(&mut v, " file list/commit  ", ModeBarStyle::Base);
    push_lit(&mut v, "j/k", ModeBarStyle::Key);
    push_lit(&mut v, " select  ", ModeBarStyle::Base);
    push_lit(&mut v, "s/u/d", ModeBarStyle::Key);
    push_lit(&mut v, " stage/unstage/discard  ", ModeBarStyle::Base);
    push_lit(&mut v, "enter", ModeBarStyle::Key);
    push_lit(&mut v, " diff  ", ModeBarStyle::Base);
    push_lit(&mut v, "m", ModeBarStyle::Key);
    push_lit(&mut v, " menu  ", ModeBarStyle::Base);
    push_lit(&mut v, "ctrl+enter", ModeBarStyle::Key);
    push_lit(&mut v, " commit  ", ModeBarStyle::Base);
    let ghost head = seg_views(v@);
    if generate {
        push_lit(&mut v, "ctrl+g", ModeBarStyle::Key);
        push_lit(&mut v, " generate  ", ModeBarStyle::Base);
    }
    let ghost mid = seg_views(v@);
    push_lit(&mut v, "esc", ModeBarStyle::Key);
    push_lit(&mut v, " back", ModeBarStyle::Base);
    assert(seg_views(v@) =~= git_segments(generate));
    v
}

/// The bar's segments, exactly as `mode_bar_segments_spec` lists them.
pub fn mode_bar_segments(
    mode: ClientShellMode,
    copy_mode: Option<&CopyModeStatus>,
    endpoint_error: Option<&str>,
    commit_agent_generate_supported: bool,
    keys: &ModeBarKeys,
) -> (r: Option<Vec<(String, ModeBarStyle)>>)
    requires
        copy_counts_fit(copy_mode),
    ensures
        match r {
            Some(v) => mode_bar_segments_spec(mode, copy_view(copy_mode), str_view(endpoint_error), commit_agent_generate_supported, *keys) == Some(seg_views(v@)),
            None => mode_bar_segments_spec(mode, copy_view(copy_mode), str_view(endpoint_error), commit_agent_generate_supported, *keys) is None,
        },
{
    let mut v: Vec<(String, ModeBarStyle)> = Vec::new();
    assert(seg_views(v@) =~= Seq::empty());
    if let Some(error) = endpoint_error {
        let mut message = " ".to_owned();
        message.append(error);
        push_lit(&mut v, " ERROR ", ModeBarStyle::Mode);
        push_seg(&mut v, message, ModeBarStyle::Base);
        return Some(v);
    }
    match mode {
        ClientShellMode::Terminal => None,
        ClientShellMode::Prefix => {
            push_lit(&mut v, " PREFIX ", ModeBarStyle::Mode);
            push_lit(&mut v, " ", ModeBarStyle::Base);
            push_lit(&mut v, "esc", ModeBarStyle::Key);
            push_lit(&mut v, " cancel  ", ModeBarStyle::Base);
            push_seg(&mut v, keys.prefix.clone(), ModeBarStyle::Key);
            push_lit(&mut v, " send prefix  ", ModeBarStyle::Base);
            push_seg(&mut v, label_or_unset(&keys.workspace_picker), ModeBarStyle::Key);
            push_lit(&mut v, " workspace nav  ", ModeBarStyle::Base);
            push_seg(&mut v, label_or_unset(&keys.help), ModeBarStyle::Key);
            push_lit(&mut v, " keybinds", ModeBarStyle::Base);
            Some(v)
        },
        ClientShellMode::Navigate => {
            push_lit(&mut v, " NAVIGATE ", ModeBarStyle::Mode);
            push_lit(&mut v, " esc back  ", ModeBarStyle::Base);
            push_lit(&mut v, "↑/↓", ModeBarStyle::Key);
            push_lit(&mut v, " workspace  ", ModeBarStyle::Base);
            push_lit(&mut v, "tab", ModeBarStyle::Key);
            push_lit(&mut v, " pane  ", ModeBarStyle::Base);
            push_seg(&mut v, label_or_unset(&keys.help), ModeBarStyle::Key);
            push_lit(&mut v, " keybinds", ModeBarStyle::Base);
            Some(v)
        },
        ClientShellMode::Resize => {
            push_lit(&mut v, " RESIZE ", ModeBarStyle::Mode);
            push_lit(&mut v, "  ", ModeBarStyle::Base);
            push_lit(&mut v, "h/l", ModeBarStyle::Key);
            push_lit(&mut v, " width  ", ModeBarStyle::Base);
            push_lit(&mut v, "j/k", ModeBarStyle::Key);
            push_lit(&mut v, " height  ", ModeBarStyle::Base);
            push_lit(&mut v, "esc", ModeBarStyle::Key);
            push_lit(&mut v, " done", ModeBarStyle::Base);
            Some(v)
        },
        ClientShellMode::Copy => match copy_mode {
            Some(c) => Some(copy_mode_segments(c)),
            None => None,
        },
        ClientShellMode::SidebarGit => Some(git_mode_segments(commit_agent_generate_supported)),
    }
}

/// A piece of text placed on the bar: drawn from column `x`, clipped to `max_width` columns.
#[derive(Debug, Clone)]
pub struct ModeBarRun {
    pub x: u16,
    pub max_width: u16,
    pub text: String,
    pub style: ModeBarStyle,
}

/// Where segment `k` starts when segments are laid out from `x0`, each taking its display
/// width, clipped to what is left before `end`; once the row is full the position stays put.
pub open spec fn run_start(segs: Seq<(Seq<char>, ModeBarStyle)>, k: nat, x0: int, end: int) -> int
    decreases k,
{
    if k == 0 {
        x0
    } else {
        let p = run_start(segs, (k - 1) as nat, x0, end);
        if p >= end {
            p
        } else {
            p + min_int(columns_u16(segs[k - 1].0), end - p)
        }
    }
}

/// `runs` draws `segs` left to right from `x0`: every segment that starts before `end` is
/// drawn where `run_start` puts it, clipped at `end`, and drawing stops at the first one that
/// does not.
pub open spec fn runs_laid_out(runs: Seq<ModeBarRun>, segs: Seq<(Seq<char>, ModeBarStyle)>, x0: int, end: int) -> bool {
    &&& runs.len() <= segs.len()
    &&& runs.len() == segs.len() || run_start(segs, runs.len(), x0, end) >= end
    &&& forall|k: int| 0 <= k < runs.len() ==> {
        let st = #[trigger] run_start(segs, k as nat, x0, end);
        &&& st < end
        &&& runs[k].x == st
        &&& runs[k].max_width == end - st
        &&& runs[k].text@ == segs[k].0
        &&& runs[k].style == segs[k].1
    }
}

proof fn lemma_run_start_bounded(segs: Seq<(Seq<char>, ModeBarStyle)>, k: nat, x0: int, end: int)
    requires
        x0 <= end,
    ensures
        x0 <= run_start(segs, k, x0, end) <= end,
    decreases k,
{
    if k > 0 {
        lemma_run_start_bounded(segs, (k - 1) as nat, x0, end);
    }
}

/// Lays `segments` out on the row from `x0` to `end`.
pub fn layout_mode_bar_runs(segments: &Vec<(String, ModeBarStyle)>, x0: u16, end: u16) -> (runs: Vec<ModeBarRun>)
    requires
        x0 <= end,
    ensures
        runs_laid_out(runs@, seg_views(segments@), x0 as int, end as int),
{
    let ghost segs = seg_views(segments@);
    let mut runs: Vec<ModeBarRun> = Vec::new();
    let mut x = x0;
    let mut i: usize = 0;
    while i < segments.len()
        invariant_except_break
            i <= segments@.len(),
            segs == seg_views(segments@),
            segs.len() == segments@.len(),
            x0 <= end,
            x == run_start(segs, i as nat, x0 as int, end as int),
            runs@.len() == i,
            forall|k: int| 0 <= k < runs@.len() ==> {
                let st = #[trigger] run_start(segs, k as nat, x0 as int, end as int);
                &&& st < end
                &&& runs@[k].x == st
                &&& runs@[k].max_width == end - st
                &&& runs@[k].text@ == segs[k].0
                &&& runs@[k].style == segs[k].1
            },
        ensures
            runs_laid_out(runs@, segs, x0 as int, end as int),
        decreases segments@.len() - i,
    {
        proof {
            lemma_run_start_bounded(segs, i as nat, x0 as int, end as int);
        }
        if x >= end {
            break;
        }
        let remaining = end - x;
        let text = segments[i].0.clone();
        let width = display_width(text.as_str());
        let step = if width < remaining { width } else { remaining };
        runs.push(ModeBarRun { x, max_width: remaining, text, style: segments[i].1 });
        x = x + step;
        i = i + 1;
    }
    runs
}

/// What the mode bar puts on screen: the bar row it paints blank first, the runs drawn on it,
/// the right-aligned " update ready" badge, and whether the bar is reported to the caller
/// (copy mode without its state paints the row and reports no bar).
#[derive(Debug, Clone)]
pub struct ModeBarRender {
    pub bar: PanelRect,
    pub runs: Vec<ModeBarRun>,
    pub update_badge: Option<ModeBarRun>,
    pub reported: bool,
}

pub open spec fn mode_bar_shown(pane_area: PanelRect, mode: ClientShellMode, error: Option<Seq<char>>) -> bool {
    !((mode == ClientShellMode::Terminal && error is None) || pane_area.width == 0 || pane_area.height == 0)
}

/// The badge in the bar's last (up to) 13 columns when an update is ready in navigate mode.
pub open spec fn update_badge_is(b: Option<ModeBarRun>, bar: PanelRect, update_available: bool, mode: ClientShellMode) -> bool {
    if update_available && mode == ClientShellMode::Navigate {
        let w = min_int(13, bar.width as int);
        b matches Some(run) && run.x == bar.x + bar.width - w && run.max_width == w
            && run.text@ == " update ready"@ && run.style == ModeBarStyle::Key
    } else {
        b is None
    }
}

/// The mode bar for the pane area: nothing in terminal mode (unless an endpoint error must be
/// shown) or for an empty area; otherwise the area's last row, with the segments of
/// `mode_bar_segments_spec` laid out on it and the update badge at its right end.
pub fn render_mode_bar(
    pane_area: PanelRect,
    mode: ClientShellMode,
    copy_mode: Option<&CopyModeStatus>,
    endpoint_error: Option<&str>,
    update_available: bool,
    commit_agent_generate_supported: bool,
    keys: &ModeBarKeys,
) -> (r: Option<ModeBarRender>)
    requires
        pane_area.wf(),
        copy_counts_fit(copy_mode),
    ensures
        r is Some <==> mode_bar_shown(pane_area, mode, str_view(endpoint_error)),
        r matches Some(m) ==> {
            let bar = PanelRect { x: pane_area.x, y: (pane_area.y + pane_area.height - 1) as u16, width: pane_area.width, height: 1 };
            let segs = mode_bar_segments_spec(mode, copy_view(copy_mode), str_view(endpoint_error), commit_agent_generate_supported, *keys);
            &&& m.bar == bar
            &&& segs is None ==> !m.reported && m.runs@.len() == 0 && m.update_badge is None
            &&& segs matches Some(s) ==> {
                &&& m.reported
                &&& runs_laid_out(m.runs@, s, bar.x as int, bar.x + bar.width)
                &&& update_badge_is(m.update_badge, bar, update_available, mode)
            }
        },
{
    if (mode == ClientShellMode::Terminal && endpoint_error.is_none()) || pane_area.width == 0 || pane_area.height == 0 {
        return None;
    }
    let bar = PanelRect::new(pane_area.x, pane_area.y + (pane_area.height - 1), pane_area.width, 1);
    let segments = mode_bar_segments(mode, copy_mode, endpoint_error, commit_agent_generate_supported, keys);
    match segments {
        None => Some(ModeBarRender { bar, runs: Vec::new(), update_badge: None, reported: false }),
        Some(segments) => {
            let runs = layout_mode_bar_runs(&segments, bar.x, bar.x + bar.width);
            let update_badge = if update_available && mode == ClientShellMode::Navigate {
                let width: u16 = if 13 < bar.width { 13 } else { bar.width };
                Some(ModeBarRun {
                    x: bar.x + (bar.width - width),
                    max_width: width,
                    text: " update ready".to_owned(),
                    style: ModeBarStyle::Key,
                })
            } else {
                None
            };
            Some(ModeBarRender { bar, runs, update_badge, reported: true })
        },
    }
}

/// Where right-aligned text goes in `area`: as wide as the text (clipped to the area), ending
/// at the area's right edge. Returns the start column and the width.
pub fn put_right_text(area: PanelRect, text: &str) -> (r: (u16, u16))
    requires
        area.wf(),
    ensures
        r.1 == min_int(columns_u16(text@), area.width as int),
        r.0 == area.x + area.width - r.1,
{
    let w = display_width(text);
    let width = if w < area.width { w } else { area.width };
    (area.x + area.width - width, width)
}

/// A segment written from column `x` up to `right`: its width (clipped to what is left) and
/// the column after it.
pub fn put_segment(x: u16, right: u16, text: &str) -> (r: (u16, u16))
    ensures
        r.0 == min_int(columns_u16(text@), if right >= x { right - x } else { 0 }),
        r.1 == x + r.0,
{
    let w = display_width(text);
    let room: u16 = if right >= x { right - x } else { 0 };
    let width = if w < room { w } else { room };
    (width, x + width)
}

/// Whether text clipped to `width` columns at `(x, y)` lands on the buffer at all.
pub fn put_text_visible(buffer: PanelRect, x: u16, y: u16, width: u16) -> (r: bool)
    ensures
        r == (width != 0 && y < buffer.y + buffer.height && x < buffer.x + buffer.width),
{
    width != 0 && (y as u32) < buffer.y as u32 + buffer.height as u32 && (x as u32) < buffer.x as u32 + buffer.width as u32
}

} // verus!
