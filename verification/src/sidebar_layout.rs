//! Geometry of the server-side terminal UI's Git sidebar: the tab strip's click targets, the
//! commit box and its submit button, and the file rows with their action buttons.
use vstd::prelude::*;

use crate::client_git::SidebarSpacesView;
use crate::commit_box::display_width;
use crate::panel_view::PanelRect;
use crate::worktree_status::{GitFileEntry, GitFileStatusKind};

verus! {

pub const GIT_PANEL_BRANCH_ROWS: u16 = 1;
pub const GIT_PANEL_COMMIT_BOX_HEIGHT: u16 = 5;
pub const GIT_PANEL_SECTION_HEADER_ROWS: u16 = 1;

/// Width of one action button (`+`/`-`/`x`) at the right edge of a file row: the glyph plus a
/// column of breathing room on each side.
pub const GIT_ROW_ACTION_WIDTH: u16 = 3;

pub open spec fn rect(x: int, y: int, width: int, height: int) -> PanelRect {
    PanelRect { x: x as u16, y: y as u16, width: width as u16, height: height as u16 }
}

pub open spec fn min_int(a: int, b: int) -> int {
    if a < b { a } else { b }
}

pub open spec fn tab_label_width(view: SidebarSpacesView) -> int {
    match view {
        SidebarSpacesView::Spaces => 6,
        SidebarSpacesView::Git => 3,
    }
}

/// Hit-test rectangles for the sidebar tab strip (" spaces ", a divider column, " git "),
/// clipped to the strip: each tab covers its label plus one padding column on each side, so
/// the clickable area sits exactly on the drawn label. A tab that starts past the strip's end
/// is left out.
pub fn sidebar_tab_hit_areas(area: PanelRect) -> (r: Vec<(SidebarSpacesView, PanelRect)>)
    requires
        area.wf(),
    ensures
        area.width == 0 || area.height == 0 ==> r@.len() == 0,
        forall|i: int| 0 <= i < r@.len() ==> area.x <= (#[trigger] r@[i]).1.x && r@[i].1.x + r@[i].1.width <= area.x + area.width,
        area.width > 0 && area.height > 0 ==> {
            let end = area.x + area.width;
            let x0 = area.x as int;
            let x1 = x0 + 8 + 1;
            &&& r@.len() == (if x1 < end { 2int } else { 1int })
            &&& r@[0] == (SidebarSpacesView::Spaces, rect(x0, area.y as int, min_int(8, end - x0), 1))
            &&& x1 < end ==> r@[1] == (SidebarSpacesView::Git, rect(x1, area.y as int, min_int(5, end - x1), 1))
        },
{
    let mut hits: Vec<(SidebarSpacesView, PanelRect)> = Vec::new();
    if area.width == 0 || area.height == 0 {
        return hits;
    }
    let row_end = area.x + area.width;
    let spaces_width = display_width("spaces");
    let git_width = display_width("git");
    proof {
        reveal_strlit("spaces");
        reveal_strlit("git");
        assert(crate::commit_box::printable_ascii("spaces"@));
        assert(crate::commit_box::printable_ascii("git"@));
    }
    let mut x = area.x;
    let cell = spaces_width + 2;
    let width = if cell < row_end - x { cell } else { row_end - x };
    hits.push((SidebarSpacesView::Spaces, PanelRect::new(x, area.y, width, 1)));
    x = if x <= u16::MAX - cell { x + cell } else { u16::MAX };
    x = if x < u16::MAX { x + 1 } else { x };
    let cell = git_width + 2;
    if x < row_end {
        let width = if cell < row_end - x { cell } else { row_end - x };
        hits.push((SidebarSpacesView::Git, PanelRect::new(x, area.y, width, 1)));
    }
    hits
}

/// The commit message box (below the branch row, at most `GIT_PANEL_COMMIT_BOX_HEIGHT` rows)
/// and its "commit" submit button (a click target kept alongside `ctrl+enter`, since not every
/// terminal can report it): eight columns, or the box's width less two, right-aligned one
/// column in from the box's edge, on the box's second-to-last row. Both are empty without room;
/// the button is empty in a box under three rows.
pub fn compute_git_commit_box_rects(area: PanelRect) -> (r: (PanelRect, PanelRect))
    requires
        area.wf(),
    ensures
        area.height <= 1 || area.width == 0 ==> r == (PanelRect::empty_spec(), PanelRect::empty_spec()),
        area.height > 1 && area.width > 0 ==> {
            let h = min_int(5, area.height - 1);
            &&& r.0 == rect(area.x as int, area.y + 1, area.width as int, h)
            &&& h < 3 ==> r.1 == PanelRect::empty_spec()
            &&& h >= 3 ==> {
                let sw = min_int(8, if area.width >= 2 { area.width - 2 } else { 0 });
                r.1 == rect(area.x + (if area.width >= sw + 1 { area.width - (sw + 1) } else { 0 }), area.y + 1 + h - 2, sw, 1)
            }
        },
{
    if area.height <= GIT_PANEL_BRANCH_ROWS || area.width == 0 {
        return (PanelRect::empty(), PanelRect::empty());
    }
    let box_height = if GIT_PANEL_COMMIT_BOX_HEIGHT < area.height - GIT_PANEL_BRANCH_ROWS {
        GIT_PANEL_COMMIT_BOX_HEIGHT
    } else {
        area.height - GIT_PANEL_BRANCH_ROWS
    };
    let box_rect = PanelRect::new(area.x, area.y + GIT_PANEL_BRANCH_ROWS, area.width, box_height);
    if box_rect.height < 3 {
        return (box_rect, PanelRect::empty());
    }
    let room: u16 = if box_rect.width >= 2 { box_rect.width - 2 } else { 0 };
    let submit_width: u16 = if 8 < room { 8 } else { room };
    let offset: u16 = if box_rect.width >= submit_width + 1 { box_rect.width - (submit_width + 1) } else { 0 };
    let submit_rect = PanelRect::new(box_rect.x + offset, box_rect.y + box_rect.height - 2, submit_width, 1);
    (box_rect, submit_rect)
}

/// How many file rows fit in the panel below the branch row and the commit box, the two
/// section headers sharing the space.
pub fn git_file_list_capacity(area: PanelRect) -> (r: usize)
    requires
        area.wf(),
        area.y + 6 <= u16::MAX,
    ensures
        r == ({
            let space = area.y + area.height - (area.y + 6);
            let space = if space < 0 { 0 } else { space };
            if space >= 2 { space - 2 } else { 0 }
        }),
{
    let list_top = area.y + GIT_PANEL_BRANCH_ROWS + GIT_PANEL_COMMIT_BOX_HEIGHT;
    let bottom = area.y + area.height;
    let space: usize = if bottom > list_top { (bottom - list_top) as usize } else { 0 };
    if space >= 2 { space - 2 } else { 0 }
}

/// One file row's click targets: the whole row, the stage/unstage button and the discard
/// button (empty when discard does not apply, so a stray click there cannot trigger it).
#[derive(Debug, Clone)]
pub struct GitFileRowArea {
    pub row_rect: PanelRect,
    pub stage_toggle_rect: PanelRect,
    pub discard_rect: PanelRect,
    pub path: String,
    pub staged: bool,
    pub can_discard: bool,
}

/// Row `y`'s click targets for `entry`: only an unstaged, tracked file can be discarded (staged
/// changes must be unstaged first, and `git restore` cannot remove an untracked file). The
/// buttons are `GIT_ROW_ACTION_WIDTH` columns each (clipped to the row), at the right edge:
/// stage/unstage, then discard.
pub open spec fn row_area_is(r: GitFileRowArea, area: PanelRect, y: int, entry: GitFileEntry, staged: bool) -> bool {
    let icon = min_int(3, area.width as int);
    let can_discard = !staged && entry.status != GitFileStatusKind::Untracked;
    &&& r.row_rect == rect(area.x as int, y, area.width as int, 1)
    &&& r.stage_toggle_rect == rect(area.x + (if area.width >= 2 * icon { area.width - 2 * icon } else { 0 }), y, icon, 1)
    &&& r.discard_rect == (if can_discard {
        rect(area.x + (area.width - icon), y, icon, 1)
    } else {
        PanelRect::empty_spec()
    })
    &&& r.path@ == entry.path@
    &&& r.staged == staged
    &&& r.can_discard == can_discard
}

pub fn git_file_row_area(area: PanelRect, y: u16, entry: &GitFileEntry, staged: bool) -> (r: GitFileRowArea)
    requires
        area.wf(),
    ensures
        row_area_is(r, area, y as int, *entry, staged),
{
    let icon_width: u16 = if GIT_ROW_ACTION_WIDTH < area.width { GIT_ROW_ACTION_WIDTH } else { area.width };
    let can_discard = !staged && entry.status != GitFileStatusKind::Untracked;
    let two = icon_width * 2;
    let toggle_offset: u16 = if area.width >= two { area.width - two } else { 0 };
    GitFileRowArea {
        row_rect: PanelRect::new(area.x, y, area.width, 1),
        stage_toggle_rect: PanelRect::new(area.x + toggle_offset, y, icon_width, 1),
        discard_rect: if can_discard {
            PanelRect::new(area.x + (area.width - icon_width), y, icon_width, 1)
        } else {
            PanelRect::empty()
        },
        path: entry.path.clone(),
        staged,
        can_discard,
    }
}

/// The row layout of the file list: rows are emitted from the scroll offset on (a list longer
/// than the panel stays reachable), one per line starting one header row below the list top
/// (the list starts below the branch row and the commit box), staged files first; the unstaged
/// files follow after one more header row, which is skipped only when scrolling has passed
/// every staged row and skips into the unstaged ones. Rows stop at the panel's bottom.
pub open spec fn staged_shown(staged: nat, scroll: int, top: int, bottom: int) -> int {
    let visible = if scroll < staged { staged - scroll } else { 0 };
    let room = bottom - top;
    let room = if room < 0 { 0 } else { room };
    min_int(visible, room)
}

pub fn compute_git_file_row_areas(staged: &[GitFileEntry], unstaged: &[GitFileEntry], scroll: usize, area: PanelRect) -> (r: Vec<GitFileRowArea>)
    requires
        area.wf(),
        area.y + area.height + 8 <= u16::MAX,
    ensures
        ({
            let list_top = area.y + 6;
            let bottom = area.y + area.height;
            let s_skip = if scroll < staged@.len() { scroll as int } else { staged@.len() as int };
            let n1 = staged_shown(staged@.len(), scroll as int, list_top + 1, bottom);
            let u_skip = if scroll > staged@.len() { scroll - staged@.len() } else { 0 };
            let gap = if staged@.len() > scroll || u_skip == 0 { 1int } else { 0 };
            let y2 = list_top + 1 + n1 + gap;
            let u_visible = if u_skip < unstaged@.len() { unstaged@.len() - u_skip } else { 0 };
            let room2 = if y2 < bottom { bottom - y2 } else { 0 };
            let n2 = if n1 < staged@.len() - s_skip { 0 } else { min_int(u_visible, room2) };
            &&& list_top >= bottom ==> r@.len() == 0
            &&& list_top < bottom ==> {
                &&& r@.len() == n1 + n2
                &&& forall|k: int| 0 <= k < n1 ==> row_area_is(#[trigger] r@[k], area, list_top + 1 + k, staged@[s_skip + k], true)
                &&& forall|k: int| n1 <= k < n1 + n2 ==> row_area_is(#[trigger] r@[k], area, y2 + (k - n1), unstaged@[u_skip + (k - n1)], false)
            }
        }),
{
    let mut rows: Vec<GitFileRowArea> = Vec::new();
    let list_top = area.y + GIT_PANEL_BRANCH_ROWS + GIT_PANEL_COMMIT_BOX_HEIGHT;
    let bottom = area.y + area.height;
    if list_top >= bottom {
        return rows;
    }
    let mut y = list_top + GIT_PANEL_SECTION_HEADER_ROWS;
    let s_skip: usize = if scroll < staged.len() { scroll } else { staged.len() };
    let mut i = s_skip;
    while i < staged.len() && y < bottom
        invariant
            s_skip <= i <= staged@.len(),
            s_skip == (if scroll < staged@.len() { scroll as int } else { staged@.len() as int }),
            y == list_top + 1 + (i - s_skip),
            y <= bottom,
            bottom == area.y + area.height,
            list_top == area.y + 6,
            list_top < bottom,
            area.wf(),
            area.y + area.height + 8 <= u16::MAX,
            rows@.len() == i - s_skip,
            forall|k: int| 0 <= k < i - s_skip ==> row_area_is(#[trigger] rows@[k], area, list_top + 1 + k, staged@[s_skip + k], true),
        decreases staged@.len() - i,
    {
        rows.push(git_file_row_area(area, y, &staged[i], true));
        y = y + 1;
        i = i + 1;
    }
    assert(rows@.len() == staged_shown(staged@.len(), scroll as int, list_top + 1, bottom as int));
    if i < staged.len() {
        return rows;
    }
    let staged_visible: usize = staged.len() - s_skip;
    let unstaged_skip: usize = if scroll > staged.len() { scroll - staged.len() } else { 0 };
    if staged_visible > 0 || unstaged_skip == 0 {
        y = y + GIT_PANEL_SECTION_HEADER_ROWS;
    }
    let ghost y2 = y as int;
    let ghost base = rows@.len() as int;
    let u_start: usize = if unstaged_skip < unstaged.len() { unstaged_skip } else { unstaged.len() };
    let mut j = u_start;
    while j < unstaged.len() && y < bottom
        invariant
            u_start <= j <= unstaged@.len(),
            u_start == (if unstaged_skip < unstaged@.len() { unstaged_skip as int } else { unstaged@.len() as int }),
            y == y2 + (j - u_start),
            y2 <= bottom + 1,
            y <= bottom || j == u_start,
            bottom == area.y + area.height,
            area.wf(),
            area.y + area.height + 8 <= u16::MAX,
            rows@.len() == base + (j - u_start),
            base == staged@.len() - s_skip,
            0 <= s_skip <= staged@.len(),
            s_skip == (if scroll < staged@.len() { scroll as int } else { staged@.len() as int }),
            forall|k: int| 0 <= k < base ==> row_area_is(#[trigger] rows@[k], area, list_top + 1 + k, staged@[s_skip + k], true),
            forall|k: int| base <= k < base + (j - u_start) ==> row_area_is(#[trigger] rows@[k], area, y2 + (k - base), unstaged@[u_start + (k - base)], false),
        decreases unstaged@.len() - j,
    {
        let row = git_file_row_area(area, y, &unstaged[j], false);
        rows.push(row);
        y = y + 1;
        j = j + 1;
    }
    rows
}

} // verus!
