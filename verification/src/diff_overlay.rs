//! The client's side-by-side diff overlay: the rows it shows for a fetched file diff, and what
//! its body says while the diff is loading, failed, binary or empty.
use vstd::prelude::*;

use crate::diff::{hunk_to_side_by_side as parser_side_by_side, rows_view, side_by_side, RowModel, SideBySideCell, SideBySideRow};
use crate::panel_view::PanelRect;
use crate::schema::{diff_hunk_from_wire, wire_hunks_view, GitDiffHunk, GitFileDiff};
use crate::text::{decimal, str_chars, u32_decimal};

verus! {

/// The overlay's state: which file, whether the staged or the worktree side, and the fetched
/// diff (or why there is none yet).
#[derive(Debug, Clone)]
pub struct ClientGitDiffOverlay {
    pub path: String,
    pub staged: bool,
    pub diff: Option<GitFileDiff>,
    pub scroll: usize,
    pub loading: bool,
    pub error: Option<String>,
}

/// Interleaves a hunk's lines into aligned side-by-side rows: context lines occupy both columns
/// on the same row; a contiguous deletion block and the addition block that follows it are
/// zipped row by row, with the shorter side left blank for any extra rows on the longer side.
pub fn hunk_to_side_by_side(hunk: &GitDiffHunk) -> (rows: Vec<SideBySideRow>)
    ensures
        rows_view(rows@) == side_by_side(hunk@.lines),
{
    let parsed = diff_hunk_from_wire(hunk);
    parser_side_by_side(&parsed)
}

/// The rows of all hunks, one hunk after another.
pub open spec fn all_rows_of(hunks: Seq<crate::diff::HunkModel>) -> Seq<RowModel>
    decreases hunks.len(),
{
    if hunks.len() == 0 {
        Seq::empty()
    } else {
        all_rows_of(hunks.drop_last()) + side_by_side(hunks.last().lines)
    }
}

/// Every hunk's side-by-side rows, in order.
pub fn all_rows(diff: &GitFileDiff) -> (rows: Vec<SideBySideRow>)
    ensures
        rows_view(rows@) == all_rows_of(wire_hunks_view(diff.hunks@)),
{
    let mut rows: Vec<SideBySideRow> = Vec::new();
    let mut i: usize = 0;
    while i < diff.hunks.len()
        invariant
            i <= diff.hunks@.len(),
            rows_view(rows@) == all_rows_of(wire_hunks_view(diff.hunks@.take(i as int))),
        decreases diff.hunks@.len() - i,
    {
        let mut more = hunk_to_side_by_side(&diff.hunks[i]);
        let ghost before = rows@;
        let ghost add = more@;
        rows.append(&mut more);
        proof {
            assert(rows@ == before + add);
            assert(rows_view(rows@) =~= rows_view(before) + rows_view(add));
            let h = wire_hunks_view(diff.hunks@.take(i + 1));
            assert(h.drop_last() =~= wire_hunks_view(diff.hunks@.take(i as int)));
            assert(h.last() == diff.hunks@[i as int]@);
        }
        i = i + 1;
    }
    assert(diff.hunks@.take(i as int) =~= diff.hunks@);
    rows
}

/// A line number right-aligned in four columns, then a space (`format!("{:>4} ", n)`).
pub open spec fn lineno_text(n: nat) -> Seq<char> {
    let d = decimal(n);
    let pad = if d.len() < 4 {
        4 - d.len()
    } else {
        0
    };
    Seq::new(pad as nat, |i: int| ' ') + d + seq![' ']
}

/// The line-number gutter of a side-by-side cell.
pub fn lineno_label(n: u32) -> (r: String)
    ensures
        r@ == lineno_text(n as nat),
{
    let digits = u32_decimal(n);
    let len = str_chars(digits.as_str()).len();
    let mut out = String::new();
    let pad: usize = if len < 4 { 4 - len } else { 0 };
    let mut k: usize = 0;
    while k < pad
        invariant
            k <= pad,
            out@ == Seq::new(k as nat, |i: int| ' '),
        decreases pad - k,
    {
        crate::text::string_push(&mut out, ' ');
        assert(out@ =~= Seq::new((k + 1) as nat, |i: int| ' '));
        k = k + 1;
    }
    out.append(digits.as_str());
    crate::text::string_push(&mut out, ' ');
    assert(out@ =~= lineno_text(n as nat));
    out
}

/// What the overlay's body shows.
#[derive(Debug, Clone)]
pub enum OverlayBody {
    /// A one-line message: muted (`false`) or in the error colour (`true`).
    Message(String, bool),
    /// Side-by-side rows, from the scroll position on, as many as fit.
    Rows(Vec<SideBySideRow>),
    /// Nothing to draw yet.
    Blank,
}

/// The overlay's title line: the path and which side of the diff is shown.
pub open spec fn overlay_title(o: ClientGitDiffOverlay) -> Seq<char> {
    " "@ + o.path@ + (if o.staged {
        " (staged)"@
    } else {
        " (worktree)"@
    })
}

/// The rows shown: from the scroll position (clamped to the last row) on, at most `height`.
pub open spec fn visible_rows(rows: Seq<RowModel>, scroll: int, height: int) -> Seq<RowModel> {
    let start = if scroll < rows.len() - 1 {
        scroll
    } else {
        rows.len() - 1
    };
    let rest = rows.skip(start);
    if height < rest.len() {
        rest.take(height)
    } else {
        rest
    }
}

/// The overlay's title and body for a body `height` rows tall: "loading" while loading, the
/// error when the fetch failed, nothing before a diff arrives, a placeholder for a binary file
/// or a diff without rows, and otherwise the visible side-by-side rows.
pub fn git_diff_overlay_content(overlay: &ClientGitDiffOverlay, height: usize) -> (r: (String, OverlayBody))
    ensures
        r.0@ == overlay_title(*overlay),
        overlay.loading ==> (r.1 matches OverlayBody::Message(t, false) && t@ == " loading\u{2026}"@),
        !overlay.loading ==> match overlay.error {
            Some(e) => (r.1 matches OverlayBody::Message(t, true) && t@ == " "@ + e@),
            None => match overlay.diff {
                None => r.1 is Blank,
                Some(d) => if d.binary {
                    (r.1 matches OverlayBody::Message(t, false) && t@ == " binary file, no preview"@)
                } else if all_rows_of(wire_hunks_view(d.hunks@)).len() == 0 {
                    (r.1 matches OverlayBody::Message(t, false) && t@ == " no visible changes"@)
                } else {
                    (r.1 matches OverlayBody::Rows(rows) && rows_view(rows@) == visible_rows(
                        all_rows_of(wire_hunks_view(d.hunks@)),
                        overlay.scroll as int,
                        height as int,
                    ))
                },
            },
        },
{
    let mut title = String::from_str(" ");
    title.append(overlay.path.as_str());
    if overlay.staged {
        title.append(" (staged)");
    } else {
        title.append(" (worktree)");
    }
    assert(title@ == overlay_title(*overlay)) by {
        reveal_strlit(" ");
    }
    if overlay.loading {
        return (title, OverlayBody::Message(String::from_str(" loading\u{2026}"), false));
    }
    match &overlay.error {
        Some(e) => {
            let mut t = String::from_str(" ");
            t.append(e.as_str());
            return (title, OverlayBody::Message(t, true));
        },
        None => {},
    }
    let diff = match &overlay.diff {
        None => return (title, OverlayBody::Blank),
        Some(d) => d,
    };
    if diff.binary {
        return (title, OverlayBody::Message(String::from_str(" binary file, no preview"), false));
    }
    let rows = all_rows(diff);
    if rows.len() == 0 {
        return (title, OverlayBody::Message(String::from_str(" no visible changes"), false));
    }
    let max_scroll = rows.len() - 1;
    let start = if overlay.scroll < max_scroll { overlay.scroll } else { max_scroll };
    let end = if height < rows.len() - start { start + height } else { rows.len() };
    let mut shown: Vec<SideBySideRow> = Vec::new();
    let mut k: usize = start;
    while k < end
        invariant
            start <= k <= end <= rows@.len(),
            rows_view(shown@) == rows_view(rows@.subrange(start as int, k as int)),
        decreases end - k,
    {
        let ghost prev = shown@;
        shown.push(rows[k].clone_row());
        proof {
            assert(rows_view(shown@) =~= rows_view(prev).push(rows@[k as int]@));
            assert(rows@.subrange(start as int, k + 1) =~= rows@.subrange(start as int, k as int).push(rows@[k as int]));
            assert(rows_view(rows@.subrange(start as int, k + 1)) =~= rows_view(rows@.subrange(start as int, k as int)).push(rows@[k as int]@));
        }
        k = k + 1;
    }
    proof {
        let all = rows_view(rows@);
        let rest = all.skip(start as int);
        if (height as int) < rest.len() {
            assert(rows_view(rows@.subrange(start as int, end as int)) =~= rest.take(height as int));
        } else {
            assert(rows_view(rows@.subrange(start as int, end as int)) =~= rest);
        }
    }
    (title, OverlayBody::Rows(shown))
}

/// Where the overlay's parts go inside its frame: the title line, the "esc close" button at
/// the title line's right end (eleven columns), and the body two rows down.
#[derive(Debug, Clone, Copy)]
pub struct OverlayFrame {
    pub title_rect: PanelRect,
    pub close_rect: PanelRect,
    pub body: PanelRect,
}

/// The frame's layout inside its border: nothing under ten columns or four rows.
pub fn git_diff_overlay_frame(inner: PanelRect) -> (r: Option<OverlayFrame>)
    requires
        inner.wf(),
    ensures
        r is None <==> (inner.width < 10 || inner.height < 4),
        r matches Some(f) ==> {
            &&& f.title_rect == (PanelRect { x: inner.x, y: inner.y, width: inner.width, height: 1 })
            &&& f.close_rect == (PanelRect {
                x: (if inner.x + inner.width >= 11 { inner.x + inner.width - 11 } else { 0 }) as u16,
                y: inner.y,
                width: 11,
                height: 1,
            })
            &&& f.body == (PanelRect { x: inner.x, y: (inner.y + 2) as u16, width: inner.width, height: (inner.height - 2) as u16 })
        },
{
    if inner.width < 10 || inner.height < 4 {
        return None;
    }
    let right = inner.x + inner.width;
    Some(OverlayFrame {
        title_rect: PanelRect::new(inner.x, inner.y, inner.width, 1),
        close_rect: PanelRect::new(if right >= 11 { right - 11 } else { 0 }, inner.y, 11, 1),
        body: PanelRect::new(inner.x, inner.y + 2, inner.width, inner.height - 2),
    })
}

/// The two cells of the body's row `offset`: the left half (rounded down) and the rest.
pub fn side_by_side_row_areas(body: PanelRect, offset: u16) -> (r: (PanelRect, PanelRect))
    requires
        body.wf(),
        offset < body.height,
    ensures
        r.0 == (PanelRect { x: body.x, y: (body.y + offset) as u16, width: body.width / 2, height: 1 }),
        r.1 == (PanelRect { x: (body.x + body.width / 2) as u16, y: (body.y + offset) as u16, width: (body.width - body.width / 2) as u16, height: 1 }),
{
    let half = body.width / 2;
    let y = body.y + offset;
    (PanelRect::new(body.x, y, half, 1), PanelRect::new(body.x + half, y, body.width - half, 1))
}

/// A cell's background: none (the side has no line here), unchanged, or a removed (left) or
/// added (right) line.
#[derive(Debug, Clone, Copy, PartialEq, Eq, Structural)]
pub enum CellTone {
    Blank,
    Plain,
    Removed,
    Added,
}

/// What one side-by-side cell draws: its tone over the whole cell and, for a line, its number
/// gutter (five columns at most) and then its text in the rest.
#[derive(Debug, Clone)]
pub struct CellView {
    pub tone: CellTone,
    pub number: Option<(PanelRect, String)>,
    pub text: Option<(PanelRect, String)>,
}

pub fn side_by_side_cell_view(area: PanelRect, cell: Option<&SideBySideCell>, deleted: bool) -> (v: CellView)
    requires
        area.wf(),
    ensures
        cell is None ==> v.tone == CellTone::Blank && v.number is None && v.text is None,
        cell matches Some(c) ==> {
            let nw = if 5 < area.width { 5 } else { area.width as int };
            &&& v.tone == (if !c.changed { CellTone::Plain } else if deleted { CellTone::Removed } else { CellTone::Added })
            &&& v.number matches Some((r, t)) && r == (PanelRect { x: area.x, y: area.y, width: nw as u16, height: 1 })
                && t@ == lineno_text(c.lineno as nat)
            &&& v.text matches Some((r, t)) && r == (PanelRect { x: (area.x + nw) as u16, y: area.y, width: (area.width - nw) as u16, height: 1 })
                && t@ == c.text@
        },
{
    match cell {
        None => CellView { tone: CellTone::Blank, number: None, text: None },
        Some(c) => {
            let tone = if !c.changed { CellTone::Plain } else if deleted { CellTone::Removed } else { CellTone::Added };
            let nw: u16 = if 5 < area.width { 5 } else { area.width };
            CellView {
                tone,
                number: Some((PanelRect::new(area.x, area.y, nw, 1), lineno_label(c.lineno))),
                text: Some((PanelRect::new(area.x + nw, area.y, area.width - nw, 1), c.text.clone())),
            }
        },
    }
}

/// What a side-by-side cell view holds for `cell` drawn in `area` (`deleted`: the left,
/// removed side): as `side_by_side_cell_view` gives it.
pub open spec fn cell_view_is(v: CellView, area: PanelRect, cell: Option<SideBySideCell>, deleted: bool) -> bool {
    match cell {
        None => v.tone == CellTone::Blank && v.number is None && v.text is None,
        Some(c) => {
            let nw = if 5 < area.width { 5 } else { area.width as int };
            &&& v.tone == (if !c.changed { CellTone::Plain } else if deleted { CellTone::Removed } else { CellTone::Added })
            &&& v.number matches Some((r, t)) && r == (PanelRect { x: area.x, y: area.y, width: nw as u16, height: 1 })
                && t@ == lineno_text(c.lineno as nat)
            &&& v.text matches Some((r, t)) && r == (PanelRect { x: (area.x + nw) as u16, y: area.y, width: (area.width - nw) as u16, height: 1 })
                && t@ == c.text@
        },
    }
}

/// One drawn row of the side-by-side body: each half's area and what is drawn in it.
#[derive(Debug, Clone)]
pub struct SideBySideRowView {
    pub left_area: PanelRect,
    pub left: CellView,
    pub right_area: PanelRect,
    pub right: CellView,
}

/// Row `row` drawn on the body's row `k`: the left cell on the left half (rounded down), the
/// right cell on the rest.
pub open spec fn row_view_is(v: SideBySideRowView, body: PanelRect, k: int, row: SideBySideRow) -> bool {
    &&& v.left_area == (PanelRect { x: body.x, y: (body.y + k) as u16, width: body.width / 2, height: 1 })
    &&& v.right_area == (PanelRect { x: (body.x + body.width / 2) as u16, y: (body.y + k) as u16, width: (body.width - body.width / 2) as u16, height: 1 })
    &&& cell_view_is(v.left, v.left_area, row.left, true)
    &&& cell_view_is(v.right, v.right_area, row.right, false)
}

/// Where the overlay's body is drawn.
#[derive(Debug, Clone)]
pub enum OverlayBodyView {
    /// The message on this one-row rectangle, in the error colour when `true`.
    Message(PanelRect, String, bool),
    /// The `k`-th visible row on the body's row `k`.
    Rows(Vec<SideBySideRowView>),
    /// Nothing.
    Blank,
}

/// Places the overlay's body content in `body`: a message on the body's first row, across its
/// whole width; each visible side-by-side row `k` on the body's row `k`; nothing for a blank
/// body or a body of no size.
pub fn git_diff_overlay_body_view(body: PanelRect, content: &OverlayBody) -> (v: OverlayBodyView)
    requires
        body.wf(),
        content matches OverlayBody::Rows(rs) ==> rs@.len() <= body.height,
    ensures
        body.width == 0 || body.height == 0 ==> v is Blank,
        body.width > 0 && body.height > 0 ==> match *content {
            OverlayBody::Message(t, e) => v matches OverlayBodyView::Message(r, t2, e2) && r == (PanelRect {
                x: body.x,
                y: body.y,
                width: body.width,
                height: 1,
            }) && t2@ == t@ && e2 == e,
            OverlayBody::Blank => v is Blank,
            OverlayBody::Rows(rs) => v matches OverlayBodyView::Rows(vs) && vs@.len() == rs@.len() && forall|k: int|
                0 <= k < rs@.len() ==> row_view_is(#[trigger] vs@[k], body, k, rs@[k]),
        },
{
    if body.width == 0 || body.height == 0 {
        return OverlayBodyView::Blank;
    }
    match content {
        OverlayBody::Message(t, e) => OverlayBodyView::Message(PanelRect::new(body.x, body.y, body.width, 1), t.clone(), *e),
        OverlayBody::Blank => OverlayBodyView::Blank,
        OverlayBody::Rows(rs) => {
            let mut out: Vec<SideBySideRowView> = Vec::new();
            let mut k: usize = 0;
            while k < rs.len()
                invariant
                    k <= rs@.len(),
                    rs@.len() <= body.height,
                    body.wf(),
                    out@.len() == k,
                    forall|j: int| 0 <= j < k ==> row_view_is(#[trigger] out@[j], body, j, rs@[j]),
                decreases rs@.len() - k,
            {
                let (left_area, right_area) = side_by_side_row_areas(body, k as u16);
                let row = &rs[k];
                let left = side_by_side_cell_view(left_area, row.left.as_ref(), true);
                let right = side_by_side_cell_view(right_area, row.right.as_ref(), false);
                out.push(SideBySideRowView { left_area, left, right_area, right });
                k = k + 1;
            }
            OverlayBodyView::Rows(out)
        },
    }
}

} // verus!
