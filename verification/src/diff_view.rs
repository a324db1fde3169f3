//! The server-side terminal UI's side-by-side diff view: the header naming the file and the two
//! sides compared, and the body (a placeholder, or the rows from the scroll offset on).
use vstd::prelude::*;

use crate::diff::{hunks_view, rows_view, FileDiff, RowModel, SideBySideRow};
use crate::diff_overlay::all_rows_of;
use crate::panel_view::PanelRect;
use crate::sidebar_git::GitDiffViewState;

verus! {

/// Width of the "esc/q close" affordance at the right of the header row; its click target has
/// the same width.
pub const CLOSE_LABEL_WIDTH: u16 = 11;

/// Every hunk's side-by-side rows, in order.
pub fn diff_rows(diff: &FileDiff) -> (rows: Vec<SideBySideRow>)
    ensures
        rows_view(rows@) == all_rows_of(hunks_view(diff.hunks@)),
{
    let mut rows: Vec<SideBySideRow> = Vec::new();
    let mut i: usize = 0;
    while i < diff.hunks.len()
        invariant
            i <= diff.hunks@.len(),
            rows_view(rows@) == all_rows_of(hunks_view(diff.hunks@.take(i as int))),
        decreases diff.hunks@.len() - i,
    {
        let mut more = crate::diff::hunk_to_side_by_side(&diff.hunks[i]);
        let ghost before = rows@;
        let ghost add = more@;
        rows.append(&mut more);
        proof {
            assert(rows_view(rows@) =~= rows_view(before) + rows_view(add));
            let h = hunks_view(diff.hunks@.take(i + 1));
            assert(h.drop_last() =~= hunks_view(diff.hunks@.take(i as int)));
            assert(h.last() == diff.hunks@[i as int]@);
        }
        i = i + 1;
    }
    assert(diff.hunks@.take(i as int) =~= diff.hunks@);
    rows
}

/// The view's body.
#[derive(Debug, Clone)]
pub enum DiffViewBody {
    /// A one-line muted message.
    Placeholder(String),
    /// The side-by-side rows shown, top to bottom.
    Rows(Vec<SideBySideRow>),
}

/// What the diff view draws inside its border: the header line, the body's rectangle and what
/// goes in it.
#[derive(Debug, Clone)]
pub struct DiffViewContent {
    pub header: String,
    pub body_area: PanelRect,
    pub body: DiffViewBody,
}

/// The header: the path, then which two sides are compared (the staged side against HEAD, or
/// the working tree against the index).
pub open spec fn diff_view_header(path: Seq<char>, staged: bool) -> Seq<char> {
    " "@ + path + "  ("@ + (if staged { "HEAD"@ } else { "index"@ }) + " \u{2192} "@
        + (if staged { "staged"@ } else { "working tree"@ }) + ")"@
}

/// The rows from `scroll` on, at most `visible` of them.
pub open spec fn window(rows: Seq<RowModel>, scroll: int, visible: int) -> Seq<RowModel> {
    let rest = if scroll < rows.len() { rows.skip(scroll) } else { Seq::empty() };
    if visible < rest.len() { rest.take(visible) } else { rest }
}

/// The diff view for the area inside its border: nothing when that is under three rows or ten
/// columns; else the header on the first row and, below it, "loading diff…" while the diff is
/// fetched, "no diff available" without one, a notice for a binary file, or the side-by-side
/// rows from the scroll offset on, as many as the body holds.
pub fn render_diff_view(view: &GitDiffViewState, inner: PanelRect) -> (r: Option<DiffViewContent>)
    requires
        inner.wf(),
    ensures
        r is None <==> (inner.height < 3 || inner.width < 10),
        r matches Some(c) ==> {
            &&& c.header@ == diff_view_header(view.path@, view.staged)
            &&& c.body_area == (PanelRect { x: inner.x, y: (inner.y + 1) as u16, width: inner.width, height: (inner.height - 1) as u16 })
            &&& view.loading ==> (c.body matches DiffViewBody::Placeholder(t) && t@ == "loading diff\u{2026}"@)
            &&& !view.loading ==> match view.diff {
                None => (c.body matches DiffViewBody::Placeholder(t) && t@ == "no diff available"@),
                Some(d) => if d.binary {
                    (c.body matches DiffViewBody::Placeholder(t) && t@ == "binary file \u{2014} no preview"@)
                } else {
                    (c.body matches DiffViewBody::Rows(rows) && rows_view(rows@) == window(
                        all_rows_of(hunks_view(d.hunks@)),
                        view.scroll as int,
                        inner.height - 1,
                    ))
                },
            }
        },
{
    if inner.height < 3 || inner.width < 10 {
        return None;
    }
    let mut header = " ".to_owned();
    header.append(view.path.as_str());
    header.append("  (");
    header.append(if view.staged { "HEAD" } else { "index" });
    header.append(" \u{2192} ");
    header.append(if view.staged { "staged" } else { "working tree" });
    header.append(")");
    let body_area = PanelRect::new(inner.x, inner.y + 1, inner.width, inner.height - 1);
    if view.loading {
        return Some(DiffViewContent { header, body_area, body: DiffViewBody::Placeholder("loading diff\u{2026}".to_owned()) });
    }
    let diff = match &view.diff {
        None => {
            return Some(DiffViewContent { header, body_area, body: DiffViewBody::Placeholder("no diff available".to_owned()) });
        },
        Some(d) => d,
    };
    if diff.binary {
        return Some(DiffViewContent {
            header,
            body_area,
            body: DiffViewBody::Placeholder("binary file \u{2014} no preview".to_owned()),
        });
    }
    let rows = diff_rows(diff);
    let visible: usize = body_area.height as usize;
    let start: usize = if view.scroll < rows.len() { view.scroll } else { rows.len() };
    let end: usize = if visible < rows.len() - start { start + visible } else { rows.len() };
    let mut shown: Vec<SideBySideRow> = Vec::new();
    let mut k: usize = start;
    while k < end
        invariant
            start <= k <= end <= rows@.len(),
            rows_view(shown@) == rows_view(rows@.subrange(start as int, k as int)),
        decreases end - k,
    {
        let ghost prev = shown@;
        shown.push(rows[k].clone_row());
        proof {
            assert(rows_view(shown@) =~= rows_view(prev).push(rows@[k as int]@));
            assert(rows_view(rows@.subrange(start as int, k + 1)) =~= rows_view(rows@.subrange(start as int, k as int)).push(rows@[k as int]@));
        }
        k = k + 1;
    }
    proof {
        let all = rows_view(rows@);
        if view.scroll < rows@.len() {
            let rest = all.skip(start as int);
            if (visible as int) < rest.len() {
                assert(rows_view(rows@.subrange(start as int, end as int)) =~= rest.take(visible as int));
            } else {
                assert(rows_view(rows@.subrange(start as int, end as int)) =~= rest);
            }
        } else {
            assert(rows_view(rows@.subrange(start as int, end as int)) =~= Seq::<RowModel>::empty());
        }
    }
    Some(DiffViewContent { header, body_area, body: DiffViewBody::Rows(shown) })
}

/// One colour channel of a changed row's background: 30% of the accent's.
pub open spec fn muted_channel(c: u8) -> int {
    c * 30 / 100
}

/// The muted background tint for a changed row, from an RGB accent colour (colours given by
/// terminal index or name are used as they are).
pub fn muted_diff_background(rgb: (u8, u8, u8)) -> (r: (u8, u8, u8))
    ensures
        r.0 == muted_channel(rgb.0),
        r.1 == muted_channel(rgb.1),
        r.2 == muted_channel(rgb.2),
{
    let r = (rgb.0 as u16) * 30 / 100;
    let g = (rgb.1 as u16) * 30 / 100;
    let b = (rgb.2 as u16) * 30 / 100;
    (r as u8, g as u8, b as u8)
}

} // verus!
