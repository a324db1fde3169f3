//! What the client's Git panel draws: the branch header, status line, file list and commit box,
//! as positioned text runs, highlighted cells and hit-test rectangles. The terminal renderer
//! paints these into its buffer with the palette's colours.
use vstd::prelude::*;

use crate::client_git::{
    ClientGitFileEntry, ClientGitFileStatus, ClientGitPanelState, ClientGitWorkingTree,
    ClientGitWorkspace, GitSidebarFocus,
};
use crate::commit_box::{
    commit_cursor_position, cursor_position, string_views, text_before, wrap_commit_message,
    wrapped,
};

verus! {

/// Rows reserved for the wrapped message text below the commit box header: a real multi-line
/// field showing the whole draft, not a single-line preview.
pub const COMMIT_BOX_MESSAGE_ROWS: u16 = 5;

/// A rectangle of terminal cells. Like the terminal library's, its right and bottom edges fit
/// in a `u16`.
#[derive(Debug, Clone, Copy, PartialEq, Eq, Structural)]
pub struct PanelRect {
    pub x: u16,
    pub y: u16,
    pub width: u16,
    pub height: u16,
}

impl PanelRect {
    pub open spec fn wf(self) -> bool {
        self.x + self.width <= u16::MAX && self.y + self.height <= u16::MAX
    }

    pub open spec fn spec_bottom(self) -> int {
        self.y + self.height
    }

    pub fn new(x: u16, y: u16, width: u16, height: u16) -> (r: Self)
        ensures
            r == (PanelRect { x, y, width, height }),
    {
        PanelRect { x, y, width, height }
    }

    /// The empty rectangle at the origin.
    pub fn empty() -> (r: Self)
        ensures
            r == (PanelRect { x: 0, y: 0, width: 0, height: 0 }),
    {
        PanelRect { x: 0, y: 0, width: 0, height: 0 }
    }

    pub fn bottom(&self) -> (r: u16)
        requires
            self.wf(),
        ensures
            r == self.spec_bottom(),
    {
        self.y + self.height
    }

    pub fn right(&self) -> (r: u16)
        requires
            self.wf(),
        ensures
            r == self.x + self.width,
    {
        self.x + self.width
    }
}

/// How a text run is to be coloured.
#[derive(Debug, Clone, Copy, PartialEq, Eq, Structural)]
pub enum PanelStyle {
    /// Muted placeholder and section-header text.
    Muted,
    /// The branch line: accent colour, bold.
    Branch,
    /// The discard confirmation: error colour, bold.
    Confirm,
    /// The last error: error colour.
    Error,
    /// A file name.
    FileName,
    /// A file's status glyph, coloured by status.
    Glyph(ClientGitFileStatus),
    /// The commit box header; brighter when the box has focus.
    CommitHeader(bool),
    /// Draft text on the commit box background (`focused`, `empty`: the placeholder is muted).
    Message(bool, bool),
}

/// A run of text drawn from `(x, y)`, clipped to `width` columns.
#[derive(Debug, Clone)]
pub struct PanelText {
    pub x: u16,
    pub y: u16,
    pub width: u16,
    pub text: String,
    pub style: PanelStyle,
}

/// One visual line of the file list.
#[derive(Debug, Clone, Copy, PartialEq, Eq, Structural)]
pub enum GitPanelLine {
    /// "STAGED CHANGES" (`true`) or "CHANGES" (`false`).
    SectionHeader(bool),
    /// The file row with this index (staged rows first, then unstaged).
    File(usize),
}

/// What the Git panel draws, in drawing order, and where its parts are.
#[derive(Debug, Clone)]
pub struct GitPanelRender {
    pub texts: Vec<PanelText>,
    /// The highlighted (selected) file row, painted with the selection background.
    pub highlight: Option<PanelRect>,
    /// The commit message field, painted with the box background (brighter when focused).
    pub message_area: Option<(PanelRect, bool)>,
    /// The cell painted as the text cursor.
    pub cursor: Option<(u16, u16)>,
    /// Each drawn file row's rectangle and row index, top to bottom.
    pub hits: Vec<(PanelRect, usize)>,
    /// The commit box's hit-test rectangle; empty when the box was not drawn.
    pub commit_box: PanelRect,
}

/// The file list's lines in rendering order: a "STAGED CHANGES" header followed by the staged
/// entries, then a "CHANGES" header followed by the unstaged ones; a section without entries
/// has no header. Row indices count file rows only.
pub open spec fn panel_lines_of(staged: nat, unstaged: nat) -> Seq<GitPanelLine> {
    let first = if staged > 0 {
        seq![GitPanelLine::SectionHeader(true)] + Seq::new(staged, |i: int| GitPanelLine::File(i as usize))
    } else {
        Seq::empty()
    };
    let second = if unstaged > 0 {
        seq![GitPanelLine::SectionHeader(false)] + Seq::new(unstaged, |i: int| GitPanelLine::File((staged + i) as usize))
    } else {
        Seq::empty()
    };
    first + second
}

/// The flattened visual line list of a working tree (see `panel_lines_of`).
pub fn panel_lines(working_tree: &ClientGitWorkingTree) -> (lines: Vec<GitPanelLine>)
    requires
        working_tree.staged@.len() + working_tree.unstaged@.len() + 2 <= usize::MAX,
    ensures
        lines@ == panel_lines_of(working_tree.staged@.len(), working_tree.unstaged@.len()),
{
    let ns = working_tree.staged.len();
    let nu = working_tree.unstaged.len();
    let mut lines: Vec<GitPanelLine> = Vec::new();
    let mut index: usize = 0;
    if ns > 0 {
        lines.push(GitPanelLine::SectionHeader(true));
        while index < ns
            invariant
                index <= ns,
                ns == working_tree.staged@.len(),
                lines@ == seq![GitPanelLine::SectionHeader(true)] + Seq::new(index as nat, |i: int| GitPanelLine::File(i as usize)),
            decreases ns - index,
        {
            lines.push(GitPanelLine::File(index));
            assert(lines@ =~= seq![GitPanelLine::SectionHeader(true)] + Seq::new((index + 1) as nat, |i: int| GitPanelLine::File(i as usize)));
            index = index + 1;
        }
    }
    let ghost first = lines@;
    assert(first =~= (if ns > 0 {
        seq![GitPanelLine::SectionHeader(true)] + Seq::new(ns as nat, |i: int| GitPanelLine::File(i as usize))
    } else {
        Seq::empty()
    }));
    if nu > 0 {
        lines.push(GitPanelLine::SectionHeader(false));
        let mut k: usize = 0;
        while k < nu
            invariant
                k <= nu,
                ns + nu + 2 <= usize::MAX,
                lines@ == first + seq![GitPanelLine::SectionHeader(false)] + Seq::new(k as nat, |i: int| GitPanelLine::File((ns + i) as usize)),
            decreases nu - k,
        {
            lines.push(GitPanelLine::File(ns + k));
            assert(lines@ =~= first + seq![GitPanelLine::SectionHeader(false)] + Seq::new((k + 1) as nat, |i: int| GitPanelLine::File((ns + i) as usize)));
            k = k + 1;
        }
    }
    assert(lines@ =~= panel_lines_of(ns as nat, nu as nat));
    lines
}

/// The lines the file list shows: from the scroll position (clamped to the last line) on, as
/// many as there are rows.
pub open spec fn shown_lines(lines: Seq<GitPanelLine>, scroll: int, rows: int) -> Seq<GitPanelLine> {
    let start = if scroll < lines.len() - 1 {
        scroll
    } else {
        lines.len() - 1
    };
    let rest = lines.skip(start);
    if rows < rest.len() {
        rest.take(rows)
    } else {
        rest
    }
}

/// The hit rectangles of the file rows among `shown`, drawn from row `top` down.
pub open spec fn row_hits(shown: Seq<GitPanelLine>, top: int, x: u16, width: u16) -> Seq<(PanelRect, usize)>
    decreases shown.len(),
{
    if shown.len() == 0 {
        Seq::empty()
    } else {
        let prev = row_hits(shown.drop_last(), top, x, width);
        match shown.last() {
            GitPanelLine::File(i) => prev.push(
                (PanelRect { x, y: (top + shown.len() - 1) as u16, width, height: 1 }, i),
            ),
            GitPanelLine::SectionHeader(_) => prev,
        }
    }
}

pub open spec fn status_glyph_text(s: ClientGitFileStatus) -> Seq<char> {
    match s {
        ClientGitFileStatus::Added => "A"@,
        ClientGitFileStatus::Modified => "M"@,
        ClientGitFileStatus::Deleted => "D"@,
        ClientGitFileStatus::Renamed => "R"@,
        ClientGitFileStatus::Untracked => "?"@,
        ClientGitFileStatus::Conflicted => "U"@,
        ClientGitFileStatus::Unknown => "?"@,
    }
}

/// The one-letter glyph shown at the right edge of a file row.
pub fn status_glyph(status: ClientGitFileStatus) -> (r: &'static str)
    ensures
        r@ == status_glyph_text(status),
{
    match status {
        ClientGitFileStatus::Added => "A",
        ClientGitFileStatus::Modified => "M",
        ClientGitFileStatus::Deleted => "D",
        ClientGitFileStatus::Renamed => "R",
        ClientGitFileStatus::Untracked => "?",
        ClientGitFileStatus::Conflicted => "U",
        ClientGitFileStatus::Unknown => "?",
    }
}

/// The branch line: the branch name (`(detached)` without one), then the commits ahead and
/// behind its upstream when known.
pub open spec fn branch_line(ws: ClientGitWorkspace) -> Seq<char> {
    let branch = match ws.branch {
        Some(b) => b@,
        None => "(detached)"@,
    };
    let counts = match ws.git_ahead_behind {
        Some((a, b)) => " \u{2191}"@ + crate::text::decimal(a as nat) + " \u{2193}"@ + crate::text::decimal(b as nat),
        None => Seq::empty(),
    };
    " "@ + branch + counts
}

/// The commit box's top row: the bottom `COMMIT_BOX_MESSAGE_ROWS + 1` rows of the panel, but
/// never above `list_top`.
pub open spec fn commit_box_top(area: PanelRect, list_top: int) -> int {
    let t = area.spec_bottom() - (COMMIT_BOX_MESSAGE_ROWS + 1);
    let t = if t < 0 {
        0
    } else {
        t
    };
    if t < list_top {
        list_top
    } else {
        t
    }
}

/// The first row below the branch line and the status line (a pending discard confirmation,
/// or else the last error, when there is one).
pub open spec fn list_top(area: PanelRect, panel: ClientGitPanelState) -> int {
    if panel.pending_discard is Some || panel.last_error is Some {
        area.y + 2
    } else {
        area.y + 1
    }
}

pub open spec fn text_is(t: PanelText, x: int, y: int, width: int, text: Seq<char>, style: PanelStyle) -> bool {
    t.x == x && t.y == y && t.width == width && t.text@ == text && t.style == style
}

/// A text run as a value: position, width, text and style.
pub open spec fn text_model(t: PanelText) -> (int, int, int, Seq<char>, PanelStyle) {
    (t.x as int, t.y as int, t.width as int, t.text@, t.style)
}

pub open spec fn texts_model(v: Seq<PanelText>) -> Seq<(int, int, int, Seq<char>, PanelStyle)> {
    v.map_values(|t: PanelText| text_model(t))
}

/// The commit box's texts from row `top`: its header, then the visible message rows.
pub open spec fn commit_texts(area: PanelRect, panel: ClientGitPanelState, top: int) -> Seq<(int, int, int, Seq<char>, PanelStyle)> {
    let focused = panel.focus == GitSidebarFocus::CommitBox;
    let mt = top + 1;
    seq![(area.x as int, top, area.width as int, commit_header_text(panel), PanelStyle::CommitHeader(focused))]
        + (if mt < area.spec_bottom() {
        Seq::new(message_rows_shown(panel, area, mt) as nat, |i: int| (area.x + 1, mt + i, area.width - 1,
            message_row_text(panel, area, mt, i), PanelStyle::Message(focused, panel.commit_message@.len() == 0)))
    } else {
        Seq::empty()
    })
}

/// The file row with this index: staged rows first, then unstaged ones.
pub open spec fn entry_of(t: ClientGitWorkingTree, i: int) -> ClientGitFileEntry {
    if i < t.staged@.len() { t.staged@[i] } else { t.unstaged@[i - t.staged@.len()] }
}

/// One list line's texts on row `y`: a section header, or a file row's name (leaving the two
/// rightmost columns) and its status glyph in those columns.
pub open spec fn line_texts(line: GitPanelLine, y: int, t: ClientGitWorkingTree, area: PanelRect) -> Seq<(int, int, int, Seq<char>, PanelStyle)> {
    match line {
        GitPanelLine::SectionHeader(staged) => seq![(area.x as int, y, area.width as int,
            if staged { " STAGED CHANGES"@ } else { " CHANGES"@ }, PanelStyle::Muted)],
        GitPanelLine::File(i) => {
            let e = entry_of(t, i as int);
            let right = area.x + area.width;
            seq![
                (area.x as int, y, if area.width >= 2 { area.width - 2 } else { 0 }, " "@ + e.path@, PanelStyle::FileName),
                (if right >= 2 { right - 2 } else { 0 }, y, 2, " "@ + status_glyph_text(e.status), PanelStyle::Glyph(e.status)),
            ]
        },
    }
}

/// The texts of the list lines `shown`, drawn from row `top` down.
pub open spec fn list_texts(shown: Seq<GitPanelLine>, top: int, t: ClientGitWorkingTree, area: PanelRect) -> Seq<(int, int, int, Seq<char>, PanelStyle)>
    decreases shown.len(),
{
    if shown.len() == 0 {
        Seq::empty()
    } else {
        list_texts(shown.drop_last(), top, t, area) + line_texts(shown.last(), top + shown.len() - 1, t, area)
    }
}

/// What the file list area (rows `lt` to `top`) shows: "loading…" until the working tree is
/// known, "no changes" for a clean one, else its lines from the scroll position on.
pub open spec fn body_texts(ws: ClientGitWorkspace, panel: ClientGitPanelState, area: PanelRect, lt: int, top: int) -> Seq<(int, int, int, Seq<char>, PanelStyle)> {
    match ws.git_working_tree {
        None => if lt < top { seq![(area.x as int, lt, area.width as int, " loading\u{2026}"@, PanelStyle::Muted)] } else { Seq::empty() },
        Some(t) => {
            let lines = panel_lines_of(t.staged@.len(), t.unstaged@.len());
            if lines.len() == 0 {
                if lt < top { seq![(area.x as int, lt, area.width as int, " no changes"@, PanelStyle::Muted)] } else { Seq::empty() }
            } else {
                list_texts(shown_lines(lines, panel.scroll as int, top - lt), lt, t, area)
            }
        },
    }
}

/// The status line below the branch line: a pending discard confirmation, or else the last
/// error, when there is one and the panel has the row.
pub open spec fn status_texts(area: PanelRect, panel: ClientGitPanelState) -> Seq<(int, int, int, Seq<char>, PanelStyle)> {
    if area.y + 1 < area.spec_bottom() {
        match (panel.pending_discard, panel.last_error) {
            (Some(p), _) => seq![(area.x as int, area.y + 1, area.width as int, " discard "@ + p@ + "? (y/n)"@, PanelStyle::Confirm)],
            (None, Some(e)) => seq![(area.x as int, area.y + 1, area.width as int, " "@ + e@, PanelStyle::Error)],
            (None, None) => Seq::empty(),
        }
    } else {
        Seq::empty()
    }
}


fn text_run(x: u16, y: u16, width: u16, text: String, style: PanelStyle) -> (t: PanelText)
    ensures
        t.x == x && t.y == y && t.width == width && t.text == text && t.style == style,
{
    PanelText { x, y, width, text, style }
}

fn lit(s: &str) -> (r: String)
    ensures
        r@ == s@,
{
    String::from_str(s)
}

/// The commit box's message rows and cursor, as `render_git_panel` lays them out below the
/// header row at `message_top`.
pub open spec fn message_first_visible(panel: ClientGitPanelState, area: PanelRect, message_top: int) -> int {
    let visible = area.spec_bottom() - message_top;
    let wrap_width = if area.width >= 1 { area.width - 1 } else { 0 };
    let n = wrapped(panel.commit_message@, wrap_width).len();
    let crow = cursor_position(text_before(panel.commit_message@, panel.commit_cursor as int), wrap_width).0;
    let tail = if n > visible { n - visible } else { 0 };
    if tail < crow { tail } else { crow }
}

/// The text of message row `i` (counted from the first visible one).
pub open spec fn message_row_text(panel: ClientGitPanelState, area: PanelRect, message_top: int, i: int) -> Seq<char> {
    let wrap_width = if area.width >= 1 { area.width - 1 } else { 0 };
    if panel.commit_message@.len() == 0 && i == 0 {
        "Message\u{2026}"@
    } else {
        wrapped(panel.commit_message@, wrap_width)[message_first_visible(panel, area, message_top) + i]
    }
}

/// How many message rows are drawn.
pub open spec fn message_rows_shown(panel: ClientGitPanelState, area: PanelRect, message_top: int) -> int {
    let visible = area.spec_bottom() - message_top;
    let wrap_width = if area.width >= 1 { area.width - 1 } else { 0 };
    let left = wrapped(panel.commit_message@, wrap_width).len() - message_first_visible(panel, area, message_top);
    if left < visible { left } else { visible }
}

/// The cell painted as the cursor: on the cursor's row when that row is drawn and the box has
/// focus, one column right of the text's start plus the cursor column, unless that falls past
/// the panel's right edge.
pub open spec fn message_cursor(panel: ClientGitPanelState, area: PanelRect, message_top: int) -> Option<(u16, u16)> {
    let wrap_width = if area.width >= 1 { area.width - 1 } else { 0 };
    let (crow, ccol) = cursor_position(text_before(panel.commit_message@, panel.commit_cursor as int), wrap_width);
    let first = message_first_visible(panel, area, message_top);
    let cx = area.x + 1 + ccol;
    if panel.focus == GitSidebarFocus::CommitBox && first <= crow < first + message_rows_shown(panel, area, message_top)
        && cx < area.x + area.width {
        Some((cx as u16, (message_top + crow - first) as u16))
    } else {
        None
    }
}

pub open spec fn commit_header_text(panel: ClientGitPanelState) -> Seq<char> {
    if panel.commit_in_flight {
        " committing\u{2026}"@
    } else if panel.generating_commit_message {
        " generating\u{2026}"@
    } else {
        " COMMIT MESSAGE"@
    }
}

/// Draws the commit box pinned from row `top` down: a header naming its state, and a
/// multi-line, word-wrapped text field for the draft below it. Editing only appends at (or
/// backspaces from) the end of the message, so the field is bottom-anchored: it shows the tail
/// of the wrapped text, scrolled up just enough to keep the cursor in view when it is earlier
/// in the draft.
fn render_commit_box(out: &mut GitPanelRender, area: PanelRect, top: u16, panel: &ClientGitPanelState, lines: &Vec<String>)
    requires
        area.wf(),
        area.width > 0,
        top < area.spec_bottom(),
        string_views(lines@) == wrapped(panel.commit_message@, (area.width - 1) as int),
        top + 1 < area.spec_bottom() ==> vstd::utf8::is_char_boundary(vstd::utf8::encode_utf8(panel.commit_message@), panel.commit_cursor as int),
        old(out).message_area is None,
        old(out).cursor is None,
    ensures
        final(out).hits == old(out).hits,
        final(out).highlight == old(out).highlight,
        final(out).commit_box == old(out).commit_box,
        texts_model(final(out).texts@) == texts_model(old(out).texts@) + commit_texts(area, *panel, top as int),
        final(out).texts@.len() >= old(out).texts@.len() + 1,
        final(out).texts@.take(old(out).texts@.len() as int) == old(out).texts@,
        text_is(final(out).texts@[old(out).texts@.len() as int], area.x as int, top as int, area.width as int,
            commit_header_text(*panel), PanelStyle::CommitHeader(panel.focus == GitSidebarFocus::CommitBox)),
        top + 1 >= area.spec_bottom() ==> final(out).texts@.len() == old(out).texts@.len() + 1
            && final(out).message_area is None && final(out).cursor is None,
        top + 1 < area.spec_bottom() ==> {
            let mt = top + 1;
            let k0 = old(out).texts@.len() + 1;
            let focused = panel.focus == GitSidebarFocus::CommitBox;
            &&& final(out).message_area == Some((PanelRect { x: area.x, y: mt as u16, width: area.width, height: (area.spec_bottom() - mt) as u16 }, focused))
            &&& final(out).texts@.len() == k0 + message_rows_shown(*panel, area, mt)
            &&& forall|i: int| 0 <= i < message_rows_shown(*panel, area, mt) ==> text_is(
                #[trigger] final(out).texts@[k0 + i], area.x + 1, mt + i, area.width - 1,
                message_row_text(*panel, area, mt, i), PanelStyle::Message(focused, panel.commit_message@.len() == 0))
            &&& final(out).cursor == message_cursor(*panel, area, mt)
        },
{
    let focused = panel.focus == GitSidebarFocus::CommitBox;
    let header = if panel.commit_in_flight {
        lit(" committing\u{2026}")
    } else if panel.generating_commit_message {
        lit(" generating\u{2026}")
    } else {
        lit(" COMMIT MESSAGE")
    };
    let ghost k_header = out.texts@.len();
    out.texts.push(text_run(area.x, top, area.width, header, PanelStyle::CommitHeader(focused)));
    assert(texts_model(out.texts@) =~= texts_model(old(out).texts@) + seq![(area.x as int, top as int, area.width as int,
        commit_header_text(*panel), PanelStyle::CommitHeader(focused))]);
    let bottom = area.bottom();
    if top + 1 >= bottom {
        assert(texts_model(out.texts@) =~= texts_model(old(out).texts@) + commit_texts(area, *panel, top as int));
        return;
    }
    let message_top = top + 1;
    let message_height = bottom - message_top;
    out.message_area = Some((PanelRect::new(area.x, message_top, area.width, message_height), focused));
    let is_empty = panel.commit_message.as_str().is_empty();
    let visible = message_height as usize;
    let wrap_width = area.width - 1;
    let (cursor_row, cursor_column) = commit_cursor_position(panel.commit_message.as_str(), panel.commit_cursor, wrap_width);
    let n = lines.len();
    let tail = if n > visible { n - visible } else { 0 };
    let first_visible = if tail < cursor_row { tail } else { cursor_row };
    let shown = if n - first_visible < visible { n - first_visible } else { visible };
    let ghost k0 = out.texts@.len();
    let ghost before = out.texts@;
    let mut i: usize = 0;
    while i < shown
        invariant
            i <= shown,
            first_visible + shown <= n,
            n == lines@.len(),
            out.texts@.len() == k0 + i,
            out.texts@.take(k0 as int) == before,
            out.cursor is Some ==> (out.cursor == Some(((area.x + 1 + cursor_column) as u16, (message_top + cursor_row - first_visible) as u16))
                && first_visible <= cursor_row < first_visible + i && focused && area.x + 1 + cursor_column < area.x + area.width),
            area.width > 0,
            forall|j: int| 0 <= j < i ==> text_is(#[trigger] out.texts@[k0 + j], area.x + 1, message_top + j, area.width - 1,
                if is_empty && j == 0 { "Message\u{2026}"@ } else { lines@[first_visible + j]@ },
                PanelStyle::Message(focused, is_empty)),
            out.hits == old(out).hits,
            out.highlight == old(out).highlight,
            out.commit_box == old(out).commit_box,
            out.message_area == Some((PanelRect { x: area.x, y: message_top, width: area.width, height: message_height }, focused)),
            message_top as int + shown <= area.spec_bottom(),
            area.wf(),
            (focused && first_visible <= cursor_row < first_visible + i && area.x + 1 + cursor_column < area.x + area.width) ==> out.cursor is Some,
            !focused ==> out.cursor is None,
        decreases shown - i,
    {
        let y = message_top + (i as u16);
        let text = if is_empty && i == 0 {
            lit("Message\u{2026}")
        } else {
            lines[first_visible + i].clone()
        };
        let ghost prev = out.texts@;
        out.texts.push(text_run(area.x + 1, y, area.width - 1, text, PanelStyle::Message(focused, is_empty)));
        assert(out.texts@.take(k0 as int) =~= before) by {
            assert(prev.take(k0 as int) == before);
        }
        if focused && first_visible + i == cursor_row {
            let cursor_x: u32 = (area.x as u32) + 1 + (cursor_column as u32);
            if cursor_x < (area.x as u32) + (area.width as u32) {
                out.cursor = Some((cursor_x as u16, y));
            }
        }
        i = i + 1;
    }
    proof {
        let ww = (area.width - 1) as int;
        assert(wrap_width as int == ww);
        assert(n == wrapped(panel.commit_message@, ww).len());
        assert(first_visible == message_first_visible(*panel, area, message_top as int));
        assert(shown == message_rows_shown(*panel, area, message_top as int));
        assert(is_empty == (panel.commit_message@.len() == 0));
        assert forall|j: int| 0 <= j < shown implies text_is(
            #[trigger] out.texts@[k0 + j], area.x + 1, message_top + j, area.width - 1,
            message_row_text(*panel, area, message_top as int, j), PanelStyle::Message(focused, panel.commit_message@.len() == 0)) by {
            if !(is_empty && j == 0) {
                assert(lines@[first_visible + j]@ == string_views(lines@)[first_visible + j]);
            }
        }
        assert(out.cursor == message_cursor(*panel, area, message_top as int));
        assert(out.texts@.take(k_header as int) =~= old(out).texts@) by {
            assert(before.take(k_header as int) =~= old(out).texts@);
            assert(out.texts@.take(k0 as int) == before);
        }
        assert(out.texts@[k_header as int] == before[k_header as int]);
        let focused_ = panel.focus == GitSidebarFocus::CommitBox;
        assert(texts_model(out.texts@) =~= texts_model(old(out).texts@) + commit_texts(area, *panel, top as int)) by {
            assert forall|j: int| 0 <= j < out.texts@.len() implies #[trigger] texts_model(out.texts@)[j]
                == (texts_model(old(out).texts@) + commit_texts(area, *panel, top as int))[j] by {
                if j < k_header {
                    assert(out.texts@[j] == out.texts@.take(k_header as int)[j]);
                } else if j == k_header {
                } else {
                    assert(text_is(out.texts@[k0 + (j - k0)], area.x + 1, message_top + (j - k0), area.width - 1,
                        message_row_text(*panel, area, message_top as int, j - k0), PanelStyle::Message(focused_, panel.commit_message@.len() == 0)));
                }
            }
        }
    }
}


/// The highlighted row among `hits`: the (last) one whose row index is `selected`.
pub open spec fn highlight_of(hits: Seq<(PanelRect, usize)>, selected: usize) -> Option<PanelRect>
    decreases hits.len(),
{
    if hits.len() == 0 {
        None
    } else if hits.last().1 == selected {
        Some(hits.last().0)
    } else {
        highlight_of(hits.drop_last(), selected)
    }
}

/// The file rows' hits for a working tree, below `lt` and above `top`.
pub open spec fn tree_hits(tree: Option<ClientGitWorkingTree>, panel: ClientGitPanelState, area: PanelRect, lt: int, top: int) -> Seq<(PanelRect, usize)> {
    match tree {
        None => Seq::empty(),
        Some(t) => {
            let lines = panel_lines_of(t.staged@.len(), t.unstaged@.len());
            if lines.len() == 0 {
                Seq::empty()
            } else {
                row_hits(shown_lines(lines, panel.scroll as int, top - lt), lt, area.x, area.width)
            }
        },
    }
}

/// What the panel draws for a git workspace (see `render_git_panel`).
pub open spec fn repo_panel(area: PanelRect, ws: ClientGitWorkspace, panel: ClientGitPanelState, r: GitPanelRender) -> bool {
    let bottom = area.spec_bottom();
    let lt = list_top(area, panel);
    &&& texts_model(r.texts@) == seq![(area.x as int, area.y as int, area.width as int, branch_line(ws), PanelStyle::Branch)]
        + status_texts(area, panel) + (if lt < bottom {
        commit_texts(area, panel, commit_box_top(area, lt)) + body_texts(ws, panel, area, lt, commit_box_top(area, lt))
    } else {
        Seq::empty()
    })
    &&& r.texts@.len() >= 1
    &&& text_is(r.texts@[0], area.x as int, area.y as int, area.width as int, branch_line(ws), PanelStyle::Branch)
    &&& area.y + 1 < bottom ==> match (panel.pending_discard, panel.last_error) {
        (Some(p), _) => text_is(r.texts@[1], area.x as int, area.y + 1, area.width as int, " discard "@ + p@ + "? (y/n)"@, PanelStyle::Confirm),
        (None, Some(e)) => text_is(r.texts@[1], area.x as int, area.y + 1, area.width as int, " "@ + e@, PanelStyle::Error),
        (None, None) => true,
    }
    &&& lt >= bottom ==> r.hits@.len() == 0 && r.commit_box == PanelRect::empty_spec() && r.message_area is None
        && r.cursor is None && r.highlight is None
    &&& lt < bottom ==> {
        let top = commit_box_top(area, lt);
        let mt = top + 1;
        &&& r.commit_box == (PanelRect { x: area.x, y: top as u16, width: area.width, height: (bottom - top) as u16 })
        &&& r.hits@ == tree_hits(ws.git_working_tree, panel, area, lt, top)
        &&& r.highlight == highlight_of(r.hits@, panel.selected)
        &&& mt >= bottom ==> r.message_area is None && r.cursor is None
        &&& mt < bottom ==> {
            &&& r.message_area == Some((PanelRect { x: area.x, y: mt as u16, width: area.width, height: (bottom - mt) as u16 }, panel.focus == GitSidebarFocus::CommitBox))
            &&& r.cursor == message_cursor(panel, area, mt)
        }
    }
}

/// Whether the panel draws the commit message rows, the only part that reads the draft's
/// cursor: a git workspace in a non-empty area tall enough that the commit box has a row
/// below its header.
pub open spec fn draws_commit_message(area: PanelRect, workspace: Option<&ClientGitWorkspace>, panel: ClientGitPanelState) -> bool {
    let lt = list_top(area, panel);
    &&& area.width > 0
    &&& area.height > 0
    &&& workspace matches Some(ws) && ws.git_repo
    &&& lt < area.spec_bottom()
    &&& commit_box_top(area, lt) + 1 < area.spec_bottom()
}

impl PanelRect {
    pub open spec fn empty_spec() -> PanelRect {
        PanelRect { x: 0, y: 0, width: 0, height: 0 }
    }
}

fn entry_at<'a>(t: &'a ClientGitWorkingTree, index: usize) -> (e: &'a ClientGitFileEntry)
    requires
        index < t.staged@.len() + t.unstaged@.len(),
    ensures
        index < t.staged@.len() ==> *e == t.staged@[index as int],
        index >= t.staged@.len() ==> *e == t.unstaged@[index - t.staged@.len()],
{
    if index < t.staged.len() {
        &t.staged[index]
    } else {
        &t.unstaged[index - t.staged.len()]
    }
}

/// Lays out the sidebar's Git panel for the focused workspace (`None`: no workspace is
/// focused). A git workspace gets, top to bottom: its branch line; a status line (a pending
/// discard confirmation, or else the last error); the file list (a "loading" or "no changes"
/// placeholder until there are rows), scrolled by `panel.scroll`; and the commit box, which
/// always claims the bottom rows so the file list shrinks first.
#[verifier::spinoff_prover]
#[verifier::rlimit(80)]
pub fn render_git_panel(area: PanelRect, workspace: Option<&ClientGitWorkspace>, panel: &ClientGitPanelState) -> (r: GitPanelRender)
    requires
        area.wf(),
        draws_commit_message(area, workspace, *panel) ==> vstd::utf8::is_char_boundary(
            vstd::utf8::encode_utf8(panel.commit_message@),
            panel.commit_cursor as int,
        ),
        workspace matches Some(ws) ==> (ws.git_working_tree matches Some(t) ==> t.staged@.len() + t.unstaged@.len() + 2 <= usize::MAX),
    ensures
        area.width == 0 || area.height == 0 ==> r.texts@.len() == 0 && r.hits@.len() == 0 && r.commit_box
            == PanelRect::empty_spec() && r.message_area is None && r.cursor is None && r.highlight is None,
        area.width > 0 && area.height > 0 ==> match workspace {
            None => r.texts@.len() == 1 && text_is(r.texts@[0], area.x as int, area.y as int, area.width as int,
                " no focused workspace"@, PanelStyle::Muted) && r.hits@.len() == 0 && r.commit_box == PanelRect::empty_spec()
                && r.message_area is None && r.cursor is None && r.highlight is None,
            Some(ws) => if !ws.git_repo {
                r.texts@.len() == 1 && text_is(r.texts@[0], area.x as int, area.y as int, area.width as int,
                    " not a git repository"@, PanelStyle::Muted) && r.hits@.len() == 0 && r.commit_box == PanelRect::empty_spec()
                    && r.message_area is None && r.cursor is None && r.highlight is None
            } else {
                repo_panel(area, *ws, *panel, r)
            },
        },
{
    let mut out = GitPanelRender {
        texts: Vec::new(),
        highlight: None,
        message_area: None,
        cursor: None,
        hits: Vec::new(),
        commit_box: PanelRect::empty(),
    };
    if area.width == 0 || area.height == 0 {
        return out;
    }
    let ws = match workspace {
        None => {
            out.texts.push(text_run(area.x, area.y, area.width, lit(" no focused workspace"), PanelStyle::Muted));
            return out;
        },
        Some(ws) => ws,
    };
    if !ws.git_repo {
        out.texts.push(text_run(area.x, area.y, area.width, lit(" not a git repository"), PanelStyle::Muted));
        return out;
    }
    let bottom = area.bottom();
    let mut line = lit(" ");
    match &ws.branch {
        Some(b) => line.append(b.as_str()),
        None => line.append("(detached)"),
    }
    match ws.git_ahead_behind {
        Some((ahead, behind)) => {
            line.append(" \u{2191}");
            line.append(crate::text::u32_decimal(ahead).as_str());
            line.append(" \u{2193}");
            line.append(crate::text::u32_decimal(behind).as_str());
        },
        None => {},
    }
    assert(line@ == branch_line(*ws)) by {
        reveal_strlit(" ");
        reveal_strlit("(detached)");
    }
    out.texts.push(text_run(area.x, area.y, area.width, line, PanelStyle::Branch));
    let ghost first_texts = out.texts@;
    let ghost branch_model = seq![(area.x as int, area.y as int, area.width as int, branch_line(*ws), PanelStyle::Branch)];
    assert(texts_model(out.texts@) =~= branch_model);
    let mut y = area.y + 1;
    if y >= bottom {
        assert(texts_model(out.texts@) =~= branch_model + status_texts(area, *panel));
        return out;
    }
    match &panel.pending_discard {
        Some(path) => {
            let mut t = lit(" discard ");
            t.append(path.as_str());
            t.append("? (y/n)");
            out.texts.push(text_run(area.x, y, area.width, t, PanelStyle::Confirm));
            y = y + 1;
        },
        None => match &panel.last_error {
            Some(e) => {
                let mut t = lit(" ");
                t.append(e.as_str());
                out.texts.push(text_run(area.x, y, area.width, t, PanelStyle::Error));
                y = y + 1;
            },
            None => {},
        },
    }
    assert(texts_model(out.texts@) =~= branch_model + status_texts(area, *panel));
    let ghost head_model = texts_model(out.texts@);
    if y >= bottom {
        return out;
    }
    let ghost lt = y as int;
    let wrap_width = area.width - 1;
    let wrapped_message = wrap_commit_message(panel.commit_message.as_str(), wrap_width);
    let desired: u16 = COMMIT_BOX_MESSAGE_ROWS + 1;
    let t0: u16 = if bottom >= desired { bottom - desired } else { 0 };
    let top: u16 = if t0 < y { y } else { t0 };
    let list_bottom = top;
    let ghost before_box = out.texts@;
    assert(top as int == commit_box_top(area, lt));
    render_commit_box(&mut out, area, top, panel, &wrapped_message);
    out.commit_box = PanelRect::new(area.x, top, area.width, bottom - top);
    let ghost after_box = out;
    proof {
        assert(out.texts@[0] == before_box[0]);
        if before_box.len() > 1 {
            assert(out.texts@[1] == before_box[1]);
        }
    }
    let ghost box_model = texts_model(out.texts@);
    assert(box_model == head_model + commit_texts(area, *panel, top as int));
    assert(top as int == commit_box_top(area, lt));
    let tree = match &ws.git_working_tree {
        None => {
            if y < list_bottom {
                let ghost prev = out.texts@;
                out.texts.push(text_run(area.x, y, area.width, lit(" loading\u{2026}"), PanelStyle::Muted));
                assert(out.texts@[0] == prev[0]);
                assert(before_box.len() > 1 ==> out.texts@[1] == prev[1]);
                assert(texts_model(out.texts@) =~= box_model.push((area.x as int, y as int, area.width as int, " loading\u{2026}"@, PanelStyle::Muted)));
            }
            assert(texts_model(out.texts@) =~= head_model + (commit_texts(area, *panel, top as int) + body_texts(*ws, *panel, area, lt, top as int)));
            return out;
        },
        Some(t) => t,
    };
    let lines = panel_lines(tree);
    if lines.len() == 0 {
        if y < list_bottom {
            let ghost prev = out.texts@;
            out.texts.push(text_run(area.x, y, area.width, lit(" no changes"), PanelStyle::Muted));
            assert(out.texts@[0] == prev[0]);
            assert(before_box.len() > 1 ==> out.texts@[1] == prev[1]);
            assert(texts_model(out.texts@) =~= box_model.push((area.x as int, y as int, area.width as int, " no changes"@, PanelStyle::Muted)));
        }
        assert(texts_model(out.texts@) =~= head_model + (commit_texts(area, *panel, top as int) + body_texts(*ws, *panel, area, lt, top as int)));
        return out;
    }
    let max_scroll = lines.len() - 1;
    let start = if panel.scroll < max_scroll { panel.scroll } else { max_scroll };
    let ghost shown = shown_lines(lines@, panel.scroll as int, top - lt);
    let mut k: usize = start;
    while k < lines.len()
        invariant
            start <= k <= lines@.len(),
            start == (if panel.scroll < lines@.len() - 1 { panel.scroll as int } else { lines@.len() - 1 }),
            lt <= y <= list_bottom,
            y == lt + (k - start),
            list_bottom < bottom,
            bottom == area.spec_bottom(),
            area.wf(),
            area.width > 0,
            lines@ == panel_lines_of(tree.staged@.len(), tree.unstaged@.len()),
            shown == shown_lines(lines@, panel.scroll as int, list_bottom - lt),
            out.hits@ == row_hits(lines@.subrange(start as int, k as int), lt, area.x, area.width),
            out.highlight == highlight_of(out.hits@, panel.selected),
            out.commit_box == after_box.commit_box,
            out.message_area == after_box.message_area,
            out.cursor == after_box.cursor,
            out.texts@.len() >= 1,
            out.texts@.take(after_box.texts@.len() as int) == after_box.texts@,
            out.texts@.len() >= after_box.texts@.len(),
            texts_model(out.texts@) == box_model + list_texts(lines@.subrange(start as int, k as int), lt, *tree, area),
            box_model == texts_model(after_box.texts@),
        ensures
            k == lines@.len() || y >= list_bottom,
            start <= k <= lines@.len(),
            y == lt + (k - start),
            out.hits@ == row_hits(lines@.subrange(start as int, k as int), lt, area.x, area.width),
            out.highlight == highlight_of(out.hits@, panel.selected),
            out.commit_box == after_box.commit_box,
            out.message_area == after_box.message_area,
            out.cursor == after_box.cursor,
            out.texts@.take(after_box.texts@.len() as int) == after_box.texts@,
            out.texts@.len() >= after_box.texts@.len(),
            texts_model(out.texts@) == box_model + list_texts(lines@.subrange(start as int, k as int), lt, *tree, area),
        decreases lines@.len() - k,
    {
        if y >= list_bottom {
            break;
        }
        let ghost prev_hits = out.hits@;
        let ghost prev_texts = out.texts@;
        let ghost prev_model = texts_model(out.texts@);
        match lines[k] {
            GitPanelLine::SectionHeader(staged) => {
                let t = if staged { lit(" STAGED CHANGES") } else { lit(" CHANGES") };
                out.texts.push(text_run(area.x, y, area.width, t, PanelStyle::Muted));
                assert(texts_model(out.texts@) =~= prev_model + line_texts(lines@[k as int], y as int, *tree, area));
            },
            GitPanelLine::File(index) => {
                assert(index < tree.staged@.len() + tree.unstaged@.len()) by {
                    lemma_panel_line_index(tree.staged@.len(), tree.unstaged@.len(), k as int);
                }
                let rect = PanelRect::new(area.x, y, area.width, 1);
                if index == panel.selected {
                    out.highlight = Some(rect);
                }
                let entry = entry_at(tree, index);
                let mut name = lit(" ");
                name.append(entry.path.as_str());
                let name_width: u16 = if area.width >= 2 { area.width - 2 } else { 0 };
                out.texts.push(text_run(area.x, y, name_width, name, PanelStyle::FileName));
                let mut glyph = lit(" ");
                glyph.append(status_glyph(entry.status));
                let right = area.right();
                let gx: u16 = if right >= 2 { right - 2 } else { 0 };
                out.texts.push(text_run(gx, y, 2, glyph, PanelStyle::Glyph(entry.status)));
                out.hits.push((rect, index));
                assert(out.hits@.drop_last() =~= prev_hits);
                assert(*entry == entry_of(*tree, index as int));
                assert(texts_model(out.texts@) =~= prev_model + line_texts(lines@[k as int], y as int, *tree, area));
            },
        }
        proof {
            let seg = lines@.subrange(start as int, k + 1);
            assert(seg.drop_last() =~= lines@.subrange(start as int, k as int));
            assert(seg.last() == lines@[k as int]);
            assert(list_texts(seg, lt, *tree, area) == list_texts(lines@.subrange(start as int, k as int), lt, *tree, area)
                + line_texts(lines@[k as int], lt + seg.len() - 1, *tree, area));
            assert(texts_model(out.texts@) =~= box_model + list_texts(seg, lt, *tree, area));
            assert(out.texts@.take(after_box.texts@.len() as int) =~= after_box.texts@) by {
                assert(prev_texts.take(after_box.texts@.len() as int) == after_box.texts@);
            }
        }
        y = y + 1;
        k = k + 1;
    }
    proof {
        let rest = lines@.skip(start as int);
        let rows = list_bottom - lt;
        if rows < rest.len() {
            assert(shown =~= lines@.subrange(start as int, start + rows));
        } else {
            assert(shown =~= lines@.subrange(start as int, lines@.len() as int));
        }
        assert(lines@.subrange(start as int, k as int) =~= shown);
        assert(out.texts@[0] == after_box.texts@[0]);
        assert(texts_model(out.texts@) =~= head_model + (commit_texts(area, *panel, top as int) + body_texts(*ws, *panel, area, lt, top as int)));
    }
    out
}

/// The commit box keeps its place and height whatever the draft holds: two renderings of the
/// same workspace that differ only in the commit draft (or its cursor) put the box in the same
/// rectangle.
pub proof fn lemma_commit_box_ignores_the_draft(
    area: PanelRect,
    ws: ClientGitWorkspace,
    p1: ClientGitPanelState,
    p2: ClientGitPanelState,
    r1: GitPanelRender,
    r2: GitPanelRender,
)
    requires
        repo_panel(area, ws, p1, r1),
        repo_panel(area, ws, p2, r2),
        p1.pending_discard == p2.pending_discard,
        p1.last_error == p2.last_error,
    ensures
        r1.commit_box == r2.commit_box,
{
}

proof fn lemma_panel_line_index(staged: nat, unstaged: nat, k: int)
    requires
        0 <= k < panel_lines_of(staged, unstaged).len(),
    ensures
        panel_lines_of(staged, unstaged)[k] matches GitPanelLine::File(i) ==> i < staged + unstaged,
{
    let first = if staged > 0 {
        seq![GitPanelLine::SectionHeader(true)] + Seq::new(staged, |i: int| GitPanelLine::File(i as usize))
    } else {
        Seq::<GitPanelLine>::empty()
    };
    let lines = panel_lines_of(staged, unstaged);
    if k < first.len() {
        assert(lines[k] == first[k]);
    } else {
        let j = k - first.len();
        if unstaged > 0 {
            let second = seq![GitPanelLine::SectionHeader(false)] + Seq::new(unstaged, |i: int| GitPanelLine::File((staged + i) as usize));
            assert(lines[k] == second[j]);
        }
    }
}

} // verus!
