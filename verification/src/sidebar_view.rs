//! What the server-side terminal UI's Git sidebar draws: the branch line, the commit box, the
//! section headers, each file row (status glyph, name, action buttons, or a discard prompt)
//! and the empty-tree notice. Colours are named by the palette role they take.
use vstd::prelude::*;

use crate::panel_view::PanelRect;
use crate::sidebar_layout::{row_area_is, GitFileRowArea, GIT_PANEL_BRANCH_ROWS, GIT_PANEL_COMMIT_BOX_HEIGHT, GIT_ROW_ACTION_WIDTH};
use crate::text::{decimal, str_eq, usize_decimal};
use crate::worktree_status::{GitFileEntry, GitFileStatusKind};

verus! {

/// A palette role.
#[derive(Debug, Clone, Copy, PartialEq, Eq, Structural)]
pub enum PanelColor {
    Text,
    Subtext,
    Overlay,
    Mauve,
    Red,
    Green,
    Yellow,
    Accent,
    SurfaceDim,
}

/// A run of text in one colour.
#[derive(Debug, Clone)]
pub struct ColoredText {
    pub text: String,
    pub color: PanelColor,
}

pub open spec fn colored(text: Seq<char>, color: PanelColor) -> (Seq<char>, PanelColor) {
    (text, color)
}

pub open spec fn colored_views(v: Seq<ColoredText>) -> Seq<(Seq<char>, PanelColor)> {
    v.map_values(|t: ColoredText| (t.text@, t.color))
}

/// The branch line: the branch (or "no branch"), then commits behind and ahead of upstream.
pub open spec fn branch_line_spec(branch: Option<Seq<char>>, ahead_behind: Option<(usize, usize)>) -> Seq<(Seq<char>, PanelColor)> {
    seq![colored(" "@, PanelColor::Text)] + (match branch {
        Some(b) => seq![colored(b, PanelColor::Mauve)],
        None => seq![colored("no branch"@, PanelColor::Overlay)],
    }) + (match ahead_behind {
        Some((ahead, behind)) => seq![
            colored("  "@, PanelColor::Text),
            colored("\u{2193}"@ + decimal(behind as nat), PanelColor::Red),
            colored(" "@, PanelColor::Text),
            colored("\u{2191}"@ + decimal(ahead as nat), PanelColor::Green),
        ],
        None => Seq::empty(),
    })
}

fn push_colored(v: &mut Vec<ColoredText>, text: String, color: PanelColor)
    ensures
        colored_views(final(v)@) == colored_views(old(v)@).push(colored(text@, color)),
{
    let ghost before = v@;
    v.push(ColoredText { text, color });
    assert(colored_views(v@) =~= colored_views(before).push(colored(text@, color)));
}

pub open spec fn str_opt(o: Option<&str>) -> Option<Seq<char>> {
    match o {
        Some(s) => Some(s@),
        None => None,
    }
}

/// The branch line for the focused workspace.
pub fn render_branch_header(branch: Option<&str>, ahead_behind: Option<(usize, usize)>) -> (line: Vec<ColoredText>)
    ensures
        colored_views(line@) == branch_line_spec(str_opt(branch), ahead_behind),
{
    let mut line: Vec<ColoredText> = Vec::new();
    assert(colored_views(line@) =~= Seq::empty());
    push_colored(&mut line, " ".to_owned(), PanelColor::Text);
    match branch {
        Some(b) => push_colored(&mut line, b.to_owned(), PanelColor::Mauve),
        None => push_colored(&mut line, "no branch".to_owned(), PanelColor::Overlay),
    }
    let ghost head = colored_views(line@);
    if let Some((ahead, behind)) = ahead_behind {
        let mut down = "\u{2193}".to_owned();
        down.append(usize_decimal(behind).as_str());
        let mut up = "\u{2191}".to_owned();
        up.append(usize_decimal(ahead).as_str());
        push_colored(&mut line, "  ".to_owned(), PanelColor::Text);
        push_colored(&mut line, down, PanelColor::Red);
        push_colored(&mut line, " ".to_owned(), PanelColor::Text);
        push_colored(&mut line, up, PanelColor::Green);
    }
    assert(colored_views(line@) =~= branch_line_spec(str_opt(branch), ahead_behind));
    line
}

/// What the commit box shows inside its border: the draft in the text colour, or the dimmed
/// placeholder; the border is the accent colour while the box has the keyboard; the submit
/// button (where the box has one) reads "committing…" (dimmed) while a commit runs.
#[derive(Debug, Clone)]
pub struct CommitBoxView {
    pub border: PanelColor,
    pub text: String,
    pub placeholder: bool,
    pub submit: Option<(PanelRect, String, bool)>,
}

pub fn render_commit_box(box_rect: PanelRect, submit_rect: PanelRect, focused: bool, commit_message: &str, commit_in_flight: bool) -> (r: Option<CommitBoxView>)
    ensures
        r is None <==> (box_rect.height == 0 || box_rect.width == 0),
        r matches Some(v) ==> {
            &&& v.border == (if focused { PanelColor::Accent } else { PanelColor::SurfaceDim })
            &&& v.placeholder == (commit_message@.len() == 0)
            &&& v.text@ == (if commit_message@.len() == 0 { "commit message\u{2026}"@ } else { commit_message@ })
            &&& submit_rect.height == 0 ==> v.submit is None
            &&& submit_rect.height > 0 ==> (v.submit matches Some((rect, label, dimmed)) && rect == submit_rect
                && dimmed == commit_in_flight
                && label@ == (if commit_in_flight { "committing\u{2026}"@ } else { "commit"@ }))
        },
{
    if box_rect.height == 0 || box_rect.width == 0 {
        return None;
    }
    let placeholder = commit_message.unicode_len() == 0;
    let text = if placeholder { "commit message\u{2026}".to_owned() } else { commit_message.to_owned() };
    let submit = if submit_rect.height > 0 {
        let label = if commit_in_flight { "committing\u{2026}".to_owned() } else { "commit".to_owned() };
        Some((submit_rect, label, commit_in_flight))
    } else {
        None
    };
    Some(CommitBoxView {
        border: if focused { PanelColor::Accent } else { PanelColor::SurfaceDim },
        text,
        placeholder,
        submit,
    })
}

pub open spec fn status_glyph(kind: GitFileStatusKind) -> (char, PanelColor) {
    match kind {
        GitFileStatusKind::Modified => ('M', PanelColor::Yellow),
        GitFileStatusKind::Added => ('A', PanelColor::Green),
        GitFileStatusKind::Deleted => ('D', PanelColor::Red),
        GitFileStatusKind::Renamed => ('R', PanelColor::Mauve),
        GitFileStatusKind::Untracked => ('U', PanelColor::Overlay),
        GitFileStatusKind::Conflicted => ('!', PanelColor::Red),
    }
}

/// The status letter and its colour.
pub fn status_glyph_and_color(kind: GitFileStatusKind) -> (r: (char, PanelColor))
    ensures
        r == status_glyph(kind),
{
    match kind {
        GitFileStatusKind::Modified => ('M', PanelColor::Yellow),
        GitFileStatusKind::Added => ('A', PanelColor::Green),
        GitFileStatusKind::Deleted => ('D', PanelColor::Red),
        GitFileStatusKind::Renamed => ('R', PanelColor::Mauve),
        GitFileStatusKind::Untracked => ('U', PanelColor::Overlay),
        GitFileStatusKind::Conflicted => ('!', PanelColor::Red),
    }
}

/// `i` is the first entry of `entries` with this path, or there is none.
pub open spec fn first_with_path(entries: Seq<GitFileEntry>, path: Seq<char>, r: Option<usize>) -> bool {
    match r {
        Some(i) => i < entries.len() && entries[i as int].path@ == path
            && forall|j: int| 0 <= j < i ==> (#[trigger] entries[j]).path@ != path,
        None => forall|j: int| 0 <= j < entries.len() ==> (#[trigger] entries[j]).path@ != path,
    }
}

fn find_entry(entries: &Vec<GitFileEntry>, path: &String) -> (r: Option<usize>)
    ensures
        first_with_path(entries@, path@, r),
{
    let mut i: usize = 0;
    while i < entries.len()
        invariant
            i <= entries@.len(),
            forall|j: int| 0 <= j < i ==> (#[trigger] entries@[j]).path@ != path@,
        decreases entries@.len() - i,
    {
        if str_eq(entries[i].path.as_str(), path.as_str()) {
            return Some(i);
        }
        i = i + 1;
    }
    None
}

/// How one file row is drawn.
#[derive(Debug, Clone)]
pub enum FileRowContent {
    /// The row's file is no longer in the list: only the highlight is drawn.
    Missing,
    /// Discard awaits confirmation: the prompt fills the row.
    PendingDiscard(String),
    /// The status glyph, the path (truncated at the end to `name_budget` columns, which keeps it
    /// clear of the action buttons), and the buttons: "-" (unstage) or "+" (stage), and "x"
    /// (discard) where it applies. `emphasised` is the selected row's bold text.
    Normal {
        glyph: char,
        glyph_color: PanelColor,
        name: String,
        name_budget: usize,
        emphasised: bool,
        toggle: Option<(PanelRect, char)>,
        discard: Option<PanelRect>,
    },
}

#[derive(Debug, Clone)]
pub struct FileRowView {
    pub row_rect: PanelRect,
    pub highlighted: bool,
    pub content: FileRowContent,
}

pub open spec fn name_budget(row: GitFileRowArea) -> int {
    let actions = if row.staged { 3int } else { 6int };
    let a = if row.row_rect.width >= 3 { row.row_rect.width - 3 } else { 0 };
    if a >= actions { a - actions } else { 0 }
}

pub open spec fn row_view_is(
    v: FileRowView,
    row: GitFileRowArea,
    source: Seq<GitFileEntry>,
    selected: Option<(Seq<char>, bool)>,
    pending_discard: Option<Seq<char>>,
) -> bool {
    let is_selected = selected matches Some((p, s)) && p == row.path@ && s == row.staged;
    &&& v.row_rect == row.row_rect
    &&& v.highlighted == is_selected
    &&& (forall|j: int| 0 <= j < source.len() ==> (#[trigger] source[j]).path@ != row.path@) ==> v.content is Missing
    &&& forall|i: int| 0 <= i < source.len() && source[i].path@ == row.path@
        && (forall|j: int| 0 <= j < i ==> (#[trigger] source[j]).path@ != row.path@) ==> {
        let entry = #[trigger] source[i];
        if pending_discard == Some(row.path@) {
            v.content matches FileRowContent::PendingDiscard(t) && t@ == " discard changes to "@ + entry.path@ + "? (y/n)"@
        } else {
            v.content matches FileRowContent::Normal { glyph, glyph_color, name, name_budget: nb, emphasised, toggle, discard }
                && (glyph, glyph_color) == status_glyph(entry.status)
                && name@ == entry.path@
                && nb == name_budget(row)
                && emphasised == is_selected
                && toggle == (if row.stage_toggle_rect.width > 0 {
                    Some((row.stage_toggle_rect, if row.staged { '-' } else { '+' }))
                } else {
                    None
                })
                && discard == (if row.can_discard && row.discard_rect.width > 0 { Some(row.discard_rect) } else { None })
        }
    }
}

/// One file row: highlighted when selected; the discard prompt while its discard awaits
/// confirmation; otherwise glyph, name and buttons.
pub fn render_git_file_row(
    row: &GitFileRowArea,
    source: &Vec<GitFileEntry>,
    selected: Option<(&String, bool)>,
    pending_discard: Option<&String>,
) -> (v: FileRowView)
    ensures
        row_view_is(v, *row, source@, match selected {
            Some((p, s)) => Some((p@, s)),
            None => None,
        }, match pending_discard {
            Some(p) => Some(p@),
            None => None,
        }),
{
    let is_selected = match selected {
        Some((p, s)) => str_eq(p.as_str(), row.path.as_str()) && s == row.staged,
        None => false,
    };
    let found = find_entry(source, &row.path);
    let content = match found {
        None => FileRowContent::Missing,
        Some(i) => {
            let entry = &source[i];
            let pending = match pending_discard {
                Some(p) => str_eq(p.as_str(), row.path.as_str()),
                None => false,
            };
            if pending {
                let mut t = " discard changes to ".to_owned();
                t.append(entry.path.as_str());
                t.append("? (y/n)");
                FileRowContent::PendingDiscard(t)
            } else {
                let (glyph, glyph_color) = status_glyph_and_color(entry.status);
                let actions: u16 = if row.staged { GIT_ROW_ACTION_WIDTH } else { GIT_ROW_ACTION_WIDTH * 2 };
                let a: u16 = if row.row_rect.width >= 3 { row.row_rect.width - 3 } else { 0 };
                let budget: u16 = if a >= actions { a - actions } else { 0 };
                let toggle = if row.stage_toggle_rect.width > 0 {
                    Some((row.stage_toggle_rect, if row.staged { '-' } else { '+' }))
                } else {
                    None
                };
                let discard = if row.can_discard && row.discard_rect.width > 0 { Some(row.discard_rect) } else { None };
                FileRowContent::Normal {
                    glyph,
                    glyph_color,
                    name: entry.path.clone(),
                    name_budget: budget as usize,
                    emphasised: is_selected,
                    toggle,
                    discard,
                }
            }
        },
    };
    proof {
        if let Some(i) = found {
            assert forall|k: int| 0 <= k < source@.len() && source@[k].path@ == row.path@
                && (forall|j: int| 0 <= j < k ==> (#[trigger] source@[j]).path@ != row.path@) implies k == i by {
                if k < i {
                    assert(source@[k].path@ != row.path@);
                } else if k > i {
                    assert(source@[i as int].path@ != row.path@);
                }
            }
        }
    }
    FileRowView { row_rect: row.row_rect, highlighted: is_selected, content }
}

/// A section header: its line and its text.
#[derive(Debug, Clone)]
pub struct SectionHeader {
    pub rect: PanelRect,
    pub text: String,
}

/// The first row of `rows` in the staged (or unstaged) section, if any.
pub open spec fn first_row_of(rows: Seq<GitFileRowArea>, staged: bool, r: Option<usize>) -> bool {
    match r {
        Some(i) => i < rows.len() && rows[i as int].staged == staged
            && forall|j: int| 0 <= j < i ==> (#[trigger] rows[j]).staged != staged,
        None => forall|j: int| 0 <= j < rows.len() ==> (#[trigger] rows[j]).staged != staged,
    }
}

fn first_row(rows: &Vec<GitFileRowArea>, staged: bool) -> (r: Option<usize>)
    ensures
        first_row_of(rows@, staged, r),
{
    let mut i: usize = 0;
    while i < rows.len()
        invariant
            i <= rows@.len(),
            forall|j: int| 0 <= j < i ==> (#[trigger] rows@[j]).staged != staged,
        decreases rows@.len() - i,
    {
        if rows[i].staged == staged {
            return Some(i);
        }
        i = i + 1;
    }
    None
}

/// The header above a section's first visible row, counting the section's files; none when
/// the section shows no row or the header would sit above the list.
pub open spec fn header_is(
    h: Option<SectionHeader>,
    area: PanelRect,
    rows: Seq<GitFileRowArea>,
    staged: bool,
    count: usize,
) -> bool {
    let list_top = area.y + GIT_PANEL_BRANCH_ROWS + GIT_PANEL_COMMIT_BOX_HEIGHT;
    let label = if staged { " staged changes ("@ } else { " changes ("@ };
    &&& (forall|j: int| 0 <= j < rows.len() ==> (#[trigger] rows[j]).staged != staged) ==> h is None
    &&& forall|i: int| 0 <= i < rows.len() && rows[i].staged == staged
        && (forall|j: int| 0 <= j < i ==> (#[trigger] rows[j]).staged != staged) ==> {
        let y = if (#[trigger] rows[i]).row_rect.y >= 1 { rows[i].row_rect.y - 1 } else { 0 };
        if y >= list_top {
            h matches Some(hd) && hd.rect == (PanelRect { x: area.x, y: y as u16, width: area.width, height: 1 })
                && hd.text@ == label + decimal(count as nat) + ")"@
        } else {
            h is None
        }
    }
}

fn section_header(area: PanelRect, rows: &Vec<GitFileRowArea>, staged: bool, count: usize) -> (h: Option<SectionHeader>)
    requires
        area.wf(),
        area.y + 6 <= u16::MAX,
    ensures
        header_is(h, area, rows@, staged, count),
{
    let list_top = area.y + GIT_PANEL_BRANCH_ROWS + GIT_PANEL_COMMIT_BOX_HEIGHT;
    let first = first_row(rows, staged);
    let r = match first {
        None => None,
        Some(i) => {
            let y = rows[i].row_rect.y;
            let y = if y >= 1 { y - 1 } else { 0 };
            if y >= list_top {
                let mut text = if staged { " staged changes (".to_owned() } else { " changes (".to_owned() };
                text.append(usize_decimal(count).as_str());
                text.append(")");
                Some(SectionHeader { rect: PanelRect::new(area.x, y, area.width, 1), text })
            } else {
                None
            }
        },
    };
    proof {
        if let Some(i) = first {
            assert forall|k: int| 0 <= k < rows@.len() && rows@[k].staged == staged
                && (forall|j: int| 0 <= j < k ==> (#[trigger] rows@[j]).staged != staged) implies k == i by {
                if k < i {
                    assert(rows@[k].staged != staged);
                } else if k > i {
                    assert(rows@[i as int].staged != staged);
                }
            }
        }
    }
    r
}

/// The file list's part of the Git sidebar: the two section headers, every row, and the
/// " no changes" notice on the first list row when both sections are empty.
#[derive(Debug, Clone)]
pub struct FileListView {
    pub staged_header: Option<SectionHeader>,
    pub unstaged_header: Option<SectionHeader>,
    pub rows: Vec<FileRowView>,
    pub empty_notice: Option<PanelRect>,
}

/// The file list for `area`, drawn from the row areas already laid out (`rows`): nothing when
/// the area is empty or the list starts below it.
pub fn render_git_file_list(
    area: PanelRect,
    rows: &Vec<GitFileRowArea>,
    staged: &Vec<GitFileEntry>,
    unstaged: &Vec<GitFileEntry>,
    selected: Option<(&String, bool)>,
    pending_discard: Option<&String>,
) -> (r: Option<FileListView>)
    requires
        area.wf(),
        area.y + area.height + 6 <= u16::MAX,
    ensures
        r is None <==> (area.height == 0 || area.width == 0 || area.y + 6 >= area.y + area.height),
        r matches Some(v) ==> {
            &&& header_is(v.staged_header, area, rows@, true, staged@.len() as usize)
            &&& header_is(v.unstaged_header, area, rows@, false, unstaged@.len() as usize)
            &&& v.rows@.len() == rows@.len()
            &&& forall|k: int| 0 <= k < rows@.len() ==> row_view_is(#[trigger] v.rows@[k], rows@[k],
                if rows@[k].staged { staged@ } else { unstaged@ },
                match selected {
                    Some((p, s)) => Some((p@, s)),
                    None => None,
                },
                match pending_discard {
                    Some(p) => Some(p@),
                    None => None,
                })
            &&& v.empty_notice == (if staged@.len() == 0 && unstaged@.len() == 0 && area.y + 7 < area.y + area.height {
                Some(PanelRect { x: area.x, y: (area.y + 7) as u16, width: area.width, height: 1 })
            } else {
                None
            })
        },
{
    if area.height == 0 || area.width == 0 {
        return None;
    }
    let list_top = area.y + GIT_PANEL_BRANCH_ROWS + GIT_PANEL_COMMIT_BOX_HEIGHT;
    let bottom = area.y + area.height;
    if list_top >= bottom {
        return None;
    }
    let staged_header = section_header(area, rows, true, staged.len());
    let unstaged_header = section_header(area, rows, false, unstaged.len());
    let mut views: Vec<FileRowView> = Vec::new();
    let mut k: usize = 0;
    while k < rows.len()
        invariant
            k <= rows@.len(),
            views@.len() == k,
            forall|j: int| 0 <= j < k ==> row_view_is(#[trigger] views@[j], rows@[j],
                if rows@[j].staged { staged@ } else { unstaged@ },
                match selected {
                    Some((p, s)) => Some((p@, s)),
                    None => None,
                },
                match pending_discard {
                    Some(p) => Some(p@),
                    None => None,
                }),
        decreases rows@.len() - k,
    {
        let row = &rows[k];
        let source = if row.staged { staged } else { unstaged };
        views.push(render_git_file_row(row, source, selected, pending_discard));
        k = k + 1;
    }
    let empty_y = list_top + 1;
    let empty_notice = if staged.len() == 0 && unstaged.len() == 0 && empty_y < bottom {
        Some(PanelRect::new(area.x, empty_y, area.width, 1))
    } else {
        None
    };
    Some(FileListView { staged_header, unstaged_header, rows: views, empty_notice })
}

/// The action buttons are drawn inside their row, and in a row of at least six columns discard
/// (where offered) sits to the right of stage/unstage without overlapping it.
pub proof fn lemma_row_buttons_inside_the_row(row: GitFileRowArea, area: PanelRect, y: int, entry: GitFileEntry, staged: bool)
    requires
        area.wf(),
        0 <= y <= u16::MAX,
        row_area_is(row, area, y, entry, staged),
    ensures
        row.row_rect.x <= row.stage_toggle_rect.x,
        row.stage_toggle_rect.x + row.stage_toggle_rect.width <= row.row_rect.x + row.row_rect.width,
        row.can_discard ==> row.discard_rect.x + row.discard_rect.width == row.row_rect.x + row.row_rect.width,
        area.width >= 6 && row.can_discard ==> row.stage_toggle_rect.x + row.stage_toggle_rect.width <= row.discard_rect.x
            && row.discard_rect.x + row.discard_rect.width == row.row_rect.x + row.row_rect.width,
        !row.can_discard ==> row.discard_rect.width == 0,
{
}

/// In an unstaged row at least nine columns wide, the file name (after the leading space,
/// status glyph and space, cut to its budget) ends before the buttons begin.
pub proof fn lemma_unstaged_name_clear_of_buttons(row: GitFileRowArea, area: PanelRect, y: int, entry: GitFileEntry)
    requires
        area.wf(),
        0 <= y <= u16::MAX,
        area.width >= 9,
        row_area_is(row, area, y, entry, false),
    ensures
        row.row_rect.x + 3 + name_budget(row) <= row.stage_toggle_rect.x,
{
}

} // verus!
