//! What the stash/branch pickers and the new-branch prompt draw inside their popup frames:
//! the client shell's picker overlay, and the server-side terminal UI's picker and prompt.
use vstd::prelude::*;

use crate::lists::GitListEntry;
use crate::panel_view::PanelRect;
use crate::picker::GitPickerState;

verus! {

/// One picker row: its line, whether it is the highlighted one, and its text.
#[derive(Debug, Clone)]
pub struct PickerRow {
    pub rect: PanelRect,
    pub selected: bool,
    pub text: String,
}

/// A picker's body: a one-line message (in the error colour when `true`), or the rows shown.
#[derive(Debug, Clone)]
pub enum PickerBody {
    Message(String, bool),
    Rows(Vec<PickerRow>),
    Empty,
}

/// The client shell's picker overlay as it stands: its purpose's title, whether the listing is
/// still loading or failed, the entries' labels and the highlighted one.
#[derive(Debug, Clone)]
pub struct ClientGitPickerOverlay {
    pub title: String,
    pub loading: bool,
    pub error: Option<String>,
    pub labels: Vec<String>,
    pub selected: usize,
}

#[derive(Debug, Clone)]
pub struct PickerOverlayView {
    pub title_rect: PanelRect,
    pub title: String,
    pub body: PickerBody,
}

/// Row `k` of a list drawn from `body`'s top: its line, highlighted when it is `selected`, its
/// text a space and the label.
pub open spec fn row_is(r: PickerRow, body: PanelRect, k: int, selected: int, label: Seq<char>) -> bool {
    &&& r.rect == (PanelRect { x: body.x, y: (body.y + k) as u16, width: body.width, height: 1 })
    &&& r.selected == (k == selected)
    &&& r.text@ == " "@ + label
}

/// The client picker inside its frame's inner area: nothing when that is under ten columns or
/// four rows; else the title on the first row and, two rows down, " loading…", the error, a
/// note that there is nothing to choose from, or one row per entry (as many as fit).
pub fn render_git_picker_overlay(picker: &ClientGitPickerOverlay, inner: PanelRect) -> (r: Option<PickerOverlayView>)
    requires
        inner.wf(),
    ensures
        r is None <==> (inner.width < 10 || inner.height < 4),
        r matches Some(v) ==> {
            let body = PanelRect { x: inner.x, y: (inner.y + 2) as u16, width: inner.width, height: (inner.height - 2) as u16 };
            &&& v.title_rect == (PanelRect { x: inner.x, y: inner.y, width: inner.width, height: 1 })
            &&& v.title@ == picker.title@
            &&& picker.loading ==> (v.body matches PickerBody::Message(t, false) && t@ == " loading\u{2026}"@)
            &&& !picker.loading && picker.error is Some ==> (v.body matches PickerBody::Message(t, true)
                && t@ == " "@ + picker.error->0@)
            &&& !picker.loading && picker.error is None && picker.labels@.len() == 0 ==> (v.body matches PickerBody::Message(t, false)
                && t@ == " nothing to choose from"@)
            &&& !picker.loading && picker.error is None && picker.labels@.len() > 0 ==> (v.body matches PickerBody::Rows(rows)
                && rows@.len() == (if picker.labels@.len() < body.height { picker.labels@.len() as int } else { body.height as int })
                && forall|k: int| 0 <= k < rows@.len() ==> row_is(#[trigger] rows@[k], body, k, picker.selected as int, picker.labels@[k]@))
        },
{
    if inner.width < 10 || inner.height < 4 {
        return None;
    }
    let title_rect = PanelRect::new(inner.x, inner.y, inner.width, 1);
    let body = PanelRect::new(inner.x, inner.y + 2, inner.width, inner.height - 2);
    let title = picker.title.clone();
    if picker.loading {
        return Some(PickerOverlayView { title_rect, title, body: PickerBody::Message(" loading\u{2026}".to_owned(), false) });
    }
    if let Some(error) = &picker.error {
        let mut t = " ".to_owned();
        t.append(error.as_str());
        return Some(PickerOverlayView { title_rect, title, body: PickerBody::Message(t, true) });
    }
    if picker.labels.len() == 0 {
        return Some(PickerOverlayView {
            title_rect,
            title,
            body: PickerBody::Message(" nothing to choose from".to_owned(), false),
        });
    }
    let mut rows: Vec<PickerRow> = Vec::new();
    let mut k: usize = 0;
    while k < picker.labels.len() && k < body.height as usize
        invariant
            k <= picker.labels@.len(),
            k <= body.height,
            body.y + body.height <= u16::MAX,
            rows@.len() == k,
            forall|j: int| 0 <= j < k ==> row_is(#[trigger] rows@[j], body, j, picker.selected as int, picker.labels@[j]@),
        decreases picker.labels@.len() - k,
    {
        let mut text = " ".to_owned();
        text.append(picker.labels[k].as_str());
        rows.push(PickerRow { rect: PanelRect::new(body.x, body.y + k as u16, body.width, 1), selected: k == picker.selected, text });
        k = k + 1;
    }
    Some(PickerOverlayView { title_rect, title, body: PickerBody::Rows(rows) })
}

/// The areas of the server-side picker's frame: the header line, the list area and, where the
/// frame has room, the footer line.
#[derive(Debug, Clone, Copy)]
pub struct ModalStack {
    pub header: PanelRect,
    pub content: PanelRect,
    pub footer: Option<PanelRect>,
}

/// One server-side picker row: as `PickerRow`, plus how many columns the label may take
/// before it is cut short (one column goes to the leading space).
#[derive(Debug, Clone)]
pub struct ListRow {
    pub rect: PanelRect,
    pub selected: bool,
    pub label: String,
    pub label_budget: usize,
}

#[derive(Debug, Clone)]
pub struct GitPickerView {
    pub title: String,
    pub message: Option<(String, bool)>,
    pub rows: Vec<ListRow>,
    pub footer: Option<(PanelRect, String)>,
}

/// The first row shown: far enough down that the highlighted row is on screen.
pub open spec fn list_start(selected: int, visible: int) -> int {
    let back = if visible >= 1 { visible - 1 } else { 0 };
    if selected >= back { selected - back } else { 0 }
}

pub open spec fn picker_message(p: GitPickerState, empty_message: Seq<char>) -> Option<(Seq<char>, bool)> {
    if p.loading {
        Some((" "@ + "loading\u{2026}"@, p.error is Some))
    } else if p.error is Some {
        Some((" "@ + p.error->0@, true))
    } else if p.entries@.len() == 0 {
        Some((" "@ + empty_message, false))
    } else {
        None
    }
}

/// The server-side picker: its title (" " and the kind's title) on the header line; in the
/// list area a message (loading, the error, or the kind's empty message; in the error colour
/// whenever an error is set) or the entries from the first one that keeps the highlighted
/// entry on screen, as many as fit; and the key help on the footer line.
pub fn render_git_picker_body(picker: &GitPickerState, title: &str, empty_message: &str, stack: ModalStack) -> (v: GitPickerView)
    requires
        stack.content.wf(),
    ensures
        v.title@ == " "@ + title@,
        stack.footer is None ==> v.footer is None,
        stack.footer matches Some(f) ==> (v.footer matches Some((r, t)) && r == f
            && t@ == " enter apply   esc cancel   \u{2191}/\u{2193} move"@),
        stack.content.height == 0 ==> v.message is None && v.rows@.len() == 0,
        stack.content.height > 0 ==> {
            let msg = picker_message(*picker, empty_message@);
            &&& msg is None <==> v.message is None
            &&& msg matches Some((t, e)) ==> v.message matches Some((vt, ve)) && vt@ == t && ve == e
            &&& msg is Some ==> v.rows@.len() == 0
            &&& msg is None ==> {
                let visible = stack.content.height as int;
                let start = list_start(picker.selected.selected as int, visible);
                let n = picker.entries@.len() - start;
                &&& v.rows@.len() == (if n < 0 { 0 } else if n < visible { n } else { visible })
                &&& forall|k: int| 0 <= k < v.rows@.len() ==> {
                    let row = #[trigger] v.rows@[k];
                    &&& row.rect == (PanelRect { x: stack.content.x, y: (stack.content.y + k) as u16, width: stack.content.width, height: 1 })
                    &&& row.selected == (start + k == picker.selected.selected)
                    &&& row.label@ == picker.entries@[start + k].label@
                    &&& row.label_budget == (if stack.content.width >= 1 { stack.content.width - 1 } else { 0 })
                }
            }
        },
{
    let mut full_title = " ".to_owned();
    full_title.append(title);
    let footer = match stack.footer {
        Some(f) => Some((f, " enter apply   esc cancel   \u{2191}/\u{2193} move".to_owned())),
        None => None,
    };
    let area = stack.content;
    if area.height == 0 {
        return GitPickerView { title: full_title, message: None, rows: Vec::new(), footer };
    }
    let message = if picker.loading {
        Some(("loading\u{2026}".to_owned(), picker.error.is_some()))
    } else if let Some(e) = &picker.error {
        Some((e.clone(), true))
    } else if picker.entries.len() == 0 {
        Some((empty_message.to_owned(), false))
    } else {
        None
    };
    if let Some((m, is_error)) = message {
        let mut t = " ".to_owned();
        t.append(m.as_str());
        return GitPickerView { title: full_title, message: Some((t, is_error)), rows: Vec::new(), footer };
    }
    let visible: usize = area.height as usize;
    let back: usize = visible - 1;
    let selected = picker.selected.selected;
    let start: usize = if selected >= back { selected - back } else { 0 };
    let budget: usize = if area.width >= 1 { (area.width - 1) as usize } else { 0 };
    let mut rows: Vec<ListRow> = Vec::new();
    let mut k: usize = 0;
    while k < visible && start < picker.entries.len() && k < picker.entries.len() - start
        invariant
            k <= visible,
            visible == area.height,
            area.y + area.height <= u16::MAX,
            rows@.len() == k,
            start == list_start(selected as int, visible as int),
            selected == picker.selected.selected,
            budget == (if area.width >= 1 { area.width - 1 } else { 0 }),
            start < picker.entries@.len() ==> k <= picker.entries@.len() - start,
            start >= picker.entries@.len() ==> k == 0,
            forall|j: int| 0 <= j < k ==> {
                let row = #[trigger] rows@[j];
                &&& row.rect == (PanelRect { x: area.x, y: (area.y + j) as u16, width: area.width, height: 1 })
                &&& row.selected == (start + j == selected)
                &&& row.label@ == picker.entries@[start + j].label@
                &&& row.label_budget == budget
            },
        decreases visible - k,
    {
        let entry: &GitListEntry = &picker.entries[start + k];
        rows.push(ListRow {
            rect: PanelRect::new(area.x, area.y + k as u16, area.width, 1),
            selected: start + k == selected,
            label: entry.label.clone(),
            label_budget: budget,
        });
        k = k + 1;
    }
    GitPickerView { title: full_title, message: None, rows, footer }
}

/// What the new-branch prompt draws inside its frame.
#[derive(Debug, Clone)]
pub struct BranchCreateView {
    pub title_rect: PanelRect,
    pub input_rect: PanelRect,
    /// The typed name, or the placeholder while nothing is typed.
    pub input: String,
    /// Whether `input` is the (dimmed) placeholder.
    pub placeholder: bool,
    pub footer_rect: PanelRect,
}

/// The new-branch prompt inside its frame's inner area: nothing under ten columns or three
/// rows; else " new branch" on the first row, the name (after a space) two rows down, and the
/// key help on the last row.
pub fn render_git_branch_create_overlay(inner: PanelRect, name_input: &str) -> (r: Option<BranchCreateView>)
    requires
        inner.wf(),
    ensures
        r is None <==> (inner.height < 3 || inner.width < 10),
        r matches Some(v) ==> {
            &&& v.title_rect == (PanelRect { x: inner.x, y: inner.y, width: inner.width, height: 1 })
            &&& v.input_rect == (PanelRect { x: inner.x, y: (inner.y + 2) as u16, width: inner.width, height: 1 })
            &&& v.footer_rect == (PanelRect { x: inner.x, y: (inner.y + inner.height - 1) as u16, width: inner.width, height: 1 })
            &&& v.placeholder == (name_input@.len() == 0)
            &&& v.input@ == (if name_input@.len() == 0 { "branch name\u{2026}"@ } else { name_input@ })
        },
{
    if inner.height < 3 || inner.width < 10 {
        return None;
    }
    let empty = name_input.unicode_len() == 0;
    let input = if empty { "branch name\u{2026}".to_owned() } else { name_input.to_owned() };
    Some(BranchCreateView {
        title_rect: PanelRect::new(inner.x, inner.y, inner.width, 1),
        input_rect: PanelRect::new(inner.x, inner.y + 2, inner.width, 1),
        input,
        placeholder: empty,
        footer_rect: PanelRect::new(inner.x, inner.y + (inner.height - 1), inner.width, 1),
    })
}

} // verus!
