//! The client shell's Git panel: which view the sidebar shows, the panel's own state (selection,
//! focus, discard confirmation, commit draft), how keys drive it, and which endpoint requests it
//! sends in response.
use vstd::prelude::*;

use crate::schema::{GitCommitParams, GitFileTargetParams, GitPanelSetActiveParams};
use crate::text::{first_index, lemma_first_index_props, spec_trim, string_pop, string_push, trimmed};

verus! {

/// What the sidebar's upper section shows.
#[derive(Debug, Clone, Copy, PartialEq, Eq, Structural)]
pub enum SidebarSpacesView {
    Spaces,
    Git,
}

/// Which part of the Git panel has the keyboard.
#[derive(Debug, Clone, Copy, PartialEq, Eq, Structural)]
pub enum GitSidebarFocus {
    FileList,
    CommitBox,
}

/// The Git panel's own state on the client.
#[derive(Debug, Clone)]
pub struct ClientGitPanelState {
    /// Index of the highlighted file row (staged rows first, then unstaged).
    pub selected: usize,
    /// Visual lines scrolled off the top of the file list.
    pub scroll: usize,
    pub focus: GitSidebarFocus,
    /// A file whose discard awaits a `y` confirmation.
    pub pending_discard: Option<String>,
    pub last_error: Option<String>,
    pub commit_message: String,
    /// Byte offset of the insertion point in `commit_message`.
    pub commit_cursor: usize,
    pub commit_in_flight: bool,
    pub generating_commit_message: bool,
}

impl Default for ClientGitPanelState {
    fn default() -> (r: Self)
        ensures
            r.selected == 0,
            r.scroll == 0,
            r.focus == GitSidebarFocus::FileList,
            r.pending_discard is None,
            r.last_error is None,
            r.commit_message@.len() == 0,
            r.commit_cursor == 0,
            !r.commit_in_flight,
            !r.generating_commit_message,
    {
        ClientGitPanelState {
            selected: 0,
            scroll: 0,
            focus: GitSidebarFocus::FileList,
            pending_discard: None,
            last_error: None,
            commit_message: String::new(),
            commit_cursor: 0,
            commit_in_flight: false,
            generating_commit_message: false,
        }
    }
}

#[derive(Debug, Clone, Copy, PartialEq, Eq, Structural)]
pub enum ClientGitFileStatus {
    Added,
    Modified,
    Deleted,
    Renamed,
    Untracked,
    Conflicted,
    Unknown,
}

/// One changed file as the server reports it to clients.
#[derive(Debug, Clone)]
pub struct ClientGitFileEntry {
    pub path: String,
    pub original_path: Option<String>,
    pub status: ClientGitFileStatus,
}

/// A workspace's working tree: staged files and unstaged (including untracked) files.
#[derive(Debug, Clone)]
pub struct ClientGitWorkingTree {
    pub staged: Vec<ClientGitFileEntry>,
    pub unstaged: Vec<ClientGitFileEntry>,
}

/// What the Git panel reads of one workspace in the server's snapshot.
#[derive(Debug, Clone)]
pub struct ClientGitWorkspace {
    pub workspace_id: String,
    pub git_repo: bool,
    pub branch: Option<String>,
    pub git_ahead_behind: Option<(u32, u32)>,
    /// `None` while nobody has asked for it yet (the panel shows "loading").
    pub git_working_tree: Option<ClientGitWorkingTree>,
}

/// What the Git panel reads of the server's snapshot.
#[derive(Debug, Clone)]
pub struct ClientGitSnapshot {
    pub focused_workspace_id: Option<String>,
    pub workspaces: Vec<ClientGitWorkspace>,
}

/// How the response to a request is routed back.
#[derive(Debug, Clone, Copy, PartialEq, Eq, Structural)]
pub enum PendingEndpointKind {
    Generic,
    GitFileAction,
    GitCommit,
}

/// The API methods the Git panel sends.
#[derive(Debug, Clone)]
pub enum GitPanelMethod {
    GitPanelSetActive(GitPanelSetActiveParams),
    GitFileStage(GitFileTargetParams),
    GitFileUnstage(GitFileTargetParams),
    GitFileDiscard(GitFileTargetParams),
    GitCommit(GitCommitParams),
}

/// A request to send to the focused endpoint, and how its response is routed.
#[derive(Debug, Clone)]
pub struct EndpointRequest {
    pub method: GitPanelMethod,
    pub kind: PendingEndpointKind,
}

/// What handling one input produced: whether to repaint, and requests to send, in order.
#[derive(Debug, Clone)]
pub struct ClientShellInput {
    pub repaint: bool,
    pub actions: Vec<EndpointRequest>,
}

impl ClientShellInput {
    pub fn new() -> (r: Self)
        ensures
            !r.repaint,
            r.actions@.len() == 0,
    {
        ClientShellInput { repaint: false, actions: Vec::new() }
    }
}

/// A key as the Git panel sees it, after the shell's normalisation.
#[derive(Debug, Clone, Copy, PartialEq, Eq, Structural)]
pub enum PanelKeyCode {
    Tab,
    Up,
    Down,
    Enter,
    Backspace,
    Esc,
    Char(char),
    Other,
}

/// A key and its modifiers (`super`, `hyper` and `meta` count as `other_modifier`).
#[derive(Debug, Clone, Copy, PartialEq, Eq, Structural)]
pub struct PanelKey {
    pub code: PanelKeyCode,
    pub control: bool,
    pub alt: bool,
    pub shift: bool,
    pub other_modifier: bool,
}

pub open spec fn no_modifiers(k: PanelKey) -> bool {
    !k.control && !k.alt && !k.shift && !k.other_modifier
}

/// The client shell's state that the Git panel reads and changes.
#[derive(Debug, Clone)]
pub struct ClientGitShell {
    pub sidebar_view: SidebarSpacesView,
    pub git_panel: ClientGitPanelState,
    pub snapshot: Option<ClientGitSnapshot>,
}

pub open spec fn workspace_ids(ws: Seq<ClientGitWorkspace>) -> Seq<Seq<char>> {
    ws.map_values(|w: ClientGitWorkspace| w.workspace_id@)
}

pub open spec fn entry_paths(es: Seq<ClientGitFileEntry>) -> Seq<Seq<char>> {
    es.map_values(|e: ClientGitFileEntry| e.path@)
}

/// The file rows of a working tree, in panel order: staged, then unstaged.
pub open spec fn row_paths(t: ClientGitWorkingTree) -> Seq<Seq<char>> {
    entry_paths(t.staged@) + entry_paths(t.unstaged@)
}

pub open spec fn opt_string(o: Option<String>) -> Option<Seq<char>> {
    match o {
        Some(s) => Some(s@),
        None => None,
    }
}

/// The focused workspace's id, when the snapshot names one.
pub open spec fn focused_id(snapshot: Option<ClientGitSnapshot>) -> Option<Seq<char>> {
    match snapshot {
        Some(s) => opt_string(s.focused_workspace_id),
        None => None,
    }
}

/// The working tree of the first workspace whose id is the focused one.
pub open spec fn focused_tree(snapshot: Option<ClientGitSnapshot>) -> Option<ClientGitWorkingTree> {
    match snapshot {
        Some(s) => match opt_string(s.focused_workspace_id) {
            Some(id) => match first_index(workspace_ids(s.workspaces@), id) {
                Some(i) => s.workspaces@[i].git_working_tree,
                None => None,
            },
            None => None,
        },
        None => None,
    }
}

/// The focused workspace's file rows; none without a focused working tree.
pub open spec fn focused_rows(snapshot: Option<ClientGitSnapshot>) -> Seq<Seq<char>> {
    match focused_tree(snapshot) {
        Some(t) => row_paths(t),
        None => Seq::empty(),
    }
}

/// The path of row `selected`, if there is such a row.
pub open spec fn selected_path(snapshot: Option<ClientGitSnapshot>, selected: int) -> Option<
    Seq<char>,
> {
    if 0 <= selected < focused_rows(snapshot).len() {
        Some(focused_rows(snapshot)[selected])
    } else {
        None
    }
}

/// How many file rows the panel counts: all of them, up to `usize::MAX`.
pub open spec fn row_count(snapshot: Option<ClientGitSnapshot>) -> int {
    if focused_rows(snapshot).len() <= usize::MAX {
        focused_rows(snapshot).len() as int
    } else {
        usize::MAX as int
    }
}

/// Where a selection move of `delta` rows from `selected` lands among `count` rows.
pub open spec fn clamped_move(selected: int, delta: int, count: int) -> int {
    let t = selected + delta;
    if t < 0 {
        0
    } else if t > count - 1 {
        count - 1
    } else {
        t
    }
}

/// `r` is a `git.file.*` request (`which`: 0 stage, 1 unstage, 2 discard) for `path` in
/// workspace `ws`.
pub open spec fn is_file_request(r: EndpointRequest, which: int, ws: Seq<char>, path: Seq<char>) -> bool {
    &&& r.kind == PendingEndpointKind::GitFileAction
    &&& match r.method {
        GitPanelMethod::GitFileStage(p) => which == 0 && p.workspace_id@ == ws && p.path@ == path,
        GitPanelMethod::GitFileUnstage(p) => which == 1 && p.workspace_id@ == ws && p.path@ == path,
        GitPanelMethod::GitFileDiscard(p) => which == 2 && p.workspace_id@ == ws && p.path@ == path,
        _ => false,
    }
}

pub open spec fn is_commit_request(r: EndpointRequest, ws: Seq<char>, message: Seq<char>) -> bool {
    &&& r.kind == PendingEndpointKind::GitCommit
    &&& match r.method {
        GitPanelMethod::GitCommit(p) => p.workspace_id@ == ws && p.message@ == message,
        _ => false,
    }
}

pub open spec fn is_watch_request(r: EndpointRequest, ws: Seq<char>, active: bool) -> bool {
    &&& r.kind == PendingEndpointKind::Generic
    &&& match r.method {
        GitPanelMethod::GitPanelSetActive(p) => p.workspace_id@ == ws && p.active == active,
        _ => false,
    }
}

/// `after` is `before` with `r` appended to its requests, and the repaint flag unchanged
/// unless `repaint` sets it.
pub open spec fn appended_one(before: ClientShellInput, after: ClientShellInput, r: spec_fn(EndpointRequest) -> bool) -> bool {
    &&& after.actions@.len() == before.actions@.len() + 1
    &&& after.actions@.take(before.actions@.len() as int) == before.actions@
    &&& r(after.actions@.last())
}

fn clone_opt_string(o: &Option<String>) -> (r: Option<String>)
    ensures
        opt_string(r) == opt_string(*o),
{
    match o {
        Some(s) => Some(s.clone()),
        None => None,
    }
}

fn clone_entry_path(e: &ClientGitFileEntry) -> (r: String)
    ensures
        r@ == e.path@,
{
    e.path.clone()
}

/// `s1`/`o1` is what a selection move of `delta` makes of `s0`/`o0`.
pub open spec fn moved(s0: ClientGitShell, s1: ClientGitShell, o0: ClientShellInput, o1: ClientShellInput, delta: int) -> bool {
    &&& s1.sidebar_view == s0.sidebar_view
    &&& s1.snapshot == s0.snapshot
    &&& o1.actions == o0.actions
    &&& if row_count(s0.snapshot) == 0 {
        s1 == s0 && o1.repaint == o0.repaint
    } else {
        let next = clamped_move(s0.git_panel.selected as int, delta, row_count(s0.snapshot));
        &&& s1.git_panel == (ClientGitPanelState { selected: next as usize, ..s0.git_panel })
        &&& o1.repaint == (o0.repaint || next != s0.git_panel.selected)
    }
}

/// `o1` is `o0` plus a `git.file.*` request (`which`: 0 stage, 1 unstage) for the highlighted
/// file of `s0`'s focused workspace, when there is one; nothing else changes.
pub open spec fn file_request_sent(s0: ClientGitShell, s1: ClientGitShell, o0: ClientShellInput, o1: ClientShellInput, which: int) -> bool {
    &&& s1 == s0
    &&& o1.repaint == o0.repaint
    &&& match (focused_id(s0.snapshot), selected_path(s0.snapshot, s0.git_panel.selected as int)) {
        (Some(ws), Some(path)) => appended_one(o0, o1, |r: EndpointRequest| is_file_request(r, which, ws, path)),
        _ => o1.actions == o0.actions,
    }
}

/// `o1` is `o0` plus a `git.file.discard` request for `path` in `s0`'s focused workspace.
pub open spec fn discard_sent(s0: ClientGitShell, s1: ClientGitShell, o0: ClientShellInput, o1: ClientShellInput, path: Seq<char>) -> bool {
    &&& s1 == s0
    &&& o1.repaint == o0.repaint
    &&& match focused_id(s0.snapshot) {
        Some(ws) => appended_one(o0, o1, |r: EndpointRequest| is_file_request(r, 2, ws, path)),
        None => o1.actions == o0.actions,
    }
}

/// What submitting the commit draft of `s0` does.
pub open spec fn commit_submitted(s0: ClientGitShell, s1: ClientGitShell, o0: ClientShellInput, o1: ClientShellInput) -> bool {
    &&& s1.sidebar_view == s0.sidebar_view
    &&& s1.snapshot == s0.snapshot
    &&& {
        let message = spec_trim(s0.git_panel.commit_message@);
        if message.len() > 0 && focused_id(s0.snapshot) is Some {
            &&& s1.git_panel == (ClientGitPanelState { commit_in_flight: true, ..s0.git_panel })
            &&& o1.repaint
            &&& appended_one(o0, o1, |r: EndpointRequest| is_commit_request(r, focused_id(s0.snapshot)->0, message))
        } else {
            &&& s1 == s0
            &&& o1 == o0
        }
    }
}

/// What switching the sidebar of `s0` to `view` does.
pub open spec fn view_switched(s0: ClientGitShell, s1: ClientGitShell, o0: ClientShellInput, o1: ClientShellInput, view: SidebarSpacesView) -> bool {
    &&& s1.sidebar_view == view
    &&& s1.snapshot == s0.snapshot
    &&& s0.sidebar_view == view ==> s1 == s0 && o1 == o0
    &&& s0.sidebar_view != view ==> {
        &&& s1.git_panel.selected == 0
        &&& s1.git_panel.focus == GitSidebarFocus::FileList
        &&& s1.git_panel.pending_discard is None
        &&& s1.git_panel.last_error is None
        &&& s1.git_panel.commit_message@.len() == 0
        &&& !s1.git_panel.commit_in_flight
        &&& o1.repaint
        &&& match focused_id(s0.snapshot) {
            Some(ws) => appended_one(o0, o1, |r: EndpointRequest| is_watch_request(r, ws, view == SidebarSpacesView::Git)),
            None => o1.actions == o0.actions,
        }
    }
}

/// Only the panel's state changed, as `panel` says, and the client repaints.
pub open spec fn panel_changed(s0: ClientGitShell, s1: ClientGitShell, o0: ClientShellInput, o1: ClientShellInput, panel: ClientGitPanelState) -> bool {
    &&& s1 == (ClientGitShell { git_panel: panel, ..s0 })
    &&& o1.actions == o0.actions
    &&& o1.repaint
}

pub open spec fn is_char_key(k: PanelKey, c: char) -> bool {
    k.code == PanelKeyCode::Char(c)
}

/// A key in the file list (no discard pending): `tab` focuses the commit box, `up`/`k` and
/// `down`/`j` move the highlight, `s`/`u` stage/unstage the highlighted file, `d` asks to
/// discard it, `esc` goes back to the workspace list; all of them without modifiers. Any
/// other key is left to the rest of the shell.
pub open spec fn file_list_key(s0: ClientGitShell, s1: ClientGitShell, o0: ClientShellInput, o1: ClientShellInput, k: PanelKey, consumed: bool) -> bool {
    if no_modifiers(k) && k.code == PanelKeyCode::Tab {
        consumed && panel_changed(s0, s1, o0, o1, ClientGitPanelState { focus: GitSidebarFocus::CommitBox, ..s0.git_panel })
    } else if no_modifiers(k) && (k.code == PanelKeyCode::Up || is_char_key(k, 'k')) {
        consumed && moved(s0, s1, o0, o1, -1)
    } else if no_modifiers(k) && (k.code == PanelKeyCode::Down || is_char_key(k, 'j')) {
        consumed && moved(s0, s1, o0, o1, 1)
    } else if no_modifiers(k) && is_char_key(k, 's') {
        consumed && file_request_sent(s0, s1, o0, o1, 0)
    } else if no_modifiers(k) && is_char_key(k, 'u') {
        consumed && file_request_sent(s0, s1, o0, o1, 1)
    } else if no_modifiers(k) && is_char_key(k, 'd') {
        consumed && match selected_path(s0.snapshot, s0.git_panel.selected as int) {
            Some(path) => s1.sidebar_view == s0.sidebar_view && s1.snapshot == s0.snapshot
                && s1.git_panel.focus == s0.git_panel.focus && s1.git_panel.selected == s0.git_panel.selected
                && s1.git_panel.commit_message == s0.git_panel.commit_message
                && opt_string(s1.git_panel.pending_discard) == Some(path) && o1.actions == o0.actions && o1.repaint,
            None => s1 == s0 && o1 == o0,
        }
    } else if no_modifiers(k) && k.code == PanelKeyCode::Esc {
        consumed && view_switched(s0, s1, o0, o1, SidebarSpacesView::Spaces)
    } else {
        !consumed && s1 == s0 && o1 == o0
    }
}

/// A key in the commit box: `tab` or `esc` (no modifiers) returns to the file list,
/// `ctrl+enter` submits the draft, `enter` (no modifiers) starts a new line, `backspace` (no
/// modifiers) deletes the last character, and any character typed without `ctrl` or `alt` is
/// appended. Any other key is left to the rest of the shell.
pub open spec fn commit_box_key(s0: ClientGitShell, s1: ClientGitShell, o0: ClientShellInput, o1: ClientShellInput, k: PanelKey, consumed: bool) -> bool {
    let m = s0.git_panel.commit_message@;
    if no_modifiers(k) && k.code == PanelKeyCode::Tab {
        consumed && panel_changed(s0, s1, o0, o1, ClientGitPanelState { focus: GitSidebarFocus::FileList, ..s0.git_panel })
    } else if k.control && k.code == PanelKeyCode::Enter {
        consumed && commit_submitted(s0, s1, o0, o1)
    } else if no_modifiers(k) && k.code == PanelKeyCode::Enter {
        consumed && s1.sidebar_view == s0.sidebar_view && s1.snapshot == s0.snapshot
            && s1.git_panel.commit_message@ == m.push('\n') && s1.git_panel.focus == s0.git_panel.focus
            && o1.actions == o0.actions && o1.repaint
    } else if no_modifiers(k) && k.code == PanelKeyCode::Backspace {
        consumed && s1.sidebar_view == s0.sidebar_view && s1.snapshot == s0.snapshot
            && s1.git_panel.commit_message@ == (if m.len() > 0 { m.drop_last() } else { m })
            && s1.git_panel.focus == s0.git_panel.focus && o1.actions == o0.actions && o1.repaint
    } else if (k.code matches PanelKeyCode::Char(_)) && !k.control && !k.alt {
        consumed && s1.sidebar_view == s0.sidebar_view && s1.snapshot == s0.snapshot
            && s1.git_panel.commit_message@ == m.push(k.code->Char_0) && s1.git_panel.focus == s0.git_panel.focus
            && o1.actions == o0.actions && o1.repaint
    } else if no_modifiers(k) && k.code == PanelKeyCode::Esc {
        consumed && panel_changed(s0, s1, o0, o1, ClientGitPanelState { focus: GitSidebarFocus::FileList, ..s0.git_panel })
    } else {
        !consumed && s1 == s0 && o1 == o0
    }
}

impl ClientGitShell {
    /// The focused workspace's id.
    pub fn focused_git_workspace_id(&self) -> (r: Option<String>)
        ensures
            opt_string(r) == focused_id(self.snapshot),
    {
        match &self.snapshot {
            Some(s) => clone_opt_string(&s.focused_workspace_id),
            None => None,
        }
    }

    /// The focused workspace's working tree, if the snapshot has one for it.
    pub fn focused_git_working_tree(&self) -> (r: Option<&ClientGitWorkingTree>)
        ensures
            match r {
                Some(t) => focused_tree(self.snapshot) == Some(*t),
                None => focused_tree(self.snapshot) is None,
            },
    {
        let snapshot = match &self.snapshot {
            Some(s) => s,
            None => return None,
        };
        let id = match &snapshot.focused_workspace_id {
            Some(id) => id,
            None => return None,
        };
        let ghost ids = workspace_ids(snapshot.workspaces@);
        proof {
            lemma_first_index_props(ids, id@);
        }
        let mut i: usize = 0;
        while i < snapshot.workspaces.len()
            invariant
                i <= snapshot.workspaces@.len(),
                self.snapshot == Some(*snapshot),
                snapshot.focused_workspace_id == Some(*id),
                ids == workspace_ids(snapshot.workspaces@),
                forall|k: int| 0 <= k < i ==> #[trigger] ids[k] != id@,
            decreases snapshot.workspaces@.len() - i,
        {
            if snapshot.workspaces[i].workspace_id == *id {
                assert(ids[i as int] == id@);
                proof {
                    lemma_first_index_props(ids, id@);
                    match first_index(ids, id@) {
                        Some(j) => {
                            if j < i {
                                assert(ids[j] != id@);
                            } else if j > i {
                                assert(ids[i as int] != id@);
                            }
                        },
                        None => {
                            assert(ids[i as int] != id@);
                        },
                    }
                    assert(first_index(ids, id@) == Some(i as int));
                    assert(self.snapshot == Some(*snapshot));
                    assert(opt_string(snapshot.focused_workspace_id) == Some(id@));
                    assert(focused_tree(self.snapshot) == snapshot.workspaces@[i as int].git_working_tree);
                }
                return match &snapshot.workspaces[i].git_working_tree {
                    Some(t) => Some(t),
                    None => None,
                };
            }
            i = i + 1;
        }
        proof {
            lemma_first_index_props(ids, id@);
            if let Some(j) = first_index(ids, id@) {
                assert(ids[j] != id@);
            }
        }
        None
    }

    /// Number of selectable file rows in the focused working tree (saturating at `usize::MAX`,
    /// more rows than memory could hold).
    pub fn git_panel_row_count(&self) -> (r: usize)
        ensures
            r == row_count(self.snapshot),
    {
        match self.focused_git_working_tree() {
            Some(t) => t.staged.len().saturating_add(t.unstaged.len()),
            None => 0,
        }
    }

    /// The path of the highlighted file row.
    pub fn selected_git_file_path(&self) -> (r: Option<String>)
        ensures
            opt_string(r) == selected_path(self.snapshot, self.git_panel.selected as int),
    {
        let t = match self.focused_git_working_tree() {
            Some(t) => t,
            None => return None,
        };
        let sel = self.git_panel.selected;
        let ghost rows = row_paths(*t);
        if sel < t.staged.len() {
            let p = clone_entry_path(&t.staged[sel]);
            assert(rows[sel as int] == entry_paths(t.staged@)[sel as int]);
            Some(p)
        } else if sel - t.staged.len() < t.unstaged.len() {
            let k = sel - t.staged.len();
            let p = clone_entry_path(&t.unstaged[k]);
            assert(rows[sel as int] == entry_paths(t.unstaged@)[k as int]);
            Some(p)
        } else {
            None
        }
    }

    /// Moves the highlighted row by `delta` (`-1` or `1`), clamped to the rows there are;
    /// repaints when it moved. Without rows nothing happens.
    pub fn move_git_panel_selection(&mut self, delta: i32, outcome: &mut ClientShellInput)
        requires
            delta == -1 || delta == 1,
        ensures
            final(self).sidebar_view == old(self).sidebar_view,
            final(self).snapshot == old(self).snapshot,
            final(outcome).actions == old(outcome).actions,
            row_count(old(self).snapshot) == 0 ==> *final(self) == *old(self) && final(outcome).repaint == old(outcome).repaint,
            row_count(old(self).snapshot) > 0 ==> {
                let next = clamped_move(
                    old(self).git_panel.selected as int,
                    delta as int,
                    row_count(old(self).snapshot),
                );
                &&& final(self).git_panel == (ClientGitPanelState { selected: next as usize, ..old(self).git_panel })
                &&& final(outcome).repaint == (old(outcome).repaint || next != old(self).git_panel.selected)
            },
    {
        let count = self.git_panel_row_count();
        if count == 0 {
            return;
        }
        let sel = self.git_panel.selected;
        let next: usize = if delta < 0 {
            if sel == 0 {
                0
            } else if sel - 1 > count - 1 {
                count - 1
            } else {
                sel - 1
            }
        } else {
            if sel >= count - 1 {
                count - 1
            } else {
                sel + 1
            }
        };
        if next != sel {
            self.git_panel.selected = next;
            outcome.repaint = true;
        }
    }

    /// Sends a `git.file.*` request (`which`: 0 stage, 1 unstage) for the highlighted file of
    /// the focused workspace; nothing without a focused workspace or a highlighted file.
    fn send_git_file_action(&mut self, which: u8, outcome: &mut ClientShellInput)
        requires
            which == 0 || which == 1,
        ensures
            *final(self) == *old(self),
            final(outcome).repaint == old(outcome).repaint,
            match (focused_id(old(self).snapshot), selected_path(old(self).snapshot, old(self).git_panel.selected as int)) {
                (Some(ws), Some(path)) => appended_one(*old(outcome), *final(outcome), |r: EndpointRequest| is_file_request(r, which as int, ws, path)),
                _ => final(outcome).actions == old(outcome).actions,
            },
    {
        let workspace_id = match self.focused_git_workspace_id() {
            Some(w) => w,
            None => return,
        };
        let path = match self.selected_git_file_path() {
            Some(p) => p,
            None => return,
        };
        let params = GitFileTargetParams { workspace_id, path };
        let method = if which == 0 {
            GitPanelMethod::GitFileStage(params)
        } else {
            GitPanelMethod::GitFileUnstage(params)
        };
        let ghost before = outcome.actions@;
        outcome.actions.push(EndpointRequest { method, kind: PendingEndpointKind::GitFileAction });
        assert(outcome.actions@.take(before.len() as int) =~= before);
    }

    pub fn stage_selected_git_file(&mut self, outcome: &mut ClientShellInput)
        ensures
            *final(self) == *old(self),
            final(outcome).repaint == old(outcome).repaint,
            match (focused_id(old(self).snapshot), selected_path(old(self).snapshot, old(self).git_panel.selected as int)) {
                (Some(ws), Some(path)) => appended_one(*old(outcome), *final(outcome), |r: EndpointRequest| is_file_request(r, 0, ws, path)),
                _ => final(outcome).actions == old(outcome).actions,
            },
    {
        self.send_git_file_action(0, outcome);
    }

    pub fn unstage_selected_git_file(&mut self, outcome: &mut ClientShellInput)
        ensures
            *final(self) == *old(self),
            final(outcome).repaint == old(outcome).repaint,
            match (focused_id(old(self).snapshot), selected_path(old(self).snapshot, old(self).git_panel.selected as int)) {
                (Some(ws), Some(path)) => appended_one(*old(outcome), *final(outcome), |r: EndpointRequest| is_file_request(r, 1, ws, path)),
                _ => final(outcome).actions == old(outcome).actions,
            },
    {
        self.send_git_file_action(1, outcome);
    }

    /// Sends the confirmed `git.file.discard` for `path` in the focused workspace.
    pub fn confirm_discard(&mut self, path: String, outcome: &mut ClientShellInput)
        ensures
            *final(self) == *old(self),
            final(outcome).repaint == old(outcome).repaint,
            match focused_id(old(self).snapshot) {
                Some(ws) => appended_one(*old(outcome), *final(outcome), |r: EndpointRequest| is_file_request(r, 2, ws, path@)),
                None => final(outcome).actions == old(outcome).actions,
            },
    {
        let workspace_id = match self.focused_git_workspace_id() {
            Some(w) => w,
            None => return,
        };
        let ghost before = outcome.actions@;
        outcome.actions.push(
            EndpointRequest {
                method: GitPanelMethod::GitFileDiscard(GitFileTargetParams { workspace_id, path }),
                kind: PendingEndpointKind::GitFileAction,
            },
        );
        assert(outcome.actions@.take(before.len() as int) =~= before);
    }

    /// Commits the draft (trimmed) in the focused workspace: marks the commit in flight,
    /// repaints and sends `git.commit`. A draft that is only whitespace, or no focused
    /// workspace, does nothing.
    pub fn submit_git_commit(&mut self, outcome: &mut ClientShellInput)
        ensures
            final(self).sidebar_view == old(self).sidebar_view,
            final(self).snapshot == old(self).snapshot,
            ({
                let message = spec_trim(old(self).git_panel.commit_message@);
                if message.len() > 0 && focused_id(old(self).snapshot) is Some {
                    &&& final(self).git_panel == (ClientGitPanelState { commit_in_flight: true, ..old(self).git_panel })
                    &&& final(outcome).repaint
                    &&& appended_one(*old(outcome), *final(outcome), |r: EndpointRequest| is_commit_request(r, focused_id(old(self).snapshot)->0, message))
                } else {
                    &&& *final(self) == *old(self)
                    &&& *final(outcome) == *old(outcome)
                }
            }),
    {
        let message = trimmed(self.git_panel.commit_message.as_str());
        if message.as_str().is_empty() {
            return;
        }
        let workspace_id = match self.focused_git_workspace_id() {
            Some(w) => w,
            None => return,
        };
        self.git_panel.commit_in_flight = true;
        outcome.repaint = true;
        let ghost before = outcome.actions@;
        outcome.actions.push(
            EndpointRequest {
                method: GitPanelMethod::GitCommit(GitCommitParams { workspace_id, message }),
                kind: PendingEndpointKind::GitCommit,
            },
        );
        assert(outcome.actions@.take(before.len() as int) =~= before);
    }

    /// Tells the server whether the focused workspace's git panel is visible in this client,
    /// so the background working-tree refresh only runs while someone can see it.
    pub fn sync_git_panel_watch(&mut self, outcome: &mut ClientShellInput)
        ensures
            *final(self) == *old(self),
            final(outcome).repaint == old(outcome).repaint,
            match focused_id(old(self).snapshot) {
                Some(ws) => appended_one(*old(outcome), *final(outcome), |r: EndpointRequest| is_watch_request(r, ws, old(self).sidebar_view == SidebarSpacesView::Git)),
                None => final(outcome).actions == old(outcome).actions,
            },
    {
        let workspace_id = match self.focused_git_workspace_id() {
            Some(w) => w,
            None => return,
        };
        let active = self.sidebar_view == SidebarSpacesView::Git;
        let ghost before = outcome.actions@;
        outcome.actions.push(
            EndpointRequest {
                method: GitPanelMethod::GitPanelSetActive(GitPanelSetActiveParams { workspace_id, active }),
                kind: PendingEndpointKind::Generic,
            },
        );
        assert(outcome.actions@.take(before.len() as int) =~= before);
    }

    /// Switches the sidebar to `view`: the Git panel starts over from its defaults, the client
    /// repaints and tells the server whether it now watches the focused workspace. Switching to
    /// the view already shown does nothing.
    pub fn set_sidebar_view(&mut self, view: SidebarSpacesView, outcome: &mut ClientShellInput)
        ensures
            final(self).sidebar_view == view,
            final(self).snapshot == old(self).snapshot,
            old(self).sidebar_view == view ==> *final(self) == *old(self) && *final(outcome) == *old(outcome),
            old(self).sidebar_view != view ==> {
                &&& final(self).git_panel.selected == 0
                &&& final(self).git_panel.focus == GitSidebarFocus::FileList
                &&& final(self).git_panel.pending_discard is None
                &&& final(self).git_panel.last_error is None
                &&& final(self).git_panel.commit_message@.len() == 0
                &&& !final(self).git_panel.commit_in_flight
                &&& final(outcome).repaint
                &&& match focused_id(old(self).snapshot) {
                    Some(ws) => appended_one(*old(outcome), *final(outcome), |r: EndpointRequest| is_watch_request(r, ws, view == SidebarSpacesView::Git)),
                    None => final(outcome).actions == old(outcome).actions,
                }
            },
    {
        if self.sidebar_view == view {
            return;
        }
        self.sidebar_view = view;
        self.git_panel = ClientGitPanelState::default();
        outcome.repaint = true;
        self.sync_git_panel_watch(outcome);
    }

    /// Flips the sidebar between the workspace list and the Git panel.
    pub fn toggle_sidebar_git_view(&mut self, outcome: &mut ClientShellInput)
        ensures
            final(self).sidebar_view != old(self).sidebar_view,
            final(self).snapshot == old(self).snapshot,
            final(outcome).repaint,
            match focused_id(old(self).snapshot) {
                Some(ws) => appended_one(*old(outcome), *final(outcome), |r: EndpointRequest| is_watch_request(r, ws, old(self).sidebar_view == SidebarSpacesView::Spaces)),
                None => final(outcome).actions == old(outcome).actions,
            },
    {
        let next = match self.sidebar_view {
            SidebarSpacesView::Spaces => SidebarSpacesView::Git,
            SidebarSpacesView::Git => SidebarSpacesView::Spaces,
        };
        self.set_sidebar_view(next, outcome);
    }

    /// Routes a key to the Git panel while it is open. Returns whether the key was consumed:
    /// callers must not forward a consumed key to the focused pane or to ordinary keybinding
    /// resolution. While a discard awaits confirmation every key is consumed: `y`/`Y` (no
    /// modifiers) sends the discard, anything else cancels it.
    pub fn route_git_panel_key(&mut self, key: &PanelKey, outcome: &mut ClientShellInput) -> (consumed: bool)
        ensures
            match old(self).git_panel.pending_discard {
                Some(path) => consumed && {
                    let s_mid = ClientGitShell {
                        git_panel: ClientGitPanelState { pending_discard: None, ..old(self).git_panel },
                        ..*old(self)
                    };
                    if no_modifiers(*key) && (is_char_key(*key, 'y') || is_char_key(*key, 'Y')) {
                        discard_sent(s_mid, *final(self), *old(outcome), *final(outcome), path@)
                    } else {
                        *final(self) == s_mid && final(outcome).actions == old(outcome).actions && final(outcome).repaint
                    }
                },
                None => match old(self).git_panel.focus {
                    GitSidebarFocus::FileList => file_list_key(*old(self), *final(self), *old(outcome), *final(outcome), *key, consumed),
                    GitSidebarFocus::CommitBox => commit_box_key(*old(self), *final(self), *old(outcome), *final(outcome), *key, consumed),
                },
            },
    {
        let no_mods = !key.control && !key.alt && !key.shift && !key.other_modifier;
        if self.git_panel.pending_discard.is_some() {
            let path = match self.git_panel.pending_discard.take() {
                Some(p) => p,
                None => return true,
            };
            let is_yes = match key.code {
                PanelKeyCode::Char(c) => c == 'y' || c == 'Y',
                _ => false,
            };
            if no_mods && is_yes {
                self.confirm_discard(path, outcome);
            } else {
                outcome.repaint = true;
            }
            return true;
        }
        let code = key.code;
        match self.git_panel.focus {
            GitSidebarFocus::FileList => {
                if no_mods && code == PanelKeyCode::Tab {
                    self.git_panel.focus = GitSidebarFocus::CommitBox;
                    outcome.repaint = true;
                    true
                } else if no_mods && (code == PanelKeyCode::Up || code == PanelKeyCode::Char('k')) {
                    self.move_git_panel_selection(-1, outcome);
                    true
                } else if no_mods && (code == PanelKeyCode::Down || code == PanelKeyCode::Char('j')) {
                    self.move_git_panel_selection(1, outcome);
                    true
                } else if no_mods && code == PanelKeyCode::Char('s') {
                    self.stage_selected_git_file(outcome);
                    true
                } else if no_mods && code == PanelKeyCode::Char('u') {
                    self.unstage_selected_git_file(outcome);
                    true
                } else if no_mods && code == PanelKeyCode::Char('d') {
                    match self.selected_git_file_path() {
                        Some(path) => {
                            self.git_panel.pending_discard = Some(path);
                            outcome.repaint = true;
                        },
                        None => {},
                    }
                    true
                } else if no_mods && code == PanelKeyCode::Esc {
                    self.set_sidebar_view(SidebarSpacesView::Spaces, outcome);
                    true
                } else {
                    false
                }
            },
            GitSidebarFocus::CommitBox => {
                if no_mods && code == PanelKeyCode::Tab {
                    self.git_panel.focus = GitSidebarFocus::FileList;
                    outcome.repaint = true;
                    true
                } else if key.control && code == PanelKeyCode::Enter {
                    self.submit_git_commit(outcome);
                    true
                } else if no_mods && code == PanelKeyCode::Enter {
                    string_push(&mut self.git_panel.commit_message, '\n');
                    outcome.repaint = true;
                    true
                } else if no_mods && code == PanelKeyCode::Backspace {
                    string_pop(&mut self.git_panel.commit_message);
                    outcome.repaint = true;
                    true
                } else if !key.control && !key.alt && (code matches PanelKeyCode::Char(_)) {
                    if let PanelKeyCode::Char(c) = code {
                        string_push(&mut self.git_panel.commit_message, c);
                    }
                    outcome.repaint = true;
                    true
                } else if no_mods && code == PanelKeyCode::Esc {
                    self.git_panel.focus = GitSidebarFocus::FileList;
                    outcome.repaint = true;
                    true
                } else {
                    false
                }
            },
        }
    }

    /// Handles the response to a `git.file.*` or `git.commit` request; returns whether the
    /// client needs to repaint. A file action records its error (or clears it on success). A
    /// commit is no longer in flight either way: success clears the draft and the error,
    /// failure keeps the draft and records the error. Responses of other kinds are not the
    /// panel's and change nothing.
    pub fn handle_git_endpoint_result(&mut self, kind: PendingEndpointKind, result: Result<(), String>) -> (repaint: bool)
        ensures
            final(self).sidebar_view == old(self).sidebar_view,
            final(self).snapshot == old(self).snapshot,
            kind == PendingEndpointKind::Generic ==> !repaint && *final(self) == *old(self),
            kind == PendingEndpointKind::GitFileAction ==> repaint && final(self).git_panel == (ClientGitPanelState {
                last_error: match result {
                    Ok(_) => None,
                    Err(e) => Some(e),
                },
                ..old(self).git_panel
            }),
            kind == PendingEndpointKind::GitCommit ==> repaint && !final(self).git_panel.commit_in_flight && match result {
                Ok(_) => final(self).git_panel.commit_message@.len() == 0 && final(self).git_panel.last_error is None
                    && final(self).git_panel == (ClientGitPanelState {
                        commit_in_flight: false,
                        commit_message: final(self).git_panel.commit_message,
                        last_error: None,
                        ..old(self).git_panel
                    }),
                Err(e) => final(self).git_panel == (ClientGitPanelState {
                    commit_in_flight: false,
                    last_error: Some(e),
                    ..old(self).git_panel
                }),
            },
    {
        match kind {
            PendingEndpointKind::GitFileAction => {
                self.git_panel.last_error = match result {
                    Ok(_) => None,
                    Err(e) => Some(e),
                };
                true
            },
            PendingEndpointKind::GitCommit => {
                self.git_panel.commit_in_flight = false;
                match result {
                    Ok(_) => {
                        self.git_panel.commit_message = String::new();
                        self.git_panel.last_error = None;
                    },
                    Err(e) => {
                        self.git_panel.last_error = Some(e);
                    },
                }
                true
            },
            PendingEndpointKind::Generic => false,
        }
    }
}

} // verus!
