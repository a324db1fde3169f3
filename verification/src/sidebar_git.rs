//! The server-side terminal UI's Git sidebar: its file rows, selection, discard confirmation,
//! commit draft, the side-by-side diff view it opens, and what keys and finished background
//! jobs do to them.
use vstd::prelude::*;

use crate::actions::GitFileActionKind;
use crate::client_git::GitSidebarFocus;
use crate::diff::{hunks_view, FileDiff, FileDiffModel};
use crate::diff_overlay::all_rows_of;
use crate::picker::SelectionListState;
use crate::text::{spec_trim, string_pop, string_push, trimmed};
use crate::worktree_status::GitFileStatusKind;

verus! {

/// One file row of the sidebar: staged rows come first, then unstaged ones.
#[derive(Debug, Clone)]
pub struct SidebarRow {
    pub path: String,
    pub status: GitFileStatusKind,
    pub staged: bool,
}

/// The Git sidebar's own state.
#[derive(Debug, Clone)]
pub struct GitSidebarState {
    pub rows: Vec<SidebarRow>,
    pub selected: SelectionListState,
    pub focus: GitSidebarFocus,
    /// A file whose discard awaits a `y` confirmation.
    pub pending_discard: Option<String>,
    pub commit_message: String,
    pub commit_in_flight: bool,
    pub last_error: Option<String>,
}

/// The side-by-side diff view of one file.
#[derive(Debug, Clone)]
pub struct GitDiffViewState {
    pub repo_root: String,
    pub path: String,
    pub staged: bool,
    pub diff: Option<FileDiff>,
    pub scroll: usize,
    /// How many side-by-side rows the diff has.
    pub row_count: usize,
    pub loading: bool,
}

/// The sidebar, the diff view it may have open, and the generation of the latest diff fetch
/// (results of superseded fetches are dropped on arrival).
#[derive(Debug, Clone)]
pub struct AppGitState {
    pub sidebar: GitSidebarState,
    pub diff_view: Option<GitDiffViewState>,
    pub diff_fetch_generation: u64,
}

/// A key while the sidebar has the keyboard.
#[derive(Debug, Clone, Copy, PartialEq, Eq, Structural)]
pub enum SidebarKeyCode {
    Esc,
    Tab,
    Up,
    Down,
    Enter,
    Backspace,
    Char(char),
    Other,
}

/// A key and its modifiers: `control`, and whether any modifier other than `shift` is held.
#[derive(Debug, Clone, Copy, PartialEq, Eq, Structural)]
pub struct SidebarKey {
    pub code: SidebarKeyCode,
    pub control: bool,
    pub non_shift_modifier: bool,
}

/// What a key asks of the application beyond the sidebar's own state.
#[derive(Debug, Clone)]
pub enum SidebarGitEffect {
    Nothing,
    /// Hand the keyboard back to the terminal.
    LeaveMode,
    /// Open the diff view for a file (see `AppGitState::open_git_diff`).
    OpenDiff { path: String, staged: bool, untracked: bool },
    /// Stage, unstage or discard a file in the background.
    FileAction { path: String, action: GitFileActionKind },
    /// Commit the index with this message in the background (the commit is now in flight).
    Commit { message: String },
}

pub open spec fn selected_row(s: GitSidebarState) -> Option<SidebarRow> {
    if s.selected.selected < s.rows@.len() {
        Some(s.rows@[s.selected.selected as int])
    } else {
        None
    }
}

pub open spec fn is_char(k: SidebarKey, c: char) -> bool {
    k.code == SidebarKeyCode::Char(c)
}

pub open spec fn effect_is_file_action(e: SidebarGitEffect, path: Seq<char>, action: GitFileActionKind) -> bool {
    e matches SidebarGitEffect::FileAction { path: p, action: a } && p@ == path && a == action
}

impl GitSidebarState {
    /// The highlighted row and whether it is staged.
    pub fn selected_row(&self) -> (r: Option<&SidebarRow>)
        ensures
            match r {
                Some(row) => selected_row(*self) == Some(*row),
                None => selected_row(*self) is None,
            },
    {
        if self.selected.selected < self.rows.len() {
            Some(&self.rows[self.selected.selected])
        } else {
            None
        }
    }
}

/// What a key does in the file list with no discard pending: `up`/`k` and `down`/`j` move the
/// highlight; `enter` opens the highlighted file's diff; `s` stages it (only an unstaged row),
/// `u` unstages it (only a staged row); `d` asks to discard it (only an unstaged, tracked row:
/// staged changes must be unstaged first, and an untracked file cannot be restored). The
/// actions need a repository; other keys do nothing.
pub open spec fn file_list_effect(s0: GitSidebarState, s1: GitSidebarState, k: SidebarKey, has_repo: bool, e: SidebarGitEffect) -> bool {
    if k.code == SidebarKeyCode::Up || is_char(k, 'k') {
        e is Nothing && s1 == (GitSidebarState { selected: SelectionListState {
            selected: if s0.selected.selected == 0 { 0 } else { (s0.selected.selected - 1) as usize },
        }, ..s0 })
    } else if k.code == SidebarKeyCode::Down || is_char(k, 'j') {
        e is Nothing && s1 == (GitSidebarState { selected: SelectionListState {
            selected: if s0.selected.selected + 1 < s0.rows@.len() { (s0.selected.selected + 1) as usize } else { s0.selected.selected },
        }, ..s0 })
    } else if k.code == SidebarKeyCode::Enter {
        s1 == s0 && match (has_repo, selected_row(s0)) {
            (true, Some(row)) => e matches SidebarGitEffect::OpenDiff { path, staged, untracked }
                && path@ == row.path@ && staged == row.staged && untracked == (row.status == GitFileStatusKind::Untracked),
            _ => e is Nothing,
        }
    } else if is_char(k, 's') {
        s1 == s0 && match (has_repo, selected_row(s0)) {
            (true, Some(row)) => if row.staged { e is Nothing } else { effect_is_file_action(e, row.path@, GitFileActionKind::Stage) },
            _ => e is Nothing,
        }
    } else if is_char(k, 'u') {
        s1 == s0 && match (has_repo, selected_row(s0)) {
            (true, Some(row)) => if !row.staged { e is Nothing } else { effect_is_file_action(e, row.path@, GitFileActionKind::Unstage) },
            _ => e is Nothing,
        }
    } else if is_char(k, 'd') {
        e is Nothing && match selected_row(s0) {
            Some(row) => if row.staged || row.status == GitFileStatusKind::Untracked {
                s1 == s0
            } else {
                s1 == (GitSidebarState { pending_discard: Some(row.path), ..s0 })
            },
            None => s1 == s0,
        }
    } else {
        e is Nothing && s1 == s0
    }
}

/// What a key does in the commit box: `ctrl+enter` commits the trimmed draft (unless it is
/// empty, a commit is already in flight, or there is no repository), `enter` starts a new
/// line, `backspace` deletes the last character, and a character typed with at most `shift`
/// is appended; other keys do nothing.
pub open spec fn commit_box_effect(s0: GitSidebarState, s1: GitSidebarState, k: SidebarKey, has_repo: bool, e: SidebarGitEffect) -> bool {
    let m = s0.commit_message@;
    if k.code == SidebarKeyCode::Enter && k.control {
        let message = spec_trim(m);
        if message.len() > 0 && !s0.commit_in_flight && has_repo {
            (e matches SidebarGitEffect::Commit { message: msg } && msg@ == message)
                && s1 == (GitSidebarState { commit_in_flight: true, ..s0 })
        } else {
            e is Nothing && s1 == s0
        }
    } else if k.code == SidebarKeyCode::Enter {
        e is Nothing && s1.commit_message@ == m.push('\n') && s1 == (GitSidebarState { commit_message: s1.commit_message, ..s0 })
    } else if k.code == SidebarKeyCode::Backspace {
        e is Nothing && s1.commit_message@ == (if m.len() > 0 { m.drop_last() } else { m })
            && s1 == (GitSidebarState { commit_message: s1.commit_message, ..s0 })
    } else if (k.code matches SidebarKeyCode::Char(_)) && !k.non_shift_modifier {
        e is Nothing && s1.commit_message@ == m.push(k.code->Char_0)
            && s1 == (GitSidebarState { commit_message: s1.commit_message, ..s0 })
    } else {
        e is Nothing && s1 == s0
    }
}

/// What `handle_sidebar_git_key` does with `key` to the state `s0`, giving `s1` and the effect
/// `e`.
pub open spec fn sidebar_key_handled(s0: AppGitState, s1: AppGitState, key: SidebarKey, has_repo: bool, e: SidebarGitEffect) -> bool {
    &&& s1.diff_fetch_generation == s0.diff_fetch_generation
    &&& key.code == SidebarKeyCode::Esc ==> if s0.sidebar.pending_discard is Some {
        e is Nothing && s1.sidebar == (GitSidebarState { pending_discard: None, ..s0.sidebar })
            && s1.diff_view == s0.diff_view
    } else if s0.diff_view is Some {
        e is Nothing && s1.sidebar == s0.sidebar && s1.diff_view is None
    } else {
        e is LeaveMode && s1 == s0
    }
    &&& key.code == SidebarKeyCode::Tab ==> e is Nothing && s1.diff_view == s0.diff_view
        && s1.sidebar == (GitSidebarState {
        focus: if s0.sidebar.focus == GitSidebarFocus::FileList {
            GitSidebarFocus::CommitBox
        } else {
            GitSidebarFocus::FileList
        },
        ..s0.sidebar
    })
    &&& key.code != SidebarKeyCode::Esc && key.code != SidebarKeyCode::Tab ==> s1.diff_view == s0.diff_view && (
        if s0.sidebar.focus == GitSidebarFocus::FileList {
            match s0.sidebar.pending_discard {
                Some(path) => if is_char(key, 'y') || is_char(key, 'Y') {
                    s1.sidebar == (GitSidebarState { pending_discard: None, ..s0.sidebar })
                        && if has_repo { effect_is_file_action(e, path@, GitFileActionKind::Discard) } else { e is Nothing }
                } else {
                    e is Nothing && s1.sidebar == (GitSidebarState { pending_discard: None, ..s0.sidebar })
                },
                None => file_list_effect(s0.sidebar, s1.sidebar, key, has_repo, e),
            }
        } else {
            commit_box_effect(s0.sidebar, s1.sidebar, key, has_repo, e)
        })
}

impl AppGitState {
    /// Handles a key while the Git sidebar has the keyboard; `has_repo` says whether the panel
    /// has a repository to act on. `esc` unwinds one step at a time: it dismisses a pending
    /// discard, then closes the diff view, and only then hands the keyboard back. `tab` toggles
    /// between the file list and the commit box. While a discard awaits confirmation in the
    /// file list, `y`/`Y` discards the file and any other key cancels.
    pub fn handle_sidebar_git_key(&mut self, key: SidebarKey, has_repo: bool) -> (e: SidebarGitEffect)
        ensures
            sidebar_key_handled(*old(self), *final(self), key, has_repo, e),
    {
        if key.code == SidebarKeyCode::Esc {
            if self.sidebar.pending_discard.is_some() {
                self.sidebar.pending_discard = None;
                return SidebarGitEffect::Nothing;
            }
            if self.diff_view.is_some() {
                self.diff_view = None;
                return SidebarGitEffect::Nothing;
            }
            return SidebarGitEffect::LeaveMode;
        }
        if key.code == SidebarKeyCode::Tab {
            self.sidebar.focus = match self.sidebar.focus {
                GitSidebarFocus::FileList => GitSidebarFocus::CommitBox,
                GitSidebarFocus::CommitBox => GitSidebarFocus::FileList,
            };
            return SidebarGitEffect::Nothing;
        }
        match self.sidebar.focus {
            GitSidebarFocus::FileList => self.handle_file_list_key(key, has_repo),
            GitSidebarFocus::CommitBox => self.handle_commit_box_key(key, has_repo),
        }
    }

    fn handle_file_list_key(&mut self, key: SidebarKey, has_repo: bool) -> (e: SidebarGitEffect)
        requires
            old(self).sidebar.focus == GitSidebarFocus::FileList,
        ensures
            final(self).diff_view == old(self).diff_view,
            final(self).diff_fetch_generation == old(self).diff_fetch_generation,
            match old(self).sidebar.pending_discard {
                Some(path) => if is_char(key, 'y') || is_char(key, 'Y') {
                    final(self).sidebar == (GitSidebarState { pending_discard: None, ..old(self).sidebar })
                        && if has_repo { effect_is_file_action(e, path@, GitFileActionKind::Discard) } else { e is Nothing }
                } else {
                    e is Nothing && final(self).sidebar == (GitSidebarState { pending_discard: None, ..old(self).sidebar })
                },
                None => file_list_effect(old(self).sidebar, final(self).sidebar, key, has_repo, e),
            },
    {
        let pending = self.sidebar.pending_discard.take();
        match pending {
            Some(path) => {
                if key.code == SidebarKeyCode::Char('y') || key.code == SidebarKeyCode::Char('Y') {
                    if has_repo {
                        return SidebarGitEffect::FileAction { path, action: GitFileActionKind::Discard };
                    }
                }
                return SidebarGitEffect::Nothing;
            },
            None => {},
        }
        let count = self.sidebar.rows.len();
        if key.code == SidebarKeyCode::Up || key.code == SidebarKeyCode::Char('k') {
            self.sidebar.selected.move_prev();
            SidebarGitEffect::Nothing
        } else if key.code == SidebarKeyCode::Down || key.code == SidebarKeyCode::Char('j') {
            self.sidebar.selected.move_next(count);
            SidebarGitEffect::Nothing
        } else if key.code == SidebarKeyCode::Enter {
            if !has_repo {
                return SidebarGitEffect::Nothing;
            }
            match self.sidebar.selected_row() {
                Some(row) => SidebarGitEffect::OpenDiff {
                    path: row.path.clone(),
                    staged: row.staged,
                    untracked: row.status == GitFileStatusKind::Untracked,
                },
                None => SidebarGitEffect::Nothing,
            }
        } else if key.code == SidebarKeyCode::Char('s') || key.code == SidebarKeyCode::Char('u') {
            let stage = key.code == SidebarKeyCode::Char('s');
            if !has_repo {
                return SidebarGitEffect::Nothing;
            }
            match self.sidebar.selected_row() {
                Some(row) => {
                    if row.staged == stage {
                        SidebarGitEffect::Nothing
                    } else {
                        SidebarGitEffect::FileAction {
                            path: row.path.clone(),
                            action: if stage { GitFileActionKind::Stage } else { GitFileActionKind::Unstage },
                        }
                    }
                },
                None => SidebarGitEffect::Nothing,
            }
        } else if key.code == SidebarKeyCode::Char('d') {
            let request: Option<String> = match self.sidebar.selected_row() {
                Some(row) => if row.staged || row.status == GitFileStatusKind::Untracked {
                    None
                } else {
                    Some(row.path.clone())
                },
                None => None,
            };
            match request {
                Some(p) => {
                    self.sidebar.pending_discard = Some(p);
                },
                None => {},
            }
            SidebarGitEffect::Nothing
        } else {
            SidebarGitEffect::Nothing
        }
    }

    fn handle_commit_box_key(&mut self, key: SidebarKey, has_repo: bool) -> (e: SidebarGitEffect)
        requires
            old(self).sidebar.focus == GitSidebarFocus::CommitBox,
        ensures
            final(self).diff_view == old(self).diff_view,
            final(self).diff_fetch_generation == old(self).diff_fetch_generation,
            commit_box_effect(old(self).sidebar, final(self).sidebar, key, has_repo, e),
    {
        if key.code == SidebarKeyCode::Enter && key.control {
            let message = trimmed(self.sidebar.commit_message.as_str());
            if message.as_str().is_empty() || self.sidebar.commit_in_flight || !has_repo {
                return SidebarGitEffect::Nothing;
            }
            self.sidebar.commit_in_flight = true;
            SidebarGitEffect::Commit { message }
        } else if key.code == SidebarKeyCode::Enter {
            string_push(&mut self.sidebar.commit_message, '\n');
            SidebarGitEffect::Nothing
        } else if key.code == SidebarKeyCode::Backspace {
            string_pop(&mut self.sidebar.commit_message);
            SidebarGitEffect::Nothing
        } else if !key.non_shift_modifier && (key.code matches SidebarKeyCode::Char(_)) {
            if let SidebarKeyCode::Char(c) = key.code {
                string_push(&mut self.sidebar.commit_message, c);
            }
            SidebarGitEffect::Nothing
        } else {
            SidebarGitEffect::Nothing
        }
    }
}


pub open spec fn action_name(a: GitFileActionKind) -> Seq<char> {
    match a {
        GitFileActionKind::Stage => "Stage"@,
        GitFileActionKind::Unstage => "Unstage"@,
        GitFileActionKind::Discard => "Discard"@,
    }
}

/// The number of side-by-side rows a diff shows, saturating at `usize::MAX`.
pub open spec fn diff_row_count(d: Option<FileDiffModel>) -> int {
    match d {
        None => 0,
        Some(m) => {
            let n = all_rows_of(m.hunks).len();
            if n > usize::MAX { usize::MAX as int } else { n as int }
        },
    }
}

pub open spec fn opt_model(d: Option<FileDiff>) -> Option<FileDiffModel> {
    match d {
        Some(x) => Some(x@),
        None => None,
    }
}

/// The first row showing `path` on the given side.
pub open spec fn row_of(rows: Seq<SidebarRow>, path: Seq<char>, staged: bool) -> Option<int> {
    if exists|i: int| 0 <= i < rows.len() && #[trigger] rows[i].path@ == path && rows[i].staged == staged {
        Some(choose|i: int| 0 <= i < rows.len() && #[trigger] rows[i].path@ == path && rows[i].staged == staged
            && forall|j: int| 0 <= j < i ==> !(rows[j].path@ == path && rows[j].staged == staged))
    } else {
        None
    }
}

impl AppGitState {
    /// Opens the side-by-side diff view for one file, shared by the keyboard and mouse paths:
    /// the highlight moves onto the file's row (when it has one), the view starts empty and
    /// loading, keyboard focus stays on the file list (opening a diff is usually a step toward
    /// staging), and a new fetch generation is started. Returns that generation: only its
    /// result may fill the view.
    pub fn open_git_diff(&mut self, repo_root: String, path: String, staged: bool) -> (generation: u64)
        requires
            old(self).diff_fetch_generation < u64::MAX,
        ensures
            generation == old(self).diff_fetch_generation + 1,
            final(self).diff_fetch_generation == generation,
            final(self).sidebar.focus == GitSidebarFocus::FileList,
            final(self).sidebar.rows == old(self).sidebar.rows,
            final(self).sidebar.pending_discard == old(self).sidebar.pending_discard,
            final(self).sidebar.commit_message == old(self).sidebar.commit_message,
            final(self).sidebar.commit_in_flight == old(self).sidebar.commit_in_flight,
            final(self).sidebar.selected.selected == match row_of(old(self).sidebar.rows@, path@, staged) {
                Some(i) => i as usize,
                None => old(self).sidebar.selected.selected,
            },
            (final(self).diff_view matches Some(v) && v.repo_root == repo_root && v.path == path && v.staged == staged
                && v.diff is None && v.scroll == 0 && v.row_count == 0 && v.loading),
    {
        let mut i: usize = 0;
        while i < self.sidebar.rows.len()
            invariant
                i <= self.sidebar.rows@.len(),
                *self == *old(self),
                forall|j: int| 0 <= j < i ==> !(#[trigger] self.sidebar.rows@[j].path@ == path@ && self.sidebar.rows@[j].staged == staged),
            ensures
                i <= self.sidebar.rows@.len(),
                *self == *old(self),
                forall|j: int| 0 <= j < i ==> !(#[trigger] self.sidebar.rows@[j].path@ == path@ && self.sidebar.rows@[j].staged == staged),
                i < self.sidebar.rows@.len() ==> self.sidebar.rows@[i as int].path@ == path@ && self.sidebar.rows@[i as int].staged == staged,
            decreases self.sidebar.rows@.len() - i,
        {
            if self.sidebar.rows[i].path == path && self.sidebar.rows[i].staged == staged {
                break;
            }
            i = i + 1;
        }
        proof {
            let rows = self.sidebar.rows@;
            if i < rows.len() {
                assert(rows[i as int].path@ == path@ && rows[i as int].staged == staged);
                let c = choose|c: int| 0 <= c < rows.len() && #[trigger] rows[c].path@ == path@ && rows[c].staged == staged
                    && forall|j: int| 0 <= j < c ==> !(rows[j].path@ == path@ && rows[j].staged == staged);
                if c < i {
                    assert(!(rows[c].path@ == path@ && rows[c].staged == staged));
                } else if c > i {
                    assert(!(rows[i as int].path@ == path@ && rows[i as int].staged == staged));
                }
                assert(row_of(rows, path@, staged) == Some(i as int));
            } else {
                assert(row_of(rows, path@, staged) is None);
            }
        }
        if i < self.sidebar.rows.len() {
            self.sidebar.selected.select(i);
        }
        self.diff_view = Some(GitDiffViewState {
            repo_root,
            path,
            staged,
            diff: None,
            scroll: 0,
            row_count: 0,
            loading: true,
        });
        self.sidebar.focus = GitSidebarFocus::FileList;
        self.diff_fetch_generation = self.diff_fetch_generation + 1;
        self.diff_fetch_generation
    }

    /// Applies a finished diff fetch. It is taken only when it is the latest fetch and the view
    /// still shows the same file on the same side of the same repository; then the view holds
    /// the diff (and its side-by-side row count), stops loading and scrolls to the top.
    /// Returns whether it was taken.
    pub fn handle_git_diff_ready(&mut self, generation: u64, repo_root: &String, path: &String, staged: bool, diff: Option<FileDiff>) -> (taken: bool)
        ensures
            final(self).sidebar == old(self).sidebar,
            final(self).diff_fetch_generation == old(self).diff_fetch_generation,
            taken == (generation == old(self).diff_fetch_generation && (old(self).diff_view matches Some(v)
                && v.repo_root@ == repo_root@ && v.path@ == path@ && v.staged == staged)),
            !taken ==> final(self).diff_view == old(self).diff_view,
            taken ==> (final(self).diff_view matches Some(v) && (old(self).diff_view matches Some(o)
                && v.repo_root == o.repo_root && v.path == o.path && v.staged == o.staged
                && opt_model(v.diff) == opt_model(diff) && !v.loading && v.scroll == 0
                && v.row_count == diff_row_count(opt_model(diff)))),
    {
        if generation != self.diff_fetch_generation {
            return false;
        }
        let view = match &self.diff_view {
            None => return false,
            Some(v) => v,
        };
        if view.repo_root != *repo_root || view.path != *path || view.staged != staged {
            return false;
        }
        let row_count: usize = match &diff {
            None => 0,
            Some(d) => {
                let mut total: usize = 0;
                let mut k: usize = 0;
                while k < d.hunks.len()
                    invariant
                        k <= d.hunks@.len(),
                        total as int == ({
                            let n = all_rows_of(hunks_view(d.hunks@.take(k as int))).len();
                            if n > usize::MAX { usize::MAX as int } else { n as int }
                        }),
                    decreases d.hunks@.len() - k,
                {
                    let rows = crate::diff::hunk_to_side_by_side(&d.hunks[k]);
                    proof {
                        let h = hunks_view(d.hunks@.take(k + 1));
                        assert(h.drop_last() =~= hunks_view(d.hunks@.take(k as int)));
                        assert(h.last() == d.hunks@[k as int]@);
                        assert(crate::diff::rows_view(rows@).len() == rows@.len());
                    }
                    total = total.saturating_add(rows.len());
                    k = k + 1;
                }
                assert(d.hunks@.take(k as int) =~= d.hunks@);
                total
            },
        };
        let old_view = match self.diff_view.take() {
            Some(v) => v,
            None => return false,
        };
        self.diff_view = Some(GitDiffViewState {
            repo_root: old_view.repo_root,
            path: old_view.path,
            staged: old_view.staged,
            diff,
            scroll: 0,
            row_count,
            loading: false,
        });
        true
    }

    /// Records how a background stage/unstage/discard ended: a failure becomes the sidebar's
    /// error (`"<Action> <path> failed: <error>"`), a success clears the error and any pending
    /// discard confirmation.
    pub fn handle_git_file_action_finished(&mut self, action: GitFileActionKind, path: &String, result: Result<(), String>)
        ensures
            final(self).diff_view == old(self).diff_view,
            final(self).diff_fetch_generation == old(self).diff_fetch_generation,
            final(self).sidebar.rows == old(self).sidebar.rows,
            final(self).sidebar.commit_message == old(self).sidebar.commit_message,
            final(self).sidebar.commit_in_flight == old(self).sidebar.commit_in_flight,
            match result {
                Ok(_) => final(self).sidebar.last_error is None && final(self).sidebar.pending_discard is None,
                Err(e) => (final(self).sidebar.last_error matches Some(m) && m@ == action_name(action) + " "@ + path@ + " failed: "@ + e@)
                    && final(self).sidebar.pending_discard == old(self).sidebar.pending_discard,
            },
    {
        match result {
            Ok(_) => {
                self.sidebar.last_error = None;
                self.sidebar.pending_discard = None;
            },
            Err(e) => {
                let mut m = String::from_str(match action {
                    GitFileActionKind::Stage => "Stage",
                    GitFileActionKind::Unstage => "Unstage",
                    GitFileActionKind::Discard => "Discard",
                });
                m.append(" ");
                m.append(path.as_str());
                m.append(" failed: ");
                m.append(e.as_str());
                self.sidebar.last_error = Some(m);
            },
        }
    }

    /// Records how a background commit ended: it is no longer in flight; success clears the
    /// error and the draft, failure keeps the draft and records `"commit failed: <error>"`.
    pub fn handle_git_commit_finished(&mut self, result: Result<(), String>)
        ensures
            final(self).diff_view == old(self).diff_view,
            final(self).diff_fetch_generation == old(self).diff_fetch_generation,
            final(self).sidebar.rows == old(self).sidebar.rows,
            final(self).sidebar.pending_discard == old(self).sidebar.pending_discard,
            !final(self).sidebar.commit_in_flight,
            match result {
                Ok(_) => final(self).sidebar.last_error is None && final(self).sidebar.commit_message@.len() == 0,
                Err(e) => (final(self).sidebar.last_error matches Some(m) && m@ == "commit failed: "@ + e@)
                    && final(self).sidebar.commit_message == old(self).sidebar.commit_message,
            },
    {
        self.sidebar.commit_in_flight = false;
        match result {
            Ok(_) => {
                self.sidebar.last_error = None;
                self.sidebar.commit_message = String::new();
            },
            Err(e) => {
                let mut m = String::from_str("commit failed: ");
                m.append(e.as_str());
                self.sidebar.last_error = Some(m);
            },
        }
    }
}

/// A key while the diff view has the keyboard.
#[derive(Debug, Clone, Copy, PartialEq, Eq, Structural)]
pub enum DiffViewKey {
    Esc,
    Up,
    Down,
    PageUp,
    PageDown,
    Char(char),
    Other,
}

/// The scroll step a key asks of the diff view.
pub open spec fn diff_key_step(key: DiffViewKey) -> int {
    match key {
        DiffViewKey::Up => -1,
        DiffViewKey::Char('k') => -1,
        DiffViewKey::Down => 1,
        DiffViewKey::Char('j') => 1,
        DiffViewKey::PageUp => -10,
        DiffViewKey::PageDown => 10,
        _ => 0,
    }
}

pub open spec fn clamped_scroll(scroll: int, delta: int, max_scroll: int) -> int {
    let t = scroll + delta;
    let s = if t < 0 { 0 } else if t > usize::MAX { usize::MAX as int } else { t };
    if s > max_scroll { max_scroll } else { s }
}

impl AppGitState {
    /// A key while the diff view has the keyboard: `esc`/`q` closes the view (returns `true`;
    /// the keyboard then goes back to the terminal), the arrows and `k`/`j` scroll one row,
    /// page up/down ten, clamped to `max_scroll`; other keys do nothing.
    pub fn handle_git_diff_key(&mut self, key: DiffViewKey, max_scroll: usize) -> (closed: bool)
        ensures
            final(self).sidebar == old(self).sidebar,
            final(self).diff_fetch_generation == old(self).diff_fetch_generation,
            closed == (key == DiffViewKey::Esc || key == DiffViewKey::Char('q')),
            closed ==> final(self).diff_view is None,
            !closed ==> match old(self).diff_view {
                None => final(self).diff_view is None,
                Some(v) => final(self).diff_view matches Some(w) && w == (GitDiffViewState {
                    scroll: if diff_key_step(key) == 0 { v.scroll } else {
                        clamped_scroll(v.scroll as int, diff_key_step(key), max_scroll as int) as usize
                    },
                    ..v
                }),
            },
    {
        if key == DiffViewKey::Esc || key == DiffViewKey::Char('q') {
            self.diff_view = None;
            return true;
        }
        let delta: isize = if key == DiffViewKey::Up || key == DiffViewKey::Char('k') {
            -1
        } else if key == DiffViewKey::Down || key == DiffViewKey::Char('j') {
            1
        } else if key == DiffViewKey::PageUp {
            -10
        } else if key == DiffViewKey::PageDown {
            10
        } else {
            0
        };
        if delta == 0 {
            return false;
        }
        match &mut self.diff_view {
            Some(view) => {
                view.scroll = crate::picker::scroll_git_diff(view.scroll, delta, max_scroll);
            },
            None => {},
        }
        false
    }
}

/// The file list has the keyboard and no discard awaits confirmation.
pub open spec fn file_list_idle(s: AppGitState) -> bool {
    s.sidebar.focus == GitSidebarFocus::FileList && s.sidebar.pending_discard is None
}

/// `s` in the file list stages the highlighted row when it is unstaged, whatever its status
/// (an untracked file is added): with a repository and a highlighted unstaged row the effect
/// stages exactly that row's path; otherwise nothing happens. The state never changes.
pub proof fn law_stage_key_stages_the_highlighted_unstaged_row(
    s0: AppGitState,
    s1: AppGitState,
    key: SidebarKey,
    has_repo: bool,
    e: SidebarGitEffect,
)
    requires
        sidebar_key_handled(s0, s1, key, has_repo, e),
        file_list_idle(s0),
        key.code == SidebarKeyCode::Char('s'),
    ensures
        s1 == s0,
        has_repo && s0.sidebar.selected.selected < s0.sidebar.rows@.len()
            && !s0.sidebar.rows@[s0.sidebar.selected.selected as int].staged ==> (e matches SidebarGitEffect::FileAction {
            path,
            action,
        } && path@ == s0.sidebar.rows@[s0.sidebar.selected.selected as int].path@ && action == GitFileActionKind::Stage),
        !(has_repo && s0.sidebar.selected.selected < s0.sidebar.rows@.len()
            && !s0.sidebar.rows@[s0.sidebar.selected.selected as int].staged) ==> e is Nothing,
{
}

/// `u` in the file list unstages the highlighted row when it is staged: with a repository and
/// a highlighted staged row the effect unstages exactly that row's path; otherwise nothing
/// happens. The state never changes.
pub proof fn law_unstage_key_unstages_the_highlighted_staged_row(
    s0: AppGitState,
    s1: AppGitState,
    key: SidebarKey,
    has_repo: bool,
    e: SidebarGitEffect,
)
    requires
        sidebar_key_handled(s0, s1, key, has_repo, e),
        file_list_idle(s0),
        key.code == SidebarKeyCode::Char('u'),
    ensures
        s1 == s0,
        has_repo && s0.sidebar.selected.selected < s0.sidebar.rows@.len()
            && s0.sidebar.rows@[s0.sidebar.selected.selected as int].staged ==> (e matches SidebarGitEffect::FileAction {
            path,
            action,
        } && path@ == s0.sidebar.rows@[s0.sidebar.selected.selected as int].path@ && action == GitFileActionKind::Unstage),
        !(has_repo && s0.sidebar.selected.selected < s0.sidebar.rows@.len()
            && s0.sidebar.rows@[s0.sidebar.selected.selected as int].staged) ==> e is Nothing,
{
}

/// `enter` in the file list opens the diff of the highlighted row (with a repository): its
/// path, whether it is staged, and whether it is untracked; otherwise nothing happens. The
/// state never changes.
pub proof fn law_enter_opens_the_highlighted_diff(
    s0: AppGitState,
    s1: AppGitState,
    key: SidebarKey,
    has_repo: bool,
    e: SidebarGitEffect,
)
    requires
        sidebar_key_handled(s0, s1, key, has_repo, e),
        file_list_idle(s0),
        key.code == SidebarKeyCode::Enter,
    ensures
        s1 == s0,
        has_repo && s0.sidebar.selected.selected < s0.sidebar.rows@.len() ==> {
            let row = s0.sidebar.rows@[s0.sidebar.selected.selected as int];
            e matches SidebarGitEffect::OpenDiff { path, staged, untracked } && path@ == row.path@ && staged == row.staged
                && untracked == (row.status == GitFileStatusKind::Untracked)
        },
        !(has_repo && s0.sidebar.selected.selected < s0.sidebar.rows@.len()) ==> e is Nothing,
{
}

/// `d` in the file list asks before discarding: a highlighted unstaged row that git tracks
/// becomes the pending discard (nothing else changes, nothing is run yet); a staged or
/// untracked row, or no highlighted row, leaves everything as it was.
pub proof fn law_discard_key_only_asks(
    s0: AppGitState,
    s1: AppGitState,
    key: SidebarKey,
    has_repo: bool,
    e: SidebarGitEffect,
)
    requires
        sidebar_key_handled(s0, s1, key, has_repo, e),
        file_list_idle(s0),
        key.code == SidebarKeyCode::Char('d'),
    ensures
        e is Nothing,
        s1.diff_view == s0.diff_view,
        s1.diff_fetch_generation == s0.diff_fetch_generation,
        s1.sidebar.rows == s0.sidebar.rows,
        s1.sidebar.selected == s0.sidebar.selected,
        s1.sidebar.commit_message == s0.sidebar.commit_message,
        ({
            let sel = s0.sidebar.selected.selected as int;
            if sel < s0.sidebar.rows@.len() && !s0.sidebar.rows@[sel].staged
                && s0.sidebar.rows@[sel].status != GitFileStatusKind::Untracked {
                s1.sidebar.pending_discard == Some(s0.sidebar.rows@[sel].path)
            } else {
                s1 == s0
            }
        }),
{
}

/// With a discard pending in the file list, any key but `esc` and `tab` settles it: `y` or
/// `Y` with a repository discards exactly the pending path, every other case does nothing;
/// either way the request is cleared and the rest of the sidebar is unchanged.
pub proof fn law_pending_discard_is_settled_by_the_next_key(
    s0: AppGitState,
    s1: AppGitState,
    key: SidebarKey,
    has_repo: bool,
    e: SidebarGitEffect,
)
    requires
        sidebar_key_handled(s0, s1, key, has_repo, e),
        s0.sidebar.focus == GitSidebarFocus::FileList,
        s0.sidebar.pending_discard is Some,
        key.code != SidebarKeyCode::Esc,
        key.code != SidebarKeyCode::Tab,
    ensures
        s1.sidebar.pending_discard is None,
        s1.sidebar.rows == s0.sidebar.rows,
        s1.sidebar.selected == s0.sidebar.selected,
        s1.diff_view == s0.diff_view,
        has_repo && (key.code == SidebarKeyCode::Char('y') || key.code == SidebarKeyCode::Char('Y')) ==> (e matches SidebarGitEffect::FileAction {
            path,
            action,
        } && path@ == s0.sidebar.pending_discard->0@ && action == GitFileActionKind::Discard),
        !(has_repo && (key.code == SidebarKeyCode::Char('y') || key.code == SidebarKeyCode::Char('Y'))) ==> e is Nothing,
{
}

/// Every file action a key asks for acts on the file the user pointed at: a discard only of
/// the path awaiting confirmation, after `y`/`Y`; a stage only of the highlighted unstaged
/// row after `s`; an unstage only of the highlighted staged row after `u`; and only with a
/// repository.
pub proof fn law_file_actions_name_the_pointed_file(
    s0: AppGitState,
    s1: AppGitState,
    key: SidebarKey,
    has_repo: bool,
    e: SidebarGitEffect,
)
    requires
        sidebar_key_handled(s0, s1, key, has_repo, e),
        e is FileAction,
    ensures
        has_repo,
        s0.sidebar.focus == GitSidebarFocus::FileList,
        ({
            let path = e->FileAction_path;
            let action = e->FileAction_action;
            let sel = s0.sidebar.selected.selected as int;
            match s0.sidebar.pending_discard {
                Some(p) => action == GitFileActionKind::Discard && path@ == p@
                    && (key.code == SidebarKeyCode::Char('y') || key.code == SidebarKeyCode::Char('Y')),
                None => sel < s0.sidebar.rows@.len() && path@ == s0.sidebar.rows@[sel].path@ && if s0.sidebar.rows@[sel].staged {
                    action == GitFileActionKind::Unstage && key.code == SidebarKeyCode::Char('u')
                } else {
                    action == GitFileActionKind::Stage && key.code == SidebarKeyCode::Char('s')
                },
            }
        }),
{
}

/// Moving the highlight: `up`/`k` goes one row up (staying on the first row), `down`/`j` one
/// row down (staying on the last row); nothing else changes and nothing is run.
pub proof fn law_moves_shift_the_highlight_by_one(
    s0: AppGitState,
    s1: AppGitState,
    key: SidebarKey,
    has_repo: bool,
    e: SidebarGitEffect,
)
    requires
        sidebar_key_handled(s0, s1, key, has_repo, e),
        file_list_idle(s0),
        key.code == SidebarKeyCode::Up || key.code == SidebarKeyCode::Down || key.code == SidebarKeyCode::Char('k')
            || key.code == SidebarKeyCode::Char('j'),
    ensures
        e is Nothing,
        s1.diff_view == s0.diff_view,
        s1.sidebar.rows == s0.sidebar.rows,
        s1.sidebar.pending_discard == s0.sidebar.pending_discard,
        s1.sidebar.commit_message == s0.sidebar.commit_message,
        ({
            let i = s0.sidebar.selected.selected as int;
            let j = s1.sidebar.selected.selected as int;
            let n = s0.sidebar.rows@.len() as int;
            if key.code == SidebarKeyCode::Up || key.code == SidebarKeyCode::Char('k') {
                j == (if i == 0 { 0 } else { i - 1 })
            } else {
                j == (if i + 1 < n { i + 1 } else { i })
            }
        }),
{
    let s = s0.sidebar;
    if key.code == SidebarKeyCode::Up || is_char(key, 'k') {
        assert(s1.sidebar.selected.selected == (if s.selected.selected == 0 { 0 } else { (s.selected.selected - 1) as usize }));
        assert(s1.sidebar.selected.selected as int == (if s.selected.selected == 0 { 0 } else { s.selected.selected - 1 }));
    } else {
        assert(key.code == SidebarKeyCode::Down || is_char(key, 'j'));
        assert(s.rows@.len() == s.rows.len());
        assert(s1.sidebar.selected.selected == (if s.selected.selected + 1 < s.rows@.len() { (s.selected.selected + 1) as usize } else { s.selected.selected }));
        assert(s1.sidebar.selected.selected as int == (if s.selected.selected + 1 < s.rows@.len() { s.selected.selected + 1 } else { s.selected.selected as int }));
    }
}

/// `ctrl+enter` in the commit box commits exactly the trimmed draft, and marks the commit in
/// flight, when there is a repository, no commit is in flight and the trimmed draft is not
/// empty; otherwise nothing happens. A commit is asked for in no other way.
pub proof fn law_commit_takes_the_trimmed_draft(
    s0: AppGitState,
    s1: AppGitState,
    key: SidebarKey,
    has_repo: bool,
    e: SidebarGitEffect,
)
    requires
        sidebar_key_handled(s0, s1, key, has_repo, e),
    ensures
        e is Commit ==> {
            &&& s0.sidebar.focus == GitSidebarFocus::CommitBox
            &&& key.code == SidebarKeyCode::Enter && key.control
            &&& has_repo && !s0.sidebar.commit_in_flight
            &&& e->Commit_message@ == spec_trim(s0.sidebar.commit_message@)
            &&& e->Commit_message@.len() > 0
            &&& s1.sidebar.commit_in_flight
            &&& s1.sidebar.commit_message == s0.sidebar.commit_message
        },
        s0.sidebar.focus == GitSidebarFocus::CommitBox && key.code == SidebarKeyCode::Enter && key.control && has_repo
            && !s0.sidebar.commit_in_flight && spec_trim(s0.sidebar.commit_message@).len() > 0 ==> e is Commit,
{
}

/// Typing in the commit box: a character typed with at most `shift` is appended to the draft,
/// `enter` appends a newline, `backspace` removes the last character (if any); nothing is run
/// and nothing but the draft changes.
pub proof fn law_typing_edits_the_draft(
    s0: AppGitState,
    s1: AppGitState,
    key: SidebarKey,
    has_repo: bool,
    e: SidebarGitEffect,
)
    requires
        sidebar_key_handled(s0, s1, key, has_repo, e),
        s0.sidebar.focus == GitSidebarFocus::CommitBox,
        !(key.code == SidebarKeyCode::Enter && key.control),
        key.code != SidebarKeyCode::Esc,
        key.code != SidebarKeyCode::Tab,
    ensures
        e is Nothing,
        s1.sidebar.rows == s0.sidebar.rows,
        s1.sidebar.selected == s0.sidebar.selected,
        s1.sidebar.commit_in_flight == s0.sidebar.commit_in_flight,
        s1.diff_view == s0.diff_view,
        key.code == SidebarKeyCode::Enter ==> s1.sidebar.commit_message@ == s0.sidebar.commit_message@.push('\n'),
        key.code == SidebarKeyCode::Backspace ==> s1.sidebar.commit_message@ == (if s0.sidebar.commit_message@.len() > 0 {
            s0.sidebar.commit_message@.drop_last()
        } else {
            s0.sidebar.commit_message@
        }),
        forall|c: char| key.code == SidebarKeyCode::Char(c) && !key.non_shift_modifier ==> s1.sidebar.commit_message@
            == s0.sidebar.commit_message@.push(c),
{
}

/// `esc` unwinds one step: it cancels a pending discard (nothing else changes); with none
/// pending it closes an open diff view (the sidebar is unchanged); only with neither does it
/// hand the keyboard back, changing nothing. It never runs anything.
pub proof fn law_escape_unwinds_one_step(
    s0: AppGitState,
    s1: AppGitState,
    key: SidebarKey,
    has_repo: bool,
    e: SidebarGitEffect,
)
    requires
        sidebar_key_handled(s0, s1, key, has_repo, e),
        key.code == SidebarKeyCode::Esc,
    ensures
        e is Nothing || e is LeaveMode,
        s0.sidebar.pending_discard is Some ==> e is Nothing && s1.sidebar.pending_discard is None
            && s1.sidebar.rows == s0.sidebar.rows && s1.sidebar.selected == s0.sidebar.selected
            && s1.sidebar.focus == s0.sidebar.focus && s1.diff_view == s0.diff_view,
        s0.sidebar.pending_discard is None && s0.diff_view is Some ==> e is Nothing && s1.diff_view is None
            && s1.sidebar == s0.sidebar,
        e is LeaveMode <==> (s0.sidebar.pending_discard is None && s0.diff_view is None),
        e is LeaveMode ==> s1 == s0,
{
}

/// `tab` moves the keyboard between the file list and the commit box and changes nothing
/// else, a pending discard included.
pub proof fn law_tab_switches_focus(
    s0: AppGitState,
    s1: AppGitState,
    key: SidebarKey,
    has_repo: bool,
    e: SidebarGitEffect,
)
    requires
        sidebar_key_handled(s0, s1, key, has_repo, e),
        key.code == SidebarKeyCode::Tab,
    ensures
        e is Nothing,
        s1.sidebar.focus != s0.sidebar.focus,
        s1.sidebar.rows == s0.sidebar.rows,
        s1.sidebar.selected == s0.sidebar.selected,
        s1.sidebar.pending_discard == s0.sidebar.pending_discard,
        s1.sidebar.commit_message == s0.sidebar.commit_message,
        s1.diff_view == s0.diff_view,
{
}

/// In the file list with nothing pending, a key other than the movement keys, `enter`, `s`,
/// `u`, `d`, `esc` and `tab` does nothing at all.
pub proof fn law_other_file_list_keys_do_nothing(
    s0: AppGitState,
    s1: AppGitState,
    key: SidebarKey,
    has_repo: bool,
    e: SidebarGitEffect,
)
    requires
        sidebar_key_handled(s0, s1, key, has_repo, e),
        file_list_idle(s0),
        key.code != SidebarKeyCode::Esc && key.code != SidebarKeyCode::Tab && key.code != SidebarKeyCode::Up
            && key.code != SidebarKeyCode::Down && key.code != SidebarKeyCode::Enter,
        key.code != SidebarKeyCode::Char('k') && key.code != SidebarKeyCode::Char('j') && key.code != SidebarKeyCode::Char('s')
            && key.code != SidebarKeyCode::Char('u') && key.code != SidebarKeyCode::Char('d'),
    ensures
        e is Nothing,
        s1 == s0,
{
}

/// In the commit box, a character typed with a modifier other than `shift`, and any key that
/// is not a character, `enter`, `backspace`, `esc` or `tab`, does nothing at all.
pub proof fn law_other_commit_box_keys_do_nothing(
    s0: AppGitState,
    s1: AppGitState,
    key: SidebarKey,
    has_repo: bool,
    e: SidebarGitEffect,
)
    requires
        sidebar_key_handled(s0, s1, key, has_repo, e),
        s0.sidebar.focus == GitSidebarFocus::CommitBox,
        key.code != SidebarKeyCode::Esc && key.code != SidebarKeyCode::Tab && key.code != SidebarKeyCode::Enter
            && key.code != SidebarKeyCode::Backspace,
        (key.code matches SidebarKeyCode::Char(_)) ==> key.non_shift_modifier,
    ensures
        e is Nothing,
        s1 == s0,
{
}

} // verus!
