//! The server-side terminal UI's Git dialogs: the stash/branch picker, the new-branch prompt,
//! the Git panel's context menus and the repository commands they run in a popup terminal.
//! Each operation updates the dialog state and says what the application must start.
use vstd::prelude::*;

use crate::actions::GitFileActionKind;
use crate::client_git::GitSidebarFocus;
use crate::lists::GitListEntry;
use crate::picker::{
    branch_create_command, git_file_menu_action, git_repo_menu_action, handle_git_picker_key,
    picker_argv, picker_label, repo_command_argv, repo_command_label, views, GitFileMenuAction,
    GitPickerKind, GitPickerState, GitRepoCommand, GitRepoMenuAction, PickerKey,
    PickerKeyOutcome,
};
use crate::text::{spec_trim, string_pop, string_push};

verus! {

/// The application's input mode, as far as the Git dialogs are concerned.
#[derive(Debug, Clone, Copy, PartialEq, Eq, Structural)]
pub enum AppMode {
    Terminal,
    Navigate,
    SidebarGit,
    GitPicker,
    GitBranchCreate,
    Other,
}

/// The state the Git dialogs read and change.
#[derive(Debug, Clone)]
pub struct GitModalState {
    pub mode: AppMode,
    /// Whether a pane has the focus (closing a dialog returns to it, else to navigation).
    pub has_active_pane: bool,
    /// The text prompt's buffer, shared with the rename dialogs.
    pub name_input: String,
    pub name_input_replace_on_type: bool,
    pub git_picker: Option<GitPickerState>,
    /// Counts pickers opened, so a listing can be matched to the picker it was started for.
    pub picker_generation: u64,
    /// The repository the background refresh resolved for the Git panel.
    pub target_repo_root: Option<String>,
    /// The repository of the focused workspace.
    pub active_repo_root: Option<String>,
    pub last_error: Option<String>,
    pub pending_discard: Option<String>,
    pub focus: GitSidebarFocus,
}

/// What the application must start after a dialog operation.
#[derive(Debug, Clone)]
pub enum GitModalEffect {
    Nothing,
    /// Run `argv` in a popup terminal rooted at `repo_root` (see `handle_git_popup_started`).
    Popup { argv: Vec<String>, label: String, repo_root: String },
    /// List the repository's stashes (`ApplyStash`) or branches in the background, for the
    /// picker of this generation.
    ListEntries { kind: GitPickerKind, generation: u64, repo_root: String },
    /// Open the diff view for a file.
    OpenDiff { repo_root: String, path: String, staged: bool, untracked: bool },
    /// Stage or unstage a file in the background.
    FileAction { repo_root: String, path: String, action: GitFileActionKind },
}

pub open spec fn no_repo_error() -> Seq<char> {
    "no git repository for this space"@
}

pub open spec fn panel_repo_root(s: GitModalState) -> Option<String> {
    match s.target_repo_root {
        Some(r) => Some(r),
        None => s.active_repo_root,
    }
}

/// Where closing a dialog leaves the keyboard: with the focused pane, or in navigation.
pub open spec fn resting_mode(s: GitModalState) -> AppMode {
    if s.has_active_pane { AppMode::Terminal } else { AppMode::Navigate }
}

pub open spec fn is_popup(e: GitModalEffect, argv: Seq<Seq<char>>, label: Seq<char>, repo_root: Seq<char>) -> bool {
    e matches GitModalEffect::Popup { argv: a, label: l, repo_root: r } && views(a@) == argv && l@ == label && r@ == repo_root
}

/// The state after reporting that there is no repository to act on.
pub open spec fn with_no_repo_error(s: GitModalState, s1: GitModalState) -> bool {
    (s1.last_error matches Some(m) && m@ == no_repo_error()) && s1 == (GitModalState { last_error: s1.last_error, ..s })
}

pub open spec fn repo_command_effect(s0: GitModalState, s1: GitModalState, command: GitRepoCommand, e: GitModalEffect) -> bool {
    match panel_repo_root(s0) {
        Some(root) => s1 == s0 && is_popup(e, repo_command_argv(command), repo_command_label(command), root@),
        None => e is Nothing && with_no_repo_error(s0, s1),
    }
}

/// Opening a picker: without a repository, the error; else a new picker generation, an empty
/// loading picker over the repository, picker mode, and the listing to start.
pub open spec fn open_picker_effect(s0: GitModalState, s1: GitModalState, kind: GitPickerKind, e: GitModalEffect) -> bool {
    match panel_repo_root(s0) {
        Some(root) => {
            let g = (s0.picker_generation + 1) as u64;
            &&& s1.picker_generation == g
            &&& s1.mode == AppMode::GitPicker
            &&& s1.git_picker matches Some(p) && p.kind == kind && p.generation == g && p.repo_root@ == root@
                && p.entries@.len() == 0 && p.selected.selected == 0 && p.loading && p.error is None
            &&& s1 == (GitModalState { picker_generation: g, mode: AppMode::GitPicker, git_picker: s1.git_picker, ..s0 })
            &&& e matches GitModalEffect::ListEntries { kind: k, generation: eg, repo_root: r } && k == kind && eg == g && r@ == root@
        },
        None => e is Nothing && with_no_repo_error(s0, s1),
    }
}

/// Opening the new-branch prompt: without a repository, the error; else an empty buffer
/// (typing appends to it) and prompt mode.
pub open spec fn open_branch_create_effect(s0: GitModalState, s1: GitModalState) -> bool {
    match panel_repo_root(s0) {
        Some(_) => s1.name_input@.len() == 0 && s1 == (GitModalState {
            name_input: s1.name_input,
            name_input_replace_on_type: false,
            mode: AppMode::GitBranchCreate,
            ..s0
        }),
        None => with_no_repo_error(s0, s1),
    }
}

impl GitModalState {
    /// The repository the Git panel shows: the one the background refresh resolved, else the
    /// focused workspace's.
    pub fn git_panel_repo_root(&self) -> (r: Option<String>)
        ensures
            match (r, panel_repo_root(*self)) {
                (Some(a), Some(b)) => a@ == b@,
                (None, None) => true,
                _ => false,
            },
    {
        match &self.target_repo_root {
            Some(root) => Some(root.clone()),
            None => match &self.active_repo_root {
                Some(root) => Some(root.clone()),
                None => None,
            },
        }
    }

    fn resting_mode(&self) -> (m: AppMode)
        ensures
            m == resting_mode(*self),
    {
        if self.has_active_pane { AppMode::Terminal } else { AppMode::Navigate }
    }

    fn no_repo(&mut self)
        ensures
            with_no_repo_error(*old(self), *final(self)),
    {
        self.last_error = Some("no git repository for this space".to_owned());
    }

    /// Runs a repository-wide command (fetch, pull, push, log, stash) in a popup rooted at the
    /// panel's repository; without one, records the error and runs nothing.
    pub fn run_git_repo_command(&mut self, command: GitRepoCommand) -> (e: GitModalEffect)
        ensures
            repo_command_effect(*old(self), *final(self), command, e),
    {
        match self.git_panel_repo_root() {
            Some(root) => GitModalEffect::Popup { argv: command.argv(), label: command.label().to_owned(), repo_root: root },
            None => {
                self.no_repo();
                GitModalEffect::Nothing
            },
        }
    }

    /// Opens the picker of `kind` over the panel's repository and asks for its listing.
    pub fn open_git_picker(&mut self, kind: GitPickerKind) -> (e: GitModalEffect)
        requires
            old(self).picker_generation < u64::MAX,
        ensures
            open_picker_effect(*old(self), *final(self), kind, e),
    {
        match self.git_panel_repo_root() {
            Some(root) => {
                self.picker_generation = self.picker_generation + 1;
                let generation = self.picker_generation;
                self.git_picker = Some(GitPickerState::opening(kind, generation, root.clone()));
                self.mode = AppMode::GitPicker;
                GitModalEffect::ListEntries { kind, generation, repo_root: root }
            },
            None => {
                self.no_repo();
                GitModalEffect::Nothing
            },
        }
    }

    /// Delivers a finished listing to the open picker (see `GitPickerState::apply_listing`);
    /// returns whether it was taken (and the screen needs redrawing).
    pub fn handle_git_picker_entries_ready(&mut self, generation: u64, repo_root: &String, entries: Option<Vec<GitListEntry>>) -> (taken: bool)
        ensures
            old(self).git_picker is None ==> !taken && *final(self) == *old(self),
            old(self).git_picker matches Some(p) ==> (
                taken == (generation == p.generation && repo_root@ == p.repo_root@)
                && (!taken ==> *final(self) == *old(self))
                && *final(self) == (GitModalState { git_picker: final(self).git_picker, ..*old(self) })
                && (final(self).git_picker matches Some(q) && (taken ==> listing_applied(p, q, entries)))
            ),
    {
        match &mut self.git_picker {
            Some(picker) => picker.apply_listing(generation, repo_root, entries),
            None => false,
        }
    }

    /// Closes the picker and runs the highlighted entry's command in a popup (see
    /// `GitPickerState::confirm_command`); nothing runs without a highlighted entry.
    pub fn confirm_git_picker(&mut self) -> (e: GitModalEffect)
        ensures
            old(self).git_picker is None ==> e is Nothing && *final(self) == *old(self),
            old(self).git_picker matches Some(p) ==> {
                &&& *final(self) == (GitModalState { git_picker: None, mode: resting_mode(*old(self)), ..*old(self) })
                &&& p.selected.selected < p.entries@.len() ==> is_popup(e,
                    picker_argv(p.kind, p.entries@[p.selected.selected as int].value@), picker_label(p.kind), p.repo_root@)
                &&& p.selected.selected >= p.entries@.len() ==> e is Nothing
            },
    {
        let picker = match self.git_picker.take() {
            Some(p) => p,
            None => return GitModalEffect::Nothing,
        };
        self.mode = self.resting_mode();
        match picker.confirm_command() {
            Some((argv, label)) => GitModalEffect::Popup { argv, label: label.to_owned(), repo_root: picker.repo_root },
            None => GitModalEffect::Nothing,
        }
    }

    /// Closes the picker without running anything.
    pub fn close_git_picker(&mut self)
        ensures
            *final(self) == (GitModalState { git_picker: None, mode: resting_mode(*old(self)), ..*old(self) }),
    {
        self.git_picker = None;
        self.mode = self.resting_mode();
    }

    /// A key while the picker is open: `esc` closes it, `enter` confirms it, the arrows (and
    /// `k`/`j`) move its highlight (see `handle_git_picker_key`).
    pub fn handle_git_picker_modal_key(&mut self, key: PickerKey) -> (e: GitModalEffect)
        ensures
            key == PickerKey::Esc ==> e is Nothing && *final(self) == (GitModalState {
                git_picker: None,
                mode: resting_mode(*old(self)),
                ..*old(self)
            }),
            key == PickerKey::Enter ==> (old(self).git_picker is None ==> e is Nothing && *final(self) == *old(self))
                && (old(self).git_picker matches Some(p) ==> *final(self) == (GitModalState {
                    git_picker: None,
                    mode: resting_mode(*old(self)),
                    ..*old(self)
                }) && (p.selected.selected < p.entries@.len() ==> is_popup(e,
                    picker_argv(p.kind, p.entries@[p.selected.selected as int].value@), picker_label(p.kind), p.repo_root@))
                    && (p.selected.selected >= p.entries@.len() ==> e is Nothing)),
            key != PickerKey::Esc && key != PickerKey::Enter ==> e is Nothing
                && final(self).mode == old(self).mode
                && (old(self).git_picker is None <==> final(self).git_picker is None)
                && (old(self).git_picker matches Some(p) ==> final(self).git_picker matches Some(q)
                    && q.entries == p.entries && q.kind == p.kind && q.generation == p.generation),
    {
        if key == PickerKey::Esc {
            self.close_git_picker();
            return GitModalEffect::Nothing;
        }
        if key == PickerKey::Enter {
            return self.confirm_git_picker();
        }
        match &mut self.git_picker {
            Some(picker) => {
                let outcome = handle_git_picker_key(picker, key);
                assert(outcome == PickerKeyOutcome::Stay);
            },
            None => {},
        }
        GitModalEffect::Nothing
    }

    /// Opens the new-branch prompt with an empty buffer.
    pub fn open_git_branch_create(&mut self)
        ensures
            open_branch_create_effect(*old(self), *final(self)),
    {
        if self.git_panel_repo_root().is_none() {
            self.no_repo();
            return;
        }
        self.name_input = String::new();
        self.name_input_replace_on_type = false;
        self.mode = AppMode::GitBranchCreate;
    }

    /// Closes the prompt, dropping what was typed so the next dialog starts empty.
    pub fn close_git_branch_create(&mut self)
        ensures
            final(self).name_input@.len() == 0,
            *final(self) == (GitModalState { name_input: final(self).name_input, mode: resting_mode(*old(self)), ..*old(self) }),
    {
        self.name_input = String::new();
        self.mode = self.resting_mode();
    }

    /// Closes the prompt and creates and switches to the typed branch (`git switch -c`,
    /// trimmed) in a popup; an empty name, or no repository, runs nothing.
    pub fn confirm_git_branch_create(&mut self) -> (e: GitModalEffect)
        ensures
            final(self).name_input@.len() == 0,
            *final(self) == (GitModalState { name_input: final(self).name_input, mode: resting_mode(*old(self)), ..*old(self) }),
            ({
                let name = spec_trim(old(self).name_input@);
                match panel_repo_root(*old(self)) {
                    Some(root) => if name.len() > 0 {
                        is_popup(e, seq!["git"@, "switch"@, "-c"@, name], "branch create"@, root@)
                    } else {
                        e is Nothing
                    },
                    None => e is Nothing,
                }
            }),
    {
        let command = branch_create_command(self.name_input.as_str());
        self.close_git_branch_create();
        let argv = match command {
            Some(argv) => argv,
            None => return GitModalEffect::Nothing,
        };
        match self.git_panel_repo_root() {
            Some(root) => GitModalEffect::Popup { argv, label: "branch create".to_owned(), repo_root: root },
            None => GitModalEffect::Nothing,
        }
    }

    /// A key while the new-branch prompt is open: `esc` cancels, `enter` confirms, `backspace`
    /// deletes the last character, and a character typed with at most `shift` is appended.
    pub fn handle_git_branch_create_key(&mut self, key: PromptKey) -> (e: GitModalEffect)
        ensures
            key.code == PromptKeyCode::Esc ==> e is Nothing && final(self).name_input@.len() == 0
                && *final(self) == (GitModalState { name_input: final(self).name_input, mode: resting_mode(*old(self)), ..*old(self) }),
            key.code == PromptKeyCode::Enter ==> final(self).name_input@.len() == 0
                && *final(self) == (GitModalState { name_input: final(self).name_input, mode: resting_mode(*old(self)), ..*old(self) }),
            key.code == PromptKeyCode::Backspace ==> e is Nothing
                && final(self).name_input@ == (if old(self).name_input@.len() > 0 { old(self).name_input@.drop_last() } else { old(self).name_input@ })
                && *final(self) == (GitModalState { name_input: final(self).name_input, ..*old(self) }),
            (key.code is Char) ==> e is Nothing && if !key.non_shift_modifier {
                final(self).name_input@ == old(self).name_input@.push(key.code->Char_0)
                    && *final(self) == (GitModalState { name_input: final(self).name_input, ..*old(self) })
            } else {
                *final(self) == *old(self)
            },
            key.code == PromptKeyCode::Other ==> e is Nothing && *final(self) == *old(self),
    {
        match key.code {
            PromptKeyCode::Esc => {
                self.close_git_branch_create();
                GitModalEffect::Nothing
            },
            PromptKeyCode::Enter => self.confirm_git_branch_create(),
            PromptKeyCode::Backspace => {
                string_pop(&mut self.name_input);
                GitModalEffect::Nothing
            },
            PromptKeyCode::Char(c) => {
                if !key.non_shift_modifier {
                    string_push(&mut self.name_input, c);
                }
                GitModalEffect::Nothing
            },
            PromptKeyCode::Other => GitModalEffect::Nothing,
        }
    }

    /// An item picked from a file's context menu (after the menu has closed): open its diff,
    /// stage or unstage it, or ask for the inline discard confirmation (back in the panel's
    /// file list); without a repository, only the error. Unknown labels do nothing.
    pub fn apply_git_file_menu_action(&mut self, path: String, staged: bool, untracked: bool, action: &str) -> (e: GitModalEffect)
        ensures
            panel_repo_root(*old(self)) is None ==> e is Nothing && with_no_repo_error(*old(self), *final(self)),
            panel_repo_root(*old(self)) matches Some(root) ==> {
                if action@ == "Open diff"@ {
                    *final(self) == *old(self) && (e matches GitModalEffect::OpenDiff { repo_root: r, path: p, staged: s, untracked: u }
                        && r@ == root@ && p@ == path@ && s == staged && u == untracked)
                } else if action@ == "Stage"@ || action@ == "Unstage"@ {
                    *final(self) == *old(self) && (e matches GitModalEffect::FileAction { repo_root: r, path: p, action: a }
                        && r@ == root@ && p@ == path@
                        && a == (if action@ == "Stage"@ { GitFileActionKind::Stage } else { GitFileActionKind::Unstage }))
                } else if action@ == "Discard changes..."@ {
                    e is Nothing && (final(self).pending_discard matches Some(p) && p@ == path@)
                        && *final(self) == (GitModalState {
                        pending_discard: final(self).pending_discard,
                        mode: AppMode::SidebarGit,
                        focus: GitSidebarFocus::FileList,
                        ..*old(self)
                    })
                } else {
                    e is Nothing && *final(self) == *old(self)
                }
            },
    {
        let root = match self.git_panel_repo_root() {
            Some(r) => r,
            None => {
                self.no_repo();
                return GitModalEffect::Nothing;
            },
        };
        match git_file_menu_action(action) {
            Some(GitFileMenuAction::OpenDiff) => GitModalEffect::OpenDiff { repo_root: root, path, staged, untracked },
            Some(GitFileMenuAction::Stage) => GitModalEffect::FileAction { repo_root: root, path, action: GitFileActionKind::Stage },
            Some(GitFileMenuAction::Unstage) => GitModalEffect::FileAction { repo_root: root, path, action: GitFileActionKind::Unstage },
            Some(GitFileMenuAction::RequestDiscard) => {
                self.pending_discard = Some(path);
                self.mode = AppMode::SidebarGit;
                self.focus = GitSidebarFocus::FileList;
                GitModalEffect::Nothing
            },
            None => GitModalEffect::Nothing,
        }
    }

    /// An item picked from the repository context menu (after the menu has closed): a command
    /// run in a popup, a picker, or the new-branch prompt. Unknown labels do nothing.
    pub fn apply_git_repo_menu_action(&mut self, action: &str) -> (e: GitModalEffect)
        requires
            old(self).picker_generation < u64::MAX,
        ensures
            match git_repo_menu_label(action@) {
                Some(GitRepoMenuAction::Run(c)) => repo_command_effect(*old(self), *final(self), c, e),
                Some(GitRepoMenuAction::ApplyStash) => open_picker_effect(*old(self), *final(self), GitPickerKind::ApplyStash, e),
                Some(GitRepoMenuAction::SwitchBranch) => open_picker_effect(*old(self), *final(self), GitPickerKind::SwitchBranch, e),
                Some(GitRepoMenuAction::DeleteBranch) => open_picker_effect(*old(self), *final(self), GitPickerKind::DeleteBranch, e),
                Some(GitRepoMenuAction::NewBranch) => e is Nothing && open_branch_create_effect(*old(self), *final(self)),
                None => e is Nothing && *final(self) == *old(self),
            },
    {
        match git_repo_menu_action(action) {
            Some(GitRepoMenuAction::Run(c)) => self.run_git_repo_command(c),
            Some(GitRepoMenuAction::ApplyStash) => self.open_git_picker(GitPickerKind::ApplyStash),
            Some(GitRepoMenuAction::SwitchBranch) => self.open_git_picker(GitPickerKind::SwitchBranch),
            Some(GitRepoMenuAction::DeleteBranch) => self.open_git_picker(GitPickerKind::DeleteBranch),
            Some(GitRepoMenuAction::NewBranch) => {
                self.open_git_branch_create();
                GitModalEffect::Nothing
            },
            None => GitModalEffect::Nothing,
        }
    }

    /// Records how starting a popup went: a failure becomes the panel's error
    /// (`"<label> failed to start: <error>"`); on success the working tree is to be refreshed
    /// at once (returns `true`), since the command may have changed it.
    pub fn handle_git_popup_started(&mut self, label: &str, result: Result<(), String>) -> (refresh_now: bool)
        ensures
            refresh_now == (result is Ok),
            result is Ok ==> *final(self) == *old(self),
            result matches Err(err) ==> (final(self).last_error matches Some(m) && m@ == label@ + " failed to start: "@ + err@)
                && *final(self) == (GitModalState { last_error: final(self).last_error, ..*old(self) }),
    {
        match result {
            Ok(()) => true,
            Err(err) => {
                let mut m = label.to_owned();
                m.append(" failed to start: ");
                m.append(err.as_str());
                self.last_error = Some(m);
                false
            },
        }
    }
}

/// A listing taken by the picker: loading ends, and the entries are replaced (highlight back
/// on the first) or the listing error recorded; the picker stays the same instance.
pub open spec fn listing_applied(p: GitPickerState, q: GitPickerState, entries: Option<Vec<GitListEntry>>) -> bool {
    &&& q.kind == p.kind
    &&& q.generation == p.generation
    &&& q.repo_root == p.repo_root
    &&& !q.loading
    &&& match entries {
        Some(list) => q.entries == list && q.selected.selected == 0 && q.error == p.error,
        None => q.entries == p.entries && q.selected == p.selected
            && (q.error matches Some(e) && e@ == crate::picker::listing_error_text()),
    }
}

/// The repository menu item a label stands for (as `git_repo_menu_action` decides it).
pub open spec fn git_repo_menu_label(label: Seq<char>) -> Option<GitRepoMenuAction> {
    if label == "Fetch"@ {
        Some(GitRepoMenuAction::Run(GitRepoCommand::Fetch))
    } else if label == "Pull"@ {
        Some(GitRepoMenuAction::Run(GitRepoCommand::Pull))
    } else if label == "Push"@ {
        Some(GitRepoMenuAction::Run(GitRepoCommand::Push))
    } else if label == "View log"@ {
        Some(GitRepoMenuAction::Run(GitRepoCommand::Log))
    } else if label == "Stash changes"@ {
        Some(GitRepoMenuAction::Run(GitRepoCommand::StashPush))
    } else if label == "Apply stash..."@ {
        Some(GitRepoMenuAction::ApplyStash)
    } else if label == "New branch..."@ {
        Some(GitRepoMenuAction::NewBranch)
    } else if label == "Switch branch..."@ {
        Some(GitRepoMenuAction::SwitchBranch)
    } else if label == "Delete branch..."@ {
        Some(GitRepoMenuAction::DeleteBranch)
    } else {
        None
    }
}

/// A key while a text prompt is open.
#[derive(Debug, Clone, Copy, PartialEq, Eq, Structural)]
pub enum PromptKeyCode {
    Esc,
    Enter,
    Backspace,
    Char(char),
    Other,
}

/// A prompt key and whether a modifier other than `shift` is held.
#[derive(Debug, Clone, Copy, PartialEq, Eq, Structural)]
pub struct PromptKey {
    pub code: PromptKeyCode,
    pub non_shift_modifier: bool,
}

} // verus!
