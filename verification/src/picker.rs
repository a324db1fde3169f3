//! Repository-wide git operations of the Git panel's menus, and the modal stash/branch picker:
//! the argv each operation runs, how a listing fills the picker, how keys move through it, and
//! which command confirming it runs.
use vstd::prelude::*;

use crate::command::strings;
use crate::lists::GitListEntry;
use crate::text::{spec_trim, str_eq, trimmed};

verus! {

/// Repository-wide git operations offered by the Git panel's context menu.
///
/// These run as a real command in a floating terminal popup rather than as a captured
/// background subprocess: `fetch`/`pull`/`push` can prompt for credentials or report merge
/// conflicts, and `log` is a pager. A popup gives the user the actual git output and lets them
/// answer prompts, which capturing stdout could not.
#[derive(Debug, Clone, Copy, PartialEq, Eq, Structural)]
pub enum GitRepoCommand {
    Fetch,
    Pull,
    Push,
    Log,
    StashPush,
}

pub open spec fn views(v: Seq<String>) -> Seq<Seq<char>> {
    v.map_values(|s: String| s@)
}

pub open spec fn repo_command_argv(c: GitRepoCommand) -> Seq<Seq<char>> {
    match c {
        GitRepoCommand::Fetch => seq!["git"@, "fetch"@, "--all"@, "--prune"@],
        GitRepoCommand::Pull => seq!["git"@, "pull"@],
        GitRepoCommand::Push => seq!["git"@, "push"@],
        GitRepoCommand::Log => seq![
            "git"@,
            "log"@,
            "--oneline"@,
            "--graph"@,
            "--decorate"@,
            "-n"@,
            "200"@,
        ],
        GitRepoCommand::StashPush => seq!["git"@, "stash"@, "push"@],
    }
}

pub open spec fn repo_command_label(c: GitRepoCommand) -> Seq<char> {
    match c {
        GitRepoCommand::Fetch => "fetch"@,
        GitRepoCommand::Pull => "pull"@,
        GitRepoCommand::Push => "push"@,
        GitRepoCommand::Log => "log"@,
        GitRepoCommand::StashPush => "stash"@,
    }
}

impl GitRepoCommand {
    /// The argv run inside the popup. `--no-pager` is deliberately omitted for `log`: the
    /// pager is what makes it browsable.
    pub fn argv(self) -> (r: Vec<String>)
        ensures
            views(r@) == repo_command_argv(self),
    {
        let r = match self {
            GitRepoCommand::Fetch => strings(&["git", "fetch", "--all", "--prune"]),
            GitRepoCommand::Pull => strings(&["git", "pull"]),
            GitRepoCommand::Push => strings(&["git", "push"]),
            GitRepoCommand::Log => strings(
                &["git", "log", "--oneline", "--graph", "--decorate", "-n", "200"],
            ),
            GitRepoCommand::StashPush => strings(&["git", "stash", "push"]),
        };
        proof {
            reveal_strlit("git");
            reveal_strlit("fetch");
            reveal_strlit("--all");
            reveal_strlit("--prune");
            reveal_strlit("pull");
            reveal_strlit("push");
            reveal_strlit("log");
            reveal_strlit("--oneline");
            reveal_strlit("--graph");
            reveal_strlit("--decorate");
            reveal_strlit("-n");
            reveal_strlit("200");
            reveal_strlit("stash");
        }
        assert(views(r@) =~= repo_command_argv(self));
        r
    }

    pub fn label(self) -> (r: &'static str)
        ensures
            r@ == repo_command_label(self),
    {
        match self {
            GitRepoCommand::Fetch => "fetch",
            GitRepoCommand::Pull => "pull",
            GitRepoCommand::Push => "push",
            GitRepoCommand::Log => "log",
            GitRepoCommand::StashPush => "stash",
        }
    }
}

/// What the stash/branch picker is for.
#[derive(Debug, Clone, Copy, PartialEq, Eq, Structural)]
pub enum GitPickerKind {
    ApplyStash,
    SwitchBranch,
    DeleteBranch,
}

/// The highlighted row of a list.
#[derive(Debug, Clone, Copy, PartialEq, Eq, Structural)]
pub struct SelectionListState {
    pub selected: usize,
}

impl SelectionListState {
    pub fn new(selected: usize) -> (r: Self)
        ensures
            r.selected == selected,
    {
        SelectionListState { selected }
    }

    pub fn select(&mut self, index: usize)
        ensures
            final(self).selected == index,
    {
        self.selected = index;
    }

    /// One row up, stopping at the first.
    pub fn move_prev(&mut self)
        ensures
            final(self).selected == if old(self).selected == 0 {
                0
            } else {
                (old(self).selected - 1) as usize
            },
    {
        if self.selected > 0 {
            self.selected = self.selected - 1;
        }
    }

    /// One row down among `count` rows, stopping at the last.
    pub fn move_next(&mut self, count: usize)
        ensures
            final(self).selected == if old(self).selected + 1 < count {
                (old(self).selected + 1) as usize
            } else {
                old(self).selected
            },
    {
        if self.selected < count && count - self.selected > 1 {
            self.selected = self.selected + 1;
        }
    }
}

/// The modal picker over a repository's stashes or branches. `generation` identifies this
/// picker instance: a listing launched for an earlier one must not fill it.
#[derive(Debug, Clone)]
pub struct GitPickerState {
    pub kind: GitPickerKind,
    pub generation: u64,
    pub repo_root: String,
    pub entries: Vec<GitListEntry>,
    pub selected: SelectionListState,
    pub loading: bool,
    pub error: Option<String>,
}

pub open spec fn listing_error_text() -> Seq<char> {
    "failed to list git entries"@
}

impl GitPickerState {
    /// A freshly opened picker, empty and loading until its listing arrives.
    pub fn opening(kind: GitPickerKind, generation: u64, repo_root: String) -> (r: Self)
        ensures
            r.kind == kind,
            r.generation == generation,
            r.repo_root == repo_root,
            r.entries@.len() == 0,
            r.selected.selected == 0,
            r.loading,
            r.error is None,
    {
        GitPickerState {
            kind,
            generation,
            repo_root,
            entries: Vec::new(),
            selected: SelectionListState::new(0),
            loading: true,
            error: None,
        }
    }

    /// The highlighted entry, if the highlight is on one.
    pub fn selected_entry(&self) -> (r: Option<&GitListEntry>)
        ensures
            match r {
                Some(e) => self.selected.selected < self.entries@.len() && *e
                    == self.entries@[self.selected.selected as int],
                None => self.selected.selected >= self.entries@.len(),
            },
    {
        if self.selected.selected < self.entries.len() {
            Some(&self.entries[self.selected.selected])
        } else {
            None
        }
    }

    /// Applies a finished listing. It is taken only when it was launched for this very picker
    /// instance (same generation and same repository): two pickers over the same repository
    /// (branches, then stashes) would otherwise cross-fill, so `Enter` could run
    /// `git stash pop <branch-name>`. A taken listing ends the loading state and either
    /// replaces the entries (highlight back on the first) or records a listing error. Returns
    /// whether it was taken.
    pub fn apply_listing(&mut self, generation: u64, repo_root: &String, entries: Option<Vec<GitListEntry>>) -> (taken: bool)
        ensures
            taken == (generation == old(self).generation && repo_root@ == old(self).repo_root@),
            !taken ==> *final(self) == *old(self),
            taken ==> {
                &&& final(self).kind == old(self).kind
                &&& final(self).generation == old(self).generation
                &&& final(self).repo_root == old(self).repo_root
                &&& !final(self).loading
                &&& match entries {
                    Some(list) => final(self).entries == list && final(self).selected.selected == 0
                        && final(self).error == old(self).error,
                    None => final(self).entries == old(self).entries
                        && final(self).selected == old(self).selected
                        && (final(self).error matches Some(e) && e@ == listing_error_text()),
                }
            },
    {
        if self.generation != generation || self.repo_root != *repo_root {
            return false;
        }
        self.loading = false;
        match entries {
            Some(list) => {
                self.entries = list;
                self.selected = SelectionListState::new(0);
            },
            None => {
                self.error = Some(String::from_str("failed to list git entries"));
            },
        }
        true
    }

    /// The popup command that confirming the picker runs for the highlighted entry, with its
    /// label: `git stash pop <ref>` (pop rather than apply: leaving an applied stash on the
    /// stack is a common source of duplicate work later), `git switch <branch>`, or
    /// `git branch -d <branch>` (`-d` refuses to drop an unmerged branch, and the popup shows
    /// git's warning). The entry's value is always one argv element, never shell syntax: git
    /// refnames may legally contain `;`, `$`, backticks and parentheses. `None` when no entry
    /// is highlighted.
    pub fn confirm_command(&self) -> (r: Option<(Vec<String>, &'static str)>)
        ensures
            match r {
                Some((argv, label)) => self.selected.selected < self.entries@.len() && {
                    let value = self.entries@[self.selected.selected as int].value@;
                    views(argv@) == picker_argv(self.kind, value) && label@ == picker_label(self.kind)
                },
                None => self.selected.selected >= self.entries@.len(),
            },
    {
        let entry = match self.selected_entry() {
            Some(e) => e,
            None => return None,
        };
        let value = entry.value.clone();
        let mut argv = strings(
            &match self.kind {
                GitPickerKind::ApplyStash => ["git", "stash", "pop"],
                GitPickerKind::SwitchBranch => ["git", "switch", ""],
                GitPickerKind::DeleteBranch => ["git", "branch", "-d"],
            },
        );
        let label = match self.kind {
            GitPickerKind::ApplyStash => "stash pop",
            GitPickerKind::SwitchBranch => "switch",
            GitPickerKind::DeleteBranch => "branch delete",
        };
        if self.kind == GitPickerKind::SwitchBranch {
            argv.pop();
        }
        argv.push(value);
        proof {
            reveal_strlit("git");
            reveal_strlit("stash");
            reveal_strlit("pop");
            reveal_strlit("switch");
            reveal_strlit("branch");
            reveal_strlit("-d");
        }
        assert(views(argv@) =~= picker_argv(self.kind, self.entries@[self.selected.selected as int].value@));
        Some((argv, label))
    }
}

pub open spec fn picker_argv(kind: GitPickerKind, value: Seq<char>) -> Seq<Seq<char>> {
    match kind {
        GitPickerKind::ApplyStash => seq!["git"@, "stash"@, "pop"@, value],
        GitPickerKind::SwitchBranch => seq!["git"@, "switch"@, value],
        GitPickerKind::DeleteBranch => seq!["git"@, "branch"@, "-d"@, value],
    }
}

pub open spec fn picker_label(kind: GitPickerKind) -> Seq<char> {
    match kind {
        GitPickerKind::ApplyStash => "stash pop"@,
        GitPickerKind::SwitchBranch => "switch"@,
        GitPickerKind::DeleteBranch => "branch delete"@,
    }
}

/// A key while the picker is open.
#[derive(Debug, Clone, Copy, PartialEq, Eq, Structural)]
pub enum PickerKey {
    Esc,
    Enter,
    Up,
    Down,
    Char(char),
    Other,
}

/// What a key asks of the picker's owner.
#[derive(Debug, Clone, Copy, PartialEq, Eq, Structural)]
pub enum PickerKeyOutcome {
    /// Close the picker without running anything.
    Close,
    /// Run the highlighted entry's command (see `GitPickerState::confirm_command`) and close.
    Confirm,
    /// Nothing beyond what the key did to the picker itself.
    Stay,
}

/// Handles a key while the stash/branch picker is open: `esc` closes it, `enter` confirms,
/// `up`/`k` and `down`/`j` move the highlight within the entries; other keys do nothing.
pub fn handle_git_picker_key(picker: &mut GitPickerState, key: PickerKey) -> (r: PickerKeyOutcome)
    ensures
        key == PickerKey::Esc ==> r == PickerKeyOutcome::Close && *final(picker) == *old(picker),
        key == PickerKey::Enter ==> r == PickerKeyOutcome::Confirm && *final(picker) == *old(picker),
        key == PickerKey::Up || key == PickerKey::Char('k') ==> r == PickerKeyOutcome::Stay
            && *final(picker) == (GitPickerState {
            selected: SelectionListState {
                selected: if old(picker).selected.selected == 0 {
                    0
                } else {
                    (old(picker).selected.selected - 1) as usize
                },
            },
            ..*old(picker)
        }),
        key == PickerKey::Down || key == PickerKey::Char('j') ==> r == PickerKeyOutcome::Stay
            && *final(picker) == (GitPickerState {
            selected: SelectionListState {
                selected: if old(picker).selected.selected + 1 < old(picker).entries@.len() {
                    (old(picker).selected.selected + 1) as usize
                } else {
                    old(picker).selected.selected
                },
            },
            ..*old(picker)
        }),
        !(key == PickerKey::Esc || key == PickerKey::Enter || key == PickerKey::Up || key
            == PickerKey::Char('k') || key == PickerKey::Down || key == PickerKey::Char('j'))
            ==> r == PickerKeyOutcome::Stay && *final(picker) == *old(picker),
{
    if key == PickerKey::Esc {
        PickerKeyOutcome::Close
    } else if key == PickerKey::Enter {
        PickerKeyOutcome::Confirm
    } else if key == PickerKey::Up || key == PickerKey::Char('k') {
        picker.selected.move_prev();
        PickerKeyOutcome::Stay
    } else if key == PickerKey::Down || key == PickerKey::Char('j') {
        let count = picker.entries.len();
        picker.selected.move_next(count);
        PickerKeyOutcome::Stay
    } else {
        PickerKeyOutcome::Stay
    }
}

/// The popup command for the "new branch" prompt: `git switch -c <name>` with the typed name
/// trimmed (`switch -c` creates and checks out in one step, and reports in the popup if the
/// name is taken or invalid); `None`, running nothing, when the trimmed name is empty.
pub fn branch_create_command(name_input: &str) -> (r: Option<Vec<String>>)
    ensures
        match r {
            Some(argv) => spec_trim(name_input@).len() > 0 && views(argv@) == seq![
                "git"@,
                "switch"@,
                "-c"@,
                spec_trim(name_input@),
            ],
            None => spec_trim(name_input@).len() == 0,
        },
{
    let name = trimmed(name_input);
    if name.as_str().is_empty() {
        return None;
    }
    let mut argv = strings(&["git", "switch", "-c"]);
    argv.push(name);
    proof {
        reveal_strlit("git");
        reveal_strlit("switch");
        reveal_strlit("-c");
    }
    assert(views(argv@) =~= seq!["git"@, "switch"@, "-c"@, spec_trim(name_input@)]);
    Some(argv)
}

/// An item of the Git panel's per-file context menu.
#[derive(Debug, Clone, Copy, PartialEq, Eq, Structural)]
pub enum GitFileMenuAction {
    OpenDiff,
    Stage,
    Unstage,
    /// Destructive: routed through the same inline confirmation the `d` key uses.
    RequestDiscard,
}

/// The per-file menu item a label stands for; `None` for a label the menu does not offer.
pub fn git_file_menu_action(label: &str) -> (r: Option<GitFileMenuAction>)
    ensures
        r == (if label@ == "Open diff"@ {
            Some(GitFileMenuAction::OpenDiff)
        } else if label@ == "Stage"@ {
            Some(GitFileMenuAction::Stage)
        } else if label@ == "Unstage"@ {
            Some(GitFileMenuAction::Unstage)
        } else if label@ == "Discard changes..."@ {
            Some(GitFileMenuAction::RequestDiscard)
        } else {
            None
        }),
{
    if str_eq(label, "Open diff") {
        Some(GitFileMenuAction::OpenDiff)
    } else if str_eq(label, "Stage") {
        Some(GitFileMenuAction::Stage)
    } else if str_eq(label, "Unstage") {
        Some(GitFileMenuAction::Unstage)
    } else if str_eq(label, "Discard changes...") {
        Some(GitFileMenuAction::RequestDiscard)
    } else {
        None
    }
}

/// An item of the Git panel's repository-wide context menu.
#[derive(Debug, Clone, Copy, PartialEq, Eq, Structural)]
pub enum GitRepoMenuAction {
    Run(GitRepoCommand),
    ApplyStash,
    NewBranch,
    SwitchBranch,
    DeleteBranch,
}

/// The repository menu item a label stands for; `None` for a label the menu does not offer.
pub fn git_repo_menu_action(label: &str) -> (r: Option<GitRepoMenuAction>)
    ensures
        r == (if label@ == "Fetch"@ {
            Some(GitRepoMenuAction::Run(GitRepoCommand::Fetch))
        } else if label@ == "Pull"@ {
            Some(GitRepoMenuAction::Run(GitRepoCommand::Pull))
        } else if label@ == "Push"@ {
            Some(GitRepoMenuAction::Run(GitRepoCommand::Push))
        } else if label@ == "View log"@ {
            Some(GitRepoMenuAction::Run(GitRepoCommand::Log))
        } else if label@ == "Stash changes"@ {
            Some(GitRepoMenuAction::Run(GitRepoCommand::StashPush))
        } else if label@ == "Apply stash..."@ {
            Some(GitRepoMenuAction::ApplyStash)
        } else if label@ == "New branch..."@ {
            Some(GitRepoMenuAction::NewBranch)
        } else if label@ == "Switch branch..."@ {
            Some(GitRepoMenuAction::SwitchBranch)
        } else if label@ == "Delete branch..."@ {
            Some(GitRepoMenuAction::DeleteBranch)
        } else {
            None
        }),
{
    if str_eq(label, "Fetch") {
        Some(GitRepoMenuAction::Run(GitRepoCommand::Fetch))
    } else if str_eq(label, "Pull") {
        Some(GitRepoMenuAction::Run(GitRepoCommand::Pull))
    } else if str_eq(label, "Push") {
        Some(GitRepoMenuAction::Run(GitRepoCommand::Push))
    } else if str_eq(label, "View log") {
        Some(GitRepoMenuAction::Run(GitRepoCommand::Log))
    } else if str_eq(label, "Stash changes") {
        Some(GitRepoMenuAction::Run(GitRepoCommand::StashPush))
    } else if str_eq(label, "Apply stash...") {
        Some(GitRepoMenuAction::ApplyStash)
    } else if str_eq(label, "New branch...") {
        Some(GitRepoMenuAction::NewBranch)
    } else if str_eq(label, "Switch branch...") {
        Some(GitRepoMenuAction::SwitchBranch)
    } else if str_eq(label, "Delete branch...") {
        Some(GitRepoMenuAction::DeleteBranch)
    } else {
        None
    }
}

/// The side-by-side diff view's scroll offset after scrolling by `delta` rows: never below the
/// top, never past `max_scroll` (the last row's offset, recorded when the view was laid out),
/// so over-scrolling cannot walk past the last row into an empty body.
pub fn scroll_git_diff(scroll: usize, delta: isize, max_scroll: usize) -> (r: usize)
    ensures
        r as int == {
            let t = scroll + delta;
            let s = if t < 0 {
                0
            } else if t > usize::MAX {
                usize::MAX as int
            } else {
                t
            };
            if s > max_scroll {
                max_scroll as int
            } else {
                s
            }
        },
{
    let s: usize = if delta >= 0 {
        scroll.saturating_add(delta as usize)
    } else {
        let magnitude: usize = if delta == isize::MIN {
            (isize::MAX as usize) + 1
        } else {
            (-delta) as usize
        };
        scroll.saturating_sub(magnitude)
    };
    if s > max_scroll {
        max_scroll
    } else {
        s
    }
}

} // verus!
