//! Wire-facing parameter and result types of the git and commit-agent API methods. The JSON
//! (de)serialisation of these types lives with the server's transport; here they are plain
//! data, and the diff types convert to and from the parser's own types without losing anything.
use vstd::prelude::*;

use crate::diff::{
    hunks_view, lines_view, DiffHunk, DiffLine, DiffLineKind, DiffLineModel, FileDiff,
    FileDiffModel, HunkModel,
};
use crate::lists::{GitListEntry, ListEntryModel};

verus! {

/// One configured commit-message-generation agent, as exposed to a client (the invocation
/// `args` stay server-only: a client only needs enough to label a choice).
#[derive(Debug, Clone, PartialEq, Eq)]
pub struct CommitAgentInfo {
    pub id: String,
    pub label: String,
    pub command: String,
}

#[derive(Debug, Clone, PartialEq, Eq)]
pub struct CommitAgentSetActiveParams {
    pub id: String,
}

#[derive(Debug, Clone, PartialEq, Eq)]
pub struct GitPanelSetActiveParams {
    pub workspace_id: String,
    pub active: bool,
}

#[derive(Debug, Clone, PartialEq, Eq)]
pub struct GitFileTargetParams {
    pub workspace_id: String,
    pub path: String,
}

#[derive(Debug, Clone, PartialEq, Eq)]
pub struct GitCommitParams {
    pub workspace_id: String,
    pub message: String,
}

/// `staged` and `untracked` default to `false` when a request leaves them out.
#[derive(Debug, Clone, PartialEq, Eq)]
pub struct GitDiffGetParams {
    pub workspace_id: String,
    pub path: String,
    pub staged: bool,
    pub untracked: bool,
}

#[derive(Debug, Clone, Copy, PartialEq, Eq, Structural)]
pub enum GitPickerKind {
    Stash,
    Branch,
}

#[derive(Debug, Clone, PartialEq, Eq)]
pub struct GitPickerListParams {
    pub workspace_id: String,
    pub kind: GitPickerKind,
}

#[derive(Debug, Clone, PartialEq, Eq)]
pub struct GitRepoCommandParams {
    pub workspace_id: String,
}

#[derive(Debug, Clone, PartialEq, Eq)]
pub struct GitStashApplyParams {
    pub workspace_id: String,
    pub stash_ref: String,
}

#[derive(Debug, Clone, PartialEq, Eq)]
pub struct GitBranchNameParams {
    pub workspace_id: String,
    pub name: String,
}

#[derive(Debug, Clone, Copy, PartialEq, Eq, Structural)]
pub enum GitDiffLineKind {
    Context,
    Addition,
    Deletion,
}

/// A line number is left out of the wire form when absent.
#[derive(Debug, Clone, PartialEq, Eq)]
pub struct GitDiffLine {
    pub kind: GitDiffLineKind,
    pub old_lineno: Option<u32>,
    pub new_lineno: Option<u32>,
    pub text: String,
}

#[derive(Debug, Clone, PartialEq, Eq)]
pub struct GitDiffHunk {
    pub old_start: u32,
    pub new_start: u32,
    pub lines: Vec<GitDiffLine>,
}

/// `hunks` defaults to empty and `binary` to `false` when a response leaves them out.
#[derive(Debug, Clone, PartialEq, Eq, Default)]
pub struct GitFileDiff {
    pub hunks: Vec<GitDiffHunk>,
    pub binary: bool,
}

/// One selectable stash or branch entry for `git.picker.list`. Named distinctly from
/// `GitListEntry` (the internal parsing type it is converted from) to keep the wire-facing API
/// and the internal git-parsing layer decoupled.
#[derive(Debug, Clone, PartialEq, Eq)]
pub struct GitPickerEntry {
    pub value: String,
    pub label: String,
}

/// The parser's line kind that a wire line kind stands for.
pub open spec fn kind_of_wire(kind: GitDiffLineKind) -> DiffLineKind {
    match kind {
        GitDiffLineKind::Context => DiffLineKind::Context,
        GitDiffLineKind::Addition => DiffLineKind::Addition,
        GitDiffLineKind::Deletion => DiffLineKind::Deletion,
    }
}

/// The wire line kind for a parser line kind.
pub open spec fn wire_kind(kind: DiffLineKind) -> GitDiffLineKind {
    match kind {
        DiffLineKind::Context => GitDiffLineKind::Context,
        DiffLineKind::Addition => GitDiffLineKind::Addition,
        DiffLineKind::Deletion => GitDiffLineKind::Deletion,
    }
}

pub open spec fn opt_int(o: Option<u32>) -> Option<int> {
    match o {
        Some(v) => Some(v as int),
        None => None,
    }
}

/// A wire diff line has the same value as the parser line it came from.
impl View for GitDiffLine {
    type V = DiffLineModel;

    open spec fn view(&self) -> DiffLineModel {
        DiffLineModel {
            kind: kind_of_wire(self.kind),
            old_lineno: opt_int(self.old_lineno),
            new_lineno: opt_int(self.new_lineno),
            text: self.text@,
        }
    }
}

pub open spec fn wire_lines_view(v: Seq<GitDiffLine>) -> Seq<DiffLineModel> {
    v.map_values(|l: GitDiffLine| l@)
}

impl View for GitDiffHunk {
    type V = HunkModel;

    open spec fn view(&self) -> HunkModel {
        HunkModel {
            old_start: self.old_start as int,
            new_start: self.new_start as int,
            lines: wire_lines_view(self.lines@),
        }
    }
}

pub open spec fn wire_hunks_view(v: Seq<GitDiffHunk>) -> Seq<HunkModel> {
    v.map_values(|h: GitDiffHunk| h@)
}

impl View for GitFileDiff {
    type V = FileDiffModel;

    open spec fn view(&self) -> FileDiffModel {
        FileDiffModel { hunks: wire_hunks_view(self.hunks@), binary: self.binary }
    }
}

impl View for GitPickerEntry {
    type V = ListEntryModel;

    open spec fn view(&self) -> ListEntryModel {
        ListEntryModel { value: self.value@, label: self.label@ }
    }
}

impl From<DiffLineKind> for GitDiffLineKind {
    fn from(kind: DiffLineKind) -> (r: GitDiffLineKind) {
        match kind {
            DiffLineKind::Context => GitDiffLineKind::Context,
            DiffLineKind::Addition => GitDiffLineKind::Addition,
            DiffLineKind::Deletion => GitDiffLineKind::Deletion,
        }
    }
}

impl vstd::std_specs::convert::FromSpecImpl<DiffLineKind> for GitDiffLineKind {
    open spec fn obeys_from_spec() -> bool {
        true
    }

    open spec fn from_spec(kind: DiffLineKind) -> GitDiffLineKind {
        wire_kind(kind)
    }
}

/// Line kinds convert to the wire form and back without change, in both directions.
pub proof fn lemma_line_kind_round_trip(k: DiffLineKind, w: GitDiffLineKind)
    ensures
        kind_of_wire(wire_kind(k)) == k,
        wire_kind(kind_of_wire(w)) == w,
{
}

/// The parser's kind for a wire kind: the inverse of the conversion above.
pub fn diff_line_kind_from_wire(kind: GitDiffLineKind) -> (r: DiffLineKind)
    ensures
        r == kind_of_wire(kind),
        wire_kind(r) == kind,
{
    match kind {
        GitDiffLineKind::Context => DiffLineKind::Context,
        GitDiffLineKind::Addition => DiffLineKind::Addition,
        GitDiffLineKind::Deletion => DiffLineKind::Deletion,
    }
}

impl From<DiffLine> for GitDiffLine {
    fn from(line: DiffLine) -> (r: GitDiffLine) {
        GitDiffLine {
            kind: GitDiffLineKind::from(line.kind),
            old_lineno: line.old_lineno,
            new_lineno: line.new_lineno,
            text: line.text,
        }
    }
}

impl vstd::std_specs::convert::FromSpecImpl<DiffLine> for GitDiffLine {
    open spec fn obeys_from_spec() -> bool {
        true
    }

    open spec fn from_spec(line: DiffLine) -> GitDiffLine {
        GitDiffLine {
            kind: wire_kind(line.kind),
            old_lineno: line.old_lineno,
            new_lineno: line.new_lineno,
            text: line.text,
        }
    }
}

impl From<GitListEntry> for GitPickerEntry {
    fn from(entry: GitListEntry) -> (r: GitPickerEntry) {
        GitPickerEntry { value: entry.value, label: entry.label }
    }
}

impl vstd::std_specs::convert::FromSpecImpl<GitListEntry> for GitPickerEntry {
    open spec fn obeys_from_spec() -> bool {
        true
    }

    open spec fn from_spec(entry: GitListEntry) -> GitPickerEntry {
        GitPickerEntry { value: entry.value, label: entry.label }
    }
}

/// A copy of one diff line in its wire form, with the same value.
fn wire_line_of(line: &DiffLine) -> (r: GitDiffLine)
    ensures
        r@ == line@,
{
    let kind = GitDiffLineKind::from(line.kind);
    assert(kind_of_wire(kind) == line.kind) by {
        assert(kind == wire_kind(line.kind));
    }
    GitDiffLine {
        kind,
        old_lineno: line.old_lineno,
        new_lineno: line.new_lineno,
        text: line.text.clone(),
    }
}

/// A copy of one wire diff line in the parser's form, with the same value.
fn line_of_wire(line: &GitDiffLine) -> (r: DiffLine)
    ensures
        r@ == line@,
{
    DiffLine {
        kind: diff_line_kind_from_wire(line.kind),
        old_lineno: line.old_lineno,
        new_lineno: line.new_lineno,
        text: line.text.clone(),
    }
}

/// The wire form of a hunk: same starts, same lines in the same order.
pub fn git_diff_hunk_from(hunk: &DiffHunk) -> (r: GitDiffHunk)
    ensures
        r@ == hunk@,
{
    let mut lines: Vec<GitDiffLine> = Vec::new();
    let mut i: usize = 0;
    while i < hunk.lines.len()
        invariant
            i <= hunk.lines@.len(),
            lines@.len() == i,
            forall|k: int| 0 <= k < i ==> #[trigger] lines@[k]@ == hunk.lines@[k]@,
        decreases hunk.lines@.len() - i,
    {
        let l = wire_line_of(&hunk.lines[i]);
        lines.push(l);
        i = i + 1;
    }
    assert(wire_lines_view(lines@) =~= lines_view(hunk.lines@));
    GitDiffHunk { old_start: hunk.old_start, new_start: hunk.new_start, lines }
}

/// The parser's form of a wire hunk: same starts, same lines in the same order.
pub fn diff_hunk_from_wire(hunk: &GitDiffHunk) -> (r: DiffHunk)
    ensures
        r@ == hunk@,
{
    let mut lines: Vec<DiffLine> = Vec::new();
    let mut i: usize = 0;
    while i < hunk.lines.len()
        invariant
            i <= hunk.lines@.len(),
            lines@.len() == i,
            forall|k: int| 0 <= k < i ==> #[trigger] lines@[k]@ == hunk.lines@[k]@,
        decreases hunk.lines@.len() - i,
    {
        let l = line_of_wire(&hunk.lines[i]);
        lines.push(l);
        i = i + 1;
    }
    assert(lines_view(lines@) =~= wire_lines_view(hunk.lines@));
    DiffHunk { old_start: hunk.old_start, new_start: hunk.new_start, lines }
}

/// The wire form of a file diff: same hunks in the same order, same binary flag.
pub fn git_file_diff_from(diff: &FileDiff) -> (r: GitFileDiff)
    ensures
        r@ == diff@,
{
    let mut hunks: Vec<GitDiffHunk> = Vec::new();
    let mut i: usize = 0;
    while i < diff.hunks.len()
        invariant
            i <= diff.hunks@.len(),
            hunks@.len() == i,
            forall|k: int| 0 <= k < i ==> #[trigger] hunks@[k]@ == diff.hunks@[k]@,
        decreases diff.hunks@.len() - i,
    {
        let h = git_diff_hunk_from(&diff.hunks[i]);
        hunks.push(h);
        i = i + 1;
    }
    assert(wire_hunks_view(hunks@) =~= hunks_view(diff.hunks@));
    GitFileDiff { hunks, binary: diff.binary }
}

/// The wire form of a stash or branch listing, entry for entry.
pub fn git_picker_entries_from(entries: Vec<GitListEntry>) -> (r: Vec<GitPickerEntry>)
    ensures
        r@.len() == entries@.len(),
        forall|i: int| 0 <= i < entries@.len() ==> #[trigger] r@[i]@ == entries@[i]@,
{
    let mut out: Vec<GitPickerEntry> = Vec::new();
    let mut i: usize = 0;
    while i < entries.len()
        invariant
            i <= entries@.len(),
            out@.len() == i,
            forall|k: int| 0 <= k < i ==> #[trigger] out@[k]@ == entries@[k]@,
        decreases entries@.len() - i,
    {
        let e = &entries[i];
        out.push(GitPickerEntry { value: e.value.clone(), label: e.label.clone() });
        i = i + 1;
    }
    out
}

} // verus!
