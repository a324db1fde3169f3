use vstd::prelude::*;

use crate::command::{strings, CommandOutput};
use crate::text::{
    chars_to_string, first_field, first_field_end, lossy_utf8, range_is_char, range_to_string,
    skip_fields, skip_fields_from, split_bytes, split_on, str_chars, utf8_lossy,
};

verus! {

#[derive(Debug, Clone, Copy, PartialEq, Eq, Structural)]
pub enum GitFileStatusKind {
    Modified,
    Added,
    Deleted,
    Renamed,
    Untracked,
    Conflicted,
}

#[derive(Debug, Clone, PartialEq, Eq)]
pub struct GitFileEntry {
    pub path: String,
    pub original_path: Option<String>,
    pub status: GitFileStatusKind,
}

#[derive(Debug, Clone, Default, PartialEq, Eq)]
pub struct GitWorkingTreeStatus {
    pub staged: Vec<GitFileEntry>,
    pub unstaged: Vec<GitFileEntry>,
}

/// A file entry as a value: its path, the path it was renamed from, and its status.
pub struct FileEntryModel {
    pub path: Seq<char>,
    pub original_path: Option<Seq<char>>,
    pub status: GitFileStatusKind,
}

/// The working tree as a value: staged entries and unstaged/untracked entries, in order.
#[verifier::ext_equal]
pub struct WorkingTreeModel {
    pub staged: Seq<FileEntryModel>,
    pub unstaged: Seq<FileEntryModel>,
}

pub open spec fn opt_string_view(o: Option<String>) -> Option<Seq<char>> {
    match o {
        Some(s) => Some(s@),
        None => None,
    }
}

impl View for GitFileEntry {
    type V = FileEntryModel;

    open spec fn view(&self) -> FileEntryModel {
        FileEntryModel {
            path: self.path@,
            original_path: opt_string_view(self.original_path),
            status: self.status,
        }
    }
}

pub open spec fn entries_view(v: Seq<GitFileEntry>) -> Seq<FileEntryModel> {
    v.map_values(|e: GitFileEntry| e@)
}

impl View for GitWorkingTreeStatus {
    type V = WorkingTreeModel;

    open spec fn view(&self) -> WorkingTreeModel {
        WorkingTreeModel { staged: entries_view(self.staged@), unstaged: entries_view(self.unstaged@) }
    }
}

pub open spec fn empty_tree() -> WorkingTreeModel {
    WorkingTreeModel { staged: Seq::empty(), unstaged: Seq::empty() }
}

pub open spec fn concat_trees(a: WorkingTreeModel, b: WorkingTreeModel) -> WorkingTreeModel {
    WorkingTreeModel { staged: a.staged + b.staged, unstaged: a.unstaged + b.unstaged }
}

/// Status letter of a porcelain `XY` column: `A` added, `D` deleted, `R`/`C` renamed,
/// anything else modified.
pub open spec fn spec_status_kind_from_char(c: char) -> GitFileStatusKind {
    if c == 'A' {
        GitFileStatusKind::Added
    } else if c == 'D' {
        GitFileStatusKind::Deleted
    } else if c == 'R' || c == 'C' {
        GitFileStatusKind::Renamed
    } else {
        GitFileStatusKind::Modified
    }
}

/// The `i`-th character of the `XY` field, `.` when the field is shorter.
pub open spec fn xy_char(xy: Seq<char>, i: int) -> char {
    if 0 <= i < xy.len() {
        xy[i]
    } else {
        '.'
    }
}

/// An ordinary or renamed record split into its index side (`X`) and worktree side (`Y`):
/// each side that is not `.` contributes one entry.
pub open spec fn split_entries(
    xy: Seq<char>,
    path: Seq<char>,
    original_path: Option<Seq<char>>,
) -> WorkingTreeModel {
    let x = xy_char(xy, 0);
    let y = xy_char(xy, 1);
    WorkingTreeModel {
        staged: if x != '.' {
            seq![
                FileEntryModel {
                    path,
                    original_path,
                    status: spec_status_kind_from_char(x),
                },
            ]
        } else {
            Seq::empty()
        },
        unstaged: if y != '.' {
            seq![
                FileEntryModel {
                    path,
                    original_path,
                    status: spec_status_kind_from_char(y),
                },
            ]
        } else {
            Seq::empty()
        },
    }
}

pub open spec fn unstaged_only(e: FileEntryModel) -> WorkingTreeModel {
    WorkingTreeModel { staged: Seq::empty(), unstaged: seq![e] }
}

/// The record type: everything before the first space.
pub open spec fn record_type(t: Seq<char>) -> Seq<char> {
    first_field(t, ' ')
}

/// Everything after the first space, empty when there is none.
pub open spec fn record_rest(t: Seq<char>) -> Seq<char> {
    match skip_fields(t, ' ', 1) {
        Some(r) => r,
        None => Seq::empty(),
    }
}

/// The working tree that a list of decoded NUL-separated porcelain v2 tokens describes.
/// Empty tokens are skipped; `1` (ordinary) and `2` (rename/copy) records split into staged and
/// unstaged entries by their `XY` field, `2` taking the following token as the original path;
/// `u` (unmerged) records are unstaged conflicts, `?` records unstaged untracked files; any
/// other record, or one with too few fields, is skipped.
pub open spec fn status_from_tokens(toks: Seq<Seq<char>>) -> WorkingTreeModel
    decreases toks.len(),
{
    if toks.len() == 0 {
        empty_tree()
    } else {
        let t = toks[0];
        let tail = toks.drop_first();
        if t.len() == 0 {
            status_from_tokens(tail)
        } else {
            let rt = record_type(t);
            let rest = record_rest(t);
            if rt == seq!['1'] {
                match skip_fields(rest, ' ', 7) {
                    Some(path) => concat_trees(
                        split_entries(first_field(rest, ' '), path, None),
                        status_from_tokens(tail),
                    ),
                    None => status_from_tokens(tail),
                }
            } else if rt == seq!['2'] {
                match skip_fields(rest, ' ', 8) {
                    Some(path) => if tail.len() > 0 {
                        concat_trees(
                            split_entries(first_field(rest, ' '), path, Some(tail[0])),
                            status_from_tokens(tail.drop_first()),
                        )
                    } else {
                        split_entries(first_field(rest, ' '), path, None)
                    },
                    None => status_from_tokens(tail),
                }
            } else if rt == seq!['u'] {
                match skip_fields(rest, ' ', 9) {
                    Some(path) => concat_trees(
                        unstaged_only(
                            FileEntryModel {
                                path,
                                original_path: None,
                                status: GitFileStatusKind::Conflicted,
                            },
                        ),
                        status_from_tokens(tail),
                    ),
                    None => status_from_tokens(tail),
                }
            } else if rt == seq!['?'] {
                concat_trees(
                    unstaged_only(
                        FileEntryModel {
                            path: rest,
                            original_path: None,
                            status: GitFileStatusKind::Untracked,
                        },
                    ),
                    status_from_tokens(tail),
                )
            } else {
                status_from_tokens(tail)
            }
        }
    }
}

/// The working tree described by raw `git status --porcelain=v2 -z` output: the output split at
/// NUL bytes, each token decoded as `String::from_utf8_lossy` decodes it.
pub open spec fn spec_parse_porcelain_v2(raw: Seq<u8>) -> WorkingTreeModel {
    status_from_tokens(split_on(raw, 0u8).map_values(|t: Seq<u8>| lossy_utf8(t)))
}

pub open spec fn token_views(toks: Seq<Vec<char>>) -> Seq<Seq<char>> {
    toks.map_values(|t: Vec<char>| t@)
}

pub fn status_kind_from_char(c: char) -> (k: GitFileStatusKind)
    ensures
        k == spec_status_kind_from_char(c),
{
    match c {
        'A' => GitFileStatusKind::Added,
        'D' => GitFileStatusKind::Deleted,
        'R' | 'C' => GitFileStatusKind::Renamed,
        _ => GitFileStatusKind::Modified,
    }
}

fn clone_opt_string(o: &Option<String>) -> (r: Option<String>)
    ensures
        opt_string_view(r) == opt_string_view(*o),
{
    match o {
        Some(s) => Some(s.clone()),
        None => None,
    }
}

impl GitFileEntry {
    /// A copy of the entry with the same path, original path and status.
    pub fn clone_entry(&self) -> (r: Self)
        ensures
            r@ == self@,
    {
        GitFileEntry { path: self.path.clone(), original_path: clone_opt_string(&self.original_path), status: self.status }
    }
}

fn clone_entries(v: &Vec<GitFileEntry>) -> (r: Vec<GitFileEntry>)
    ensures
        entries_view(r@) == entries_view(v@),
{
    let mut out: Vec<GitFileEntry> = Vec::new();
    let mut i: usize = 0;
    while i < v.len()
        invariant
            i <= v@.len(),
            entries_view(out@) == entries_view(v@.take(i as int)),
        decreases v@.len() - i,
    {
        let ghost prev = out@;
        out.push(v[i].clone_entry());
        proof {
            assert(entries_view(out@) =~= entries_view(prev).push(v@[i as int]@));
            assert(v@.take(i + 1) =~= v@.take(i as int).push(v@[i as int]));
            assert(entries_view(v@.take(i + 1)) =~= entries_view(v@.take(i as int)).push(v@[i as int]@));
        }
        i = i + 1;
    }
    assert(v@.take(i as int) =~= v@);
    out
}

impl GitWorkingTreeStatus {
    /// A copy of the status with the same staged and unstaged entries, in the same order.
    pub fn clone_status(&self) -> (r: Self)
        ensures
            r@ == self@,
    {
        GitWorkingTreeStatus { staged: clone_entries(&self.staged), unstaged: clone_entries(&self.unstaged) }
    }
}

/// A `git status` result as a value: `None` where the status could not be read.
pub open spec fn opt_tree_view(o: Option<GitWorkingTreeStatus>) -> Option<WorkingTreeModel> {
    match o {
        Some(s) => Some(s@),
        None => None,
    }
}

/// A copy of a `git status` result.
pub fn clone_status_result(o: &Option<GitWorkingTreeStatus>) -> (r: Option<GitWorkingTreeStatus>)
    ensures
        opt_tree_view(r) == opt_tree_view(*o),
{
    match o {
        Some(s) => Some(s.clone_status()),
        None => None,
    }
}

/// Appends the entries an ordinary/renamed record contributes, given its `XY` field
/// `t[xy_lo..xy_hi]`.
fn push_split_entry(
    staged: &mut Vec<GitFileEntry>,
    unstaged: &mut Vec<GitFileEntry>,
    t: &Vec<char>,
    xy_lo: usize,
    xy_hi: usize,
    path: String,
    original_path: Option<String>,
)
    requires
        xy_lo <= xy_hi <= t@.len(),
    ensures
        entries_view(final(staged)@) == entries_view(old(staged)@) + split_entries(
            t@.subrange(xy_lo as int, xy_hi as int),
            path@,
            opt_string_view(original_path),
        ).staged,
        entries_view(final(unstaged)@) == entries_view(old(unstaged)@) + split_entries(
            t@.subrange(xy_lo as int, xy_hi as int),
            path@,
            opt_string_view(original_path),
        ).unstaged,
{
    let ghost xy = t@.subrange(xy_lo as int, xy_hi as int);
    let x = if xy_hi - xy_lo >= 1 {
        t[xy_lo]
    } else {
        '.'
    };
    let y = if xy_hi - xy_lo >= 2 {
        t[xy_lo + 1]
    } else {
        '.'
    };
    assert(x == xy_char(xy, 0));
    assert(y == xy_char(xy, 1));
    let ghost model = split_entries(xy, path@, opt_string_view(original_path));
    let ghost s0 = entries_view(staged@);
    let ghost u0 = entries_view(unstaged@);
    if x != '.' {
        let e = GitFileEntry {
            path: path.clone(),
            original_path: clone_opt_string(&original_path),
            status: status_kind_from_char(x),
        };
        staged.push(e);
        assert(entries_view(staged@) =~= s0 + model.staged);
    } else {
        assert(entries_view(staged@) =~= s0 + model.staged);
    }
    if y != '.' {
        let e = GitFileEntry { path, original_path, status: status_kind_from_char(y) };
        unstaged.push(e);
        assert(entries_view(unstaged@) =~= u0 + model.unstaged);
    } else {
        assert(entries_view(unstaged@) =~= u0 + model.unstaged);
    }
}

proof fn lemma_tokens_skip(toks: Seq<Seq<char>>, i: int)
    requires
        0 <= i < toks.len(),
    ensures
        toks.skip(i)[0] == toks[i],
        toks.skip(i).drop_first() =~= toks.skip(i + 1),
        toks.skip(i).len() == toks.len() - i,
{
}

/// The working tree that a list of decoded porcelain v2 tokens describes (see
/// `status_from_tokens`).
pub fn status_from_token_chars(toks: &Vec<Vec<char>>) -> (out: GitWorkingTreeStatus)
    ensures
        out@ == status_from_tokens(token_views(toks@)),
{
    let ghost all = token_views(toks@);
    let mut staged: Vec<GitFileEntry> = Vec::new();
    let mut unstaged: Vec<GitFileEntry> = Vec::new();
    let mut i: usize = 0;
    assert(all.skip(0) =~= all);
    while i < toks.len()
        invariant
            i <= toks@.len(),
            all == token_views(toks@),
            concat_trees(
                WorkingTreeModel { staged: entries_view(staged@), unstaged: entries_view(unstaged@) },
                status_from_tokens(all.skip(i as int)),
            ) == status_from_tokens(all),
        decreases toks@.len() - i,
    {
        let ghost before = WorkingTreeModel {
            staged: entries_view(staged@),
            unstaged: entries_view(unstaged@),
        };
        proof {
            lemma_tokens_skip(all, i as int);
        }
        let t = &toks[i];
        let ghost tv = t@;
        assert(tv == all.skip(i as int)[0]);
        let ghost tail = all.skip(i + 1);
        if t.len() == 0 {
            i = i + 1;
            assert(concat_trees(before, status_from_tokens(all.skip(i as int))) =~= concat_trees(
                before,
                status_from_tokens(all.skip(i - 1)),
            ));
            continue;
        }
        let rt_end = first_field_end(t, 0, ' ');
        assert(t@.skip(0) =~= t@);
        assert(t@.subrange(0, rt_end as int) == record_type(tv));
        let rest_start = match skip_fields_from(t, 0, ' ', 1) {
            Some(p) => p,
            None => t.len(),
        };
        assert(t@.skip(rest_start as int) == record_rest(tv));
        let ghost rest = record_rest(tv);
        let ghost rec = status_from_tokens(all.skip(i as int));
        if range_is_char(t, 0, rt_end, '1') {
            assert(record_type(tv) == seq!['1']);
            match skip_fields_from(t, rest_start, ' ', 7) {
                Some(p) => {
                    let xy_end = first_field_end(t, rest_start, ' ');
                    let path = range_to_string(t, p, t.len());
                    assert(t@.subrange(p as int, t@.len() as int) =~= t@.skip(p as int));
                    push_split_entry(&mut staged, &mut unstaged, t, rest_start, xy_end, path, None);
                    assert(rec == concat_trees(
                        split_entries(first_field(rest, ' '), t@.skip(p as int), None),
                        status_from_tokens(tail),
                    ));
                },
                None => {
                    assert(rec == status_from_tokens(tail));
                },
            }
            i = i + 1;
        } else if range_is_char(t, 0, rt_end, '2') {
            assert(record_type(tv) == seq!['2']);
            match skip_fields_from(t, rest_start, ' ', 8) {
                Some(p) => {
                    let xy_end = first_field_end(t, rest_start, ' ');
                    let path = range_to_string(t, p, t.len());
                    assert(t@.subrange(p as int, t@.len() as int) =~= t@.skip(p as int));
                    if i + 1 < toks.len() {
                        let orig = chars_to_string(toks[i + 1].as_slice());
                        assert(tail[0] == toks@[i + 1]@);
                        push_split_entry(
                            &mut staged,
                            &mut unstaged,
                            t,
                            rest_start,
                            xy_end,
                            path,
                            Some(orig),
                        );
                        assert(tail.drop_first() =~= all.skip(i + 2));
                        i = i + 2;
                    } else {
                        push_split_entry(
                            &mut staged,
                            &mut unstaged,
                            t,
                            rest_start,
                            xy_end,
                            path,
                            None,
                        );
                        assert(tail.len() == 0);
                        assert(status_from_tokens(tail) == empty_tree());
                        i = i + 1;
                        assert(all.skip(i as int).len() == 0);
                    }
                },
                None => {
                    i = i + 1;
                },
            }
        } else if range_is_char(t, 0, rt_end, 'u') {
            assert(record_type(tv) == seq!['u']);
            match skip_fields_from(t, rest_start, ' ', 9) {
                Some(p) => {
                    let path = range_to_string(t, p, t.len());
                    assert(t@.subrange(p as int, t@.len() as int) =~= t@.skip(p as int));
                    let ghost u0 = entries_view(unstaged@);
                    unstaged.push(
                        GitFileEntry {
                            path,
                            original_path: None,
                            status: GitFileStatusKind::Conflicted,
                        },
                    );
                    assert(entries_view(unstaged@) =~= u0.push(
                        FileEntryModel {
                            path: t@.skip(p as int),
                            original_path: None,
                            status: GitFileStatusKind::Conflicted,
                        },
                    ));
                },
                None => {},
            }
            i = i + 1;
        } else if range_is_char(t, 0, rt_end, '?') {
            assert(record_type(tv) == seq!['?']);
            let path = range_to_string(t, rest_start, t.len());
            assert(t@.subrange(rest_start as int, t@.len() as int) =~= t@.skip(rest_start as int));
            let ghost u0 = entries_view(unstaged@);
            unstaged.push(
                GitFileEntry { path, original_path: None, status: GitFileStatusKind::Untracked },
            );
            assert(entries_view(unstaged@) =~= u0.push(
                FileEntryModel {
                    path: rest,
                    original_path: None,
                    status: GitFileStatusKind::Untracked,
                },
            ));
            i = i + 1;
        } else {
            i = i + 1;
        }
        assert(concat_trees(
            WorkingTreeModel { staged: entries_view(staged@), unstaged: entries_view(unstaged@) },
            status_from_tokens(all.skip(i as int)),
        ) =~= concat_trees(before, rec));
    }
    assert(all.skip(i as int) =~= Seq::<Seq<char>>::empty());
    let out = GitWorkingTreeStatus { staged, unstaged };
    assert(out@ =~= status_from_tokens(all));
    out
}

} // verus!

verus! {

/// Decodes each token as `String::from_utf8_lossy` does.
pub fn decode_tokens(pieces: &Vec<Vec<u8>>) -> (out: Vec<Vec<char>>)
    ensures
        token_views(out@) == pieces@.map_values(|t: Vec<u8>| lossy_utf8(t@)),
{
    let mut out: Vec<Vec<char>> = Vec::new();
    let mut i: usize = 0;
    while i < pieces.len()
        invariant
            i <= pieces@.len(),
            token_views(out@) =~= pieces@.take(i as int).map_values(|t: Vec<u8>| lossy_utf8(t@)),
        decreases pieces@.len() - i,
    {
        let s = utf8_lossy(pieces[i].as_slice());
        let cs = str_chars(s.as_str());
        let ghost prev = token_views(out@);
        out.push(cs);
        assert(token_views(out@) =~= prev.push(lossy_utf8(pieces@[i as int]@)));
        i = i + 1;
        assert(pieces@.take(i as int) =~= pieces@.take(i - 1).push(pieces@[i - 1]));
        assert(token_views(out@) =~= pieces@.take(i as int).map_values(
            |t: Vec<u8>| lossy_utf8(t@),
        ));
    }
    assert(pieces@.take(i as int) =~= pieces@);
    out
}

/// Pure parser for `git status --porcelain=v2 -z` output. Records are NUL-separated; a rename/
/// copy record ("2 ...") consumes one extra NUL-delimited token for the original path.
pub fn parse_porcelain_v2(raw: &[u8]) -> (out: GitWorkingTreeStatus)
    ensures
        out@ == spec_parse_porcelain_v2(raw@),
{
    let pieces = split_bytes(raw, 0u8);
    let toks = decode_tokens(&pieces);
    assert(pieces@.map_values(|t: Vec<u8>| lossy_utf8(t@)) =~= pieces@.map_values(
        |t: Vec<u8>| t@,
    ).map_values(|t: Seq<u8>| lossy_utf8(t)));
    status_from_token_chars(&toks)
}

/// The arguments after `git -C <repo_root>` that list the working tree's changes.
pub fn git_working_tree_status_args() -> (args: Vec<String>)
    ensures
        args@.len() == 4,
        args@[0]@ == "status"@,
        args@[1]@ == "--porcelain=v2"@,
        args@[2]@ == "-z"@,
        args@[3]@ == "--untracked-files=all"@,
{
    strings(&["status", "--porcelain=v2", "-z", "--untracked-files=all"])
}

/// The working-tree file list from a finished `git status --porcelain=v2 -z` run (staged index
/// changes and unstaged/untracked worktree changes). `None` when the command could not be run
/// (`output` is `None`) or exited unsuccessfully, e.g. because the path is no longer a repo.
pub fn git_working_tree_status(output: Option<CommandOutput>) -> (r: Option<GitWorkingTreeStatus>)
    ensures
        match output {
            Some(o) => if o.success {
                r matches Some(s) && s@ == spec_parse_porcelain_v2(o.stdout@)
            } else {
                r is None
            },
            None => r is None,
        },
{
    match output {
        Some(o) => {
            if !o.success {
                return None;
            }
            Some(parse_porcelain_v2(o.stdout.as_slice()))
        },
        None => None,
    }
}

} // verus!
