use vstd::prelude::*;

use crate::command::{strings, CommandOutput};
use crate::text::{
    chars_to_string, first_index, lines_of, lossy_utf8, range_to_string, spec_lines, spec_trim,
    str_chars, trim_range, utf8_lossy,
};

verus! {

/// One selectable git object: `value` is what gets passed back to git, `label` is what the user
/// sees. They differ for stashes (`stash@{0}` vs its human message).
#[derive(Debug, Clone, PartialEq, Eq)]
pub struct GitListEntry {
    pub value: String,
    pub label: String,
}

/// A list entry as a value.
#[verifier::ext_equal]
pub struct ListEntryModel {
    pub value: Seq<char>,
    pub label: Seq<char>,
}

impl View for GitListEntry {
    type V = ListEntryModel;

    open spec fn view(&self) -> ListEntryModel {
        ListEntryModel { value: self.value@, label: self.label@ }
    }
}

pub open spec fn entries_view(v: Seq<GitListEntry>) -> Seq<ListEntryModel> {
    v.map_values(|e: GitListEntry| e@)
}

/// Field separator used in `--format` strings: a unit separator cannot appear in a branch name
/// (git forbids control characters) nor realistically in a stash subject.
pub const FIELD_SEP: char = '\x1f';

/// One line of `git stash list --format=%gd<US>%gs`: blank lines and lines without the
/// separator give nothing; otherwise the value is the ref before the first separator and the
/// label is the ref, two spaces, and the subject after it.
pub open spec fn stash_entry(line: Seq<char>) -> Option<ListEntryModel> {
    if spec_trim(line).len() == 0 {
        None
    } else {
        match first_index(line, FIELD_SEP) {
            None => None,
            Some(i) => Some(
                ListEntryModel {
                    value: line.take(i),
                    label: line.take(i) + "  "@ + line.skip(i + 1),
                },
            ),
        }
    }
}

/// One line of `git branch --format=%(refname:short)`: the trimmed name, unless it is empty or
/// starts with `(` (a detached HEAD, which is not switchable).
pub open spec fn branch_entry(line: Seq<char>) -> Option<ListEntryModel> {
    let t = spec_trim(line);
    if t.len() == 0 || t[0] == '(' {
        None
    } else {
        Some(ListEntryModel { value: t, label: t })
    }
}

pub open spec fn opt_seq<A>(o: Option<A>) -> Seq<A> {
    match o {
        Some(a) => seq![a],
        None => Seq::empty(),
    }
}

/// The entries the given lines yield, in order.
pub open spec fn stash_entries(lines: Seq<Seq<char>>) -> Seq<ListEntryModel>
    decreases lines.len(),
{
    if lines.len() == 0 {
        Seq::empty()
    } else {
        stash_entries(lines.drop_last()) + opt_seq(stash_entry(lines.last()))
    }
}

/// The entries the given lines yield, in order.
pub open spec fn branch_entries(lines: Seq<Seq<char>>) -> Seq<ListEntryModel>
    decreases lines.len(),
{
    if lines.len() == 0 {
        Seq::empty()
    } else {
        branch_entries(lines.drop_last()) + opt_seq(branch_entry(lines.last()))
    }
}

pub open spec fn spec_parse_stash_list(raw: Seq<char>) -> Seq<ListEntryModel> {
    stash_entries(spec_lines(raw))
}

pub open spec fn spec_parse_branch_list(raw: Seq<char>) -> Seq<ListEntryModel> {
    branch_entries(spec_lines(raw))
}

pub open spec fn line_views(v: Seq<Vec<char>>) -> Seq<Seq<char>> {
    v.map_values(|l: Vec<char>| l@)
}

fn stash_entry_of(line: &Vec<char>) -> (r: Option<GitListEntry>)
    ensures
        match stash_entry(line@) {
            Some(m) => r matches Some(e) && e@ == m,
            None => r is None,
        },
{
    let (a, b) = trim_range(line, 0, line.len());
    assert(line@.subrange(0, line@.len() as int) =~= line@);
    if a == b {
        return None;
    }
    assert(line@.skip(0) =~= line@);
    let sep = match crate::text::find_char_from(line, 0, FIELD_SEP) {
        Some(i) => i,
        None => {
            return None;
        },
    };
    let value = range_to_string(line, 0, sep);
    let mut label_chars: Vec<char> = Vec::new();
    let mut k: usize = 0;
    while k < sep
        invariant
            k <= sep < line@.len(),
            label_chars@ == line@.take(k as int),
        decreases sep - k,
    {
        label_chars.push(line[k]);
        k = k + 1;
        assert(line@.take(k as int) =~= line@.take(k - 1).push(line@[k - 1]));
    }
    label_chars.push(' ');
    label_chars.push(' ');
    let ghost head = label_chars@;
    let mut k = sep + 1;
    while k < line.len()
        invariant
            sep < k <= line@.len(),
            label_chars@ == head + line@.subrange(sep + 1, k as int),
        decreases line@.len() - k,
    {
        label_chars.push(line[k]);
        k = k + 1;
        assert(line@.subrange(sep + 1, k as int) =~= line@.subrange(sep + 1, k - 1).push(
            line@[k - 1],
        ));
    }
    proof {
        reveal_strlit("  ");
    }
    assert(label_chars@ =~= line@.take(sep as int) + "  "@ + line@.skip(sep + 1));
    let label = chars_to_string(label_chars.as_slice());
    assert(value@ =~= line@.take(sep as int));
    Some(GitListEntry { value, label })
}

fn branch_entry_of(line: &Vec<char>) -> (r: Option<GitListEntry>)
    ensures
        match branch_entry(line@) {
            Some(m) => r matches Some(e) && e@ == m,
            None => r is None,
        },
{
    let (a, b) = trim_range(line, 0, line.len());
    assert(line@.subrange(0, line@.len() as int) =~= line@);
    if a == b || line[a] == '(' {
        return None;
    }
    let value = range_to_string(line, a, b);
    let label = range_to_string(line, a, b);
    Some(GitListEntry { value, label })
}

/// Stash entries from `git stash list --format=%gd<US>%gs` output.
pub fn parse_stash_list(raw: &str) -> (out: Vec<GitListEntry>)
    ensures
        entries_view(out@) == spec_parse_stash_list(raw@),
{
    let cs = str_chars(raw);
    let lines = lines_of(&cs);
    let ghost lv = line_views(lines@);
    let mut out: Vec<GitListEntry> = Vec::new();
    let mut i: usize = 0;
    while i < lines.len()
        invariant
            i <= lines@.len(),
            lv == line_views(lines@),
            entries_view(out@) == stash_entries(lv.take(i as int)),
        decreases lines@.len() - i,
    {
        let ghost prev = entries_view(out@);
        assert(lv.take(i + 1).drop_last() =~= lv.take(i as int));
        assert(lv.take(i + 1).last() == lines@[i as int]@);
        match stash_entry_of(&lines[i]) {
            Some(e) => {
                out.push(e);
                assert(entries_view(out@) =~= prev.push(e@));
            },
            None => {},
        }
        i = i + 1;
        assert(entries_view(out@) =~= stash_entries(lv.take(i as int)));
    }
    assert(lv.take(i as int) =~= lv);
    out
}

/// Branch entries from `git branch --format=%(refname:short)` output.
pub fn parse_branch_list(raw: &str) -> (out: Vec<GitListEntry>)
    ensures
        entries_view(out@) == spec_parse_branch_list(raw@),
{
    let cs = str_chars(raw);
    let lines = lines_of(&cs);
    let ghost lv = line_views(lines@);
    let mut out: Vec<GitListEntry> = Vec::new();
    let mut i: usize = 0;
    while i < lines.len()
        invariant
            i <= lines@.len(),
            lv == line_views(lines@),
            entries_view(out@) == branch_entries(lv.take(i as int)),
        decreases lines@.len() - i,
    {
        let ghost prev = entries_view(out@);
        assert(lv.take(i + 1).drop_last() =~= lv.take(i as int));
        assert(lv.take(i + 1).last() == lines@[i as int]@);
        match branch_entry_of(&lines[i]) {
            Some(e) => {
                out.push(e);
                assert(entries_view(out@) =~= prev.push(e@));
            },
            None => {},
        }
        i = i + 1;
        assert(entries_view(out@) =~= branch_entries(lv.take(i as int)));
    }
    assert(lv.take(i as int) =~= lv);
    out
}

/// The arguments after `git -C <repo_root>` that list stashes as `<ref><US><subject>` lines.
pub fn git_stash_list_args() -> (args: Vec<String>)
    ensures
        args@.len() == 4,
        args@[0]@ == "--no-pager"@,
        args@[1]@ == "stash"@,
        args@[2]@ == "list"@,
        args@[3]@ == "--format=%gd\x1f%gs"@,
{
    strings(&["--no-pager", "stash", "list", "--format=%gd\x1f%gs"])
}

/// The arguments after `git -C <repo_root>` that list local branches, most recently committed
/// first.
pub fn git_branch_list_args() -> (args: Vec<String>)
    ensures
        args@.len() == 4,
        args@[0]@ == "--no-pager"@,
        args@[1]@ == "branch"@,
        args@[2]@ == "--format=%(refname:short)"@,
        args@[3]@ == "--sort=-committerdate"@,
{
    strings(&["--no-pager", "branch", "--format=%(refname:short)", "--sort=-committerdate"])
}

/// The stash entries from a finished `git stash list` run; `None` when the command could not be
/// run or failed.
pub fn git_stash_list(output: Option<CommandOutput>) -> (r: Option<Vec<GitListEntry>>)
    ensures
        match output {
            Some(o) => if o.success {
                r matches Some(v) && entries_view(v@) == spec_parse_stash_list(
                    lossy_utf8(o.stdout@),
                )
            } else {
                r is None
            },
            None => r is None,
        },
{
    match output {
        Some(o) => {
            if !o.success {
                return None;
            }
            let text = utf8_lossy(o.stdout.as_slice());
            Some(parse_stash_list(text.as_str()))
        },
        None => None,
    }
}

/// The branch entries from a finished `git branch` run; `None` when the command could not be
/// run or failed.
pub fn git_branch_list(output: Option<CommandOutput>) -> (r: Option<Vec<GitListEntry>>)
    ensures
        match output {
            Some(o) => if o.success {
                r matches Some(v) && entries_view(v@) == spec_parse_branch_list(
                    lossy_utf8(o.stdout@),
                )
            } else {
                r is None
            },
            None => r is None,
        },
{
    match output {
        Some(o) => {
            if !o.success {
                return None;
            }
            let text = utf8_lossy(o.stdout.as_slice());
            Some(parse_branch_list(text.as_str()))
        },
        None => None,
    }
}

} // verus!
