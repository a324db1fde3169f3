use vstd::prelude::*;

use crate::command::CommandOutput;
use crate::text::{
    contains_chars, contains_seq, find_in, find_seq, first_field, first_field_end, first_word,
    first_word_in, has_prefix, has_prefix_at, lines_of, parse_u32_in, range_to_string,
    lossy_utf8, spec_lines, spec_parse_u32, str_chars, sub_vec, utf8_lossy, chars_to_string,
};

verus! {

#[derive(Debug, Clone, Copy, PartialEq, Eq, Structural)]
pub enum DiffLineKind {
    Context,
    Addition,
    Deletion,
}

#[derive(Debug, Clone, PartialEq, Eq)]
pub struct DiffLine {
    pub kind: DiffLineKind,
    pub old_lineno: Option<u32>,
    pub new_lineno: Option<u32>,
    pub text: String,
}

#[derive(Debug, Clone, PartialEq, Eq)]
pub struct DiffHunk {
    pub old_start: u32,
    pub new_start: u32,
    pub lines: Vec<DiffLine>,
}

#[derive(Debug, Clone, Default, PartialEq, Eq)]
pub struct FileDiff {
    pub hunks: Vec<DiffHunk>,
    pub binary: bool,
}

/// A diff line as a value.
#[verifier::ext_equal]
pub struct DiffLineModel {
    pub kind: DiffLineKind,
    pub old_lineno: Option<int>,
    pub new_lineno: Option<int>,
    pub text: Seq<char>,
}

/// A hunk as a value: its start lines and its body lines in order.
#[verifier::ext_equal]
pub struct HunkModel {
    pub old_start: int,
    pub new_start: int,
    pub lines: Seq<DiffLineModel>,
}

/// A file diff as a value.
#[verifier::ext_equal]
pub struct FileDiffModel {
    pub hunks: Seq<HunkModel>,
    pub binary: bool,
}

pub open spec fn opt_u32_int(o: Option<u32>) -> Option<int> {
    match o {
        Some(v) => Some(v as int),
        None => None,
    }
}

impl View for DiffLine {
    type V = DiffLineModel;

    open spec fn view(&self) -> DiffLineModel {
        DiffLineModel {
            kind: self.kind,
            old_lineno: opt_u32_int(self.old_lineno),
            new_lineno: opt_u32_int(self.new_lineno),
            text: self.text@,
        }
    }
}

pub open spec fn lines_view(v: Seq<DiffLine>) -> Seq<DiffLineModel> {
    v.map_values(|l: DiffLine| l@)
}

impl View for DiffHunk {
    type V = HunkModel;

    open spec fn view(&self) -> HunkModel {
        HunkModel {
            old_start: self.old_start as int,
            new_start: self.new_start as int,
            lines: lines_view(self.lines@),
        }
    }
}

pub open spec fn hunks_view(v: Seq<DiffHunk>) -> Seq<HunkModel> {
    v.map_values(|h: DiffHunk| h@)
}

impl View for FileDiff {
    type V = FileDiffModel;

    open spec fn view(&self) -> FileDiffModel {
        FileDiffModel { hunks: hunks_view(self.hunks@), binary: self.binary }
    }
}

/// `header` is the hunk header text after the leading `"@@ "`, e.g. `"-10,7 +10,8 @@ fn f() {"`:
/// up to the first `" @@"`, the first whitespace-separated word must be `-` followed by the old
/// range and the second `+` followed by the new range; each start is the range's text before
/// any `,`, parsed as a `u32`.
pub open spec fn spec_parse_hunk_header(header: Seq<char>) -> Option<(u32, u32)> {
    match find_seq(header, " @@"@) {
        None => None,
        Some(end) => match first_word(header.take(end)) {
            None => None,
            Some((old, rest)) => match first_word(rest) {
                None => None,
                Some((new, _)) => if old.len() > 0 && old[0] == '-' && new.len() > 0 && new[0]
                    == '+' {
                    match (
                        spec_parse_u32(first_field(old.drop_first(), ',')),
                        spec_parse_u32(first_field(new.drop_first(), ',')),
                    ) {
                        (Some(o), Some(n)) => Some((o, n)),
                        _ => None,
                    }
                } else {
                    None
                },
            },
        },
    }
}

/// The parser's state between lines: finished hunks, the hunk being filled, and the next old
/// and new line numbers.
#[verifier::ext_equal]
pub struct DiffScan {
    pub hunks: Seq<HunkModel>,
    pub current: Option<HunkModel>,
    pub old_line: int,
    pub new_line: int,
}

pub open spec fn initial_scan() -> DiffScan {
    DiffScan { hunks: Seq::empty(), current: None, old_line: 0, new_line: 0 }
}

pub open spec fn with_line(h: HunkModel, l: DiffLineModel) -> HunkModel {
    HunkModel { old_start: h.old_start, new_start: h.new_start, lines: h.lines.push(l) }
}

/// One line of `git diff` output. A `@@ ` line closes the current hunk and, if its header parses,
/// opens a new one numbered from its starts. Outside a hunk other lines are preamble and ignored.
/// Inside a hunk a `\ No newline` marker is ignored, `+` lines are additions, `-` lines deletions,
/// and any other line is context (its leading space, if any, dropped).
pub open spec fn diff_step(st: DiffScan, line: Seq<char>) -> DiffScan {
    if has_prefix(line, "@@ "@) {
        let hunks = match st.current {
            Some(h) => st.hunks.push(h),
            None => st.hunks,
        };
        match spec_parse_hunk_header(line.skip(3)) {
            Some((o, n)) => DiffScan {
                hunks,
                current: Some(HunkModel { old_start: o as int, new_start: n as int, lines: Seq::empty() }),
                old_line: o as int,
                new_line: n as int,
            },
            None => DiffScan { hunks, current: None, old_line: st.old_line, new_line: st.new_line },
        }
    } else {
        match st.current {
            None => st,
            Some(h) => if has_prefix(line, "\\ No newline"@) {
                st
            } else if line.len() > 0 && line[0] == '+' {
                DiffScan {
                    hunks: st.hunks,
                    current: Some(
                        with_line(
                            h,
                            DiffLineModel {
                                kind: DiffLineKind::Addition,
                                old_lineno: None,
                                new_lineno: Some(st.new_line),
                                text: line.drop_first(),
                            },
                        ),
                    ),
                    old_line: st.old_line,
                    new_line: st.new_line + 1,
                }
            } else if line.len() > 0 && line[0] == '-' {
                DiffScan {
                    hunks: st.hunks,
                    current: Some(
                        with_line(
                            h,
                            DiffLineModel {
                                kind: DiffLineKind::Deletion,
                                old_lineno: Some(st.old_line),
                                new_lineno: None,
                                text: line.drop_first(),
                            },
                        ),
                    ),
                    old_line: st.old_line + 1,
                    new_line: st.new_line,
                }
            } else {
                DiffScan {
                    hunks: st.hunks,
                    current: Some(
                        with_line(
                            h,
                            DiffLineModel {
                                kind: DiffLineKind::Context,
                                old_lineno: Some(st.old_line),
                                new_lineno: Some(st.new_line),
                                text: if line.len() > 0 && line[0] == ' ' {
                                    line.drop_first()
                                } else {
                                    line
                                },
                            },
                        ),
                    ),
                    old_line: st.old_line + 1,
                    new_line: st.new_line + 1,
                }
            },
        }
    }
}

/// The parser's state after the given lines.
pub open spec fn diff_run(lines: Seq<Seq<char>>) -> DiffScan
    decreases lines.len(),
{
    if lines.len() == 0 {
        initial_scan()
    } else {
        diff_step(diff_run(lines.drop_last()), lines.last())
    }
}

/// Whether every line number the parser assigns to the given lines fits in a `u32` (the
/// counters are `u32`s that the parser increments past each numbered line).
pub open spec fn diff_counters_fit(lines: Seq<Seq<char>>) -> bool
    decreases lines.len(),
{
    lines.len() == 0 || (diff_counters_fit(lines.drop_last()) && ({
        let st = diff_step(diff_run(lines.drop_last()), lines.last());
        st.old_line <= u32::MAX && st.new_line <= u32::MAX
    }))
}

/// Whether `git diff` reported the file as binary.
pub open spec fn is_binary_diff(text: Seq<char>) -> bool {
    contains_seq(text, "Binary files "@) && contains_seq(text, " differ"@)
}

/// The hunks the parser ends with: the finished ones plus the one still open.
pub open spec fn finish_scan(st: DiffScan) -> Seq<HunkModel> {
    match st.current {
        Some(h) => st.hunks.push(h),
        None => st.hunks,
    }
}

/// The file diff that `git diff --no-color -U3` output for one file describes.
pub open spec fn spec_parse_unified_diff(text: Seq<char>) -> FileDiffModel {
    if is_binary_diff(text) {
        FileDiffModel { hunks: Seq::empty(), binary: true }
    } else {
        FileDiffModel { hunks: finish_scan(diff_run(spec_lines(text))), binary: false }
    }
}

/// Whether `text` can be parsed without a line counter running past `u32::MAX`.
pub open spec fn diff_text_fits(text: Seq<char>) -> bool {
    is_binary_diff(text) || diff_counters_fit(spec_lines(text))
}

pub proof fn lemma_counters_fit_prefix(lines: Seq<Seq<char>>, k: int)
    requires
        0 <= k <= lines.len(),
        diff_counters_fit(lines),
    ensures
        diff_counters_fit(lines.take(k)),
    decreases lines.len(),
{
    if k == lines.len() {
        assert(lines.take(k) =~= lines);
    } else {
        assert(lines.drop_last().take(k) =~= lines.take(k));
        lemma_counters_fit_prefix(lines.drop_last(), k);
    }
}

} // verus!

verus! {

/// Parses the start lines out of a hunk header `line[start..]` (see `spec_parse_hunk_header`).
fn parse_hunk_header(line: &Vec<char>, start: usize) -> (r: Option<(u32, u32)>)
    requires
        start <= line@.len(),
    ensures
        r == spec_parse_hunk_header(line@.skip(start as int)),
{
    let ghost header = line@.skip(start as int);
    assert(line@.subrange(start as int, line@.len() as int) =~= header);
    let marker = str_chars(" @@");
    let end = match find_in(line, start, line.len(), &marker) {
        Some(e) => e,
        None => {
            return None;
        },
    };
    assert(header.take(end - start) =~= line@.subrange(start as int, end as int));
    let (a1, b1) = match first_word_in(line, start, end) {
        Some(w) => w,
        None => {
            return None;
        },
    };
    let (a2, b2) = match first_word_in(line, b1, end) {
        Some(w) => w,
        None => {
            return None;
        },
    };
    let ghost old = line@.subrange(a1 as int, b1 as int);
    let ghost new = line@.subrange(a2 as int, b2 as int);
    if !(b1 > a1 && line[a1] == '-' && b2 > a2 && line[a2] == '+') {
        assert(!(old.len() > 0 && old[0] == '-' && new.len() > 0 && new[0] == '+'));
        return None;
    }
    let old_digits = sub_vec(line, a1 + 1, b1);
    let new_digits = sub_vec(line, a2 + 1, b2);
    assert(old_digits@ =~= old.drop_first());
    assert(new_digits@ =~= new.drop_first());
    assert(old_digits@.skip(0) =~= old_digits@);
    assert(new_digits@.skip(0) =~= new_digits@);
    let oe = first_field_end(&old_digits, 0, ',');
    let ne = first_field_end(&new_digits, 0, ',');
    let o = parse_u32_in(&old_digits, 0, oe);
    let n = parse_u32_in(&new_digits, 0, ne);
    match (o, n) {
        (Some(o), Some(n)) => Some((o, n)),
        _ => None,
    }
}

} // verus!

verus! {

pub open spec fn scan_model(
    hunks: Seq<DiffHunk>,
    active: bool,
    cur_old: u32,
    cur_new: u32,
    cur_lines: Seq<DiffLine>,
    old_line: u32,
    new_line: u32,
) -> DiffScan {
    DiffScan {
        hunks: hunks_view(hunks),
        current: if active {
            Some(
                HunkModel {
                    old_start: cur_old as int,
                    new_start: cur_new as int,
                    lines: lines_view(cur_lines),
                },
            )
        } else {
            None
        },
        old_line: old_line as int,
        new_line: new_line as int,
    }
}

pub open spec fn line_views(v: Seq<Vec<char>>) -> Seq<Seq<char>> {
    v.map_values(|l: Vec<char>| l@)
}

/// Pure parser of `git diff --no-color -U3` output for a single file: hunk headers
/// (`@@ -old_start,old_count +new_start,new_count @@ ...`) plus ' '/'+'/'-'-prefixed body
/// lines. Preamble lines (`diff --git`, `index ...`, `--- a/...`, `+++ b/...`) are skipped by
/// virtue of not being inside a hunk yet.
pub fn parse_unified_diff(diff_text: &str) -> (out: FileDiff)
    requires
        diff_text_fits(diff_text@),
    ensures
        out@ == spec_parse_unified_diff(diff_text@),
{
    let cs = str_chars(diff_text);
    let binary_pat = str_chars("Binary files ");
    let differ_pat = str_chars(" differ");
    if contains_chars(&cs, &binary_pat) && contains_chars(&cs, &differ_pat) {
        let out = FileDiff { hunks: Vec::new(), binary: true };
        assert(out@ =~= spec_parse_unified_diff(diff_text@));
        return out;
    }
    let lines = lines_of(&cs);
    let ghost lv = line_views(lines@);
    assert(lv == spec_lines(diff_text@));
    let header_pat = str_chars("@@ ");
    let no_newline_pat = str_chars("\\ No newline");
    let mut hunks: Vec<DiffHunk> = Vec::new();
    let mut active = false;
    let mut cur_old: u32 = 0;
    let mut cur_new: u32 = 0;
    let mut cur_lines: Vec<DiffLine> = Vec::new();
    let mut old_line: u32 = 0;
    let mut new_line: u32 = 0;
    let mut i: usize = 0;
    assert(lv.take(0) =~= Seq::<Seq<char>>::empty());
    assert(scan_model(hunks@, active, cur_old, cur_new, cur_lines@, old_line, new_line)
        =~= initial_scan());
    while i < lines.len()
        invariant
            i <= lines@.len(),
            lv == line_views(lines@),
            diff_counters_fit(lv),
            header_pat@ == "@@ "@,
            no_newline_pat@ == "\\ No newline"@,
            scan_model(hunks@, active, cur_old, cur_new, cur_lines@, old_line, new_line)
                == diff_run(lv.take(i as int)),
        decreases lines@.len() - i,
    {
        let line = &lines[i];
        let ghost l = line@;
        let ghost before = diff_run(lv.take(i as int));
        assert(lv.take(i + 1).drop_last() =~= lv.take(i as int));
        assert(lv.take(i + 1).last() == l);
        proof {
            lemma_counters_fit_prefix(lv, i + 1);
        }
        let ghost after = diff_step(before, l);
        assert(diff_run(lv.take(i + 1)) == after);
        assert(after.old_line <= u32::MAX && after.new_line <= u32::MAX);
        if has_prefix_at(line, 0, &header_pat) {
            assert(line@.skip(0) =~= line@);
            proof {
                reveal_strlit("@@ ");
            }
            assert(line@.len() >= 3);
            if active {
                let mut done_lines: Vec<DiffLine> = Vec::new();
                std::mem::swap(&mut done_lines, &mut cur_lines);
                let ghost prev = hunks_view(hunks@);
                hunks.push(DiffHunk { old_start: cur_old, new_start: cur_new, lines: done_lines });
                assert(hunks_view(hunks@) =~= prev.push(before.current.unwrap()));
            }
            match parse_hunk_header(line, 3) {
                Some((o, n)) => {
                    active = true;
                    cur_old = o;
                    cur_new = n;
                    cur_lines = Vec::new();
                    old_line = o;
                    new_line = n;
                },
                None => {
                    active = false;
                },
            }
            assert(scan_model(hunks@, active, cur_old, cur_new, cur_lines@, old_line, new_line)
                =~= after);
        } else if !active {
            assert(after == before);
        } else if has_prefix_at(line, 0, &no_newline_pat) {
            assert(line@.skip(0) =~= line@);
            assert(after == before);
        } else {
            assert(line@.skip(0) =~= line@);
            let ghost prev_lines = lines_view(cur_lines@);
            if line.len() > 0 && line[0] == '+' {
                let text = range_to_string(line, 1, line.len());
                assert(text@ =~= l.drop_first());
                cur_lines.push(
                    DiffLine {
                        kind: DiffLineKind::Addition,
                        old_lineno: None,
                        new_lineno: Some(new_line),
                        text,
                    },
                );
                new_line = new_line + 1;
            } else if line.len() > 0 && line[0] == '-' {
                let text = range_to_string(line, 1, line.len());
                assert(text@ =~= l.drop_first());
                cur_lines.push(
                    DiffLine {
                        kind: DiffLineKind::Deletion,
                        old_lineno: Some(old_line),
                        new_lineno: None,
                        text,
                    },
                );
                old_line = old_line + 1;
            } else {
                let from: usize = if line.len() > 0 && line[0] == ' ' {
                    1
                } else {
                    0
                };
                let text = range_to_string(line, from, line.len());
                assert(text@ =~= (if l.len() > 0 && l[0] == ' ' {
                    l.drop_first()
                } else {
                    l
                }));
                cur_lines.push(
                    DiffLine {
                        kind: DiffLineKind::Context,
                        old_lineno: Some(old_line),
                        new_lineno: Some(new_line),
                        text,
                    },
                );
                old_line = old_line + 1;
                new_line = new_line + 1;
            }
            assert(lines_view(cur_lines@) =~= after.current.unwrap().lines);
            assert(scan_model(hunks@, active, cur_old, cur_new, cur_lines@, old_line, new_line)
                =~= after);
        }
        i = i + 1;
    }
    assert(lv.take(i as int) =~= lv);
    let ghost fin = diff_run(lv);
    if active {
        let ghost prev = hunks_view(hunks@);
        hunks.push(DiffHunk { old_start: cur_old, new_start: cur_new, lines: cur_lines });
        assert(hunks_view(hunks@) =~= prev.push(fin.current.unwrap()));
    }
    let out = FileDiff { hunks, binary: false };
    assert(out@ =~= spec_parse_unified_diff(diff_text@));
    out
}

} // verus!

verus! {

/// Whether `diff_text` parses without a line counter running past `u32::MAX`
/// (`diff_text_fits`).
pub fn diff_text_fits_exec(diff_text: &str) -> (r: bool)
    ensures
        r == diff_text_fits(diff_text@),
{
    let cs = str_chars(diff_text);
    let binary_pat = str_chars("Binary files ");
    let differ_pat = str_chars(" differ");
    if contains_chars(&cs, &binary_pat) && contains_chars(&cs, &differ_pat) {
        return true;
    }
    let lines = lines_of(&cs);
    let ghost lv = line_views(lines@);
    let header_pat = str_chars("@@ ");
    let no_newline_pat = str_chars("\\ No newline");
    let mut active = false;
    let mut old_line: u64 = 0;
    let mut new_line: u64 = 0;
    let mut i: usize = 0;
    assert(lv.take(0) =~= Seq::<Seq<char>>::empty());
    while i < lines.len()
        invariant
            i <= lines@.len(),
            lv == line_views(lines@),
            header_pat@ == "@@ "@,
            no_newline_pat@ == "\\ No newline"@,
            !is_binary_diff(diff_text@),
            lv == spec_lines(diff_text@),
            diff_counters_fit(lv.take(i as int)),
            active == diff_run(lv.take(i as int)).current is Some,
            old_line == diff_run(lv.take(i as int)).old_line,
            new_line == diff_run(lv.take(i as int)).new_line,
            old_line <= u32::MAX,
            new_line <= u32::MAX,
        decreases lines@.len() - i,
    {
        let line = &lines[i];
        let ghost l = line@;
        let ghost before = diff_run(lv.take(i as int));
        assert(lv.take(i + 1).drop_last() =~= lv.take(i as int));
        assert(lv.take(i + 1).last() == l);
        let ghost after = diff_step(before, l);
        assert(diff_run(lv.take(i + 1)) == after);
        if has_prefix_at(line, 0, &header_pat) {
            assert(line@.skip(0) =~= line@);
            proof {
                reveal_strlit("@@ ");
            }
            match parse_hunk_header(line, 3) {
                Some((o, n)) => {
                    active = true;
                    old_line = o as u64;
                    new_line = n as u64;
                },
                None => {
                    active = false;
                },
            }
        } else if !active {
        } else if has_prefix_at(line, 0, &no_newline_pat) {
            assert(line@.skip(0) =~= line@);
        } else {
            assert(line@.skip(0) =~= line@);
            if line.len() > 0 && line[0] == '+' {
                new_line = new_line + 1;
            } else if line.len() > 0 && line[0] == '-' {
                old_line = old_line + 1;
            } else {
                old_line = old_line + 1;
                new_line = new_line + 1;
            }
        }
        assert(old_line == after.old_line && new_line == after.new_line);
        if old_line > 0xffff_ffff || new_line > 0xffff_ffff {
            proof {
                if diff_counters_fit(lv) {
                    lemma_counters_fit_prefix(lv, i + 1);
                }
            }
            return false;
        }
        i = i + 1;
    }
    assert(lv.take(i as int) =~= lv);
    true
}

} // verus!

verus! {

/// The arguments after `git -C <repo_root>` that print one tracked file's diff: `staged`
/// compares HEAD with the index (`--cached`), otherwise the index with the working tree.
pub fn git_file_diff_args(path: &str, staged: bool) -> (args: Vec<String>)
    ensures
        args@.len() == (if staged {
            6int
        } else {
            5int
        }),
        args@[0]@ == "diff"@,
        args@[1]@ == "--no-color"@,
        args@[2]@ == "-U3"@,
        staged ==> args@[3]@ == "--cached"@,
        args@[args@.len() - 2]@ == "--"@,
        args@[args@.len() - 1]@ == path@,
{
    let mut args: Vec<String> = Vec::new();
    args.push("diff".to_owned());
    args.push("--no-color".to_owned());
    args.push("-U3".to_owned());
    if staged {
        args.push("--cached".to_owned());
    }
    args.push("--".to_owned());
    args.push(path.to_owned());
    args
}

/// The diff of one tracked file from a finished `git diff --no-color -U3` run: `None` when the
/// command could not be run, exited unsuccessfully, or its output numbers lines past `u32::MAX`;
/// otherwise the output, decoded as `String::from_utf8_lossy` decodes it, parsed.
pub fn git_file_diff(output: Option<CommandOutput>) -> (r: Option<FileDiff>)
    ensures
        match output {
            Some(o) => if o.success && diff_text_fits(lossy_utf8(o.stdout@)) {
                r matches Some(d) && d@ == spec_parse_unified_diff(lossy_utf8(o.stdout@))
            } else {
                r is None
            },
            None => r is None,
        },
{
    match output {
        Some(o) => {
            if !o.success {
                return None;
            }
            let text = utf8_lossy(o.stdout.as_slice());
            if !diff_text_fits_exec(text.as_str()) {
                return None;
            }
            Some(parse_unified_diff(text.as_str()))
        },
        None => None,
    }
}

/// Past this size an untracked file is not previewed: it is reported as binary rather than
/// loaded.
pub const MAX_PREVIEW_BYTES: u64 = 2097152;

/// Whether an untracked file whose metadata reported `len` (or could not be read, `None`) may be
/// read for a preview.
pub fn untracked_preview_allowed(len: Option<u64>) -> (r: bool)
    ensures
        r == match len {
            Some(n) => n <= MAX_PREVIEW_BYTES,
            None => true,
        },
{
    match len {
        Some(n) => n <= MAX_PREVIEW_BYTES,
        None => true,
    }
}

/// `String::from_utf8`: the text when `bytes` are valid UTF-8.
#[verifier::external_body]
fn utf8_strict(bytes: Vec<u8>) -> (r: Option<String>)
    ensures
        r is Some <==> vstd::utf8::valid_utf8(bytes@),
        r matches Some(s) ==> s@ == vstd::utf8::decode_utf8(bytes@),
{
    String::from_utf8(bytes).ok()
}

pub open spec fn binary_diff() -> FileDiffModel {
    FileDiffModel { hunks: Seq::empty(), binary: true }
}

/// Every line of `text` as an addition numbered from 1.
pub open spec fn all_additions(text: Seq<Seq<char>>) -> Seq<DiffLineModel> {
    Seq::new(
        text.len(),
        |i: int|
            DiffLineModel {
                kind: DiffLineKind::Addition,
                old_lineno: None,
                new_lineno: Some(i + 1),
                text: text[i],
            },
    )
}

/// The diff shown for an untracked file with the given contents (`None`: it could not be read):
/// unreadable or non-UTF-8 contents are reported as binary; otherwise one hunk starting at line
/// 1 in which every line is an addition.
pub open spec fn spec_untracked_file_diff(contents: Option<Seq<u8>>) -> FileDiffModel {
    match contents {
        None => binary_diff(),
        Some(bytes) => if !vstd::utf8::valid_utf8(bytes) {
            binary_diff()
        } else {
            FileDiffModel {
                hunks: seq![
                    HunkModel {
                        old_start: 0,
                        new_start: 1,
                        lines: all_additions(spec_lines(vstd::utf8::decode_utf8(bytes))),
                    },
                ],
                binary: false,
            }
        },
    }
}

pub proof fn lemma_lines_count_bound(s: Seq<char>)
    ensures
        spec_lines(s).len() <= s.len() + 1,
{
    crate::text::lemma_split_on_count(s, '\n');
    crate::text::lemma_split_on_nonempty(s, '\n');
}

/// Synthesizes a diff for an untracked file from its contents, read directly rather than through
/// `git diff --no-index`.
pub fn untracked_file_diff(contents: Option<Vec<u8>>) -> (out: FileDiff)
    requires
        contents matches Some(b) ==> b@.len() < u32::MAX,
    ensures
        out@ == spec_untracked_file_diff(match contents {
            Some(b) => Some(b@),
            None => None,
        }),
{
    let bytes = match contents {
        Some(b) => b,
        None => {
            let out = FileDiff { hunks: Vec::new(), binary: true };
            assert(out@ =~= binary_diff());
            return out;
        },
    };
    let ghost raw = bytes@;
    let text = match utf8_strict(bytes) {
        Some(t) => t,
        None => {
            let out = FileDiff { hunks: Vec::new(), binary: true };
            assert(out@ =~= binary_diff());
            return out;
        },
    };
    let cs = str_chars(text.as_str());
    proof {
        vstd::utf8::encode_utf8_decode_utf8(cs@);
        crate::text::lemma_decode_len_bound(raw);
        lemma_lines_count_bound(cs@);
    }
    let lines = lines_of(&cs);
    let ghost lv = line_views(lines@);
    let mut out_lines: Vec<DiffLine> = Vec::new();
    let mut i: usize = 0;
    while i < lines.len()
        invariant
            i <= lines@.len(),
            lines@.len() <= u32::MAX,
            lv == line_views(lines@),
            lines_view(out_lines@) =~= all_additions(lv).take(i as int),
        decreases lines@.len() - i,
    {
        let t = chars_to_string(lines[i].as_slice());
        let ghost prev = lines_view(out_lines@);
        out_lines.push(
            DiffLine {
                kind: DiffLineKind::Addition,
                old_lineno: None,
                new_lineno: Some(i as u32 + 1),
                text: t,
            },
        );
        assert(lines_view(out_lines@) =~= prev.push(all_additions(lv)[i as int]));
        i = i + 1;
        assert(all_additions(lv).take(i as int) =~= all_additions(lv).take(i - 1).push(
            all_additions(lv)[i - 1],
        ));
    }
    assert(all_additions(lv).take(i as int) =~= all_additions(lv));
    let out = FileDiff {
        hunks: vec![DiffHunk { old_start: 0, new_start: 1, lines: out_lines }],
        binary: false,
    };
    assert(hunks_view(out.hunks@) =~= seq![
        HunkModel { old_start: 0, new_start: 1, lines: all_additions(lv) },
    ]);
    out
}

} // verus!

verus! {

#[derive(Debug, Clone, PartialEq, Eq)]
pub struct SideBySideCell {
    pub lineno: u32,
    pub text: String,
    pub changed: bool,
}

#[derive(Debug, Clone, Default, PartialEq, Eq)]
pub struct SideBySideRow {
    pub left: Option<SideBySideCell>,
    pub right: Option<SideBySideCell>,
}

/// A side-by-side cell as a value.
#[verifier::ext_equal]
pub struct CellModel {
    pub lineno: int,
    pub text: Seq<char>,
    pub changed: bool,
}

/// A side-by-side row as a value.
#[verifier::ext_equal]
pub struct RowModel {
    pub left: Option<CellModel>,
    pub right: Option<CellModel>,
}

impl View for SideBySideCell {
    type V = CellModel;

    open spec fn view(&self) -> CellModel {
        CellModel { lineno: self.lineno as int, text: self.text@, changed: self.changed }
    }
}

pub open spec fn opt_cell_view(c: Option<SideBySideCell>) -> Option<CellModel> {
    match c {
        Some(c) => Some(c@),
        None => None,
    }
}

impl View for SideBySideRow {
    type V = RowModel;

    open spec fn view(&self) -> RowModel {
        RowModel { left: opt_cell_view(self.left), right: opt_cell_view(self.right) }
    }
}

impl SideBySideRow {
    /// A copy with the same value.
    pub fn clone_row(&self) -> (r: Self)
        ensures
            r@ == self@,
    {
        let left = match &self.left {
            Some(c) => Some(SideBySideCell { lineno: c.lineno, text: c.text.clone(), changed: c.changed }),
            None => None,
        };
        let right = match &self.right {
            Some(c) => Some(SideBySideCell { lineno: c.lineno, text: c.text.clone(), changed: c.changed }),
            None => None,
        };
        SideBySideRow { left, right }
    }
}

pub open spec fn rows_view(v: Seq<SideBySideRow>) -> Seq<RowModel> {
    v.map_values(|r: SideBySideRow| r@)
}

pub open spec fn or_zero(o: Option<int>) -> int {
    match o {
        Some(v) => v,
        None => 0,
    }
}

/// The left-column cell of a line: its old line number (0 when it has none).
pub open spec fn old_cell(l: DiffLineModel, changed: bool) -> CellModel {
    CellModel { lineno: or_zero(l.old_lineno), text: l.text, changed }
}

/// The right-column cell of a line: its new line number (0 when it has none).
pub open spec fn new_cell(l: DiffLineModel, changed: bool) -> CellModel {
    CellModel { lineno: or_zero(l.new_lineno), text: l.text, changed }
}

/// Number of leading lines of kind `k`.
pub open spec fn kind_run(s: Seq<DiffLineModel>, k: DiffLineKind) -> nat
    decreases s.len(),
{
    if s.len() > 0 && s[0].kind == k {
        1 + kind_run(s.drop_first(), k)
    } else {
        0
    }
}

/// A deletion block and the addition block after it zipped row by row; the shorter side is
/// blank in the extra rows.
pub open spec fn paired_rows(dels: Seq<DiffLineModel>, adds: Seq<DiffLineModel>) -> Seq<RowModel> {
    let n = if dels.len() >= adds.len() {
        dels.len()
    } else {
        adds.len()
    };
    Seq::new(
        n,
        |j: int|
            RowModel {
                left: if j < dels.len() {
                    Some(old_cell(dels[j], true))
                } else {
                    None
                },
                right: if j < adds.len() {
                    Some(new_cell(adds[j], true))
                } else {
                    None
                },
            },
    )
}

pub proof fn lemma_kind_run_bound(s: Seq<DiffLineModel>, k: DiffLineKind)
    ensures
        kind_run(s, k) <= s.len(),
        forall|j: int| 0 <= j < kind_run(s, k) ==> (#[trigger] s[j]).kind == k,
        kind_run(s, k) < s.len() ==> s[kind_run(s, k) as int].kind != k,
    decreases s.len(),
{
    if s.len() > 0 && s[0].kind == k {
        lemma_kind_run_bound(s.drop_first(), k);
        assert forall|j: int| 0 <= j < kind_run(s, k) implies (#[trigger] s[j]).kind == k by {
            if j > 0 {
                assert(s[j] == s.drop_first()[j - 1]);
            }
        }
    }
}

/// Side-by-side rows for a hunk's lines: a context line fills both columns of one row; a
/// deletion block and the addition block right after it are zipped by `paired_rows`.
pub open spec fn side_by_side(lines: Seq<DiffLineModel>) -> Seq<RowModel>
    decreases lines.len(),
{
    if lines.len() == 0 {
        Seq::empty()
    } else if lines[0].kind == DiffLineKind::Context {
        seq![RowModel { left: Some(old_cell(lines[0], false)), right: Some(new_cell(lines[0], false)) }]
            + side_by_side(lines.drop_first())
    } else {
        let d = kind_run(lines, DiffLineKind::Deletion);
        let rest = lines.skip(d as int);
        let a = kind_run(rest, DiffLineKind::Addition);
        proof {
            lemma_kind_run_bound(lines, DiffLineKind::Deletion);
            lemma_kind_run_bound(rest, DiffLineKind::Addition);
        }
        if d + a == 0 {
            Seq::empty()
        } else {
            paired_rows(lines.take(d as int), rest.take(a as int)) + side_by_side(
                rest.skip(a as int),
            )
        }
    }
}

} // verus!

verus! {

proof fn lemma_kind_run_exact(s: Seq<DiffLineModel>, k: DiffLineKind, j: int)
    requires
        0 <= j <= s.len(),
        forall|m: int| 0 <= m < j ==> (#[trigger] s[m]).kind == k,
        j < s.len() ==> s[j].kind != k,
    ensures
        kind_run(s, k) == j,
    decreases j,
{
    if j > 0 {
        assert forall|m: int| 0 <= m < j - 1 implies (#[trigger] s.drop_first()[m]).kind == k by {
            assert(s.drop_first()[m] == s[m + 1]);
        }
        lemma_kind_run_exact(s.drop_first(), k, j - 1);
    }
}

fn old_cell_of(line: &DiffLine, changed: bool) -> (c: SideBySideCell)
    ensures
        c@ == old_cell(line@, changed),
{
    let lineno = match line.old_lineno {
        Some(n) => n,
        None => 0,
    };
    SideBySideCell { lineno, text: line.text.clone(), changed }
}

fn new_cell_of(line: &DiffLine, changed: bool) -> (c: SideBySideCell)
    ensures
        c@ == new_cell(line@, changed),
{
    let lineno = match line.new_lineno {
        Some(n) => n,
        None => 0,
    };
    SideBySideCell { lineno, text: line.text.clone(), changed }
}

/// Interleaves a hunk's lines into aligned side-by-side rows: context lines occupy both columns
/// on the same row; a contiguous deletion block and the addition block that follows it are
/// zipped row-by-row, with the shorter side left blank for any extra rows on the longer side.
pub fn hunk_to_side_by_side(hunk: &DiffHunk) -> (rows: Vec<SideBySideRow>)
    ensures
        rows_view(rows@) == side_by_side(hunk@.lines),
{
    let ghost lv = hunk@.lines;
    let lines = &hunk.lines;
    let mut rows: Vec<SideBySideRow> = Vec::new();
    let mut i: usize = 0;
    assert(lv.skip(0) =~= lv);
    while i < lines.len()
        invariant
            i <= lines@.len(),
            lv == lines_view(lines@),
            lv.len() == lines@.len(),
            rows_view(rows@) + side_by_side(lv.skip(i as int)) == side_by_side(lv),
        decreases lines@.len() - i,
    {
        let ghost rest = lv.skip(i as int);
        let ghost before = rows_view(rows@);
        assert(rest[0] == lines@[i as int]@);
        match lines[i].kind {
            DiffLineKind::Context => {
                let line = &lines[i];
                let row = SideBySideRow {
                    left: Some(old_cell_of(line, false)),
                    right: Some(new_cell_of(line, false)),
                };
                rows.push(row);
                assert(rest.drop_first() =~= lv.skip(i + 1));
                assert(rows_view(rows@) =~= before + seq![row@]);
                i = i + 1;
                assert(rows_view(rows@) + side_by_side(lv.skip(i as int)) =~= before
                    + side_by_side(rest));
            },
            _ => {
                let dstart = i;
                while i < lines.len() && lines[i].kind == DiffLineKind::Deletion
                    invariant
                        dstart <= i <= lines@.len(),
                        lv == lines_view(lines@),
                        forall|m: int| dstart <= m < i ==> (#[trigger] lines@[m]).kind
                            == DiffLineKind::Deletion,
                    decreases lines@.len() - i,
                {
                    i = i + 1;
                }
                let astart = i;
                while i < lines.len() && lines[i].kind == DiffLineKind::Addition
                    invariant
                        astart <= i <= lines@.len(),
                        lv == lines_view(lines@),
                        forall|m: int| astart <= m < i ==> (#[trigger] lines@[m]).kind
                            == DiffLineKind::Addition,
                    decreases lines@.len() - i,
                {
                    i = i + 1;
                }
                let ndel = astart - dstart;
                let nadd = i - astart;
                proof {
                    assert forall|m: int| 0 <= m < ndel implies (#[trigger] rest[m]).kind
                        == DiffLineKind::Deletion by {
                        assert(rest[m] == lines@[dstart + m]@);
                    }
                    if astart < lines@.len() {
                        assert(rest[ndel as int] == lines@[astart as int]@);
                    }
                    lemma_kind_run_exact(rest, DiffLineKind::Deletion, ndel as int);
                    let rest2 = rest.skip(ndel as int);
                    assert forall|m: int| 0 <= m < nadd implies (#[trigger] rest2[m]).kind
                        == DiffLineKind::Addition by {
                        assert(rest2[m] == lines@[astart + m]@);
                    }
                    if i < lines@.len() {
                        assert(rest2[nadd as int] == lines@[i as int]@);
                    }
                    lemma_kind_run_exact(rest2, DiffLineKind::Addition, nadd as int);
                    assert(rest2.skip(nadd as int) =~= lv.skip(i as int));
                    assert(ndel + nadd > 0);
                }
                let ghost pairs = paired_rows(
                    rest.take(ndel as int),
                    rest.skip(ndel as int).take(nadd as int),
                );
                let paired = if ndel >= nadd {
                    ndel
                } else {
                    nadd
                };
                let mut j: usize = 0;
                while j < paired
                    invariant
                        j <= paired,
                        paired == pairs.len(),
                        ndel == astart - dstart,
                        nadd == i - astart,
                        dstart <= astart <= i <= lines@.len(),
                        lv == lines_view(lines@),
                        rest == lv.skip(dstart as int),
                        pairs == paired_rows(
                            rest.take(ndel as int),
                            rest.skip(ndel as int).take(nadd as int),
                        ),
                        rows_view(rows@) == before + pairs.take(j as int),
                    decreases paired - j,
                {
                    let left = if j < ndel {
                        Some(old_cell_of(&lines[dstart + j], true))
                    } else {
                        None
                    };
                    let right = if j < nadd {
                        Some(new_cell_of(&lines[astart + j], true))
                    } else {
                        None
                    };
                    let row = SideBySideRow { left, right };
                    assert(row@ == pairs[j as int]) by {
                        if j < ndel {
                            assert(rest.take(ndel as int)[j as int] == lines@[dstart + j]@);
                        }
                        if j < nadd {
                            assert(rest.skip(ndel as int).take(nadd as int)[j as int]
                                == lines@[astart + j]@);
                        }
                    }
                    let ghost prev = rows_view(rows@);
                    rows.push(row);
                    assert(rows_view(rows@) =~= prev.push(row@));
                    j = j + 1;
                    assert(pairs.take(j as int) =~= pairs.take(j - 1).push(pairs[j - 1]));
                }
                assert(pairs.take(j as int) =~= pairs);
                assert(side_by_side(rest) == pairs + side_by_side(lv.skip(i as int)));
                assert(rows_view(rows@) + side_by_side(lv.skip(i as int)) =~= before
                    + side_by_side(rest));
            },
        }
    }
    assert(lv.skip(i as int) =~= Seq::<DiffLineModel>::empty());
    assert(rows_view(rows@) =~= rows_view(rows@) + side_by_side(lv.skip(i as int)));
    rows
}

} // verus!

verus! {

/// The cells of the left column of `rows`, top to bottom (blank cells skipped).
pub open spec fn left_column(rows: Seq<RowModel>) -> Seq<CellModel>
    decreases rows.len(),
{
    if rows.len() == 0 {
        Seq::empty()
    } else {
        left_column(rows.drop_last()) + match rows.last().left {
            Some(c) => seq![c],
            None => Seq::empty(),
        }
    }
}

/// The cells of the right column of `rows`, top to bottom (blank cells skipped).
pub open spec fn right_column(rows: Seq<RowModel>) -> Seq<CellModel>
    decreases rows.len(),
{
    if rows.len() == 0 {
        Seq::empty()
    } else {
        right_column(rows.drop_last()) + match rows.last().right {
            Some(c) => seq![c],
            None => Seq::empty(),
        }
    }
}

/// The old side of a hunk: its context and deletion lines in order, each as a left cell
/// (marked changed when it is a deletion).
pub open spec fn old_side(lines: Seq<DiffLineModel>) -> Seq<CellModel>
    decreases lines.len(),
{
    if lines.len() == 0 {
        Seq::empty()
    } else {
        old_side(lines.drop_last()) + if lines.last().kind == DiffLineKind::Addition {
            Seq::empty()
        } else {
            seq![old_cell(lines.last(), lines.last().kind == DiffLineKind::Deletion)]
        }
    }
}

/// The new side of a hunk: its context and addition lines in order, each as a right cell
/// (marked changed when it is an addition).
pub open spec fn new_side(lines: Seq<DiffLineModel>) -> Seq<CellModel>
    decreases lines.len(),
{
    if lines.len() == 0 {
        Seq::empty()
    } else {
        new_side(lines.drop_last()) + if lines.last().kind == DiffLineKind::Deletion {
            Seq::empty()
        } else {
            seq![new_cell(lines.last(), lines.last().kind == DiffLineKind::Addition)]
        }
    }
}

proof fn lemma_columns_concat(a: Seq<RowModel>, b: Seq<RowModel>)
    ensures
        left_column(a + b) == left_column(a) + left_column(b),
        right_column(a + b) == right_column(a) + right_column(b),
    decreases b.len(),
{
    if b.len() == 0 {
        assert(a + b =~= a);
    } else {
        lemma_columns_concat(a, b.drop_last());
        assert((a + b).drop_last() =~= a + b.drop_last());
        assert((a + b).last() == b.last());
    }
}

proof fn lemma_sides_concat(a: Seq<DiffLineModel>, b: Seq<DiffLineModel>)
    ensures
        old_side(a + b) == old_side(a) + old_side(b),
        new_side(a + b) == new_side(a) + new_side(b),
    decreases b.len(),
{
    if b.len() == 0 {
        assert(a + b =~= a);
    } else {
        lemma_sides_concat(a, b.drop_last());
        assert((a + b).drop_last() =~= a + b.drop_last());
        assert((a + b).last() == b.last());
    }
}

/// A run of lines of one kind `k` (deletions or additions): its old or new side is every line.
proof fn lemma_sides_of_run(s: Seq<DiffLineModel>, k: DiffLineKind)
    requires
        k != DiffLineKind::Context,
        forall|j: int| 0 <= j < s.len() ==> (#[trigger] s[j]).kind == k,
    ensures
        k == DiffLineKind::Deletion ==> old_side(s) == Seq::new(s.len(), |j: int| old_cell(s[j], true))
            && new_side(s) == Seq::<CellModel>::empty(),
        k == DiffLineKind::Addition ==> new_side(s) == Seq::new(s.len(), |j: int| new_cell(s[j], true))
            && old_side(s) == Seq::<CellModel>::empty(),
    decreases s.len(),
{
    if s.len() > 0 {
        let t = s.drop_last();
        assert forall|j: int| 0 <= j < t.len() implies (#[trigger] t[j]).kind == k by {
            assert(t[j] == s[j]);
        }
        lemma_sides_of_run(t, k);
        assert(s.last().kind == k);
        if k == DiffLineKind::Deletion {
            assert(old_side(s) =~= Seq::new(s.len(), |j: int| old_cell(s[j], true)));
        } else {
            assert(new_side(s) =~= Seq::new(s.len(), |j: int| new_cell(s[j], true)));
        }
    }
}

proof fn lemma_paired_columns(dels: Seq<DiffLineModel>, adds: Seq<DiffLineModel>, n: nat)
    requires
        n <= paired_rows(dels, adds).len(),
    ensures
        left_column(paired_rows(dels, adds).take(n as int)) == Seq::new(
            if n < dels.len() { n } else { dels.len() },
            |j: int| old_cell(dels[j], true),
        ),
        right_column(paired_rows(dels, adds).take(n as int)) == Seq::new(
            if n < adds.len() { n } else { adds.len() },
            |j: int| new_cell(adds[j], true),
        ),
    decreases n,
{
    let rows = paired_rows(dels, adds);
    if n == 0 {
        assert(rows.take(0) =~= Seq::<RowModel>::empty());
        assert(left_column(rows.take(0)) =~= Seq::new(0, |j: int| old_cell(dels[j], true)));
        assert(right_column(rows.take(0)) =~= Seq::new(0, |j: int| new_cell(adds[j], true)));
    } else {
        lemma_paired_columns(dels, adds, (n - 1) as nat);
        assert(rows.take(n as int).drop_last() =~= rows.take(n - 1));
        assert(rows.take(n as int).last() == rows[n - 1]);
        assert(left_column(rows.take(n as int)) =~= Seq::new(
            if n < dels.len() { n } else { dels.len() },
            |j: int| old_cell(dels[j], true),
        ));
        assert(right_column(rows.take(n as int)) =~= Seq::new(
            if n < adds.len() { n } else { adds.len() },
            |j: int| new_cell(adds[j], true),
        ));
    }
}

/// Side-by-side rows lose and invent nothing: read top to bottom, the left column is exactly the
/// hunk's old side (its context and deleted lines, in order) and the right column exactly its
/// new side (its context and added lines, in order).
pub proof fn lemma_side_by_side_keeps_both_sides(lines: Seq<DiffLineModel>)
    ensures
        left_column(side_by_side(lines)) == old_side(lines),
        right_column(side_by_side(lines)) == new_side(lines),
    decreases lines.len(),
{
    if lines.len() == 0 {
    } else if lines[0].kind == DiffLineKind::Context {
        let rest = lines.drop_first();
        lemma_side_by_side_keeps_both_sides(rest);
        let row = RowModel { left: Some(old_cell(lines[0], false)), right: Some(new_cell(lines[0], false)) };
        assert(side_by_side(lines) == seq![row] + side_by_side(rest));
        lemma_columns_concat(seq![row], side_by_side(rest));
        assert(seq![row].drop_last() =~= Seq::<RowModel>::empty());
        assert(seq![row].last() == row);
        assert(left_column(Seq::<RowModel>::empty()) =~= Seq::<CellModel>::empty());
        assert(right_column(Seq::<RowModel>::empty()) =~= Seq::<CellModel>::empty());
        assert(left_column(seq![row]) =~= seq![old_cell(lines[0], false)]);
        assert(right_column(seq![row]) =~= seq![new_cell(lines[0], false)]);
        assert(lines =~= seq![lines[0]] + rest);
        lemma_sides_concat(seq![lines[0]], rest);
        assert(seq![lines[0]].drop_last() =~= Seq::<DiffLineModel>::empty());
        assert(seq![lines[0]].last() == lines[0]);
        assert(old_side(Seq::<DiffLineModel>::empty()) =~= Seq::<CellModel>::empty());
        assert(new_side(Seq::<DiffLineModel>::empty()) =~= Seq::<CellModel>::empty());
        assert(old_side(seq![lines[0]]) =~= seq![old_cell(lines[0], false)]);
        assert(new_side(seq![lines[0]]) =~= seq![new_cell(lines[0], false)]);
    } else {
        let d = kind_run(lines, DiffLineKind::Deletion);
        let rest = lines.skip(d as int);
        let a = kind_run(rest, DiffLineKind::Addition);
        lemma_kind_run_bound(lines, DiffLineKind::Deletion);
        lemma_kind_run_bound(rest, DiffLineKind::Addition);
        if d == 0 {
            assert(rest =~= lines);
        }
        assert(d + a > 0);
        let dels = lines.take(d as int);
        let adds = rest.take(a as int);
        let rest2 = rest.skip(a as int);
        let pr = paired_rows(dels, adds);
        assert(side_by_side(lines) == pr + side_by_side(rest2));
        lemma_side_by_side_keeps_both_sides(rest2);
        assert(left_column(pr) == old_side(dels) && right_column(pr) == new_side(adds)) by {
            lemma_paired_columns(dels, adds, pr.len());
            assert(pr.take(pr.len() as int) =~= pr);
            assert forall|j: int| 0 <= j < dels.len() implies (#[trigger] dels[j]).kind == DiffLineKind::Deletion by {
                assert(dels[j] == lines[j]);
            }
            assert forall|j: int| 0 <= j < adds.len() implies (#[trigger] adds[j]).kind == DiffLineKind::Addition by {
                assert(adds[j] == rest[j]);
            }
            lemma_sides_of_run(dels, DiffLineKind::Deletion);
            lemma_sides_of_run(adds, DiffLineKind::Addition);
            assert(Seq::new(dels.len(), |j: int| old_cell(dels[j], true)) =~= old_side(dels));
            assert(Seq::new(adds.len(), |j: int| new_cell(adds[j], true)) =~= new_side(adds));
        }
        assert(old_side(adds) == Seq::<CellModel>::empty() && new_side(dels) == Seq::<CellModel>::empty()) by {
            assert forall|j: int| 0 <= j < dels.len() implies (#[trigger] dels[j]).kind == DiffLineKind::Deletion by {
                assert(dels[j] == lines[j]);
            }
            assert forall|j: int| 0 <= j < adds.len() implies (#[trigger] adds[j]).kind == DiffLineKind::Addition by {
                assert(adds[j] == rest[j]);
            }
            lemma_sides_of_run(dels, DiffLineKind::Deletion);
            lemma_sides_of_run(adds, DiffLineKind::Addition);
        }
        lemma_columns_concat(pr, side_by_side(rest2));
        assert(lines =~= (dels + adds) + rest2);
        lemma_sides_concat(dels + adds, rest2);
        lemma_sides_concat(dels, adds);
        assert(old_side(dels + adds) =~= old_side(dels));
        assert(new_side(dels + adds) =~= new_side(adds));
    }
}

} // verus!

verus! {

/// How many of `lines` have an old line number (context and deletions).
pub open spec fn count_old(lines: Seq<DiffLineModel>) -> int
    decreases lines.len(),
{
    if lines.len() == 0 {
        0
    } else {
        count_old(lines.drop_last()) + if lines.last().kind == DiffLineKind::Addition {
            0int
        } else {
            1int
        }
    }
}

/// How many of `lines` have a new line number (context and additions).
pub open spec fn count_new(lines: Seq<DiffLineModel>) -> int
    decreases lines.len(),
{
    if lines.len() == 0 {
        0
    } else {
        count_new(lines.drop_last()) + if lines.last().kind == DiffLineKind::Deletion {
            0int
        } else {
            1int
        }
    }
}

/// Line `i` of hunk `h` is numbered consecutively: an old number (when it is context or a
/// deletion) equal to the hunk's old start plus the old-side lines before it, a new number
/// (when it is context or an addition) equal to the new start plus the new-side lines before
/// it, and no number on the side it is absent from.
pub open spec fn line_numbered(h: HunkModel, i: int) -> bool {
    let l = h.lines[i];
    let before = h.lines.take(i);
    &&& l.old_lineno == (if l.kind == DiffLineKind::Addition {
        None
    } else {
        Some(h.old_start + count_old(before))
    })
    &&& l.new_lineno == (if l.kind == DiffLineKind::Deletion {
        None
    } else {
        Some(h.new_start + count_new(before))
    })
}

pub open spec fn hunk_numbered(h: HunkModel) -> bool {
    forall|i: int| 0 <= i < h.lines.len() ==> #[trigger] line_numbered(h, i)
}

/// The scan state's numbering is consistent: finished hunks are numbered, and the open hunk is
/// numbered with the counters just past its lines.
pub open spec fn scan_numbered(st: DiffScan) -> bool {
    &&& forall|k: int| 0 <= k < st.hunks.len() ==> #[trigger] hunk_numbered(st.hunks[k])
    &&& match st.current {
        Some(h) => hunk_numbered(h) && st.old_line == h.old_start + count_old(h.lines)
            && st.new_line == h.new_start + count_new(h.lines),
        None => true,
    }
}

proof fn lemma_with_line_numbered(st: DiffScan, h: HunkModel, l: DiffLineModel)
    requires
        st.current == Some(h),
        scan_numbered(st),
        l.old_lineno == (if l.kind == DiffLineKind::Addition { None } else { Some(st.old_line) }),
        l.new_lineno == (if l.kind == DiffLineKind::Deletion { None } else { Some(st.new_line) }),
    ensures
        hunk_numbered(with_line(h, l)),
        h.old_start + count_old(with_line(h, l).lines) == st.old_line + (if l.kind == DiffLineKind::Addition { 0int } else { 1 }),
        h.new_start + count_new(with_line(h, l).lines) == st.new_line + (if l.kind == DiffLineKind::Deletion { 0int } else { 1 }),
{
    let h2 = with_line(h, l);
    assert(h2.lines.drop_last() =~= h.lines);
    assert forall|i: int| 0 <= i < h2.lines.len() implies #[trigger] line_numbered(h2, i) by {
        if i < h.lines.len() {
            assert(h2.lines.take(i) =~= h.lines.take(i));
            assert(line_numbered(h, i));
        } else {
            assert(h2.lines.take(i) =~= h.lines);
        }
    }
}

proof fn lemma_step_numbered(st: DiffScan, line: Seq<char>)
    requires
        scan_numbered(st),
    ensures
        scan_numbered(diff_step(st, line)),
{
    let next = diff_step(st, line);
    if has_prefix(line, "@@ "@) {
        let hunks = match st.current {
            Some(h) => st.hunks.push(h),
            None => st.hunks,
        };
        assert forall|k: int| 0 <= k < hunks.len() implies #[trigger] hunk_numbered(hunks[k]) by {
            if k < st.hunks.len() {
                assert(hunks[k] == st.hunks[k]);
            }
        }
        match spec_parse_hunk_header(line.skip(3)) {
            Some((o, n)) => {
                let h = HunkModel { old_start: o as int, new_start: n as int, lines: Seq::empty() };
                assert(count_old(h.lines) == 0);
                assert(count_new(h.lines) == 0);
            },
            None => {},
        }
    } else {
        match st.current {
            None => {},
            Some(h) => {
                if has_prefix(line, "\\ No newline"@) {
                } else if line.len() > 0 && line[0] == '+' {
                    lemma_with_line_numbered(st, h, DiffLineModel {
                        kind: DiffLineKind::Addition,
                        old_lineno: None,
                        new_lineno: Some(st.new_line),
                        text: line.drop_first(),
                    });
                } else if line.len() > 0 && line[0] == '-' {
                    lemma_with_line_numbered(st, h, DiffLineModel {
                        kind: DiffLineKind::Deletion,
                        old_lineno: Some(st.old_line),
                        new_lineno: None,
                        text: line.drop_first(),
                    });
                } else {
                    lemma_with_line_numbered(st, h, DiffLineModel {
                        kind: DiffLineKind::Context,
                        old_lineno: Some(st.old_line),
                        new_lineno: Some(st.new_line),
                        text: if line.len() > 0 && line[0] == ' ' { line.drop_first() } else { line },
                    });
                }
            },
        }
    }
}

proof fn lemma_run_numbered(lines: Seq<Seq<char>>)
    ensures
        scan_numbered(diff_run(lines)),
    decreases lines.len(),
{
    if lines.len() > 0 {
        lemma_run_numbered(lines.drop_last());
        lemma_step_numbered(diff_run(lines.drop_last()), lines.last());
    }
}

/// Every hunk of a parsed diff is numbered consecutively from its header's starts: the old
/// side (context and deleted lines) counts up from the old start, the new side (context and
/// added lines) from the new start, and each line carries no number on the side it is absent
/// from.
pub proof fn lemma_parsed_hunks_are_numbered(text: Seq<char>)
    ensures
        forall|k: int|
            0 <= k < spec_parse_unified_diff(text).hunks.len() ==> #[trigger] hunk_numbered(
                spec_parse_unified_diff(text).hunks[k],
            ),
{
    if !is_binary_diff(text) {
        let st = diff_run(spec_lines(text));
        lemma_run_numbered(spec_lines(text));
        let hs = finish_scan(st);
        assert forall|k: int| 0 <= k < hs.len() implies #[trigger] hunk_numbered(hs[k]) by {
            if k < st.hunks.len() {
                assert(hs[k] == st.hunks[k]);
            }
        }
    }
}

} // verus!
