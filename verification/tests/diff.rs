use herdr::command::CommandOutput;
use herdr::diff::{
    diff_text_fits_exec, git_file_diff, git_file_diff_args, hunk_to_side_by_side,
    parse_unified_diff, untracked_file_diff, untracked_preview_allowed, DiffHunk, DiffLine,
    DiffLineKind,
};

#[test]
fn parses_single_hunk_with_context_addition_and_deletion() {
    let diff = "diff --git a/f.rs b/f.rs\n\
index abc123..def456 100644\n\
--- a/f.rs\n\
+++ b/f.rs\n\
@@ -1,4 +1,4 @@\n\
 unchanged\n\
-old line\n\
+new line\n\
 tail\n";

    let file_diff = parse_unified_diff(diff);
    assert!(!file_diff.binary);
    assert_eq!(file_diff.hunks.len(), 1);
    let hunk = &file_diff.hunks[0];
    assert_eq!(hunk.old_start, 1);
    assert_eq!(hunk.new_start, 1);
    assert_eq!(hunk.lines.len(), 4);
    assert_eq!(hunk.lines[0].kind, DiffLineKind::Context);
    assert_eq!(hunk.lines[1].kind, DiffLineKind::Deletion);
    assert_eq!(hunk.lines[1].text, "old line");
    assert_eq!(hunk.lines[2].kind, DiffLineKind::Addition);
    assert_eq!(hunk.lines[2].text, "new line");
    assert_eq!(hunk.lines[3].kind, DiffLineKind::Context);
}

#[test]
fn parses_multiple_hunks() {
    let diff = "diff --git a/f.rs b/f.rs\n\
--- a/f.rs\n\
+++ b/f.rs\n\
@@ -1,2 +1,2 @@\n\
-a\n\
+b\n\
@@ -10,2 +10,2 @@\n\
-c\n\
+d\n";
    let file_diff = parse_unified_diff(diff);
    assert_eq!(file_diff.hunks.len(), 2);
    assert_eq!(file_diff.hunks[1].old_start, 10);
}

#[test]
fn ignores_no_newline_marker() {
    let diff = "--- a/f.rs\n\
+++ b/f.rs\n\
@@ -1,1 +1,1 @@\n\
-old\n\
\\ No newline at end of file\n\
+new\n";
    let file_diff = parse_unified_diff(diff);
    assert_eq!(file_diff.hunks[0].lines.len(), 2);
}

#[test]
fn detects_binary_file_diff() {
    let diff = "diff --git a/img.png b/img.png\n\
Binary files a/img.png and b/img.png differ\n";
    let file_diff = parse_unified_diff(diff);
    assert!(file_diff.binary);
    assert!(file_diff.hunks.is_empty());
}

#[test]
fn empty_diff_yields_no_hunks() {
    let file_diff = parse_unified_diff("");
    assert!(!file_diff.binary);
    assert!(file_diff.hunks.is_empty());
}

fn line(kind: DiffLineKind, old: Option<u32>, new: Option<u32>, text: &str) -> DiffLine {
    DiffLine {
        kind,
        old_lineno: old,
        new_lineno: new,
        text: text.into(),
    }
}

#[test]
fn diff_side_by_side_pairs_equal_length_blocks() {
    let hunk = DiffHunk {
        old_start: 1,
        new_start: 1,
        lines: vec![
            line(DiffLineKind::Deletion, Some(1), None, "old1"),
            line(DiffLineKind::Addition, None, Some(1), "new1"),
        ],
    };
    let rows = hunk_to_side_by_side(&hunk);
    assert_eq!(rows.len(), 1);
    assert_eq!(rows[0].left.as_ref().unwrap().text, "old1");
    assert_eq!(rows[0].right.as_ref().unwrap().text, "new1");
}

#[test]
fn diff_side_by_side_pads_shorter_side_with_blank_cells() {
    let hunk = DiffHunk {
        old_start: 1,
        new_start: 1,
        lines: vec![
            line(DiffLineKind::Deletion, Some(1), None, "old1"),
            line(DiffLineKind::Deletion, Some(2), None, "old2"),
            line(DiffLineKind::Addition, None, Some(1), "new1"),
        ],
    };
    let rows = hunk_to_side_by_side(&hunk);
    assert_eq!(rows.len(), 2);
    assert_eq!(rows[0].left.as_ref().unwrap().text, "old1");
    assert_eq!(rows[0].right.as_ref().unwrap().text, "new1");
    assert_eq!(rows[1].left.as_ref().unwrap().text, "old2");
    assert!(rows[1].right.is_none());
}

#[test]
fn diff_side_by_side_keeps_context_rows_unchanged() {
    let hunk = DiffHunk {
        old_start: 1,
        new_start: 1,
        lines: vec![line(DiffLineKind::Context, Some(1), Some(1), "same")],
    };
    let rows = hunk_to_side_by_side(&hunk);
    assert_eq!(rows.len(), 1);
    assert!(!rows[0].left.as_ref().unwrap().changed);
    assert!(!rows[0].right.as_ref().unwrap().changed);
}

#[test]
fn line_numbers_count_from_the_hunk_starts() {
    let diff = "@@ -10,3 +20,3 @@ fn f() {\n ctx\n-gone\n+came\n+more\n tail\r\n";
    let file_diff = parse_unified_diff(diff);
    let lines = &file_diff.hunks[0].lines;
    assert_eq!(file_diff.hunks[0].old_start, 10);
    assert_eq!(file_diff.hunks[0].new_start, 20);
    assert_eq!((lines[0].old_lineno, lines[0].new_lineno), (Some(10), Some(20)));
    assert_eq!((lines[1].old_lineno, lines[1].new_lineno), (Some(11), None));
    assert_eq!((lines[2].old_lineno, lines[2].new_lineno), (None, Some(21)));
    assert_eq!((lines[3].old_lineno, lines[3].new_lineno), (None, Some(22)));
    assert_eq!((lines[4].old_lineno, lines[4].new_lineno), (Some(12), Some(23)));
    assert_eq!(lines[4].text, "tail");
}

#[test]
fn malformed_hunk_header_closes_the_hunk_and_drops_its_body() {
    let diff = "@@ -1 +1 @@\n-a\n@@ nonsense\n+lost\n@@ -7 +8 @@\n+kept\n";
    let file_diff = parse_unified_diff(diff);
    assert_eq!(file_diff.hunks.len(), 2);
    assert_eq!(file_diff.hunks[0].lines.len(), 1);
    assert_eq!(file_diff.hunks[1].old_start, 7);
    assert_eq!(file_diff.hunks[1].new_start, 8);
    assert_eq!(file_diff.hunks[1].lines[0].text, "kept");
}

#[test]
fn side_by_side_leads_with_additions_when_nothing_was_deleted() {
    let hunk = DiffHunk {
        old_start: 1,
        new_start: 1,
        lines: vec![
            line(DiffLineKind::Addition, None, Some(1), "n1"),
            line(DiffLineKind::Deletion, Some(1), None, "o1"),
            line(DiffLineKind::Context, Some(2), Some(2), "c"),
        ],
    };
    let rows = hunk_to_side_by_side(&hunk);
    assert_eq!(rows.len(), 3);
    assert!(rows[0].left.is_none());
    assert_eq!(rows[0].right.as_ref().unwrap().text, "n1");
    assert_eq!(rows[1].left.as_ref().unwrap().lineno, 1);
    assert!(rows[1].right.is_none());
    assert_eq!(rows[2].left.as_ref().unwrap().text, "c");
}

#[test]
fn file_diff_arguments_add_cached_only_for_staged() {
    assert_eq!(
        git_file_diff_args("f.txt", true),
        vec!["diff", "--no-color", "-U3", "--cached", "--", "f.txt"]
    );
    assert_eq!(
        git_file_diff_args("f.txt", false),
        vec!["diff", "--no-color", "-U3", "--", "f.txt"]
    );
}

#[test]
fn file_diff_from_command_output() {
    assert!(git_file_diff(None).is_none());
    let failed = CommandOutput { success: false, stdout: Vec::new(), stderr: b"boom".to_vec() };
    assert!(git_file_diff(Some(failed)).is_none());
    let ok = CommandOutput {
        success: true,
        stdout: b"@@ -1 +1 @@\n-a\n+b\n".to_vec(),
        stderr: Vec::new(),
    };
    let diff = git_file_diff(Some(ok)).unwrap();
    assert_eq!(diff.hunks[0].lines[1].text, "b");
}

#[test]
fn counters_past_u32_are_refused() {
    assert!(diff_text_fits_exec("@@ -4294967294 +1 @@\n x\n"));
    assert!(!diff_text_fits_exec("@@ -4294967294 +1 @@\n x\n x\n"));
    assert!(!diff_text_fits_exec("@@ -4294967295 +1 @@\n x\n"));
    assert!(diff_text_fits_exec("@@ -4294967295 +1 @@\n+x\n"));
    let overflowing = CommandOutput {
        success: true,
        stdout: b"@@ -4294967294 +1 @@\n x\n x\n".to_vec(),
        stderr: Vec::new(),
    };
    assert!(git_file_diff(Some(overflowing)).is_none());
}

#[test]
fn untracked_file_diff_marks_all_lines_as_additions() {
    let file_diff = untracked_file_diff(Some(b"one\ntwo\n".to_vec()));
    assert!(!file_diff.binary);
    assert_eq!(file_diff.hunks.len(), 1);
    assert_eq!(file_diff.hunks[0].lines.len(), 2);
    assert!(file_diff.hunks[0]
        .lines
        .iter()
        .all(|line| line.kind == DiffLineKind::Addition));
    assert_eq!(file_diff.hunks[0].lines[1].new_lineno, Some(2));
}

#[test]
fn oversized_untracked_file_is_not_loaded() {
    assert!(!untracked_preview_allowed(Some(2 * 1024 * 1024 + 1)));
    assert!(untracked_preview_allowed(Some(2 * 1024 * 1024)));
    assert!(untracked_preview_allowed(None));
}

#[test]
fn untracked_file_diff_reports_non_utf8_as_binary() {
    let file_diff = untracked_file_diff(Some(vec![0xff, 0xfe, 0x00, 0xff]));
    assert!(file_diff.binary);
    assert!(file_diff.hunks.is_empty());
    let unreadable = untracked_file_diff(None);
    assert!(unreadable.binary);
}
