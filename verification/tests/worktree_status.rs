use herdr::command::CommandOutput;
use herdr::worktree_status::{
    git_working_tree_status, git_working_tree_status_args, parse_porcelain_v2,
    status_from_token_chars, GitFileStatusKind,
};

fn joined(records: &[&str]) -> Vec<u8> {
    let mut out = Vec::new();
    for record in records {
        out.extend_from_slice(record.as_bytes());
        out.push(0);
    }
    out
}

#[test]
fn parses_staged_added_file() {
    let raw = joined(&["1 A. N... 000000 100644 100644 0000000000000000000000000000000000000000 abc123 new_file.rs"]);
    let status = parse_porcelain_v2(&raw);
    assert_eq!(status.staged.len(), 1);
    assert_eq!(status.staged[0].path, "new_file.rs");
    assert_eq!(status.staged[0].status, GitFileStatusKind::Added);
    assert!(status.unstaged.is_empty());
}

#[test]
fn parses_unstaged_modified_file() {
    let raw = joined(&["1 .M N... 100644 100644 100644 abc123 abc123 src/lib.rs"]);
    let status = parse_porcelain_v2(&raw);
    assert!(status.staged.is_empty());
    assert_eq!(status.unstaged.len(), 1);
    assert_eq!(status.unstaged[0].path, "src/lib.rs");
    assert_eq!(status.unstaged[0].status, GitFileStatusKind::Modified);
}

#[test]
fn splits_file_modified_in_both_index_and_worktree() {
    let raw = joined(&["1 MM N... 100644 100644 100644 abc123 def456 both.rs"]);
    let status = parse_porcelain_v2(&raw);
    assert_eq!(status.staged.len(), 1);
    assert_eq!(status.unstaged.len(), 1);
    assert_eq!(status.staged[0].path, "both.rs");
    assert_eq!(status.unstaged[0].path, "both.rs");
}

#[test]
fn parses_untracked_file() {
    let raw = joined(&["? scratch.txt"]);
    let status = parse_porcelain_v2(&raw);
    assert_eq!(status.staged.len(), 0);
    assert_eq!(status.unstaged.len(), 1);
    assert_eq!(status.unstaged[0].status, GitFileStatusKind::Untracked);
    assert_eq!(status.unstaged[0].path, "scratch.txt");
}

#[test]
fn parses_staged_rename_with_two_tokens() {
    let raw = joined(&[
        "2 R. N... 100644 100644 100644 abc123 abc123 R100 new_name.rs",
        "old_name.rs",
    ]);
    let status = parse_porcelain_v2(&raw);
    assert_eq!(status.staged.len(), 1);
    assert_eq!(status.staged[0].path, "new_name.rs");
    assert_eq!(
        status.staged[0].original_path.as_deref(),
        Some("old_name.rs")
    );
    assert_eq!(status.staged[0].status, GitFileStatusKind::Renamed);
    assert!(status.unstaged.is_empty());
}

#[test]
fn parses_unmerged_conflict() {
    let raw =
        joined(&["u UU N... 100644 100644 100644 100644 abc123 def456 ghi789 conflicted.rs"]);
    let status = parse_porcelain_v2(&raw);
    assert!(status.staged.is_empty());
    assert_eq!(status.unstaged.len(), 1);
    assert_eq!(status.unstaged[0].status, GitFileStatusKind::Conflicted);
    assert_eq!(status.unstaged[0].path, "conflicted.rs");
}

#[test]
fn empty_output_yields_empty_status() {
    let status = parse_porcelain_v2(&[]);
    assert!(status.staged.is_empty());
    assert!(status.unstaged.is_empty());
}

#[test]
fn ignores_unknown_record_types() {
    let raw = joined(&["! ignored.log"]);
    let status = parse_porcelain_v2(&raw);
    assert!(status.staged.is_empty());
    assert!(status.unstaged.is_empty());
}

#[test]
fn path_with_spaces_keeps_everything_after_the_fixed_fields() {
    let raw = joined(&["1 .D N... 100644 100644 000000 abc123 abc123 dir/a file.rs"]);
    let status = parse_porcelain_v2(&raw);
    assert_eq!(status.unstaged.len(), 1);
    assert_eq!(status.unstaged[0].path, "dir/a file.rs");
    assert_eq!(status.unstaged[0].status, GitFileStatusKind::Deleted);
}

#[test]
fn ordinary_record_with_too_few_fields_is_skipped() {
    let raw = joined(&["1 M. N... 100644 100644", "? kept.txt"]);
    let status = parse_porcelain_v2(&raw);
    assert!(status.staged.is_empty());
    assert_eq!(status.unstaged.len(), 1);
    assert_eq!(status.unstaged[0].path, "kept.txt");
}

#[test]
fn copy_record_is_reported_as_renamed_on_both_sides() {
    let raw = joined(&[
        "2 CR N... 100644 100644 100644 abc123 abc123 C75 copy.rs",
        "orig.rs",
        "? after.txt",
    ]);
    let status = parse_porcelain_v2(&raw);
    assert_eq!(status.staged.len(), 1);
    assert_eq!(status.staged[0].status, GitFileStatusKind::Renamed);
    assert_eq!(status.unstaged.len(), 2);
    assert_eq!(status.unstaged[0].path, "copy.rs");
    assert_eq!(status.unstaged[0].original_path.as_deref(), Some("orig.rs"));
    assert_eq!(status.unstaged[1].path, "after.txt");
}

#[test]
fn rename_record_at_the_end_has_no_original_path() {
    let raw = b"2 R. N... 100644 100644 100644 abc123 abc123 R100 new.rs".to_vec();
    let status = parse_porcelain_v2(&raw);
    assert_eq!(status.staged.len(), 1);
    assert_eq!(status.staged[0].original_path, None);
}

#[test]
fn invalid_utf8_in_a_path_is_replaced() {
    let mut raw = b"? bad".to_vec();
    raw.push(0xff);
    raw.push(0);
    let status = parse_porcelain_v2(&raw);
    assert_eq!(status.unstaged[0].path, "bad\u{fffd}");
}

#[test]
fn token_level_parser_takes_decoded_tokens() {
    let toks: Vec<Vec<char>> = vec![
        "1 A. N... 000000 100644 100644 000 abc x.rs".chars().collect(),
        Vec::new(),
        "u AA N... 1 2 3 4 h1 h2 h3 y.rs".chars().collect(),
    ];
    let status = status_from_token_chars(&toks);
    assert_eq!(status.staged.len(), 1);
    assert_eq!(status.staged[0].path, "x.rs");
    assert_eq!(status.unstaged.len(), 1);
    assert_eq!(status.unstaged[0].path, "y.rs");
    assert_eq!(status.unstaged[0].status, GitFileStatusKind::Conflicted);
}

#[test]
fn failed_status_command_gives_none() {
    assert!(git_working_tree_status(None).is_none());
    let failed = CommandOutput { success: false, stdout: joined(&["? a"]), stderr: Vec::new() };
    assert!(git_working_tree_status(Some(failed)).is_none());
    let ok = CommandOutput { success: true, stdout: joined(&["? a"]), stderr: Vec::new() };
    let status = git_working_tree_status(Some(ok)).unwrap();
    assert_eq!(status.unstaged[0].path, "a");
}

#[test]
fn status_arguments_request_porcelain_v2_with_nul_separators() {
    assert_eq!(
        git_working_tree_status_args(),
        vec!["status", "--porcelain=v2", "-z", "--untracked-files=all"]
    );
}
