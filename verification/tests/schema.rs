use herdr::diff::{DiffHunk, DiffLine, DiffLineKind, FileDiff};
use herdr::lists::GitListEntry;
use herdr::schema::{
    diff_hunk_from_wire, git_diff_hunk_from, git_file_diff_from, git_picker_entries_from,
    GitDiffLine, GitDiffLineKind, GitPickerEntry,
};

fn line(kind: DiffLineKind, old: Option<u32>, new: Option<u32>, text: &str) -> DiffLine {
    DiffLine { kind, old_lineno: old, new_lineno: new, text: text.into() }
}

#[test]
fn line_kinds_convert_one_to_one() {
    assert_eq!(GitDiffLineKind::from(DiffLineKind::Context), GitDiffLineKind::Context);
    assert_eq!(GitDiffLineKind::from(DiffLineKind::Addition), GitDiffLineKind::Addition);
    assert_eq!(GitDiffLineKind::from(DiffLineKind::Deletion), GitDiffLineKind::Deletion);
}

#[test]
fn a_file_diff_converts_to_the_wire_form_and_back() {
    let diff = FileDiff {
        hunks: vec![DiffHunk {
            old_start: 3,
            new_start: 4,
            lines: vec![
                line(DiffLineKind::Context, Some(3), Some(4), "same"),
                line(DiffLineKind::Deletion, Some(4), None, "old"),
                line(DiffLineKind::Addition, None, Some(5), "new"),
            ],
        }],
        binary: false,
    };
    let wire = git_file_diff_from(&diff);
    assert_eq!(wire.hunks.len(), 1);
    assert_eq!(wire.hunks[0].old_start, 3);
    assert_eq!(wire.hunks[0].new_start, 4);
    assert_eq!(
        wire.hunks[0].lines[1],
        GitDiffLine {
            kind: GitDiffLineKind::Deletion,
            old_lineno: Some(4),
            new_lineno: None,
            text: "old".into()
        }
    );
    let back = diff_hunk_from_wire(&wire.hunks[0]);
    assert_eq!(back, diff.hunks[0]);
    assert_eq!(git_diff_hunk_from(&back), wire.hunks[0]);
}

#[test]
fn a_single_line_converts_with_from() {
    let wire = GitDiffLine::from(line(DiffLineKind::Addition, None, Some(9), "x"));
    assert_eq!(wire.kind, GitDiffLineKind::Addition);
    assert_eq!(wire.new_lineno, Some(9));
    assert_eq!(wire.text, "x");
}

#[test]
fn picker_entries_keep_value_and_label() {
    let entries = vec![
        GitListEntry { value: "stash@{0}".into(), label: "stash@{0}  wip".into() },
        GitListEntry { value: "main".into(), label: "main".into() },
    ];
    let wire = git_picker_entries_from(entries.clone());
    assert_eq!(wire.len(), 2);
    assert_eq!(wire[0].value, "stash@{0}");
    assert_eq!(wire[0].label, "stash@{0}  wip");
    assert_eq!(GitPickerEntry::from(entries[1].clone()).value, "main");
}
