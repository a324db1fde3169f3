use herdr::command::CommandOutput;
use herdr::lists::{
    git_branch_list, git_branch_list_args, git_stash_list, git_stash_list_args,
    parse_branch_list, parse_stash_list,
};

#[test]
fn parses_stash_entries_into_value_and_label() {
    let raw = "stash@{0}\x1fWIP on master: 1a2b3c fix parser\n\
               stash@{1}\x1fOn feature: experiment\n";
    let entries = parse_stash_list(raw);

    assert_eq!(entries.len(), 2);
    assert_eq!(entries[0].value, "stash@{0}");
    assert!(entries[0].label.contains("fix parser"));
    assert_eq!(entries[1].value, "stash@{1}");
}

#[test]
fn stash_subject_containing_a_colon_stays_intact() {
    let entries = parse_stash_list("stash@{0}\x1fWIP on main: refactor: split module\n");

    assert_eq!(entries.len(), 1);
    assert_eq!(entries[0].value, "stash@{0}");
    assert!(entries[0].label.contains("refactor: split module"));
}

#[test]
fn empty_stash_list_yields_no_entries() {
    assert!(parse_stash_list("").is_empty());
}

#[test]
fn parses_branch_names_and_skips_detached_head() {
    let entries = parse_branch_list("main\nfeature/login\n(HEAD detached at 1a2b3c)\n");

    assert_eq!(entries.len(), 2);
    assert_eq!(entries[0].value, "main");
    assert_eq!(entries[1].value, "feature/login");
}

#[test]
fn stash_label_is_ref_two_spaces_and_subject() {
    let entries = parse_stash_list("stash@{2}\x1fOn main: x\n   \nno separator here\n");
    assert_eq!(entries.len(), 1);
    assert_eq!(entries[0].label, "stash@{2}  On main: x");
}

#[test]
fn branch_names_are_trimmed() {
    let entries = parse_branch_list("  main \r\n\n\tdev\n");
    assert_eq!(entries.len(), 2);
    assert_eq!(entries[0].value, "main");
    assert_eq!(entries[0].label, "main");
    assert_eq!(entries[1].value, "dev");
}

#[test]
fn listing_arguments() {
    assert_eq!(
        git_stash_list_args(),
        vec!["--no-pager", "stash", "list", "--format=%gd\u{1f}%gs"]
    );
    assert_eq!(
        git_branch_list_args(),
        vec!["--no-pager", "branch", "--format=%(refname:short)", "--sort=-committerdate"]
    );
}

#[test]
fn listing_from_command_output() {
    assert!(git_stash_list(None).is_none());
    let failed = CommandOutput { success: false, stdout: Vec::new(), stderr: Vec::new() };
    assert!(git_branch_list(Some(failed)).is_none());
    let ok = CommandOutput { success: true, stdout: b"main\n".to_vec(), stderr: Vec::new() };
    assert_eq!(git_branch_list(Some(ok)).unwrap()[0].value, "main");
    let empty = CommandOutput { success: true, stdout: Vec::new(), stderr: Vec::new() };
    assert!(git_stash_list(Some(empty)).unwrap().is_empty());
}
