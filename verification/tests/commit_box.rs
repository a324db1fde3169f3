use herdr::commit_box::{commit_cursor_position, display_width, wrap_commit_message};

#[test]
fn commit_cursor_position_locates_the_wrapped_row_and_column() {
    let message = "fix bug\nlonger body line";
    // Cursor right after "fix bug" (end of the first logical line).
    let (row, column) = commit_cursor_position(message, 7, 30);
    assert_eq!(row, 0);
    assert_eq!(column, display_width("fix bug"));

    // Cursor at the very start of the second line.
    let (row, column) = commit_cursor_position(message, 8, 30);
    assert_eq!(row, 1);
    assert_eq!(column, 0);

    // Cursor mid-word wraps to a second row when the width forces a break.
    let (row, column) = commit_cursor_position("one two three", 13, 7);
    assert_eq!(row, 1);
    assert_eq!(column, display_width("three"));
}

#[test]
fn wrap_commit_message_packs_words_and_keeps_manual_blank_lines() {
    let wrapped = wrap_commit_message("fix bug\n\nlonger explanation across two lines", 12);
    assert_eq!(wrapped[0], "fix bug");
    assert_eq!(wrapped[1], "");
    assert!(wrapped[2..].iter().all(|line| display_width(line) <= 12));
    assert_eq!(wrapped[2..].join(" "), "longer explanation across two lines");
}

#[test]
fn wrap_commit_message_of_empty_text_returns_one_empty_line() {
    assert_eq!(wrap_commit_message("", 10), vec![String::new()]);
}

#[test]
fn a_word_wider_than_the_line_stands_alone() {
    assert_eq!(
        wrap_commit_message("a incomprehensibilities b", 5),
        vec!["a", "incomprehensibilities", "b"]
    );
}

#[test]
fn zero_width_wraps_like_width_one() {
    assert_eq!(wrap_commit_message("a b", 0), vec!["a", "b"]);
    assert_eq!(wrap_commit_message("  spaced   out  ", 40), vec!["spaced out"]);
}

#[test]
fn display_width_counts_columns() {
    assert_eq!(display_width(""), 0);
    assert_eq!(display_width("abc"), 3);
    assert_eq!(display_width("日本"), 4);
}

#[test]
fn cursor_at_the_start_and_after_a_trailing_newline() {
    assert_eq!(commit_cursor_position("", 0, 10), (0, 0));
    assert_eq!(commit_cursor_position("abc\n", 4, 10), (1, 0));
    assert_eq!(commit_cursor_position("ab cd\nx", 7, 3), (2, 1));
}

#[test]
fn each_paragraph_wraps_on_its_own_into_at_least_one_line() {
    let text = "alpha beta gamma\n\ndelta";
    let whole = wrap_commit_message(text, 10);
    let mut by_paragraph: Vec<String> = Vec::new();
    for paragraph in text.split('\n') {
        let lines = wrap_commit_message(paragraph, 10);
        assert!(!lines.is_empty());
        by_paragraph.extend(lines);
    }
    assert_eq!(whole, by_paragraph);
    assert_eq!(whole, vec!["alpha beta".to_string(), "gamma".to_string(), String::new(), "delta".to_string()]);
}

#[test]
fn wrapping_keeps_the_words_and_joins_them_with_single_spaces() {
    let text = "  one   two\tthree  four ";
    let lines = wrap_commit_message(text, 9);
    assert_eq!(lines, vec!["one two".to_string(), "three".to_string(), "four".to_string()]);
    let rejoined = lines.join(" ");
    assert_eq!(rejoined.split_whitespace().collect::<Vec<_>>(), text.split_whitespace().collect::<Vec<_>>());
    assert_eq!(wrap_commit_message("", 0), vec![String::new()]);
    assert_eq!(wrap_commit_message("overlongword x", 4), vec!["overlongword".to_string(), "x".to_string()]);
}
