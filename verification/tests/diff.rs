use waffle::diff::{render_changes, render_diff, ChangeTag, DiffLine};

fn line(tag: ChangeTag, text: &str) -> DiffLine {
    DiffLine { tag, text: text.to_owned() }
}

#[test]
fn equal_texts_show_nothing() {
    for text in ["", "a", "a\n", "a\nb\nc\n", "\n\n", "version = \"1.2.3\"\n"] {
        assert_eq!(render_diff(text, text), Vec::<String>::new());
    }
}

#[test]
fn long_equal_texts_show_nothing() {
    let text: String = (0..300).map(|n| format!("line {}\n", n % 7)).collect();

    assert_eq!(render_diff(&text, &text), Vec::<String>::new());
}

#[test]
fn changed_line_is_shown_as_removed_and_added() {
    let lines = render_diff("a\nb\nc\n", "a\nB\nc\n");

    assert_eq!(lines, vec!["  \u{1b}[31m-\u{1b}[0mb\n", "  \u{1b}[32m+\u{1b}[0mB\n"]);
}

#[test]
fn added_and_removed_lines_are_shown_in_order() {
    assert_eq!(render_diff("a\n", "a\nb\n"), vec!["  \u{1b}[32m+\u{1b}[0mb\n"]);
    assert_eq!(render_diff("a\nb\n", "b\n"), vec!["  \u{1b}[31m-\u{1b}[0ma\n"]);
    assert_eq!(
        render_diff("", "x\ny\n"),
        vec!["  \u{1b}[32m+\u{1b}[0mx\n", "  \u{1b}[32m+\u{1b}[0my\n"]
    );
}

#[test]
fn last_line_without_a_line_break_is_shown_with_one() {
    let lines = render_diff("a\nc", "a\nC");

    assert_eq!(lines, vec!["  \u{1b}[31m-\u{1b}[0mc\n", "  \u{1b}[32m+\u{1b}[0mC\n"]);
}

#[test]
fn shown_lines_are_marked_as_the_terminal_library_marks_them() {
    let lines = render_diff("old\n", "new\n");

    assert_eq!(
        lines,
        vec![
            format!("  {}old\n", ansi_term::Colour::Red.paint("-")),
            format!("  {}new\n", ansi_term::Colour::Green.paint("+")),
        ]
    );
}

#[test]
fn render_changes_skips_equal_lines() {
    let changes = vec![
        line(ChangeTag::Equal, "a\n"),
        line(ChangeTag::Delete, "b\n"),
        line(ChangeTag::Equal, "c\n"),
        line(ChangeTag::Insert, "d\n"),
    ];

    assert_eq!(
        render_changes(&changes),
        vec!["  \u{1b}[31m-\u{1b}[0mb\n", "  \u{1b}[32m+\u{1b}[0md\n"]
    );
}

#[test]
fn render_changes_of_nothing_is_nothing() {
    assert_eq!(render_changes(&Vec::new()), Vec::<String>::new());
    assert_eq!(
        render_changes(&vec![line(ChangeTag::Equal, "a\n"), line(ChangeTag::Equal, "b\n")]),
        Vec::<String>::new()
    );
}
