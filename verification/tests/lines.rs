use text_editor::lines::count_lines;

fn terminators(text: &str) -> usize {
    text.chars().filter(|c| *c == '\n').count()
}

#[test]
fn three_lines_without_final_terminator() {
    assert_eq!(count_lines("a\nb\nc"), 3);
}

#[test]
fn three_lines_with_final_terminator() {
    assert_eq!(count_lines("a\nb\nc\n"), 3);
}

#[test]
fn empty_text_has_no_lines() {
    assert_eq!(count_lines(""), 0);
}

#[test]
fn text_without_terminator_is_one_line() {
    assert_eq!(count_lines("no newline"), 1);
}

#[test]
fn lone_terminator_is_one_empty_line() {
    assert_eq!(count_lines("\n"), 1);
}

#[test]
fn empty_lines_are_counted() {
    assert_eq!(count_lines("\n\n"), 2);
    assert_eq!(count_lines("a\n\nb"), 3);
    assert_eq!(count_lines("\na"), 2);
}

#[test]
fn carriage_return_is_part_of_the_terminator() {
    assert_eq!(count_lines("a\r\nb"), 2);
    assert_eq!(count_lines("a\r\nb\r\n"), 2);
}

#[test]
fn bare_carriage_return_ends_no_line() {
    assert_eq!(count_lines("\r"), 1);
    assert_eq!(count_lines("a\rb"), 1);
}

#[test]
fn characters_of_several_bytes_are_single_characters() {
    assert_eq!(count_lines("\u{e9}t\u{e9}\n\u{65e5}\u{672c}\u{8a9e}"), 2);
    assert_eq!(count_lines("\u{1f600}\n"), 1);
    assert_eq!(count_lines("\u{1f600}"), 1);
}

#[test]
fn no_lines_only_for_empty_text() {
    for text in ["", " ", "\n", "a", "\r", "\n\n", "a\nb"] {
        assert_eq!(count_lines(text) == 0, text.is_empty());
    }
}

#[test]
fn unterminated_text_has_one_line_more_than_terminators() {
    for text in ["a", "a\nb", "\n\nx", "a\r\nb\nc", "\n ", "x\ny\nz\nw"] {
        assert_eq!(count_lines(text), terminators(text) + 1);
    }
}

#[test]
fn terminated_text_has_as_many_lines_as_terminators() {
    for text in ["\n", "a\n", "a\nb\n", "\n\n\n", "a\r\n"] {
        assert_eq!(count_lines(text), terminators(text));
    }
}

#[test]
fn count_agrees_with_the_lines_of_std() {
    for text in [
        "",
        "a",
        "\n",
        "a\n",
        "a\nb",
        "a\r\nb\r\n",
        "\r",
        "\r\n",
        "\n\r",
        "a\n\n\nb\n",
        "\u{65e5}\n\u{672c}\n",
    ] {
        assert_eq!(count_lines(text), text.lines().count());
    }
}
