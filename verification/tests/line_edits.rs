use todo_md_rs::lines::{change_line, export_line, read_lines, remove_lines, write_lines};

fn lines(text: &[&str]) -> Vec<String> {
    text.iter().map(|line| line.to_string()).collect()
}

#[test]
fn a_text_is_read_line_by_line() {
    assert_eq!(read_lines("a\nb\nc\n"), lines(&["a", "b", "c"]));
    assert_eq!(read_lines("a\nb\nc"), lines(&["a", "b", "c"]));
    assert_eq!(read_lines("one line"), lines(&["one line"]));
    assert_eq!(read_lines("caf\u{e9}\n\u{2764}\n"), lines(&["caf\u{e9}", "\u{2764}"]));
}

#[test]
fn an_empty_text_has_no_lines() {
    assert!(read_lines("").is_empty());
}

#[test]
fn empty_lines_are_lines() {
    assert_eq!(read_lines("\n"), lines(&[""]));
    assert_eq!(read_lines("\n\n"), lines(&["", ""]));
    assert_eq!(read_lines("a\n\nb\n"), lines(&["a", "", "b"]));
    assert_eq!(read_lines("\na"), lines(&["", "a"]));
}

#[test]
fn a_carriage_return_before_a_line_feed_ends_the_line_with_it() {
    assert_eq!(read_lines("a\r\nb\r\n"), lines(&["a", "b"]));
    assert_eq!(read_lines("a\r\n\r\nb"), lines(&["a", "", "b"]));
    assert_eq!(read_lines("\r\n"), lines(&[""]));
}

#[test]
fn a_carriage_return_elsewhere_stays_in_the_line() {
    assert_eq!(read_lines("a\rb\n"), lines(&["a\rb"]));
    assert_eq!(read_lines("a\r"), lines(&["a\r"]));
    assert_eq!(read_lines("a\r\r\nb"), lines(&["a\r", "b"]));
    assert_eq!(read_lines("\r"), lines(&["\r"]));
}

#[test]
fn reading_agrees_with_the_standard_library() {
    let texts =
        ["", "a", "a\n", "\n", "a\r\nb", "a\r", "a\r\r\n", "x\n\ny\n\n", "\r\n\r\n", "\n\r\n"];
    for text in texts {
        let expected: Vec<String> = text.lines().map(|line| line.to_string()).collect();
        assert_eq!(read_lines(text), expected, "{text:?}");
    }
}

#[test]
fn lines_are_written_with_a_line_feed_each() {
    assert_eq!(write_lines(&lines(&[])), "");
    assert_eq!(write_lines(&lines(&["a"])), "a\n");
    assert_eq!(write_lines(&lines(&["a", "", "b"])), "a\n\nb\n");
    assert_eq!(write_lines(&lines(&[""])), "\n");
}

#[test]
fn written_lines_are_read_back() {
    let texts = [
        lines(&[]),
        lines(&["a"]),
        lines(&["a", "", "b"]),
        lines(&["", ""]),
        lines(&["\rx", "y\rz"]),
    ];
    for text in texts {
        assert_eq!(read_lines(&write_lines(&text)), text);
    }
}

#[test]
fn one_line_is_replaced() {
    assert_eq!(change_line("a\nb\nc\n", 2, "B"), "a\nB\nc\n");
    assert_eq!(change_line("a\nb\nc\n", 1, "A"), "A\nb\nc\n");
    assert_eq!(change_line("a\nb\nc\n", 3, "C"), "a\nb\nC\n");
    assert_eq!(change_line("a\nb\nc", 3, ""), "a\nb\n\n");
    assert_eq!(change_line("only", 1, "- [x] done"), "- [x] done\n");
}

#[test]
fn a_line_number_beyond_the_file_replaces_nothing() {
    assert_eq!(change_line("a\nb\nc\n", 4, "X"), "a\nb\nc\n");
    assert_eq!(change_line("a\nb\nc\n", 99, "X"), "a\nb\nc\n");
    assert_eq!(change_line("a\nb\nc\n", usize::MAX, "X"), "a\nb\nc\n");
    assert_eq!(change_line("", 1, "X"), "");
    assert_eq!(change_line("a\nb", 3, "X"), "a\nb\n");
}

#[test]
fn line_number_zero_replaces_nothing() {
    assert_eq!(change_line("a\nb\nc\n", 0, "X"), "a\nb\nc\n");
    assert_eq!(change_line("", 0, "X"), "");
}

#[test]
fn replacing_leaves_the_other_lines() {
    let text = "zero\n- [ ] one\n\n  indented\ttext  \n- [x] four\nlast";
    let before = read_lines(text);
    for number in 0..=before.len() + 1 {
        let after = read_lines(&change_line(text, number, "NEW"));
        assert_eq!(after.len(), before.len());
        for place in 0..before.len() {
            if place + 1 == number {
                assert_eq!(after[place], "NEW");
            } else {
                assert_eq!(after[place], before[place]);
            }
        }
    }
}

#[test]
fn the_lines_named_are_deleted() {
    assert_eq!(remove_lines("a\nb\nc\n", vec![2]), "a\nc\n");
    assert_eq!(remove_lines("a\nb\nc\n", vec![1]), "b\nc\n");
    assert_eq!(remove_lines("a\nb\nc\n", vec![3]), "a\nb\n");
    assert_eq!(remove_lines("a\nb\nc\n", vec![3, 1]), "b\n");
    assert_eq!(remove_lines("a\nb\nc\n", vec![1, 2, 3]), "");
    assert_eq!(remove_lines("a\nb\nc", vec![2, 2, 2]), "a\nc\n");
}

#[test]
fn deleting_nothing_keeps_every_line() {
    assert_eq!(remove_lines("a\nb\nc\n", vec![]), "a\nb\nc\n");
    assert_eq!(remove_lines("a\nb\nc", vec![]), "a\nb\nc\n");
    assert_eq!(remove_lines("", vec![]), "");
    assert_eq!(remove_lines("", vec![1]), "");
}

#[test]
fn line_numbers_that_name_no_line_delete_nothing() {
    assert_eq!(remove_lines("a\nb\nc\n", vec![0]), "a\nb\nc\n");
    assert_eq!(remove_lines("a\nb\nc\n", vec![4]), "a\nb\nc\n");
    assert_eq!(remove_lines("a\nb\nc\n", vec![usize::MAX, 0, 7]), "a\nb\nc\n");
    assert_eq!(remove_lines("a\nb\nc\n", vec![0, 2, 9]), "a\nc\n");
}

#[test]
fn deleting_leaves_the_other_lines_in_their_order() {
    let text = "zero\n- [ ] one\n\n  indented\ttext  \n- [x] four\nlast";
    let before = read_lines(text);
    let numbers = vec![5, 2];
    let after = read_lines(&remove_lines(text, numbers.clone()));
    let expected: Vec<String> = before
        .iter()
        .enumerate()
        .filter(|(place, _)| !numbers.contains(&(place + 1)))
        .map(|(_, line)| line.clone())
        .collect();
    assert_eq!(after, expected);
    assert_eq!(after, vec!["zero", "", "  indented\ttext  ", "last"]);
}

#[test]
fn a_line_to_add_ends_in_a_line_feed() {
    assert_eq!(export_line("- [ ] new task"), "- [ ] new task\n");
    assert_eq!(export_line(""), "\n");
    assert_eq!(export_line("caf\u{e9}"), "caf\u{e9}\n");
}
