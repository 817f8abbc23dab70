use todo_md_rs::text::{join_words, same_text, trim};

fn words(text: &[&str]) -> Vec<String> {
    text.iter().map(|word| word.to_string()).collect()
}

#[test]
fn trimming_takes_whitespace_off_both_ends() {
    assert_eq!(trim("  a b  "), "a b");
    assert_eq!(trim("a b"), "a b");
    assert_eq!(trim("\t\n a\r\n"), "a");
    assert_eq!(trim(" inner  space "), "inner  space");
    assert_eq!(trim("x "), "x");
    assert_eq!(trim(" x"), "x");
}

#[test]
fn trimming_whitespace_alone_leaves_nothing() {
    assert_eq!(trim(""), "");
    assert_eq!(trim(" "), "");
    assert_eq!(trim(" \t\r\n "), "");
    assert_eq!(trim("\u{a0}\u{2003}\u{3000}"), "");
}

#[test]
fn trimming_knows_unicode_whitespace() {
    assert_eq!(trim("\u{a0}yes\u{2003}"), "yes");
    assert_eq!(trim("\u{3000}\u{e9}t\u{e9}\u{2028}"), "\u{e9}t\u{e9}");
    assert_eq!(trim("\u{200b}no\u{200b}"), "\u{200b}no\u{200b}");
    assert_eq!(trim("_x_"), "_x_");
}

#[test]
fn words_are_joined_by_single_spaces() {
    assert_eq!(join_words(&words(&[])), "");
    assert_eq!(join_words(&words(&["one"])), "one");
    assert_eq!(join_words(&words(&["one", "two"])), "one two");
    assert_eq!(join_words(&words(&["buy", "milk", "#errand"])), "buy milk #errand");
    assert_eq!(join_words(&words(&["", ""])), " ");
    assert_eq!(join_words(&words(&["a", "", "b"])), "a  b");
    assert_eq!(join_words(&words(&[" a ", "b"])), " a  b");
}

#[test]
fn texts_are_the_same_character_by_character() {
    assert!(same_text("", ""));
    assert!(same_text("yes", "yes"));
    assert!(!same_text("yes", "Yes"));
    assert!(!same_text("yes", "yes "));
    assert!(!same_text("y", "yes"));
    assert!(same_text("\u{e9}", "\u{e9}"));
    assert!(!same_text("\u{e9}", "e\u{301}"));
}

#[test]
fn trimming_agrees_with_the_standard_library() {
    let texts = [
        "",
        " ",
        "a",
        " a",
        "a ",
        "\t a b \n",
        "\u{85}x\u{85}",
        "\u{1680}x\u{180e}",
        "\u{2000}\u{200a}x\u{202f}\u{205f}",
        "\u{feff}x\u{feff}",
        "\u{b} \u{c}x\u{1c}\u{1f}",
    ];
    for text in texts {
        assert_eq!(trim(text), text.trim(), "{text:?}");
    }
}

#[test]
fn joining_agrees_with_the_standard_library() {
    let lists =
        [words(&[]), words(&[""]), words(&["a"]), words(&["a", "b", "c"]), words(&["", "x", ""])];
    for list in lists {
        assert_eq!(join_words(&list), list.join(" "), "{list:?}");
    }
}
