use p2p_chat::text::{
    bytes_eq, concat2, concat3, concat4, join_from, replace_chars, str_eq, trim,
};

#[test]
fn trimming_cuts_white_space_at_both_ends_only() {
    assert_eq!(trim("  music \n"), "music");
    assert_eq!(trim("music"), "music");
    assert_eq!(trim("\t two  words \r\n"), "two  words");
    assert_eq!(trim(""), "");
    assert_eq!(trim(" \t\n "), "");
    assert_eq!(trim("x"), "x");
    assert_eq!(trim(" x"), "x");
    assert_eq!(trim("x "), "x");
}

#[test]
fn trimming_agrees_with_the_standard_library() {
    for text in [
        "\u{a0}caf\u{e9}\u{3000}",
        "\u{2003}a\u{2003}b\u{2003}",
        "\u{feff}bom ",
        "_ _",
        "\u{85}\u{1680}z\u{2028}\u{2029}\u{202f}\u{205f}",
        "日本語 ",
    ] {
        assert_eq!(trim(text), text.trim());
    }
}

#[test]
fn strings_are_compared_by_their_characters() {
    assert!(str_eq("", ""));
    assert!(str_eq("chat", "chat"));
    assert!(!str_eq("chat", "chaT"));
    assert!(!str_eq("chat", "chats"));
    assert!(str_eq("é", "\u{e9}"));
    assert!(!str_eq("é", "e\u{301}"));
    assert!(bytes_eq(&[1, 2, 3], &[1, 2, 3]));
    assert!(!bytes_eq(&[1, 2, 3], &[1, 2, 4]));
    assert!(!bytes_eq(&[1, 2, 3], &[1, 2]));
    assert!(bytes_eq(&[], &[]));
}

#[test]
fn strings_are_joined_with_the_separator_between_them() {
    let parts: Vec<String> = ["a", "", "b c", "d"].iter().map(|s| s.to_string()).collect();
    assert_eq!(join_from(&parts, 0, ", "), "a, , b c, d");
    assert_eq!(join_from(&parts, 1, " "), " b c d");
    assert_eq!(join_from(&parts, 3, " "), "d");
    assert_eq!(join_from(&parts, 4, " "), "");
    assert_eq!(join_from(&Vec::new(), 0, " "), "");
    assert_eq!(join_from(&parts, 2, " "), parts[2..].join(" "));
}

#[test]
fn strings_are_written_in_a_row() {
    assert_eq!(concat2("ab", "cd"), "abcd");
    assert_eq!(concat3("a", "", "c"), "ac");
    assert_eq!(concat4("[", "chat", "]: ", "hi"), "[chat]: hi");
}

#[test]
fn characters_are_replaced_one_for_one() {
    assert_eq!(replace_chars("a-b+c", '-', '+', '.'), "a.b.c");
    assert_eq!(replace_chars("abc", 'x', 'y', 'z'), "abc");
    assert_eq!(replace_chars("ééé", 'é', 'é', 'e'), "eee");
    assert_eq!(replace_chars("", 'a', 'b', 'c'), "");
}
