use release_installer::text::{chars_of, join, same_text, trim_end, whitespace};

#[test]
fn chars_are_listed_in_order() {
    assert_eq!(chars_of("a.b"), vec!['a', '.', 'b']);
    assert_eq!(chars_of(""), Vec::<char>::new());
    assert_eq!(chars_of("\u{e4}\u{1f980}z"), vec!['\u{e4}', '\u{1f980}', 'z']);
}

#[test]
fn same_text_compares_contents() {
    assert!(same_text("deb", "deb"));
    assert!(same_text("", ""));
    assert!(!same_text("deb", "Deb"));
    assert!(!same_text("deb", "de"));
    assert!(!same_text("de", "deb"));
}

#[test]
fn whitespace_agrees_with_the_standard_library_on_every_character() {
    let mut code: u32 = 0;
    while code <= 0x10ffff {
        if let Some(c) = char::from_u32(code) {
            assert_eq!(whitespace(c), c.is_whitespace(), "U+{code:04X}");
        }
        code += 1;
    }
}

#[test]
fn whitespace_on_chosen_characters() {
    assert!(whitespace(' '));
    assert!(whitespace('\n'));
    assert!(whitespace('\r'));
    assert!(whitespace('\t'));
    assert!(whitespace('\u{a0}'));
    assert!(whitespace('\u{3000}'));
    assert!(!whitespace('a'));
    assert!(!whitespace('.'));
    assert!(!whitespace('\u{200b}'));
    assert!(!whitespace('\u{8}'));
    assert!(!whitespace('\u{e}'));
}

#[test]
fn trim_end_removes_trailing_whitespace_only() {
    assert_eq!(trim_end("v1.0\n"), "v1.0");
    assert_eq!(trim_end("v1.0\r\n"), "v1.0");
    assert_eq!(trim_end("  v1.0  \t\n"), "  v1.0");
    assert_eq!(trim_end("a b\n"), "a b");
    assert_eq!(trim_end("v1.0"), "v1.0");
    assert_eq!(trim_end(""), "");
    assert_eq!(trim_end(" \n\t"), "");
    assert_eq!(trim_end("\u{1f980}\u{3000}"), "\u{1f980}");
}

#[test]
fn trim_end_agrees_with_the_standard_library() {
    let samples = [
        "",
        "\n",
        "tool.deb\n",
        "tool.deb \u{a0}\u{2003}\n",
        "\u{e4}\u{f6} \u{fc} ",
        "x\u{200b}",
        "x\u{85}",
        "\u{2028}y\u{2029}",
    ];
    for sample in samples {
        assert_eq!(trim_end(sample), sample.trim_end(), "{sample:?}");
    }
}

#[test]
fn join_puts_the_separator_between_neighbours() {
    let parts = vec!["v2".to_string(), "v1".to_string(), "v0".to_string()];
    assert_eq!(join(&parts, "\n"), "v2\nv1\nv0");
    assert_eq!(join(&parts, ", "), "v2, v1, v0");
    assert_eq!(join(&parts, ""), "v2v1v0");
}

#[test]
fn join_of_one_part_and_of_none() {
    assert_eq!(join(&vec!["only".to_string()], "\n"), "only");
    assert_eq!(join(&Vec::new(), "\n"), "");
    assert_eq!(join(&vec![String::new(), String::new()], "-"), "-");
}

#[test]
fn join_agrees_with_the_standard_library() {
    let parts = vec![String::new(), "a".to_string(), String::new(), "\u{1f980}".to_string()];
    assert_eq!(join(&parts, "\n"), parts.join("\n"));
}
