use x2y::text::{chars_of, same_text, strip_suffix, trim, white_space};

#[test]
fn white_space_is_what_the_standard_library_says() {
    for code in 0u32..0x11_0000 {
        if let Some(c) = char::from_u32(code) {
            assert_eq!(white_space(c), c.is_whitespace(), "U+{:04X}", code);
        }
    }
}

#[test]
fn trim_takes_white_space_off_both_ends() {
    assert_eq!(trim("  json "), "json");
    assert_eq!(trim("json"), "json");
    assert_eq!(trim("\t\n a b \r\n"), "a b");
    assert_eq!(trim(""), "");
    assert_eq!(trim(" \t "), "");
    assert_eq!(trim("\u{2003}é \u{1680}"), "é");
}

#[test]
fn trim_agrees_with_the_standard_library() {
    let samples = [
        "", " ", "a", " a", "a ", " a ", "\u{a0}a\u{a0}", "a\u{200b}", "\u{85}x\u{85}",
        "  two words  ", "\u{feff}bom", "日本 語 ", "\n\n",
    ];
    for sample in samples {
        assert_eq!(trim(sample), sample.trim(), "{:?}", sample);
    }
}

#[test]
fn same_text_compares_character_for_character() {
    assert!(same_text("yaml", "yaml"));
    assert!(same_text("", ""));
    assert!(!same_text("yaml", "yam"));
    assert!(!same_text("yaml", "yamL"));
    assert!(!same_text("é", "e"));
}

#[test]
fn strip_suffix_takes_the_suffix_off() {
    assert_eq!(strip_suffix("basic.yaml", "yaml"), Some("basic."));
    assert_eq!(strip_suffix("yaml", "yaml"), Some(""));
    assert_eq!(strip_suffix("basic.yml", "yaml"), None);
    assert_eq!(strip_suffix("aml", "yaml"), None);
    assert_eq!(strip_suffix("basic.yaml", ""), Some("basic.yaml"));
    assert_eq!(strip_suffix("naïve.json", "json"), Some("naïve."));
}

#[test]
fn chars_of_lists_the_characters() {
    assert_eq!(chars_of("añ日"), vec!['a', 'ñ', '日']);
    assert_eq!(chars_of(""), Vec::<char>::new());
}
