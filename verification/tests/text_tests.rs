use wargames::text::{decimal_text, is_space_char, same_text, trim};

#[test]
fn decimal_text_writes_one_two_and_three_digits() {
    assert_eq!(decimal_text(0), "0");
    assert_eq!(decimal_text(9), "9");
    assert_eq!(decimal_text(10), "10");
    assert_eq!(decimal_text(99), "99");
    assert_eq!(decimal_text(100), "100");
    assert_eq!(decimal_text(109), "109");
    assert_eq!(decimal_text(255), "255");
}

#[test]
fn decimal_text_agrees_with_formatting_for_every_number() {
    for n in 0..=255u8 {
        assert_eq!(decimal_text(n), format!("{}", n));
    }
}

#[test]
fn trim_takes_the_line_break_off_a_password() {
    assert_eq!(trim("hello\n"), "hello");
    assert_eq!(trim("NH2SXQwcBdpmTEzi3bvBHMM9H66vVXjL\r\n"), "NH2SXQwcBdpmTEzi3bvBHMM9H66vVXjL");
}

#[test]
fn trim_keeps_the_white_space_inside() {
    assert_eq!(trim("  a b \t\n"), "a b");
    assert_eq!(trim("\n\na\n\nb\n\n"), "a\n\nb");
}

#[test]
fn trim_leaves_nothing_of_white_space_alone() {
    assert_eq!(trim(""), "");
    assert_eq!(trim(" "), "");
    assert_eq!(trim(" \t\r\n\u{b}\u{c}"), "");
}

#[test]
fn trim_leaves_a_text_without_white_space_around_it_alone() {
    assert_eq!(trim("x"), "x");
    assert_eq!(trim("two words"), "two words");
}

#[test]
fn trim_knows_the_white_space_beyond_ascii() {
    assert_eq!(trim("\u{3000}\u{a0}x\u{2028}\u{85}"), "x");
    assert_eq!(trim("\u{1680}\u{2000}\u{200a}é\u{202f}\u{205f}\u{2029}"), "é");
    assert_eq!(trim("\u{200b}x\u{feff}"), "\u{200b}x\u{feff}");
}

#[test]
fn trim_counts_characters_and_not_bytes() {
    assert_eq!(trim(" äöü "), "äöü");
    assert_eq!(trim("\u{3000}日本\u{3000}語\u{3000}"), "日本\u{3000}語");
}

#[test]
fn is_space_char_agrees_with_the_standard_library_on_every_character() {
    for code in 0..=0x10FFFFu32 {
        if let Some(c) = char::from_u32(code) {
            assert_eq!(is_space_char(c), c.is_whitespace(), "U+{:04X}", code);
        }
    }
}

#[test]
fn trim_agrees_with_the_standard_library() {
    let samples = [
        "",
        " ",
        "a",
        " a",
        "a ",
        "\ta\tb\t",
        "\u{2003}wide\u{2003}",
        "no space",
        "\n\n\n",
        " \u{0}\u{1f} ",
        "é\n",
    ];
    for sample in samples {
        assert_eq!(trim(sample), sample.trim());
    }
}

#[test]
fn same_text_compares_character_by_character() {
    assert!(same_text("", ""));
    assert!(same_text("bandit", "bandit"));
    assert!(same_text("日本語", "日本語"));
    assert!(!same_text("bandit", "bandi"));
    assert!(!same_text("bandi", "bandit"));
    assert!(!same_text("bandit", "bandiT"));
    assert!(!same_text("", "x"));
    assert!(!same_text("Bandit", "bandit"));
}

#[test]
fn trim_a_second_time_changes_nothing() {
    for sample in ["", "  ", " a ", "\ta  b\n", "\u{3000}x y\u{3000}", "x"] {
        let once = trim(sample);
        assert_eq!(trim(&once), once);
        assert!(once.chars().next().map_or(true, |c| !is_space_char(c)));
        assert!(once.chars().last().map_or(true, |c| !is_space_char(c)));
        assert!(sample.contains(once.as_str()));
    }
}
