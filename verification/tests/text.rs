use launch_handoff::text::{trim, white_space};

#[test]
fn white_space_is_what_std_calls_white_space() {
    let mut c: u32 = 0;
    while c <= 0x10FFFF {
        if let Some(ch) = char::from_u32(c) {
            assert_eq!(white_space(ch), ch.is_whitespace(), "U+{:04X}", c);
        }
        c += 1;
    }
}

#[test]
fn white_space_by_example() {
    assert!(white_space(' '));
    assert!(white_space('\n'));
    assert!(white_space('\t'));
    assert!(white_space('\r'));
    assert!(white_space('\u{A0}'));
    assert!(white_space('\u{3000}'));
    assert!(!white_space('a'));
    assert!(!white_space('\u{200B}'));
    assert!(!white_space('\u{180E}'));
    assert!(!white_space('\u{0}'));
}

#[test]
fn trim_removes_white_space_at_both_ends() {
    assert_eq!(trim("  /data/scan.h5\n"), "/data/scan.h5");
    assert_eq!(trim("\r\n\t x \t\r\n"), "x");
    assert_eq!(trim("\u{3000}scan.h5\u{A0}"), "scan.h5");
}

#[test]
fn trim_keeps_white_space_inside() {
    assert_eq!(trim(" my data / scan 1.h5 "), "my data / scan 1.h5");
    assert_eq!(trim("a\nb"), "a\nb");
}

#[test]
fn trim_leaves_trimmed_text_alone() {
    assert_eq!(trim("/data/scan.h5"), "/data/scan.h5");
    assert_eq!(trim("x"), "x");
}

#[test]
fn trim_of_white_space_is_empty() {
    assert_eq!(trim(""), "");
    assert_eq!(trim(" "), "");
    assert_eq!(trim(" \n\t\u{2028} "), "");
}

#[test]
fn trim_counts_characters_not_bytes() {
    assert_eq!(trim(" \u{2003}données/é \u{2003}"), "données/é");
    assert_eq!(trim("é "), "é");
    assert_eq!(trim(" 日本語"), "日本語");
}

#[test]
fn trim_agrees_with_std() {
    let samples: [&str; 12] = [
        "",
        " ",
        "a",
        " a",
        "a ",
        " a b ",
        "\n\n",
        "\u{85}x\u{85}",
        "\u{200B}x\u{200B}",
        "\u{1680}\u{2000}\u{200A}path\u{202F}\u{205F}",
        "x\u{FEFF}",
        "\u{B}\u{C}y\u{1C}",
    ];
    for s in samples.iter() {
        assert_eq!(trim(s), s.trim(), "{:?}", s);
    }
}
