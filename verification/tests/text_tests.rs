use rmst_tools::text::{
    decimal_string, is_whitespace, parse_u32, replace_char, same_text, signed_decimal_string,
    split_lines, split_whitespace, trimmed, utf8_or_empty,
};

#[test]
fn whitespace_covers_unicode_spaces() {
    assert!(is_whitespace(' '));
    assert!(is_whitespace('\t'));
    assert!(is_whitespace('\n'));
    assert!(is_whitespace('\u{a0}'));
    assert!(is_whitespace('\u{3000}'));
    assert!(!is_whitespace('a'));
    assert!(!is_whitespace('\u{200b}'));
    for c in ['\u{85}', '\u{1680}', '\u{2000}', '\u{200a}', '\u{2028}', '\u{202f}', 'x', '0'] {
        assert_eq!(is_whitespace(c), c.is_whitespace());
    }
}

#[test]
fn split_whitespace_matches_std() {
    let samples = [
        "",
        "   ",
        "a",
        "  TCP    0.0.0.0:3000   0.0.0.0:0   LISTENING   1234  ",
        "index.js --port\t8080\n",
        "a\u{3000}b\u{a0}c",
    ];
    for s in samples {
        let expected: Vec<String> = s.split_whitespace().map(|w| w.to_string()).collect();
        assert_eq!(split_whitespace(s), expected);
    }
}

#[test]
fn split_lines_matches_std() {
    let samples = ["", "\n", "a", "a\n", "a\n\nb", "a\r\nb\r\n", "\r", "x\ry\n", "1\n2\n3"];
    for s in samples {
        let expected: Vec<String> = s.lines().map(|l| l.to_string()).collect();
        assert_eq!(split_lines(s), expected, "input {:?}", s);
    }
}

#[test]
fn trim_matches_std() {
    for s in ["", "  ", " a b ", "\u{3000}text\n", "x"] {
        assert_eq!(trimmed(s), s.trim());
    }
}

#[test]
fn trim_twice_is_trim_once() {
    let once = trimmed("\t hello world \n");
    assert_eq!(once, "hello world");
    assert_eq!(trimmed(&once), once);
}

#[test]
fn replace_char_replaces_every_occurrence() {
    assert_eq!(replace_char("D:\\work\\proj", '\\', '/'), "D:/work/proj");
    assert_eq!(replace_char("a/b/c", '/', '\\'), "a\\b\\c");
    assert_eq!(replace_char("", '/', '\\'), "");
    let r = replace_char("//x//", '/', '-');
    assert!(!r.contains('/'));
    assert_eq!(r.chars().count(), 5);
}

#[test]
fn decimal_formatting() {
    assert_eq!(decimal_string(0), "0");
    assert_eq!(decimal_string(7), "7");
    assert_eq!(decimal_string(3000), "3000");
    assert_eq!(decimal_string(u64::MAX), u64::MAX.to_string());
    assert_eq!(signed_decimal_string(-42), "-42");
    assert_eq!(signed_decimal_string(i32::MIN), i32::MIN.to_string());
    assert_eq!(signed_decimal_string(i32::MAX), i32::MAX.to_string());
    assert_eq!(signed_decimal_string(0), "0");
}

#[test]
fn parse_u32_matches_std() {
    let samples = [
        "", "+", "0", "42", "+42", "-1", "007", "4294967295", "4294967296", "99999999999", "12a",
        " 1", "++1", "1 ",
    ];
    for s in samples {
        assert_eq!(parse_u32(s), s.parse::<u32>().ok(), "input {:?}", s);
    }
}

#[test]
fn parse_reads_back_decimal() {
    for n in [0u32, 1, 9, 10, 65535, 4294967295] {
        assert_eq!(parse_u32(&decimal_string(n as u64)), Some(n));
    }
}

#[test]
fn same_text_compares_characters() {
    assert!(same_text("abc", "abc"));
    assert!(!same_text("abc", "abd"));
    assert!(!same_text("abc", "ab"));
    assert!(same_text("", ""));
}

#[test]
fn utf8_or_empty_decodes_or_gives_empty() {
    assert_eq!(utf8_or_empty("错误 error".as_bytes().to_vec()), "错误 error");
    assert_eq!(utf8_or_empty(vec![0xff, 0xfe]), "");
    assert_eq!(utf8_or_empty(vec![]), "");
}

#[test]
fn words_are_never_empty_nor_spaced() {
    for s in ["  a  b ", "\t\n", "x\u{2003}y", ""] {
        for w in split_whitespace(s) {
            assert!(!w.is_empty());
            assert!(!w.chars().any(|c| c.is_whitespace()));
        }
    }
}
