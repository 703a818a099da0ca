use openfang_adapters::text::{
    blank, has_prefix, has_suffix, i64_text, parse_u64, split_first, split_lines, split_words,
    trim, trim_end_char, trim_end_str, trim_start_char, u64_text,
};

const SAMPLES: [&str; 16] = [
    "", " ", "a", "a b", "  a\tb \u{a0}c\u{3000}", "x\r\ny\n\nz", "x\n", "x\r", "\r\n", "\n\r",
    "/v1/v1", "/cmd  one two ", "//", ":", "team:a:b", "é\u{2003}ü/v1/",
];

#[test]
fn blanks_are_the_white_space_characters() {
    for code in 0..=0x10ffffu32 {
        if let Some(c) = char::from_u32(code) {
            assert_eq!(blank(c), c.is_whitespace());
        }
    }
}

#[test]
fn splitting_and_trimming() {
    for s in SAMPLES {
        assert_eq!(split_lines(s), s.lines().collect::<Vec<&str>>());
        assert_eq!(split_words(s), s.split_whitespace().collect::<Vec<&str>>());
        assert_eq!(trim(s), s.trim());
        assert_eq!(trim_end_char(s, '/'), s.trim_end_matches('/'));
        assert_eq!(trim_start_char(s, '/'), s.trim_start_matches('/'));
        assert_eq!(trim_end_str(s, "/v1"), s.trim_end_matches("/v1"));
        assert_eq!(split_first(s, ':'), s.split_once(':'));
        assert_eq!(split_first(s, ' '), s.split_once(' '));
        for part in SAMPLES {
            assert_eq!(has_prefix(s, part), s.starts_with(part));
            assert_eq!(has_suffix(s, part), s.ends_with(part));
        }
    }
}

#[test]
fn numbers() {
    for s in [
        "0", "7", "+7", "-7", "", "+", "++1", "007", "12a", " 1", "18446744073709551615",
        "18446744073709551616", "99999999999999999999", "+00000000000000000000000000001", "1_0",
        "\u{661}",
    ] {
        assert_eq!(parse_u64(s), s.parse::<u64>().ok());
    }
    for n in [0u64, 9, 10, 4096, 1_000_000, u64::MAX] {
        assert_eq!(u64_text(n), n.to_string());
        assert_eq!(parse_u64(&u64_text(n)), Some(n));
    }
    for n in [0i64, -1, 42, i64::MAX, i64::MIN] {
        assert_eq!(i64_text(n), n.to_string());
    }
}
