use hyprland_settings::text::{copy_range, is_whitespace, line_end, spells, to_chars, trim_bounds};
use hyprland_settings::values::{
    count_or, count_text, digit_str, flag_or, flag_str, is_decimal_digit, is_ratio, parse_count,
    parse_flag, push_count, ratio_or, skip_digits, spells_from,
};

#[test]
fn white_space_is_what_the_standard_library_trims() {
    let mut code: u32 = 0;
    while code <= 0x10ffff {
        if let Some(c) = char::from_u32(code) {
            assert_eq!(is_whitespace(c), c.is_whitespace(), "at {:x}", code);
        }
        code += 1;
    }
}

#[test]
fn digits_are_ascii_digits() {
    let mut code: u32 = 0;
    while code <= 0x10ffff {
        if let Some(c) = char::from_u32(code) {
            assert_eq!(is_decimal_digit(c), c.is_ascii_digit());
        }
        code += 1;
    }
}

fn count_samples() -> Vec<&'static str> {
    vec![
        "", "0", "7", "10", "007", "+5", "+", "-5", "-0", "++5", "+-5", "5+", " 5", "5 ", "4294967295",
        "4294967296", "42949672950", "+4294967295", "00000000000000000000004294967295",
        "99999999999999999999999999999999999999", "18446744073709551616", "1_000", "0x10", "1e3",
        "1.0", "١٢", "５", "12a", "a12", "2147483648", "3000000000", "4294967294", "429496729",
    ]
}

#[test]
fn counts_are_read_as_the_standard_library_reads_them() {
    for s in count_samples() {
        assert_eq!(parse_count(s), s.parse::<u32>().ok(), "for {:?}", s);
    }
}

#[test]
fn counts() {
    assert_eq!(parse_count("250"), Some(250));
    assert_eq!(parse_count("+35"), Some(35));
    assert_eq!(parse_count("4294967295"), Some(4294967295));
    assert_eq!(parse_count("4294967296"), None);
    assert_eq!(parse_count(""), None);
    assert_eq!(parse_count("notanumber"), None);
    assert_eq!(count_or("12", 3), 12);
    assert_eq!(count_or("twelve", 3), 3);
}

#[test]
fn counts_are_written_in_decimal() {
    assert_eq!(count_text(0), "0");
    assert_eq!(count_text(9), "9");
    assert_eq!(count_text(10), "10");
    assert_eq!(count_text(700), "700");
    assert_eq!(count_text(1234567890), "1234567890");
    assert_eq!(count_text(4294967295), "4294967295");
    let mut out = String::from("n=");
    push_count(&mut out, 405);
    assert_eq!(out, "n=405");
    for d in 0..10u32 {
        assert_eq!(digit_str(d), d.to_string());
    }
    let mut n: u32 = 1;
    for _ in 0..31 {
        assert_eq!(count_text(n), n.to_string());
        assert_eq!(parse_count(&count_text(n)), Some(n));
        n = n * 2 + 1;
    }
}

#[test]
fn flags() {
    assert_eq!(parse_flag("true"), Some(true));
    assert_eq!(parse_flag("false"), Some(false));
    for s in ["", "True", "FALSE", "1", "0", "yes", "no", "true ", " false", "truee", "tru", "fals"] {
        assert_eq!(parse_flag(s), None);
        assert_eq!(parse_flag(s), s.parse::<bool>().ok());
        assert!(flag_or(s, true));
        assert!(!flag_or(s, false));
    }
    assert!(flag_or("true", false));
    assert!(!flag_or("false", true));
    assert_eq!(flag_str(true), "true");
    assert_eq!(flag_str(false), "false");
}

fn ratio_samples() -> Vec<&'static str> {
    vec![
        "", "0", "1", "0.5", ".5", "5.", ".", "+", "-", "+.", "-.5", "+5.", "1e5", "1E5", "1e+5", "1e-5",
        "1e", "1e+", "e5", ".e5", "1.e5", ".1e5", "1.5e", "1.5e5x", "1..5", "1.5.5", "1e5.5", "1e5e5",
        "--1", "+-1", "1-", "inf", "Inf", "INF", "infinity", "Infinity", "iNfInItY", "+inf", "-inf",
        "-infinity", "nan", "NaN", "NAN", "+nan", "-nan", "infinit", "infinityy", "in", "na", "nane",
        "ınf", "İnf", "1f32", "0x10", "1_0", " 1", "1 ", "1,5", "٠.٥", "１.５", "0.01", "0.2", "0.1",
        "1.0", "00.100", "1e400", "1e-400", "123456789012345678901234567890.1234567890123456789e10",
        "1e99999999999999999999", "1e-99999999999999999999", "+1.25E-3", "notanumber", "fast", "e",
        "E", "+e1", "1e1e", "1e ", "nan ", "-", "+infinity", "infinity.", "inf1", "1inf", ".inf",
        "i", "n", "0e0", "0.e0", ".0e0", ".e0", "9", "10.", "1.e", "kNaN", "K", "\u{212a}",
    ]
}

#[test]
fn ratios_are_what_the_standard_library_reads_as_a_number() {
    for s in ratio_samples() {
        assert_eq!(is_ratio(s), s.parse::<f32>().is_ok(), "for {:?}", s);
        assert_eq!(is_ratio(s), s.parse::<f64>().is_ok(), "for {:?}", s);
    }
}

#[test]
fn what_the_standard_library_prints_is_a_ratio() {
    let samples: [f32; 12] = [
        0.0, -0.0, 0.5, 0.2, 1.0, 0.01, 0.1, 1e-7, 3.4e38, f32::INFINITY, f32::NEG_INFINITY, f32::NAN,
    ];
    for x in samples {
        assert!(is_ratio(&x.to_string()), "for {}", x);
    }
}

#[test]
fn ratios_fall_back() {
    assert_eq!(ratio_or("0.75", "0.5"), "0.75");
    assert_eq!(ratio_or("three", "0.5"), "0.5");
    assert_eq!(ratio_or("", "1"), "1");
}

#[test]
fn runs_of_digits() {
    let chars = to_chars("12ab345");
    assert_eq!(skip_digits(&chars, 0), 2);
    assert_eq!(skip_digits(&chars, 2), 2);
    assert_eq!(skip_digits(&chars, 4), 7);
    assert_eq!(skip_digits(&chars, 7), 7);
}

#[test]
fn words_in_any_case() {
    let chars = to_chars("-InF");
    assert!(spells_from(&chars, 1, "inf"));
    assert!(!spells_from(&chars, 0, "inf"));
    assert!(!spells_from(&chars, 1, "infinity"));
    assert!(!spells_from(&chars, 4, "inf"));
    assert!(spells_from(&chars, 4, ""));
    assert!(!spells_from(&to_chars("\u{49}\u{4e}\u{26}"), 0, "inf"));
}

#[test]
fn characters_of_a_text() {
    assert_eq!(to_chars(""), Vec::<char>::new());
    assert_eq!(to_chars("a\u{e9}\u{4e2d}\u{1f600}"), vec!['a', '\u{e9}', '\u{4e2d}', '\u{1f600}']);
    assert!(spells(&to_chars("abc"), "abc"));
    assert!(!spells(&to_chars("abc"), "abd"));
    assert!(!spells(&to_chars("abc"), "ab"));
    assert!(!spells(&to_chars("ab"), "abc"));
    assert!(spells(&to_chars(""), ""));
}

#[test]
fn trimming_and_line_ends() {
    let chars = to_chars("  a b \t\nxy\n");
    assert_eq!(line_end(&chars, 0), 7);
    assert_eq!(line_end(&chars, 8), 10);
    assert_eq!(line_end(&chars, 11), 11);
    assert_eq!(trim_bounds(&chars, 0, 7), (2, 5));
    assert_eq!(trim_bounds(&chars, 0, 2), (2, 2));
    assert_eq!(trim_bounds(&chars, 8, 10), (8, 10));
    assert_eq!(trim_bounds(&chars, 3, 3), (3, 3));
    assert_eq!(copy_range(&chars, 2, 5), vec!['a', ' ', 'b']);
    assert_eq!(copy_range(&chars, 4, 4), Vec::<char>::new());
    for s in ["", " ", "  a", "a  ", " a b ", "\u{2003}x\u{85}", "\r\n", "=\t"] {
        let c = to_chars(s);
        let (from, to) = trim_bounds(&c, 0, c.len());
        let got: String = c[from..to].iter().collect();
        assert_eq!(got, s.trim());
    }
}
