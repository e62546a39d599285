use audio_capture::decimal::{i32_to_decimal, u32_to_decimal};
use audio_capture::text::{char_is_white_space, chars_of, trim_str};

#[test]
fn decimal_of_u32() {
    assert_eq!(u32_to_decimal(0), "0");
    assert_eq!(u32_to_decimal(7), "7");
    assert_eq!(u32_to_decimal(10), "10");
    assert_eq!(u32_to_decimal(44100), "44100");
    assert_eq!(u32_to_decimal(u32::MAX), "4294967295");
}

#[test]
fn decimal_of_i32() {
    assert_eq!(i32_to_decimal(0), "0");
    assert_eq!(i32_to_decimal(-1), "-1");
    assert_eq!(i32_to_decimal(-10863), "-10863");
    assert_eq!(i32_to_decimal(i32::MIN), "-2147483648");
    assert_eq!(i32_to_decimal(i32::MAX), "2147483647");
}

#[test]
fn decimal_reads_back() {
    for n in [0u32, 1, 9, 10, 99, 100, 352, 65535, 123456789, u32::MAX] {
        assert_eq!(u32_to_decimal(n).parse::<u32>().unwrap(), n);
        assert_eq!(u32_to_decimal(n), n.to_string());
    }
    for n in [0i32, -5, 5, -100000, i32::MIN, i32::MAX] {
        assert_eq!(i32_to_decimal(n), n.to_string());
    }
}

#[test]
fn trim_matches_std() {
    for s in ["", "   ", "abc", "  abc  ", "\talsa_output.pci\n", "a b", "\u{3000}x\u{2028}", "\r\n", "x\u{a0}"] {
        assert_eq!(trim_str(s), s.trim());
    }
}

#[test]
fn white_space_matches_std() {
    for c in ['\t', '\n', '\u{b}', '\u{c}', '\r', ' ', '\u{85}', '\u{a0}', '\u{1680}', '\u{2000}', '\u{200a}', '\u{2028}', '\u{2029}', '\u{202f}', '\u{205f}', '\u{3000}', 'a', '0', '\u{200b}', '\u{feff}', '\u{180e}'] {
        assert_eq!(char_is_white_space(c), c.is_whitespace(), "{:?}", c);
    }
}

#[test]
fn chars_of_keeps_order() {
    assert_eq!(chars_of("añb"), vec!['a', 'ñ', 'b']);
    assert_eq!(chars_of(""), Vec::<char>::new());
}
