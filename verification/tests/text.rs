use guildbot::text::{
    is_whitespace, parse_u64, render_hex, render_hex_padded, render_i64, render_u128, trim,
};

#[test]
fn renders_decimal() {
    assert_eq!(render_u128(0), "0");
    assert_eq!(render_u128(7), "7");
    assert_eq!(render_u128(10), "10");
    assert_eq!(render_u128(1234567890), "1234567890");
    assert_eq!(render_u128(u64::MAX as u128), "18446744073709551615");
    assert_eq!(render_u128(u128::MAX), u128::MAX.to_string());
}

#[test]
fn renders_signed_decimal() {
    assert_eq!(render_i64(0), "0");
    assert_eq!(render_i64(-42), "-42");
    assert_eq!(render_i64(1700604800), "1700604800");
    assert_eq!(render_i64(i64::MIN), "-9223372036854775808");
    assert_eq!(render_i64(i64::MAX), "9223372036854775807");
}

#[test]
fn parses_unsigned_decimal() {
    assert_eq!(parse_u64("123"), Some(123));
    assert_eq!(parse_u64("0"), Some(0));
    assert_eq!(parse_u64("+7"), Some(7));
    assert_eq!(parse_u64("007"), Some(7));
    assert_eq!(parse_u64("18446744073709551615"), Some(u64::MAX));
    assert_eq!(parse_u64("18446744073709551616"), None);
    assert_eq!(parse_u64("99999999999999999999999"), None);
    assert_eq!(parse_u64(""), None);
    assert_eq!(parse_u64("+"), None);
    assert_eq!(parse_u64("++1"), None);
    assert_eq!(parse_u64("-1"), None);
    assert_eq!(parse_u64("12a"), None);
    assert_eq!(parse_u64(" 1"), None);
    assert_eq!(parse_u64("１"), None);
}

#[test]
fn parses_like_std() {
    for s in ["", "+", "-", "0", "+0", "-0", "42", "4 2", "18446744073709551615", "18446744073709551616", "+18446744073709551615", "x"] {
        assert_eq!(parse_u64(s), s.parse::<u64>().ok(), "{:?}", s);
    }
}

#[test]
fn decimal_round_trip_on_values() {
    for n in [0u64, 1, 9, 10, 99, 100, 83281345949728768, u64::MAX] {
        assert_eq!(parse_u64(&render_u128(n as u128)), Some(n));
    }
}

#[test]
fn renders_hexadecimal() {
    assert_eq!(render_hex(0), "0");
    assert_eq!(render_hex(255), "FF");
    assert_eq!(render_hex(0x1ABC9C), "1ABC9C");
    assert_eq!(render_hex(u32::MAX), "FFFFFFFF");
}

#[test]
fn pads_hexadecimal() {
    assert_eq!(render_hex_padded(0, 6), "000000");
    assert_eq!(render_hex_padded(255, 6), "0000FF");
    assert_eq!(render_hex_padded(0xE74C3C, 6), "E74C3C");
    assert_eq!(render_hex_padded(0x12345678, 6), "12345678");
    for n in [0u32, 1, 0xabc, 0xffffff, 0x1000000] {
        assert_eq!(render_hex_padded(n, 6), format!("{:06X}", n));
    }
}

#[test]
fn trims_white_space() {
    assert_eq!(trim("  a b \n"), "a b");
    assert_eq!(trim("\u{3000}x\u{85}"), "x");
    assert_eq!(trim(""), "");
    assert_eq!(trim(" \t\r\n"), "");
    assert_eq!(trim("abc"), "abc");
    for s in ["  select 1\n", "\u{a0}y\u{2028}", "\u{200b}z", " \u{1680} w \u{202f}"] {
        assert_eq!(trim(s), s.trim(), "{:?}", s);
    }
}

#[test]
fn tells_white_space() {
    for c in ['\t', '\n', '\u{b}', '\u{c}', '\r', ' ', '\u{85}', '\u{a0}', '\u{1680}', '\u{2000}', '\u{200a}', '\u{2028}', '\u{2029}', '\u{202f}', '\u{205f}', '\u{3000}'] {
        assert!(is_whitespace(c), "{:?}", c);
    }
    for c in ['a', '0', '\u{200b}', '\u{180e}', '\u{feff}', '_'] {
        assert!(!is_whitespace(c), "{:?}", c);
    }
    for u in 0u32..0x3100 {
        if let Some(c) = char::from_u32(u) {
            assert_eq!(is_whitespace(c), c.is_whitespace(), "{:?}", c);
        }
    }
}
