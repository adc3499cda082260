use vanguard::text::{contains, decimal, find, parse_decimal_u64, signed_decimal, trim};

#[test]
fn trim_removes_unicode_whitespace_both_ends() {
    assert_eq!(trim("  hello world \t\n"), "hello world");
    assert_eq!(trim("\u{3000}x\u{a0}"), "x");
    assert_eq!(trim("   "), "");
    assert_eq!(trim(""), "");
}

#[test]
fn parse_decimal_follows_std() {
    for s in ["0", "42", "+7", "", "+", "-1", "12a", "18446744073709551615", "18446744073709551616", " 1", "007"] {
        assert_eq!(parse_decimal_u64(s), s.parse::<u64>().ok(), "input {:?}", s);
    }
}

#[test]
fn decimal_rendering() {
    assert_eq!(decimal(0), "0");
    assert_eq!(decimal(1234567890), "1234567890");
    assert_eq!(decimal(u64::MAX), u64::MAX.to_string());
    assert_eq!(signed_decimal(-42), "-42");
    assert_eq!(signed_decimal(i32::MIN), i32::MIN.to_string());
    assert_eq!(signed_decimal(7), "7");
}

fn chars_of(s: &str) -> Vec<char> {
    s.chars().collect()
}

#[test]
fn find_first_occurrence() {
    let s = chars_of("abcabc");
    assert_eq!(find(&s, &chars_of("bc")), Some(1));
    assert_eq!(find(&s, &chars_of("x")), None);
    assert!(contains(&s, &chars_of("cab")));
    assert_eq!(find(&s, &chars_of("")), Some(0));
}

#[test]
fn trim_agrees_with_std_on_every_char() {
    for u in 0u32..=0x10FFFF {
        if let Some(c) = char::from_u32(u) {
            let s = format!("{c}a{c}");
            assert_eq!(trim(&s), s.trim(), "char U+{:04X}", u);
        }
    }
}
