use ps2events::text::{parse_i32_text, parse_u32_text, parse_u64_text, str_contains, u64_to_text};

#[test]
fn parse_u64_reads_plain_decimals() {
    assert_eq!(parse_u64_text("0"), Some(0));
    assert_eq!(parse_u64_text("123"), Some(123));
    assert_eq!(parse_u64_text("18446744073709551615"), Some(u64::MAX));
}

#[test]
fn parse_u64_rejects_empty_signs_and_junk() {
    assert_eq!(parse_u64_text(""), None);
    assert_eq!(parse_u64_text("-1"), None);
    assert_eq!(parse_u64_text("12a"), None);
    assert_eq!(parse_u64_text(" 12"), None);
    assert_eq!(parse_u64_text("1.5"), None);
}

#[test]
fn parse_u64_rejects_overflow() {
    assert_eq!(parse_u64_text("18446744073709551616"), None);
    assert_eq!(parse_u64_text("99999999999999999999999"), None);
}

#[test]
fn parse_u32_respects_its_bound() {
    assert_eq!(parse_u32_text("4294967295"), Some(u32::MAX));
    assert_eq!(parse_u32_text("4294967296"), None);
}

#[test]
fn parse_i32_reads_signed_decimals() {
    assert_eq!(parse_i32_text("0"), Some(0));
    assert_eq!(parse_i32_text("-1"), Some(-1));
    assert_eq!(parse_i32_text("2147483647"), Some(i32::MAX));
    assert_eq!(parse_i32_text("-2147483648"), Some(i32::MIN));
    assert_eq!(parse_i32_text("2147483648"), None);
    assert_eq!(parse_i32_text("-2147483649"), None);
    assert_eq!(parse_i32_text("-"), None);
}

#[test]
fn u64_to_text_renders_decimal() {
    assert_eq!(u64_to_text(0), "0");
    assert_eq!(u64_to_text(7), "7");
    assert_eq!(u64_to_text(1234567), "1234567");
    assert_eq!(u64_to_text(u64::MAX), "18446744073709551615");
}

#[test]
fn str_contains_finds_substrings() {
    assert!(str_contains("Squad Heal", "Squad"));
    assert!(str_contains("Squad", "Squad"));
    assert!(str_contains("anything", ""));
    assert!(!str_contains("Heal", "Squad"));
    assert!(!str_contains("Squ", "Squad"));
}
