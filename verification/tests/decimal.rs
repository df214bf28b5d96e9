use cell_engine::decimal::{parse_u32, u32_to_decimal};

#[test]
fn parse_reads_plain_digits() {
    assert_eq!(parse_u32("0"), Some(0));
    assert_eq!(parse_u32("10"), Some(10));
    assert_eq!(parse_u32("4294967295"), Some(u32::MAX));
}

#[test]
fn parse_agrees_with_std() {
    for text in [
        "", "+", "-", "+5", "-5", "-0", "007", "+007", "4294967295", "4294967296",
        "99999999999999999999", " 1", "1 ", "1_000", "0x10", "1e3", "١٢٣", "12a", "++1", "+-1",
        "1+", "٣",
    ] {
        assert_eq!(parse_u32(text), text.parse::<u32>().ok(), "text {:?}", text);
    }
}

#[test]
fn format_agrees_with_std() {
    for n in [0u32, 1, 9, 10, 11, 99, 100, 512, 1000, 120_000, 1_200_000, u32::MAX] {
        assert_eq!(u32_to_decimal(n), format!("{}", n));
        assert_eq!(parse_u32(&u32_to_decimal(n)), Some(n));
    }
}
