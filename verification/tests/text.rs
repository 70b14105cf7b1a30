use forum::handlers::numbers::{
    decimal_string, parse_u32, parse_u32_or_zero, parse_u64, parse_u64_or_zero, IntErrorKind, ParseIntError,
};
use forum::handlers::utils::sanitize_html;

#[test]
fn sanitize_escapes_angle_brackets() {
    assert_eq!(sanitize_html("<script>alert(1)</script>"), "&lt;script&gt;alert(1)&lt;/script&gt;");
}

#[test]
fn sanitize_keeps_plain_text() {
    assert_eq!(sanitize_html("a & b, ünïcode"), "a & b, ünïcode");
    assert_eq!(sanitize_html(""), "");
}

#[test]
fn sanitize_twice_is_sanitize_once() {
    let once = sanitize_html("1 < 2 > 0 &lt;");
    assert_eq!(once, "1 &lt; 2 &gt; 0 &lt;");
    assert_eq!(sanitize_html(&once), once);
}

#[test]
fn sanitize_output_has_no_brackets() {
    let out = sanitize_html("<<>><a href='x'>");
    assert!(!out.contains('<') && !out.contains('>'));
}

#[test]
fn parse_u32_reads_decimals() {
    assert_eq!(parse_u32("42"), Ok(42));
    assert_eq!(parse_u32("+7"), Ok(7));
    assert_eq!(parse_u32("007"), Ok(7));
    assert_eq!(parse_u32("4294967295"), Ok(u32::MAX));
}

#[test]
fn parse_u32_errors() {
    assert_eq!(parse_u32(""), Err(ParseIntError { kind: IntErrorKind::Empty }));
    assert_eq!(parse_u32("+"), Err(ParseIntError { kind: IntErrorKind::InvalidDigit }));
    assert_eq!(parse_u32("-"), Err(ParseIntError { kind: IntErrorKind::InvalidDigit }));
    assert_eq!(parse_u32("-1"), Err(ParseIntError { kind: IntErrorKind::InvalidDigit }));
    assert_eq!(parse_u32("12a"), Err(ParseIntError { kind: IntErrorKind::InvalidDigit }));
    assert_eq!(parse_u32(" 1"), Err(ParseIntError { kind: IntErrorKind::InvalidDigit }));
    assert_eq!(parse_u32("4294967296"), Err(ParseIntError { kind: IntErrorKind::PosOverflow }));
    assert_eq!(parse_u32("99999999999x"), Err(ParseIntError { kind: IntErrorKind::PosOverflow }));
}

#[test]
fn parse_agrees_with_std() {
    for s in ["", "+", "-", "0", "+0", "-0", "12", "1x", "x1", "4294967295", "4294967296", "99999999999x", "٣"] {
        assert_eq!(parse_u32(s).ok(), s.parse::<u32>().ok(), "{}", s);
        assert_eq!(parse_u64(s).ok(), s.parse::<u64>().ok(), "{}", s);
        if let (Err(mine), Err(theirs)) = (parse_u32(s), s.parse::<u32>()) {
            assert_eq!(mine.message(), theirs.to_string(), "{}", s);
        }
    }
}

#[test]
fn parse_error_messages() {
    assert_eq!(ParseIntError { kind: IntErrorKind::Empty }.message(), "cannot parse integer from empty string");
    assert_eq!(ParseIntError { kind: IntErrorKind::InvalidDigit }.message(), "invalid digit found in string");
    assert_eq!(ParseIntError { kind: IntErrorKind::PosOverflow }.message(), "number too large to fit in target type");
}

#[test]
fn parse_u64_reads_large_numbers() {
    assert_eq!(parse_u64("18446744073709551615"), Ok(u64::MAX));
    assert_eq!(parse_u64("18446744073709551616"), Err(ParseIntError { kind: IntErrorKind::PosOverflow }));
}

#[test]
fn or_zero_falls_back() {
    assert_eq!(parse_u32_or_zero(None), 0);
    assert_eq!(parse_u32_or_zero(Some("abc")), 0);
    assert_eq!(parse_u32_or_zero(Some("15")), 15);
    assert_eq!(parse_u64_or_zero(Some("5000000000")), 5_000_000_000);
    assert_eq!(parse_u64_or_zero(None), 0);
}

#[test]
fn decimal_text_of_numbers() {
    assert_eq!(decimal_string(0), "0");
    assert_eq!(decimal_string(1234), "1234");
    assert_eq!(decimal_string(u64::MAX), "18446744073709551615");
}

#[test]
fn decimal_text_reads_back() {
    for n in [0u32, 1, 9, 10, 99, 100, 65536, u32::MAX] {
        assert_eq!(parse_u32(&decimal_string(n as u64)), Ok(n));
    }
}

#[test]
fn sanitize_matches_replacing_brackets() {
    for s in ["", "<", ">", "<>", "a<b>c", "&lt;", "<<x>>", "ä<ö>ü", "no brackets here"] {
        assert_eq!(sanitize_html(s), s.replace('<', "&lt;").replace('>', "&gt;"), "{}", s);
    }
}
