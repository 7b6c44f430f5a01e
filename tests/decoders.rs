use aws_crawler::fields::{
    decode_decimal, decode_unsigned, Dec, DecodeError, Height, RainStatus, WindDirectionText,
};
use aws_crawler::text::{is_white_space, parse_u32, text_is, trim};

fn dec(mantissa: i128, scale: u32) -> Option<Dec> {
    Some(Dec { mantissa, scale })
}

#[test]
fn decimal_reads_fraction() {
    assert_eq!(decode_decimal("12.5"), dec(125, 1));
}

#[test]
fn decimal_reads_negative() {
    assert_eq!(decode_decimal("-3.2"), dec(-32, 1));
}

#[test]
fn decimal_reads_integer() {
    assert_eq!(decode_decimal("7"), dec(7, 0));
    assert_eq!(decode_decimal("0.05"), dec(5, 2));
}

#[test]
fn decimal_lone_period_is_absent() {
    assert_eq!(decode_decimal("."), None);
}

#[test]
fn decimal_empty_is_absent() {
    assert_eq!(decode_decimal(""), None);
}

#[test]
fn decimal_text_is_absent() {
    assert_eq!(decode_decimal("-"), None);
    assert_eq!(decode_decimal("abc"), None);
}

#[test]
fn unsigned_reads_digits() {
    assert_eq!(decode_unsigned("0"), Ok(0));
    assert_eq!(decode_unsigned("415"), Ok(415));
    assert_eq!(decode_unsigned("4294967295"), Ok(4294967295));
}

#[test]
fn unsigned_refuses_overflow() {
    assert_eq!(decode_unsigned("4294967296"), Err(DecodeError::InvalidNumber));
}

#[test]
fn unsigned_refuses_non_digits() {
    assert_eq!(decode_unsigned(""), Err(DecodeError::InvalidNumber));
    assert_eq!(decode_unsigned("12a"), Err(DecodeError::InvalidNumber));
    assert_eq!(decode_unsigned("-1"), Err(DecodeError::InvalidNumber));
    assert_eq!(decode_unsigned("+1"), Err(DecodeError::InvalidNumber));
    assert_eq!(parse_u32(" 1"), None);
}

#[test]
fn height_strips_unit() {
    assert_eq!(Height::decode("10m"), Ok(Height(10)));
    assert_eq!(Height::decode("1234m"), Ok(Height(1234)));
}

#[test]
fn height_unit_alone_fails() {
    assert_eq!(Height::decode("m"), Err(DecodeError::InvalidNumber));
}

#[test]
fn height_empty_is_too_short() {
    assert_eq!(Height::decode(""), Err(DecodeError::TooShort));
}

#[test]
fn height_strips_multibyte_unit() {
    assert_eq!(Height::decode("25㎙"), Ok(Height(25)));
}

#[test]
fn height_refuses_bad_number() {
    assert_eq!(Height::decode("x5m"), Err(DecodeError::InvalidNumber));
}

#[test]
fn rain_status_glyphs() {
    assert_eq!(RainStatus::decode("●"), RainStatus::Rain);
    assert_eq!(RainStatus::decode("○"), RainStatus::Clear);
    assert_eq!(RainStatus::decode("."), RainStatus::Unavailable);
    assert_eq!(RainStatus::decode("xyz"), RainStatus::Unknown);
    assert_eq!(RainStatus::decode(""), RainStatus::Unknown);
}

#[test]
fn wind_direction_texts() {
    assert_eq!(WindDirectionText::decode("NNE"), WindDirectionText::NNE);
    assert_eq!(WindDirectionText::decode("N"), WindDirectionText::N);
    assert_eq!(WindDirectionText::decode("WSW"), WindDirectionText::WSW);
    assert_eq!(WindDirectionText::decode("-"), WindDirectionText::No);
    assert_eq!(WindDirectionText::decode("q"), WindDirectionText::Unavailable);
    assert_eq!(WindDirectionText::decode("nne"), WindDirectionText::Unavailable);
}

#[test]
fn trim_removes_outer_white_space() {
    assert_eq!(trim("  a b \t\n"), "a b".to_string());
    assert_eq!(trim("\u{3000}x\u{a0}"), "x".to_string());
    assert_eq!(trim("   "), "".to_string());
    assert_eq!(trim(""), "".to_string());
}

#[test]
fn white_space_classes() {
    assert!(is_white_space(' '));
    assert!(is_white_space('\u{2003}'));
    assert!(!is_white_space('a'));
    assert!(!is_white_space('\u{200b}'));
}

#[test]
fn text_is_exact() {
    assert!(text_is("NE", "NE"));
    assert!(!text_is("NE", "NNE"));
    assert!(!text_is("NE ", "NE"));
}
