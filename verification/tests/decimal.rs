use the_blockheads_tools_lib::decimal::{parse_bounded, u8_to_decimal, DecimalError};

fn expected_u64(field: &str) -> Result<u64, DecimalError> {
    field.parse::<u64>().map_err(|e| match e.to_string().as_str() {
        "cannot parse integer from empty string" => DecimalError::Empty,
        "invalid digit found in string" => DecimalError::InvalidDigit,
        "number too large to fit in target type" => DecimalError::Overflow,
        other => panic!("unexpected error text {other}"),
    })
}

fn expected_u8(field: &str) -> Result<u64, DecimalError> {
    field
        .parse::<u8>()
        .map(|v| v as u64)
        .map_err(|e| match e.to_string().as_str() {
            "cannot parse integer from empty string" => DecimalError::Empty,
            "invalid digit found in string" => DecimalError::InvalidDigit,
            "number too large to fit in target type" => DecimalError::Overflow,
            other => panic!("unexpected error text {other}"),
        })
}

#[test]
fn numbers_are_read_as_the_standard_parser_reads_them() {
    let fields = [
        "", "+", "-", "++1", "+-1", "0", "00", "+0", "-0", "9", "10", "255", "256", "0255", "00256",
        "300", "2550", "25a", "26a", "a", "1_", "1 ", " 1", "1.0", "1e3", "0x10", "18446744073709551615",
        "18446744073709551616", "018446744073709551615", "184467440737095516150",
        "+18446744073709551615", "99999999999999999999", "9999999999999999999a", "/", ":", "٣",
    ];
    for field in fields {
        assert_eq!(
            parse_bounded(field.as_bytes(), u64::MAX),
            expected_u64(field),
            "{field:?} as u64"
        );
        assert_eq!(
            parse_bounded(field.as_bytes(), 255),
            expected_u8(field),
            "{field:?} as u8"
        );
    }
}

#[test]
fn every_byte_is_read_back() {
    for value in 0..=255u8 {
        let text = value.to_string();
        assert_eq!(parse_bounded(text.as_bytes(), 255), Ok(value as u64));
        assert_eq!(u8_to_decimal(value), text);
    }
    for value in 256..2000u64 {
        assert_eq!(
            parse_bounded(value.to_string().as_bytes(), 255),
            Err(DecimalError::Overflow)
        );
    }
}

#[test]
fn other_limits() {
    assert_eq!(parse_bounded(b"0", 0), Ok(0));
    assert_eq!(parse_bounded(b"1", 0), Err(DecimalError::Overflow));
    assert_eq!(parse_bounded(b"31", 31), Ok(31));
    assert_eq!(parse_bounded(b"32", 31), Err(DecimalError::Overflow));
    assert_eq!(parse_bounded(b"3x", 2), Err(DecimalError::Overflow));
    assert_eq!(parse_bounded(b"2x", 2), Err(DecimalError::InvalidDigit));
}

#[test]
fn bytes_in_decimal() {
    assert_eq!(u8_to_decimal(0), "0");
    assert_eq!(u8_to_decimal(9), "9");
    assert_eq!(u8_to_decimal(10), "10");
    assert_eq!(u8_to_decimal(99), "99");
    assert_eq!(u8_to_decimal(100), "100");
    assert_eq!(u8_to_decimal(205), "205");
    assert_eq!(u8_to_decimal(255), "255");
}
