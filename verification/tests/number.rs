use std::num::IntErrorKind;
use sunminimart::number::parse_i32;
use sunminimart::number::parse_i32_text;
use sunminimart::number::parse_u32;
use sunminimart::number::ParseIntError;

fn kind_of(kind: &IntErrorKind) -> ParseIntError {
    match kind {
        IntErrorKind::Empty => ParseIntError::Empty,
        IntErrorKind::InvalidDigit => ParseIntError::InvalidDigit,
        IntErrorKind::PosOverflow => ParseIntError::PosOverflow,
        IntErrorKind::NegOverflow => ParseIntError::NegOverflow,
        _ => panic!("no such error for these types"),
    }
}

fn texts() -> Vec<&'static str> {
    vec![
        "",
        "0",
        "7",
        "10",
        "007",
        "+5",
        "-5",
        "+0",
        "-0",
        "+",
        "-",
        "++1",
        "--1",
        "+-1",
        "-+1",
        "1-",
        "1+",
        " 1",
        "1 ",
        "1.0",
        "1e3",
        "0x10",
        "1_000",
        "๑๒",
        "１２",
        "12a",
        "a12",
        "1000",
        "1001",
        "2147483647",
        "2147483648",
        "+2147483647",
        "+2147483648",
        "-2147483648",
        "-2147483649",
        "4294967295",
        "4294967296",
        "+4294967295",
        "-4294967295",
        "0000000000000000000002147483647",
        "00000000000000000000004294967295",
        "-0000000000000000000002147483648",
        "99999999999",
        "-99999999999",
        "99999999999x",
        "-99999999999x",
        "21474836470",
        "2147483647x",
        "214748364x",
        "-214748364x8",
        "42949672950x",
        "9223372036854775808",
        "123456789012345678901234567890",
    ]
}

#[test]
fn i32_reading_agrees_with_the_standard_library() {
    for text in texts() {
        let ours = parse_i32(text.as_bytes());
        let theirs = text.parse::<i32>().map_err(|error| kind_of(error.kind()));
        assert_eq!(ours, theirs, "on {:?}", text);
        assert_eq!(parse_i32_text(text), theirs, "on {:?}", text);
    }
}

#[test]
fn u32_reading_agrees_with_the_standard_library() {
    for text in texts() {
        let ours = parse_u32(text.as_bytes());
        let theirs = text.parse::<u32>().map_err(|error| kind_of(error.kind()));
        assert_eq!(ours, theirs, "on {:?}", text);
    }
}

#[test]
fn i32_reading_gives_exact_values() {
    assert_eq!(parse_i32(b"10"), Ok(10));
    assert_eq!(parse_i32(b"-2147483648"), Ok(i32::MIN));
    assert_eq!(parse_i32(b"2147483647"), Ok(i32::MAX));
    assert_eq!(parse_i32(b"+0042"), Ok(42));
    assert_eq!(parse_i32(b""), Err(ParseIntError::Empty));
    assert_eq!(parse_i32(b"-"), Err(ParseIntError::InvalidDigit));
    assert_eq!(parse_i32(b"4 2"), Err(ParseIntError::InvalidDigit));
    assert_eq!(parse_i32(b"2147483648"), Err(ParseIntError::PosOverflow));
    assert_eq!(parse_i32(b"-2147483649"), Err(ParseIntError::NegOverflow));
    assert_eq!(parse_i32(&[0xff, 0x31]), Err(ParseIntError::InvalidDigit));
}

#[test]
fn u32_reading_gives_exact_values() {
    assert_eq!(parse_u32(b"0"), Ok(0));
    assert_eq!(parse_u32(b"4294967295"), Ok(u32::MAX));
    assert_eq!(parse_u32(b"+12"), Ok(12));
    assert_eq!(parse_u32(b""), Err(ParseIntError::Empty));
    assert_eq!(parse_u32(b"-1"), Err(ParseIntError::InvalidDigit));
    assert_eq!(parse_u32(b"-"), Err(ParseIntError::InvalidDigit));
    assert_eq!(parse_u32(b"4294967296"), Err(ParseIntError::PosOverflow));
}

#[test]
fn the_first_fault_from_the_left_decides_the_error() {
    assert_eq!(parse_i32(b"99999999999x"), Err(ParseIntError::PosOverflow));
    assert_eq!(parse_i32(b"9x9999999999"), Err(ParseIntError::InvalidDigit));
    assert_eq!(parse_i32(b"-99999999999x"), Err(ParseIntError::NegOverflow));
}

#[test]
fn errors_say_what_the_standard_library_says() {
    let empty = "".parse::<i32>().unwrap_err();
    let digit = "x".parse::<i32>().unwrap_err();
    let above = "2147483648".parse::<i32>().unwrap_err();
    let below = "-2147483649".parse::<i32>().unwrap_err();
    assert_eq!(ParseIntError::Empty.description(), empty.to_string());
    assert_eq!(ParseIntError::InvalidDigit.description(), digit.to_string());
    assert_eq!(ParseIntError::PosOverflow.description(), above.to_string());
    assert_eq!(ParseIntError::NegOverflow.description(), below.to_string());
    assert_eq!(
        ParseIntError::InvalidDigit.description(),
        "invalid digit found in string"
    );
}
