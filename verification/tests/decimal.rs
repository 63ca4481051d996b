use siliconv::decimal::{format_signed, format_unsigned, parse_signed, parse_unsigned};
use siliconv::float_text::FloatText;
use siliconv::meta::{FieldMap, Meta};

struct StdText;

impl FloatText for StdText {
    fn write(bits: u64) -> String {
        f64::from_bits(bits).to_string()
    }

    fn read(text: String) -> Option<u64> {
        text.parse::<f64>().ok().map(f64::to_bits)
    }

    fn write_single(bits: u32) -> String {
        f32::from_bits(bits).to_string()
    }

    fn read_single(text: String) -> Option<u32> {
        text.parse::<f32>().ok().map(f32::to_bits)
    }
}

const TEXTS: [&str; 40] = [
    "", "+", "-", "0", "-0", "+0", "00", "-00", "1", "+1", "-1", "5", "-5", "6", "-6", "9", "10",
    "-10", "-11", "007", "-007", "+007", " 7", "7 ", "7a", "a7", "--7", "+-7", "-+7", "1_0", "1.0",
    "1e1", "٣", "9223372036854775807", "9223372036854775808", "-9223372036854775808",
    "-9223372036854775809", "18446744073709551615", "18446744073709551616",
    "340282366920938463463374607431768211455",
];

#[test]
fn writing_is_the_standard_writing() {
    for n in [0u64, 5, 9, 10, 19, 20, 99, 100, 1000, 60, 240, 2137, u64::MAX / 10, u64::MAX] {
        assert_eq!(format_unsigned(n), n.to_string());
    }
    for n in [i64::MIN, -1000, -100, -19, -10, -9, -1, 0, 1, 9, 10, 100, i64::MAX] {
        assert_eq!(format_signed(n), n.to_string());
    }
    assert_eq!(format_unsigned(0), "0");
    assert_eq!(format_unsigned(1234567890), "1234567890");
    assert_eq!(format_signed(-42), "-42");
}

#[test]
fn unsigned_reading_keeps_to_its_limit() {
    for max in [0u64, 5, 9, 10, 255, u64::MAX] {
        for text in TEXTS {
            let wanted = text.parse::<u128>().ok().filter(|n| *n <= max as u128).map(|n| n as u64);
            assert_eq!(parse_unsigned(text, max), wanted, "{text:?} up to {max}");
        }
    }
    assert_eq!(parse_unsigned("5", 5), Some(5));
    assert_eq!(parse_unsigned("6", 5), None);
    assert_eq!(parse_unsigned("+0005", 5), Some(5));
    assert_eq!(parse_unsigned("-0", 5), None);
}

#[test]
fn signed_reading_keeps_to_its_range() {
    let ranges = [
        (i64::MIN, i64::MAX),
        (-5, 5),
        (-128, 127),
        (-10, -1),
        (-10, 0),
        (0, 10),
        (1, 10),
        (5, 1),
        (-1, -5),
        (i64::MIN, -1),
        (0, i64::MAX),
        (0, 0),
    ];
    for (min, max) in ranges {
        for text in TEXTS {
            // A `-` is a sign only in a range that holds negative numbers.
            let number = if min < 0 {
                text.parse::<i128>().ok()
            } else {
                text.parse::<u128>().ok().and_then(|n| i128::try_from(n).ok())
            };
            let wanted = number
                .filter(|n| min as i128 <= *n && *n <= max as i128)
                .map(|n| n as i64);
            assert_eq!(parse_signed(text, min, max), wanted, "{text:?} in {min}..={max}");
        }
    }
    assert_eq!(parse_signed("-5", -5, 5), Some(-5));
    assert_eq!(parse_signed("-6", -5, 5), None);
    assert_eq!(parse_signed("-0", -10, -1), None);
    assert_eq!(parse_signed("-0", 0, 10), None);
    assert_eq!(parse_signed("-0", -1, 10), Some(0));
}

#[test]
fn reading_gives_back_what_was_written() {
    for n in [0u64, 1, 10, 2137, u64::MAX] {
        assert_eq!(parse_unsigned(&format_unsigned(n), u64::MAX), Some(n));
    }
    for n in [i64::MIN, -2137, -1, 0, 1, i64::MAX] {
        assert_eq!(parse_signed(&format_signed(n), i64::MIN, i64::MAX), Some(n));
    }
}

#[test]
fn no_metadata_offers_and_takes_nothing() {
    let offered = ().fields::<StdText>();
    assert!(!offered.contains_key("tps"));
    assert!(offered.get("seed").is_none());
    assert_eq!(offered.decode_or::<u64>("seed", 9), 9);
    let mut other: FieldMap<'_, StdText> = FieldMap::new();
    let seed = 4u64;
    other.insert("seed".to_string(), siliconv::meta::MetaField::new(&seed));
    assert_eq!(<()>::from_fields(other), ());
}
