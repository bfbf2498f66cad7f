use exchange_model::codec::{
    decode_number, decode_optional_number, decode_optional_timestamp, decode_timestamp,
};
use exchange_model::decimal::Decimal;
use exchange_model::error::DecodeError;
use exchange_model::ident::Uuid;
use exchange_model::instant::{Instant, MAX_SECONDS, MIN_SECONDS};
use exchange_model::text::{chars_of, parse_unsigned, string_of, unsigned_text};

fn decimal(negative: bool, mantissa: u128, scale: u32) -> Decimal {
    Decimal::new(negative, mantissa, scale)
}

#[test]
fn decimal_reads_wire_amounts() {
    assert_eq!(Decimal::parse("1.12000000"), Some(decimal(false, 112, 2)));
    assert_eq!(Decimal::parse("1.00000000"), Some(decimal(false, 1, 0)));
    assert_eq!(Decimal::parse("0.00100000"), Some(decimal(false, 1, 3)));
    assert_eq!(Decimal::parse("28.2449436100000000"), Some(decimal(false, 2824494361, 8)));
    assert_eq!(Decimal::parse("0.0000000000000000"), Some(decimal(false, 0, 0)));
    assert_eq!(Decimal::parse("100000.00000000"), Some(decimal(false, 100000, 0)));
}

#[test]
fn decimal_parts_are_canonical() {
    let d = Decimal::parse("1.12000000").unwrap();
    assert!(!d.is_negative());
    assert_eq!(d.mantissa(), 112);
    assert_eq!(d.scale(), 2);
    let z = Decimal::parse("-0.000").unwrap();
    assert!(!z.is_negative());
    assert_eq!(z.mantissa(), 0);
    assert_eq!(z.scale(), 0);
}

#[test]
fn decimal_reads_signs_and_bare_points() {
    assert_eq!(Decimal::parse("-0.5"), Some(decimal(true, 5, 1)));
    assert_eq!(Decimal::parse("+3"), Some(decimal(false, 3, 0)));
    assert_eq!(Decimal::parse(".5"), Some(decimal(false, 5, 1)));
    assert_eq!(Decimal::parse("5."), Some(decimal(false, 5, 0)));
    assert_eq!(Decimal::parse("007"), Some(decimal(false, 7, 0)));
    assert_eq!(Decimal::parse("-12.50"), Some(decimal(true, 125, 1)));
}

#[test]
fn decimal_rejects_what_is_no_plain_decimal() {
    for text in ["", ".", "-", "+", "abc", "1e5", "1.2.3", "--1", "inf", "NaN", " 1", "1 ", "1,5", "0x10"] {
        assert_eq!(Decimal::parse(text), None, "{:?}", text);
    }
}

#[test]
fn decimal_holds_what_fits_in_128_bits() {
    let max = "340282366920938463463374607431768211455";
    assert_eq!(Decimal::parse(max), Some(decimal(false, u128::MAX, 0)));
    assert_eq!(Decimal::parse("340282366920938463463374607431768211456"), None);
    assert_eq!(Decimal::parse("3402823669209384634633746074317682114550"), None);
    assert_eq!(
        Decimal::parse("3.40282366920938463463374607431768211455"),
        Some(decimal(false, u128::MAX, 38))
    );
    assert_eq!(Decimal::parse("1.0000000000000000000000000000000000000000000000"), Some(decimal(false, 1, 0)));
}

#[test]
fn decimal_new_normalizes() {
    assert_eq!(decimal(false, 1120, 3), decimal(false, 112, 2));
    assert_eq!(decimal(true, 0, 5), decimal(false, 0, 0));
    assert_eq!(decimal(false, 100, 0).mantissa(), 100);
    assert_eq!(decimal(false, 100, 1).mantissa(), 10);
    assert_eq!(decimal(false, 100, 1).scale(), 0);
    assert_eq!(Decimal::from_unsigned(42), decimal(false, 42, 0));
}

#[test]
fn decimal_writes_canonical_text() {
    assert_eq!(decimal(false, 112, 2).to_text(), "1.12");
    assert_eq!(decimal(false, 1, 3).to_text(), "0.001");
    assert_eq!(decimal(true, 125, 1).to_text(), "-12.5");
    assert_eq!(decimal(false, 0, 0).to_text(), "0");
    assert_eq!(decimal(false, 5, 0).to_text(), "5");
    assert_eq!(decimal(false, 5, 1).to_text(), "0.5");
    assert_eq!(decimal(false, 2824494361, 8).to_text(), "28.24494361");
    assert_eq!(decimal(false, u128::MAX, 0).to_text(), "340282366920938463463374607431768211455");
}

#[test]
fn decimal_text_reads_back() {
    for d in [
        decimal(false, 112, 2),
        decimal(true, 1, 9),
        decimal(false, 0, 0),
        decimal(false, u128::MAX, 38),
        decimal(true, 123456789, 4),
        decimal(false, 7, 40),
    ] {
        assert_eq!(Decimal::parse(&d.to_text()), Some(d));
    }
}

#[test]
fn decimal_to_unsigned() {
    assert_eq!(decimal(false, 42, 0).to_unsigned(), Some(42));
    assert_eq!(decimal(false, 0, 0).to_unsigned(), Some(0));
    assert_eq!(decimal(true, 42, 0).to_unsigned(), None);
    assert_eq!(decimal(false, 425, 1).to_unsigned(), None);
    assert_eq!(decimal(false, u128::MAX, 0).to_unsigned(), None);
}

#[test]
fn optional_number_agrees_with_required() {
    for text in ["1.12000000", "0", "-3.5", "28.2449436100000000"] {
        let required = decode_number(text, "price").unwrap();
        assert_eq!(decode_optional_number(Some(text), "price"), Ok(Some(required)));
    }
    assert_eq!(decode_optional_number(None, "price"), Ok(None));
}

#[test]
fn number_codec_reports_the_field() {
    assert_eq!(decode_number("", "size"), Err(DecodeError::InvalidNumber("size".to_string())));
    assert_eq!(decode_number("x", "size"), Err(DecodeError::InvalidNumber("size".to_string())));
    assert_eq!(
        decode_optional_number(Some(""), "funds"),
        Err(DecodeError::InvalidNumber("funds".to_string()))
    );
    assert_eq!(decode_number("x", "size").unwrap_err().subject(), "size");
}

#[test]
fn unsigned_text_codec() {
    assert_eq!(parse_unsigned("0"), Some(0));
    assert_eq!(parse_unsigned("12345"), Some(12345));
    assert_eq!(parse_unsigned("+7"), Some(7));
    assert_eq!(parse_unsigned("007"), Some(7));
    assert_eq!(parse_unsigned(""), None);
    assert_eq!(parse_unsigned("+"), None);
    assert_eq!(parse_unsigned("-1"), None);
    assert_eq!(parse_unsigned("1.0"), None);
    assert_eq!(parse_unsigned("12a"), None);
    assert_eq!(parse_unsigned(&usize::MAX.to_string()), Some(usize::MAX));
    assert_eq!(parse_unsigned("340282366920938463463374607431768211456"), None);
    assert_eq!(unsigned_text(0), "0");
    assert_eq!(unsigned_text(9070), "9070");
    assert_eq!(parse_unsigned(&unsigned_text(usize::MAX)), Some(usize::MAX));
}

#[test]
fn characters_round_trip() {
    let chars = chars_of("a.b-ü");
    assert_eq!(chars, vec!['a', '.', 'b', '-', 'ü']);
    assert_eq!(string_of(&chars), "a.b-ü");
    assert_eq!(string_of(&Vec::new()), "");
}

#[test]
fn uuid_reads_and_writes_hyphenated_text() {
    let id = Uuid::parse("e9d0ff7a-ed50-4040-87a7-c884ae562807").unwrap();
    assert_eq!(id.as_u128(), 0xe9d0ff7a_ed50_4040_87a7_c884ae562807);
    assert_eq!(id, Uuid::from_u128(310795302518190365264578159228109596679));
    assert_eq!(id.to_text(), "e9d0ff7a-ed50-4040-87a7-c884ae562807");
    assert_eq!(Uuid::from_u128(0).to_text(), "00000000-0000-0000-0000-000000000000");
    assert_eq!(Uuid::parse(&Uuid::from_u128(u128::MAX).to_text()), Some(Uuid::from_u128(u128::MAX)));
}

#[test]
fn uuid_text_is_the_hex_digits_in_five_groups() {
    for value in [
        0u128,
        1,
        u128::MAX,
        0xe9d0ff7a_ed50_4040_87a7_c884ae562807,
        0x0123456789abcdef_fedcba9876543210,
        0xa << 124,
    ] {
        let mut expected = String::new();
        for k in 0..32u32 {
            if k == 8 || k == 12 || k == 16 || k == 20 {
                expected.push('-');
            }
            let digit = ((value >> (4 * (31 - k))) & 0xf) as u32;
            expected.push(char::from_digit(digit, 16).unwrap());
        }
        assert_eq!(Uuid::from_u128(value).to_text(), expected);
    }
}

#[test]
fn uuid_reads_the_other_forms_and_rejects_the_rest() {
    let id = Uuid::from_u128(0xe9d0ff7a_ed50_4040_87a7_c884ae562807);
    assert_eq!(Uuid::parse("e9d0ff7aed50404087a7c884ae562807"), Some(id));
    assert_eq!(Uuid::parse("E9D0FF7A-ED50-4040-87A7-C884AE562807"), Some(id));
    assert_eq!(Uuid::parse("{e9d0ff7a-ed50-4040-87a7-c884ae562807}"), Some(id));
    assert_eq!(Uuid::parse(""), None);
    assert_eq!(Uuid::parse("e9d0ff7a-ed50-4040-87a7"), None);
    assert_eq!(Uuid::parse("g9d0ff7a-ed50-4040-87a7-c884ae562807"), None);
}

#[test]
fn instant_reads_rfc3339() {
    let t = Instant::parse("2015-01-07T23:47:25.201Z").unwrap();
    assert_eq!((t.seconds(), t.nanos()), (1420674445, 201_000_000));
    let t = Instant::parse("2018-08-23T18:53:42.144811Z").unwrap();
    assert_eq!((t.seconds(), t.nanos()), (1535050422, 144_811_000));
    let t = Instant::parse("1969-12-31T23:59:59Z").unwrap();
    assert_eq!((t.seconds(), t.nanos()), (-1, 0));
}

#[test]
fn instant_lenient_reading_takes_spaces_and_offsets() {
    let expected = Instant::new(1355314332, 0);
    assert!(expected.is_some());
    assert_eq!(Instant::parse("2012-12-12T12:12:12Z"), expected);
    assert_eq!(Instant::parse("2012-12-12 12:12:12Z"), expected);
    assert_eq!(Instant::parse("2012-12-12 12:12:12+0000"), expected);
    assert_eq!(Instant::parse("2012-12-12 12:12:12+00:00"), expected);
    assert_eq!(Instant::parse("2012-12-12 14:12:12+02:00"), expected);
    assert_eq!(Instant::parse("2012-12-12"), None);
    assert_eq!(Instant::parse("yesterday"), None);
    assert_eq!(Instant::parse(""), None);
}

#[test]
fn instant_strict_reading_demands_an_offset() {
    let expected = Instant::new(1560821868, 789_530_000);
    assert!(expected.is_some());
    assert_eq!(Instant::parse_with_offset("2019-06-18T01:37:48.78953+00:00"), expected);
    assert_eq!(Instant::parse_with_offset("2019-06-18T03:37:48.78953+02:00"), expected);
    assert_eq!(Instant::parse_with_offset("2019-06-18T01:37:48.78953Z"), expected);
    assert_eq!(Instant::parse_with_offset("2019-06-18T01:37:48.78953"), None);
    assert_eq!(Instant::parse_with_offset("2019-06-18T01:37:48"), None);
    assert_eq!(Instant::parse_with_offset("2019-06-18"), None);
}

#[test]
fn instant_writes_rfc3339() {
    assert_eq!(Instant::new(1420674445, 201_000_000).unwrap().to_text(), "2015-01-07T23:47:25.201Z");
    assert_eq!(Instant::new(1535050422, 144_811_000).unwrap().to_text(), "2018-08-23T18:53:42.144811Z");
    assert_eq!(Instant::new(0, 0).unwrap().to_text(), "1970-01-01T00:00:00Z");
    assert_eq!(Instant::new(0, 1).unwrap().to_text(), "1970-01-01T00:00:00.000000001Z");
    assert_eq!(Instant::new(MIN_SECONDS, 0).unwrap().to_text(), "0000-01-01T00:00:00Z");
    assert_eq!(Instant::new(MAX_SECONDS, 999_999_999).unwrap().to_text(), "9999-12-31T23:59:59.999999999Z");
}

#[test]
fn instant_text_reads_back_under_both_readings() {
    for (seconds, nanos) in [
        (0, 0),
        (1420674445, 201_000_000),
        (-1, 999_999_999),
        (MIN_SECONDS, 0),
        (MAX_SECONDS, 999_999_999),
        (1483228799, 1_500_000_000),
        (253402300799, 1_999_999_999),
    ] {
        let t = Instant::new(seconds, nanos).unwrap();
        let text = t.to_text();
        assert_eq!(Instant::parse(&text), Some(t), "{}", text);
        assert_eq!(Instant::parse_with_offset(&text), Some(t), "{}", text);
    }
}

#[test]
fn instant_keeps_leap_seconds() {
    let t = Instant::parse("2016-12-31T23:59:60Z").unwrap();
    assert_eq!((t.seconds(), t.nanos()), (1483228799, 1_000_000_000));
    assert_eq!(t.to_text(), "2016-12-31T23:59:60Z");
}

#[test]
fn instant_new_checks_the_range() {
    assert!(Instant::new(MIN_SECONDS, 0).is_some());
    assert!(Instant::new(MIN_SECONDS - 1, 0).is_none());
    assert!(Instant::new(MAX_SECONDS, 0).is_some());
    assert!(Instant::new(MAX_SECONDS + 1, 0).is_none());
    assert!(Instant::new(0, 999_999_999).is_some());
    assert!(Instant::new(0, 1_000_000_000).is_none());
    assert!(Instant::new(59, 1_000_000_000).is_some());
    assert!(Instant::new(-1, 1_999_999_999).is_some());
    assert!(Instant::new(-2, 1_000_000_000).is_none());
    assert!(Instant::new(59, 2_000_000_000).is_none());
    assert_eq!(Instant::from_parts(None), None);
    assert_eq!(Instant::from_parts(Some((5, 6))), Instant::new(5, 6));
    assert_eq!(Instant::from_parts(Some((i64::MAX, 0))), None);
}

#[test]
fn timestamp_codec_in_both_forms() {
    let t = Instant::new(1420674445, 201_000_000).unwrap();
    assert_eq!(decode_timestamp("2015-01-07T23:47:25.201Z", false, "time"), Ok(t));
    assert_eq!(decode_timestamp("2015-01-07 23:47:25.201Z", false, "time"), Ok(t));
    assert_eq!(decode_timestamp("2015-01-07T23:47:25.201Z", true, "time"), Ok(t));
    assert_eq!(
        decode_timestamp("2015-01-07 23:47:25.201", true, "created_at"),
        Err(DecodeError::InvalidTimestamp("created_at".to_string()))
    );
    assert_eq!(
        decode_timestamp("soon", false, "done_at"),
        Err(DecodeError::InvalidTimestamp("done_at".to_string()))
    );
    assert_eq!(decode_optional_timestamp(None, false, "done_at"), Ok(None));
    assert_eq!(decode_optional_timestamp(None, true, "done_at"), Ok(None));
    assert_eq!(decode_optional_timestamp(Some("2015-01-07T23:47:25.201Z"), true, "done_at"), Ok(Some(t)));
    assert_eq!(
        decode_optional_timestamp(Some(""), false, "done_at"),
        Err(DecodeError::InvalidTimestamp("done_at".to_string()))
    );
}
