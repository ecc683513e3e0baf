use account_directory::dates::{
    date_to_stamp, stamp_to_date, to_internal, to_transmitted, Date, MS_PER_DAY, STAMP_MAX,
};
use account_directory::ids::{decode_row_id, encode_row_id};

#[test]
fn encode_is_fixed_width_lowercase_hex() {
    assert_eq!(encode_row_id(0), "0000000000000000");
    assert_eq!(encode_row_id(1), "0000000000000001");
    assert_eq!(encode_row_id(255), "00000000000000ff");
    assert_eq!(encode_row_id(0x00ab_cdef_1234_5678), "00abcdef12345678");
    assert_eq!(encode_row_id(i64::MAX), "7fffffffffffffff");
}

#[test]
fn encode_of_negative_is_twos_complement() {
    assert_eq!(encode_row_id(-1), "ffffffffffffffff");
}

#[test]
fn decode_accepts_hex_of_either_case() {
    assert_eq!(decode_row_id("00000000000000ff"), Some(255));
    assert_eq!(decode_row_id("ff"), Some(255));
    assert_eq!(decode_row_id("FF"), Some(255));
    assert_eq!(decode_row_id("7fffffffffffffff"), Some(i64::MAX));
    assert_eq!(decode_row_id("0"), Some(0));
    assert_eq!(decode_row_id("00000000000000000000007f"), Some(127));
}

#[test]
fn decode_rejects_empty_and_non_hex() {
    assert_eq!(decode_row_id(""), None);
    assert_eq!(decode_row_id("not-hex"), None);
    assert_eq!(decode_row_id("12 34"), None);
    assert_eq!(decode_row_id("-5"), None);
    assert_eq!(decode_row_id("0x10"), None);
}

#[test]
fn decode_rejects_overflow() {
    assert_eq!(decode_row_id("8000000000000000"), None);
    assert_eq!(decode_row_id("ffffffffffffffff"), None);
    assert_eq!(decode_row_id("10000000000000000"), None);
    assert_eq!(decode_row_id("08000000000000000"), None);
}

#[test]
fn identifier_round_trips_for_valid_row_numbers() {
    for n in [0i64, 1, 2, 9, 255, 4096, 123_456_789, i64::MAX - 1, i64::MAX] {
        let s = encode_row_id(n);
        assert_eq!(s.len(), 16);
        assert!(s.chars().all(|c| c.is_ascii_hexdigit() && !c.is_ascii_uppercase()));
        assert_eq!(decode_row_id(&s), Some(n));
    }
}

#[test]
fn epoch_millisecond_zero_is_the_epoch_date() {
    assert_eq!(stamp_to_date(0), Date { days: 0 });
    assert_eq!(date_to_stamp(Date { days: 0 }), 0);
    assert_eq!(to_internal(Some(0)), Some(Date { days: 0 }));
    assert_eq!(to_transmitted(Some(Date { days: 0 })), Some(0));
}

#[test]
fn absent_birthday_stays_absent() {
    assert_eq!(to_transmitted(None), None);
    assert_eq!(to_internal(None), None);
}

#[test]
fn stamp_truncates_time_of_day_toward_earlier_dates() {
    assert_eq!(stamp_to_date(1), Date { days: 0 });
    assert_eq!(stamp_to_date(MS_PER_DAY - 1), Date { days: 0 });
    assert_eq!(stamp_to_date(MS_PER_DAY), Date { days: 1 });
    assert_eq!(stamp_to_date(-1), Date { days: -1 });
    assert_eq!(stamp_to_date(-MS_PER_DAY), Date { days: -1 });
    assert_eq!(stamp_to_date(-MS_PER_DAY - 1), Date { days: -2 });
}

#[test]
fn date_round_trips_through_its_stamp() {
    for days in [0i64, 1, -1, 19_000, -19_000, 100_000_000, -100_000_000] {
        let d = Date { days };
        assert_eq!(stamp_to_date(date_to_stamp(d)), d);
    }
}

#[test]
fn aligned_stamps_round_trip_exactly() {
    for days in [0i64, 1, -1, 19_723] {
        let ms = days * MS_PER_DAY;
        assert_eq!(date_to_stamp(stamp_to_date(ms)), ms);
    }
    assert_eq!(stamp_to_date(STAMP_MAX), Date { days: 100_000_000 });
    // A misaligned stamp comes back as the midnight before it.
    assert_eq!(date_to_stamp(stamp_to_date(123)), 0);
}
