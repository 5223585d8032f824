use lib60870::time::{unix_ms_of_elapsed, Timestamp};

#[test]
fn test_timestamp_roundtrip() {
    let original_ms: u64 = 1701705600000; // 2023-12-04 16:00:00 UTC
    let ts = Timestamp::from_ms(original_ms);
    let recovered = ts.as_ms();
    // Allow small rounding differences due to year representation
    assert!((original_ms as i64 - recovered as i64).abs() < 1000);
}

#[test]
fn test_timestamp_now() {
    let ts = Timestamp::now();
    assert!(ts.year() >= 2024);
}

#[test]
fn timestamp_fields_of_a_known_time() {
    // 2023-12-04 16:00:00.000 UTC
    let ts = Timestamp::from_ms(1701705600000);
    assert_eq!(ts.year(), 2023);
    assert_eq!(ts.month(), 12);
    assert_eq!(ts.day(), 4);
    assert_eq!(ts.hour(), 16);
    assert_eq!(ts.minute(), 0);
    assert_eq!(ts.second(), 0);
    assert_eq!(ts.millisecond(), 0);
    assert!(!ts.is_invalid());
    assert!(!ts.is_substituted());
    assert!(!ts.is_summer_time());
    assert_eq!(ts.to_bytes(), [0, 0, 0, 16, 4, 12, 23]);
    assert_eq!(ts.as_ms(), 1701705600000);
}

#[test]
fn timestamp_octets_of_a_time_with_milliseconds() {
    // 2024-02-29 23:59:58.765 UTC, a leap day
    let ms: u64 = 1709251198765;
    let ts = Timestamp::from_ms(ms);
    assert_eq!(ts.year(), 2024);
    assert_eq!(ts.month(), 2);
    assert_eq!(ts.day(), 29);
    assert_eq!(ts.hour(), 23);
    assert_eq!(ts.minute(), 59);
    assert_eq!(ts.second(), 58);
    assert_eq!(ts.millisecond(), 765);
    // 58765 = 0xE58D, low octet first
    assert_eq!(ts.to_bytes(), [0x8D, 0xE5, 59, 23, 29, 2, 24]);
    assert_eq!(ts.as_ms(), ms);
}

#[test]
fn timestamp_round_trip_at_the_ends_of_the_century() {
    // 2000-01-01 00:00:00.000
    let first: u64 = 946684800000;
    let ts = Timestamp::from_ms(first);
    assert_eq!((ts.year(), ts.month(), ts.day()), (2000, 1, 1));
    assert_eq!(ts.as_ms(), first);
    // 2099-12-31 23:59:59.999
    let last: u64 = 4102444799999;
    let ts = Timestamp::from_ms(last);
    assert_eq!((ts.year(), ts.month(), ts.day()), (2099, 12, 31));
    assert_eq!((ts.hour(), ts.minute(), ts.second(), ts.millisecond()), (23, 59, 59, 999));
    assert_eq!(ts.as_ms(), last);
}

#[test]
fn timestamp_round_trip_over_many_days() {
    // every 17th hour and a bit from 2000 to 2100
    let mut ms: u64 = 946684800000;
    let mut n = 0;
    while ms < 4102444800000 {
        assert_eq!(Timestamp::from_ms(ms).as_ms(), ms);
        ms += 17 * 3600 * 1000 + 12345;
        n += 1;
    }
    assert!(n > 50000);
}

#[test]
fn timestamp_non_leap_century_years() {
    // 2100-03-01 00:00:00 UTC: 2100 is no leap year
    let ts = Timestamp::from_ms(4107542400000);
    assert_eq!((ts.year(), ts.month(), ts.day()), (2000, 3, 1));
    // 1970-01-01: the year field holds 70
    let ts = Timestamp::from_ms(0);
    assert_eq!((ts.year(), ts.month(), ts.day()), (2070, 1, 1));
    // 1999-12-31 23:59:59.999
    let ts = Timestamp::from_ms(946684799999);
    assert_eq!((ts.year(), ts.month(), ts.day()), (2099, 12, 31));
    // 2400-02-29 is a leap day
    let ts = Timestamp::from_ms(13574563200000);
    assert_eq!((ts.year(), ts.month(), ts.day()), (2000, 2, 29));
}

#[test]
fn timestamp_flags_and_reserved_bits() {
    let ts = Timestamp::from_bytes([0x10, 0x27, 0x80 | 0x40 | 30, 0x80 | 12, (3 << 5) | 15, 0xF0 | 6, 0x80 | 21]);
    assert!(ts.is_invalid());
    assert!(ts.is_substituted());
    assert!(ts.is_summer_time());
    assert_eq!(ts.minute(), 30);
    assert_eq!(ts.hour(), 12);
    assert_eq!(ts.day(), 15);
    assert_eq!(ts.month(), 6);
    assert_eq!(ts.year(), 2021);
    assert_eq!(ts.second(), 10);
    assert_eq!(ts.millisecond(), 0);
    assert_eq!(ts.as_raw(), &[0x10, 0x27, 0xDE, 0x8C, 0x6F, 0xF6, 0x95]);
}

#[test]
fn timestamp_default_and_raw_access() {
    let mut ts = Timestamp::default();
    assert_eq!(ts.to_bytes(), [0; 7]);
    ts.as_raw_mut()[6] = 25;
    ts.as_raw_mut()[5] = 7;
    ts.as_raw_mut()[4] = 14;
    assert_eq!((ts.year(), ts.month(), ts.day()), (2025, 7, 14));
    // 2025-07-14 00:00:00 UTC
    assert_eq!(ts.as_ms(), 1752451200000);
}

#[test]
fn timestamp_converts_from_and_to_milliseconds() {
    let ts = Timestamp::from(1709251198765u64);
    assert_eq!(ts, Timestamp::from_ms(1709251198765));
    assert_eq!(u64::from(ts), 1709251198765);
    let ms: u64 = ts.into();
    assert_eq!(ms, 1709251198765);
}

#[test]
fn clock_reading_becomes_unix_milliseconds() {
    assert_eq!(unix_ms_of_elapsed(Some(1_701_705_600_000)), 1_701_705_600_000);
    assert_eq!(unix_ms_of_elapsed(Some(0)), 0);
    assert_eq!(unix_ms_of_elapsed(Some(u64::MAX as u128)), u64::MAX);
}

#[test]
fn clock_reading_before_the_epoch_or_beyond_64_bits() {
    assert_eq!(unix_ms_of_elapsed(None), 0);
    assert_eq!(unix_ms_of_elapsed(Some(u64::MAX as u128 + 1)), u64::MAX);
    assert_eq!(unix_ms_of_elapsed(Some(u128::MAX)), u64::MAX);
}
