use dcf77_clock::datetime_converter::{DCF77DateTimeConverter, DateTimeErr, DecodedDateTime};
use dcf77_clock::telegram::encode;

// 23:14, day 15, month 9, weekday 3, year 21, laid out LSB-first with
// all three parity bits correct.
const VALID_WORD: u64 = 0x4852D5C62900000;

fn dt(year: u16, month: u8, day: u8, hour: u8, minute: u8) -> DecodedDateTime {
    DecodedDateTime { year, month, day, hour, minute, second: 0 }
}

#[test]
fn valid_telegram() {
    let conv = DCF77DateTimeConverter::new(VALID_WORD);
    assert_eq!(conv.dcf77_decoder(), Ok(dt(2021, 9, 15, 23, 14)));
}

#[test]
fn missing_start_of_time() {
    let conv = DCF77DateTimeConverter::new(VALID_WORD & !(1u64 << 20));
    assert_eq!(conv.dcf77_decoder(), Err(DateTimeErr::WrongStart));
}

#[test]
fn set_start_of_minute_rejected() {
    let conv = DCF77DateTimeConverter::new(VALID_WORD | 1);
    assert_eq!(conv.dcf77_decoder(), Err(DateTimeErr::WrongStart));
}

#[test]
fn corrupted_minutes_parity() {
    let conv = DCF77DateTimeConverter::new(VALID_WORD ^ (1u64 << 28));
    assert_eq!(conv.dcf77_decoder(), Err(DateTimeErr::MinutesWrong));
}

#[test]
fn out_of_range_hour() {
    // Replace the hours field with BCD 25 (0b100101, three set bits) and
    // set the hours parity bit so only the range check can fail.
    let mut w = VALID_WORD & !(0x3fu64 << 29) & !(1u64 << 35);
    w |= 0x25u64 << 29;
    w |= 1u64 << 35;
    let conv = DCF77DateTimeConverter::new(w);
    assert_eq!(conv.dcf77_decoder(), Err(DateTimeErr::HoursWrong));
}

#[test]
fn month_zero_is_date_error() {
    // Clear the month field (0b01001, two set bits): the date parity
    // stays even, so the range check reports the zero month.
    let w = VALID_WORD & !(0x1fu64 << 45);
    let conv = DCF77DateTimeConverter::new(w);
    assert_eq!(conv.dcf77_decoder(), Err(DateTimeErr::DateWrong));
}

#[test]
fn minutes_checked_before_hours() {
    // Corrupt both the minutes and the hours parity: the error names
    // the minutes, the first stage in the fixed check order.
    let conv = DCF77DateTimeConverter::new(VALID_WORD ^ (1u64 << 28) ^ (1u64 << 35));
    assert_eq!(conv.dcf77_decoder(), Err(DateTimeErr::MinutesWrong));
}

#[test]
fn hours_checked_before_date() {
    let conv = DCF77DateTimeConverter::new(VALID_WORD ^ (1u64 << 35) ^ (1u64 << 58));
    assert_eq!(conv.dcf77_decoder(), Err(DateTimeErr::HoursWrong));
}

#[test]
fn flip_minutes_bit_detected() {
    let conv = DCF77DateTimeConverter::new(VALID_WORD ^ (1u64 << 22));
    assert_eq!(conv.dcf77_decoder(), Err(DateTimeErr::MinutesWrong));
}

#[test]
fn flip_hours_bit_detected() {
    let conv = DCF77DateTimeConverter::new(VALID_WORD ^ (1u64 << 30));
    assert_eq!(conv.dcf77_decoder(), Err(DateTimeErr::HoursWrong));
}

#[test]
fn flip_day_bit_detected() {
    let conv = DCF77DateTimeConverter::new(VALID_WORD ^ (1u64 << 37));
    assert_eq!(conv.dcf77_decoder(), Err(DateTimeErr::DateWrong));
}

#[test]
fn flip_year_bit_detected() {
    let conv = DCF77DateTimeConverter::new(VALID_WORD ^ (1u64 << 57));
    assert_eq!(conv.dcf77_decoder(), Err(DateTimeErr::DateWrong));
}

#[test]
fn roundtrip_sample_telegram() {
    let value = dt(2021, 9, 15, 23, 14);
    let conv = DCF77DateTimeConverter::new(encode(&value));
    assert_eq!(conv.dcf77_decoder(), Ok(value));
}

#[test]
fn roundtrip_edge_values() {
    let cases = [
        dt(2000, 1, 1, 0, 0),
        dt(2098, 12, 31, 23, 59),
        dt(2050, 2, 29, 12, 30),
        dt(2009, 10, 9, 9, 9),
    ];
    for value in cases {
        let conv = DCF77DateTimeConverter::new(encode(&value));
        assert_eq!(conv.dcf77_decoder(), Ok(value));
    }
}

#[test]
fn encoded_word_keeps_reserved_bits_clear() {
    let w = encode(&dt(2021, 9, 15, 23, 14));
    // Start-of-minute clear, bits 1..19 clear, start-of-time set.
    assert_eq!(w & ((1u64 << 20) - 1), 0);
    assert_eq!((w >> 20) & 1, 1);
    // Nothing beyond the date parity bit.
    assert_eq!(w >> 59, 0);
}

#[test]
fn bcd_helpers_decode_weighted_sums() {
    let conv = DCF77DateTimeConverter::new(0);
    assert_eq!(conv.naive_year(0x21), 2021);
    assert_eq!(conv.naive_year(0x99), 2099);
    assert_eq!(conv.naive_month(0x12), 12);
    assert_eq!(conv.naive_day_or_hours(0x25), 25);
    assert_eq!(conv.naive_minutes(0x59), 59);
    // A high nibble past nine lands beyond 99: the range check sees it.
    assert_eq!(conv.naive_year(0xA0), 2100);
    // A low nibble past nine decodes to its plain binary value.
    assert_eq!(conv.naive_minutes(0x0A), 10);
}

#[test]
fn parity_counts_set_bits() {
    assert_eq!(DCF77DateTimeConverter::check_parity(13), 1);
    assert_eq!(DCF77DateTimeConverter::check_parity(2806404), 1);
    assert_eq!(DCF77DateTimeConverter::check_parity(0), 0);
    assert_eq!(DCF77DateTimeConverter::check_parity(3), 0);
    assert_eq!(DCF77DateTimeConverter::check_parity(u32::MAX), 0);
}
