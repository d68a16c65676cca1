use dcf77_clock::time_display::{
    display_date, display_error, display_time, display_year, show_new_time, show_rtc_time,
    DisplayChar, DisplayFrame,
};

fn digits(a: u8, b: u8, c: u8, d: u8) -> [DisplayChar; 4] {
    [
        DisplayChar::Digit(a),
        DisplayChar::Digit(b),
        DisplayChar::Digit(c),
        DisplayChar::Digit(d),
    ]
}

// 23:14 15.09.21, all parity bits correct, start-of-minute clear.
const VALID_WORD: u64 = 0x4852D5C62900000;

#[test]
fn time_screen_digits() {
    let f = display_time(23, 14, 0);
    assert_eq!(f.chars, digits(2, 3, 1, 4));
    assert!(!f.colon);
    assert_eq!(f.dots, [false; 4]);
    let f = display_time(9, 5, 31);
    assert_eq!(f.chars, digits(0, 9, 0, 5));
    assert!(f.colon);
}

#[test]
fn date_screen_shows_day_first() {
    let f = display_date(9, 15);
    assert_eq!(f.chars, digits(1, 5, 0, 9));
    assert!(!f.colon);
    assert_eq!(f.dots, [false, true, false, false]);
}

#[test]
fn year_screen_digits() {
    let f = display_year(2021);
    assert_eq!(f.chars, digits(2, 0, 2, 1));
    assert!(!f.colon);
    assert_eq!(f.dots, [false; 4]);
}

#[test]
fn error_screen_is_four_dashes() {
    let f = display_error();
    assert_eq!(f.chars, [DisplayChar::Minus; 4]);
    assert!(!f.colon);
    assert_eq!(f.dots, [false; 4]);
}

#[test]
fn no_frame_shows_error() {
    assert_eq!(show_new_time(None), display_error());
}

#[test]
fn decoded_time_reaches_display() {
    // A valid start bit with passing hours and minutes shows the time.
    assert_eq!(show_new_time(Some(VALID_WORD)), display_time(23, 14, 0));
}

#[test]
fn broken_start_shows_error() {
    assert_eq!(show_new_time(Some(VALID_WORD | 1)), display_error());
}

#[test]
fn broken_minutes_show_error() {
    assert_eq!(show_new_time(Some(VALID_WORD ^ (1 << 28))), display_error());
}

#[test]
fn broken_hours_show_error() {
    assert_eq!(show_new_time(Some(VALID_WORD ^ (1 << 33))), display_error());
}

#[test]
fn rtc_refresh_cycles_screens() {
    let time: DisplayFrame = show_rtc_time(0, true, 23, 14, 5, 15, 9, 2021);
    assert_eq!(time, display_time(23, 14, 5));
    let time2 = show_rtc_time(1, true, 23, 14, 6, 15, 9, 2021);
    assert_eq!(time2, display_time(23, 14, 6));
    let date = show_rtc_time(2, true, 23, 14, 5, 15, 9, 2021);
    assert_eq!(date, display_date(9, 15));
    let year = show_rtc_time(3, true, 23, 14, 5, 15, 9, 2021);
    assert_eq!(year, display_year(2021));
}

#[test]
fn rtc_refresh_shows_error_until_synchronized() {
    let f = show_rtc_time(0, false, 23, 14, 5, 15, 9, 2021);
    assert_eq!(f, display_error());
}
