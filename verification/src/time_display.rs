//! Display frame preparation for the four-digit seven-segment display:
//! digit splitting for time, date and year screens, the four-dash error
//! frame, and the choice of screen from the decoder's answers. The I²C
//! write itself is a sink outside this library.

use vstd::prelude::*;

verus! {

use crate::bits::{word_bit, parity_fold, bcd_sum};
use crate::datetime_converter::{minutes_field, hours_field, minutes_ok, hours_ok};

/// One character of the four-digit display.
#[derive(Clone, Copy, PartialEq, Eq, Structural, Debug)]
pub enum DisplayChar {
    Digit(u8),
    Minus,
}

/// A complete frame for the display: four characters, the central
/// colon, and the four status dots.
#[derive(Clone, Copy, PartialEq, Eq, Debug)]
pub struct DisplayFrame {
    pub chars: [DisplayChar; 4],
    pub colon: bool,
    pub dots: [bool; 4],
}

/// An hours-and-minutes screen: two digits each, the colon driven by
/// the parity of the seconds, all dots dark.
pub open spec fn is_time_frame(f: DisplayFrame, hours: int, minutes: int, seconds: int) -> bool {
    &&& f.chars[0] == DisplayChar::Digit((hours / 10) as u8)
    &&& f.chars[1] == DisplayChar::Digit((hours % 10) as u8)
    &&& f.chars[2] == DisplayChar::Digit((minutes / 10) as u8)
    &&& f.chars[3] == DisplayChar::Digit((minutes % 10) as u8)
    &&& f.colon == (seconds % 2 == 1)
    &&& (forall|d: int| 0 <= d < 4 ==> !f.dots[d])
}

/// A day-and-month screen: day first, the dot after it marking the
/// date view, no colon.
pub open spec fn is_date_frame(f: DisplayFrame, months: int, days: int) -> bool {
    &&& f.chars[0] == DisplayChar::Digit((days / 10) as u8)
    &&& f.chars[1] == DisplayChar::Digit((days % 10) as u8)
    &&& f.chars[2] == DisplayChar::Digit((months / 10) as u8)
    &&& f.chars[3] == DisplayChar::Digit((months % 10) as u8)
    &&& !f.colon
    &&& !f.dots[0] && f.dots[1] && !f.dots[2] && !f.dots[3]
}

/// A four-digit year screen: no colon, no dots.
pub open spec fn is_year_frame(f: DisplayFrame, year: int) -> bool {
    &&& f.chars[0] == DisplayChar::Digit((year / 1000 % 10) as u8)
    &&& f.chars[1] == DisplayChar::Digit((year / 100 % 10) as u8)
    &&& f.chars[2] == DisplayChar::Digit((year / 10 % 10) as u8)
    &&& f.chars[3] == DisplayChar::Digit((year % 10) as u8)
    &&& !f.colon
    &&& (forall|d: int| 0 <= d < 4 ==> !f.dots[d])
}

/// The error screen: four dashes, nothing else lit.
pub open spec fn is_error_frame(f: DisplayFrame) -> bool {
    &&& (forall|c: int| 0 <= c < 4 ==> f.chars[c] == DisplayChar::Minus)
    &&& !f.colon
    &&& (forall|d: int| 0 <= d < 4 ==> !f.dots[d])
}

/// Splits hours and minutes into the four digits, with the colon
/// blinking on odd seconds.
pub fn display_time(hours: u8, minutes: u8, seconds: u8) -> (r: DisplayFrame)
    requires
        hours < 100,
        minutes < 100,
    ensures
        is_time_frame(r, hours as int, minutes as int, seconds as int),
{
    DisplayFrame {
        chars: [
            DisplayChar::Digit(hours / 10),
            DisplayChar::Digit(hours % 10),
            DisplayChar::Digit(minutes / 10),
            DisplayChar::Digit(minutes % 10),
        ],
        colon: seconds % 2 == 1,
        dots: [false; 4],
    }
}

/// Splits day and month into the four digits of the date screen.
pub fn display_date(months: u8, days: u8) -> (r: DisplayFrame)
    requires
        months < 100,
        days < 100,
    ensures
        is_date_frame(r, months as int, days as int),
{
    DisplayFrame {
        chars: [
            DisplayChar::Digit(days / 10),
            DisplayChar::Digit(days % 10),
            DisplayChar::Digit(months / 10),
            DisplayChar::Digit(months % 10),
        ],
        colon: false,
        dots: [false, true, false, false],
    }
}

/// Splits a four-digit year into its digits.
pub fn display_year(year: u16) -> (r: DisplayFrame)
    requires
        year < 10000,
    ensures
        is_year_frame(r, year as int),
{
    let d4 = (year % 10) as u8;
    let year = year / 10;
    let d3 = (year % 10) as u8;
    let year = year / 10;
    let d2 = (year % 10) as u8;
    let year = year / 10;
    let d1 = (year % 10) as u8;
    DisplayFrame {
        chars: [
            DisplayChar::Digit(d1),
            DisplayChar::Digit(d2),
            DisplayChar::Digit(d3),
            DisplayChar::Digit(d4),
        ],
        colon: false,
        dots: [false; 4],
    }
}

/// The four-dash error screen.
pub fn display_error() -> (r: DisplayFrame)
    ensures
        is_error_frame(r),
{
    DisplayFrame {
        chars: [DisplayChar::Minus, DisplayChar::Minus, DisplayChar::Minus, DisplayChar::Minus],
        colon: false,
        dots: [false; 4],
    }
}

#[verifier::external_type_specification]
pub struct ExDCF77Time(dcf77::DCF77Time);

/// Relies on dcf77::DCF77Time::new, which stores the given word.
pub assume_specification[ dcf77::DCF77Time::new ](dcf77bits: u64) -> (r: dcf77::DCF77Time)
    ensures
        r.0 == dcf77bits,
;

/// Relies on dcf77::DCF77Time::validate_start: ok exactly when the
/// start-of-minute bit, bit 0, is clear.
pub assume_specification[ dcf77::DCF77Time::validate_start ](t: &dcf77::DCF77Time) -> (r: Result<
    (),
    (),
>)
    ensures
        r is Ok <==> !word_bit(t.0, 0),
;

/// Relies on dcf77::DCF77Time::minutes: the BCD-weighted sum of bits
/// 21..27, accepted exactly when it is at most 59 and the even-parity
/// bit 28 matches the fold of those bits.
pub assume_specification[ dcf77::DCF77Time::minutes ](t: &dcf77::DCF77Time) -> (r: Result<u8, ()>)
    ensures
        r is Ok <==> minutes_ok(t.0),
        r matches Ok(m) ==> m as int == bcd_sum(minutes_field(t.0), 7),
;

/// Relies on dcf77::DCF77Time::hours: the BCD-weighted sum of bits
/// 29..34, accepted exactly when it is at most 23 and the even-parity
/// bit 35 matches the fold of those bits.
pub assume_specification[ dcf77::DCF77Time::hours ](t: &dcf77::DCF77Time) -> (r: Result<u8, ()>)
    ensures
        r is Ok <==> hours_ok(t.0),
        r matches Ok(h) ==> h as int == bcd_sum(hours_field(t.0), 6),
;

/// Picks the screen for a freshly assembled frame word: a word with a
/// valid start bit whose hours and minutes pass their checks shows the
/// decoded time; no word, a set start-of-minute bit, or a failed hours
/// or minutes check shows the four-dash error screen.
pub fn show_new_time(data: Option<u64>) -> (r: DisplayFrame)
    ensures
        data is None ==> is_error_frame(r),
        data matches Some(w) ==> (word_bit(w, 0) ==> is_error_frame(r)),
        data matches Some(w) ==> (!word_bit(w, 0) && hours_ok(w) && minutes_ok(w) ==> is_time_frame(
            r,
            bcd_sum(hours_field(w), 6),
            bcd_sum(minutes_field(w), 7),
            0,
        )),
        data matches Some(w) ==> (!word_bit(w, 0) && !(hours_ok(w) && minutes_ok(w))
            ==> is_error_frame(r)),
{
    match data {
        None => display_error(),
        Some(d) => {
            let time_decoder = dcf77::DCF77Time::new(d);
            if time_decoder.validate_start().is_ok() {
                match (time_decoder.hours(), time_decoder.minutes()) {
                    (Ok(hours), Ok(minutes)) => display_time(hours, minutes, 0),
                    _ => display_error(),
                }
            } else {
                display_error()
            }
        },
    }
}

/// Picks the screen for the periodic refresh from the clock's current
/// reading: the error screen until synchronized, then time, date or
/// year by the cycling index.
pub fn show_rtc_time(
    idx: u8,
    synchronized: bool,
    hours: u8,
    minutes: u8,
    seconds: u8,
    day: u8,
    month: u8,
    year: u16,
) -> (r: DisplayFrame)
    requires
        hours < 100,
        minutes < 100,
        day < 100,
        month < 100,
        year < 10000,
    ensures
        !synchronized ==> is_error_frame(r),
        synchronized && idx <= 1 ==> is_time_frame(r, hours as int, minutes as int, seconds as int),
        synchronized && idx == 2 ==> is_date_frame(r, month as int, day as int),
        synchronized && idx >= 3 ==> is_year_frame(r, year as int),
{
    if !synchronized {
        display_error()
    } else {
        match idx {
            0 | 1 => display_time(hours, minutes, seconds),
            2 => display_date(month, day),
            _ => display_year(year),
        }
    }
}

} // verus!
