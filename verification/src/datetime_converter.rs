//! Telegram decoder: extracts the BCD fields of a 59-bit DCF77 frame,
//! checks the three even-parity bits and the fixed start bits, and turns
//! the frame into a validated calendar date-time.
//!
//! The error checks run in a fixed order — start, minutes, hours, date —
//! so that error attribution is deterministic.

use vstd::prelude::*;

verus! {

use crate::bits::{word_bit, parity_fold, bcd_sum, bcd_weight};

/// The first stage of the telegram that failed validation.
#[derive(Clone, Copy, PartialEq, Eq, Structural, Debug)]
pub enum DateTimeErr {
    MinutesWrong,
    HoursWrong,
    DateWrong,
    WrongStart,
}

/// A validated wall-clock date-time, returned by value.
#[derive(Clone, Copy, PartialEq, Eq, Structural, Debug)]
pub struct DecodedDateTime {
    pub year: u16,
    pub month: u8,
    pub day: u8,
    pub hour: u8,
    pub minute: u8,
    pub second: u8,
}

impl DecodedDateTime {
    /// Ranges that every decoded value satisfies.
    pub open spec fn wf(self) -> bool {
        &&& 2000 <= self.year < 2099
        &&& 1 <= self.month <= 12
        &&& 1 <= self.day <= 31
        &&& self.hour < 24
        &&& self.minute < 60
        &&& self.second == 0
    }
}

/// Minutes field: bits 21..27.
pub open spec fn minutes_field(w: u64) -> u64 {
    (w >> 21) & 0x7f
}

/// Hours field: bits 29..34.
pub open spec fn hours_field(w: u64) -> u64 {
    (w >> 29) & 0x3f
}

/// Day-of-month field: bits 36..41.
pub open spec fn day_field(w: u64) -> u64 {
    (w >> 36) & 0x3f
}

/// Month field: bits 45..49.
pub open spec fn month_field(w: u64) -> u64 {
    (w >> 45) & 0x1f
}

/// Two-digit year field: bits 50..57.
pub open spec fn year_field(w: u64) -> u64 {
    (w >> 50) & 0xff
}

/// The whole date block covered by the date parity bit: bits 36..57.
pub open spec fn date_frame(w: u64) -> u64 {
    (w >> 36) & 0x3fffff
}

/// Start-of-minute bit must be 0, start-of-time bit must be 1.
pub open spec fn start_ok(w: u64) -> bool {
    word_bit(w, 20) && !word_bit(w, 0)
}

/// Minutes parity holds and the decoded minutes are in range.
pub open spec fn minutes_ok(w: u64) -> bool {
    parity_fold(minutes_field(w), 7) == word_bit(w, 28) && bcd_sum(minutes_field(w), 7) < 60
}

/// Hours parity holds and the decoded hours are in range.
pub open spec fn hours_ok(w: u64) -> bool {
    parity_fold(hours_field(w), 6) == word_bit(w, 35) && bcd_sum(hours_field(w), 6) < 24
}

/// Date parity holds and month, day and year are in range.
pub open spec fn date_ok(w: u64) -> bool {
    &&& parity_fold(date_frame(w), 22) == word_bit(w, 58)
    &&& 1 <= bcd_sum(month_field(w), 5) <= 12
    &&& 1 <= bcd_sum(day_field(w), 6) <= 31
    &&& 2000 + bcd_sum(year_field(w), 8) < 2099
}

/// The date-time carried by a telegram whose checks all pass.
pub open spec fn decoded_of(w: u64) -> DecodedDateTime {
    DecodedDateTime {
        year: (2000 + bcd_sum(year_field(w), 8)) as u16,
        month: bcd_sum(month_field(w), 5) as u8,
        day: bcd_sum(day_field(w), 6) as u8,
        hour: bcd_sum(hours_field(w), 6) as u8,
        minute: bcd_sum(minutes_field(w), 7) as u8,
        second: 0,
    }
}

/// What decoding a telegram word yields: the checks run in the order
/// start, minutes, hours, date, and the first failing one names the error.
pub open spec fn spec_decode(w: u64) -> Result<DecodedDateTime, DateTimeErr> {
    if !start_ok(w) {
        Err(DateTimeErr::WrongStart)
    } else if !minutes_ok(w) {
        Err(DateTimeErr::MinutesWrong)
    } else if !hours_ok(w) {
        Err(DateTimeErr::HoursWrong)
    } else if !date_ok(w) {
        Err(DateTimeErr::DateWrong)
    } else {
        Ok(decoded_of(w))
    }
}

/// Decodes one DCF77 telegram held as the low 60 bits of a word.
pub struct DCF77DateTimeConverter {
    encoded_data: u64,
    bcd: [u32; 8],
}

/// A single extracted bit is zero or one.
proof fn lemma_bit_is_binary(w: u64, i: u64)
    by (bit_vector)
    requires
        i < 64,
    ensures
        (w >> i) & 1 == 0 || (w >> i) & 1 == 1,
{
}

/// Largest value a BCD weighted sum over `n` bits can take: the sum of
/// the first `n` weights.
pub open spec fn bcd_sum_cap(n: nat) -> int
    decreases n,
{
    if n == 0 {
        0
    } else {
        bcd_sum_cap((n - 1) as nat) + bcd_weight((n - 1) as nat)
    }
}

/// The sum of the first `n` weights is at most 165, the sum of all eight.
proof fn lemma_bcd_cap_bound(n: nat)
    requires
        n <= 8,
    ensures
        bcd_sum_cap(n) <= 165,
    decreases 8 - n,
{
    if n == 8 {
        reveal_with_fuel(bcd_sum_cap, 9);
        assert(bcd_sum_cap(8) == 165);
    } else {
        lemma_bcd_cap_bound(n + 1);
    }
}

/// The BCD weighted sum over `n` bits stays within 0 and the sum of the
/// first `n` weights; over at most eight bits that is 0..=165.
proof fn lemma_bcd_sum_bound(v: u64, n: nat)
    ensures
        0 <= bcd_sum(v, n) <= bcd_sum_cap(n),
        n <= 8 ==> bcd_sum(v, n) <= 165,
    decreases n,
{
    if n > 0 {
        lemma_bcd_sum_bound(v, (n - 1) as nat);
    }
    if n <= 8 {
        lemma_bcd_cap_bound(n);
    }
}

/// The BCD weighted sum of an eight-bit value is its low nibble plus ten
/// times its high nibble; a high nibble of ten or more always pushes the
/// sum past 99, which the decoder's range check catches.
pub proof fn lemma_bcd_nibbles(v: u64)
    requires
        v <= 0xff,
    ensures
        bcd_sum(v, 8) == (v & 0xf) + 10 * ((v >> 4) & 0xf),
        (v >> 4) & 0xf >= 10 ==> bcd_sum(v, 8) > 99,
        (v & 0xf) <= 9 && (v >> 4) & 0xf <= 9 ==> bcd_sum(v, 8) <= 99,
{
    assert(bcd_sum(v, 8) == (v & 0xf) + 10 * ((v >> 4) & 0xf)) by (bit_vector)
        requires
            v <= 0xff,
    ;
    assert((v & 0xf) <= 0xf) by (bit_vector);
}

impl DCF77DateTimeConverter {
    /// The telegram word this converter was built over.
    pub closed spec fn data(self) -> u64 {
        self.encoded_data
    }

    /// The weight table matches the BCD weights of the specification.
    pub closed spec fn wf(self) -> bool {
        forall|i: int| 0 <= i < 8 ==> self.bcd[i] as int == bcd_weight(i as nat)
    }

    pub fn new(dcf77_data: u64) -> (r: Self)
        ensures
            r.wf(),
            r.data() == dcf77_data,
    {
        let r = DCF77DateTimeConverter {
            encoded_data: dcf77_data,
            bcd: [1, 2, 4, 8, 10, 20, 40, 80],
        };
        proof {
            assert(r.bcd[0] == 1);
            assert(r.bcd[1] == 2);
            assert(r.bcd[2] == 4);
            assert(r.bcd[3] == 8);
            assert(r.bcd[4] == 10);
            assert(r.bcd[5] == 20);
            assert(r.bcd[6] == 40);
            assert(r.bcd[7] == 80);
        }
        r
    }

    /// Weighted BCD sum over the low eight bits, offset by the year 2000.
    pub fn naive_year(&self, year_dcf77: u32) -> (r: u32)
        requires
            self.wf(),
        ensures
            r as int == 2000 + bcd_sum(year_dcf77 as u64, 8),
    {
        let mut naive_year: u32 = 2000;
        let mut bit_pos: u32 = 0;
        while bit_pos < 8
            invariant
                self.wf(),
                bit_pos <= 8,
                naive_year as int == 2000 + bcd_sum(year_dcf77 as u64, bit_pos as nat),
            decreases 8 - bit_pos,
        {
            proof {
                lemma_bcd_sum_bound(year_dcf77 as u64, bit_pos as nat);
                assert(((year_dcf77 >> bit_pos) & 1 == 1) == word_bit(
                    year_dcf77 as u64,
                    bit_pos as u64,
                )) by (bit_vector)
                    requires
                        bit_pos < 8,
                ;
            }
            if (year_dcf77 >> bit_pos) & 1 == 1 {
                naive_year = naive_year + self.bcd[bit_pos as usize];
            }
            bit_pos = bit_pos + 1;
        }
        naive_year
    }

    /// Weighted BCD sum over the low five bits.
    pub fn naive_month(&self, month_dcf77: u32) -> (r: u32)
        requires
            self.wf(),
        ensures
            r as int == bcd_sum(month_dcf77 as u64, 5),
    {
        let mut naive_month: u32 = 0;
        let mut bit_pos: u32 = 0;
        while bit_pos < 5
            invariant
                self.wf(),
                bit_pos <= 5,
                naive_month as int == bcd_sum(month_dcf77 as u64, bit_pos as nat),
            decreases 5 - bit_pos,
        {
            proof {
                lemma_bcd_sum_bound(month_dcf77 as u64, bit_pos as nat);
                assert(((month_dcf77 >> bit_pos) & 1 == 1) == word_bit(
                    month_dcf77 as u64,
                    bit_pos as u64,
                )) by (bit_vector)
                    requires
                        bit_pos < 8,
                ;
            }
            if (month_dcf77 >> bit_pos) & 1 == 1 {
                naive_month = naive_month + self.bcd[bit_pos as usize];
            }
            bit_pos = bit_pos + 1;
        }
        naive_month
    }

    /// Weighted BCD sum over the low six bits, used for both the
    /// day-of-month and the hours field.
    pub fn naive_day_or_hours(&self, day_dcf77: u32) -> (r: u32)
        requires
            self.wf(),
        ensures
            r as int == bcd_sum(day_dcf77 as u64, 6),
    {
        let mut naive_day: u32 = 0;
        let mut bit_pos: u32 = 0;
        while bit_pos < 6
            invariant
                self.wf(),
                bit_pos <= 6,
                naive_day as int == bcd_sum(day_dcf77 as u64, bit_pos as nat),
            decreases 6 - bit_pos,
        {
            proof {
                lemma_bcd_sum_bound(day_dcf77 as u64, bit_pos as nat);
                assert(((day_dcf77 >> bit_pos) & 1 == 1) == word_bit(
                    day_dcf77 as u64,
                    bit_pos as u64,
                )) by (bit_vector)
                    requires
                        bit_pos < 8,
                ;
            }
            if (day_dcf77 >> bit_pos) & 1 == 1 {
                naive_day = naive_day + self.bcd[bit_pos as usize];
            }
            bit_pos = bit_pos + 1;
        }
        naive_day
    }

    /// Weighted BCD sum over the low seven bits.
    pub fn naive_minutes(&self, minutes_dcf77: u32) -> (r: u32)
        requires
            self.wf(),
        ensures
            r as int == bcd_sum(minutes_dcf77 as u64, 7),
    {
        let mut naive_minutes: u32 = 0;
        let mut bit_pos: u32 = 0;
        while bit_pos < 7
            invariant
                self.wf(),
                bit_pos <= 7,
                naive_minutes as int == bcd_sum(minutes_dcf77 as u64, bit_pos as nat),
            decreases 7 - bit_pos,
        {
            proof {
                lemma_bcd_sum_bound(minutes_dcf77 as u64, bit_pos as nat);
                assert(((minutes_dcf77 >> bit_pos) & 1 == 1) == word_bit(
                    minutes_dcf77 as u64,
                    bit_pos as u64,
                )) by (bit_vector)
                    requires
                        bit_pos < 8,
                ;
            }
            if (minutes_dcf77 >> bit_pos) & 1 == 1 {
                naive_minutes = naive_minutes + self.bcd[bit_pos as usize];
            }
            bit_pos = bit_pos + 1;
        }
        naive_minutes
    }

    /// Odd-parity fold of all bits of a word: 1 when an odd number of
    /// bits are set, 0 otherwise.
    pub fn check_parity(i: u32) -> (r: u32)
        ensures
            r == 1 <==> parity_fold(i as u64, 32),
            r == 0 || r == 1,
    {
        let mut odd: bool = false;
        let mut k: u32 = 0;
        while k < 32
            invariant
                k <= 32,
                odd == parity_fold(i as u64, k as nat),
            decreases 32 - k,
        {
            proof {
                assert(((i >> k) & 1 == 1) == word_bit(i as u64, k as u64)) by (bit_vector)
                    requires
                        k < 32,
                ;
            }
            if (i >> k) & 1 == 1 {
                odd = !odd;
            }
            k = k + 1;
        }
        if odd {
            1
        } else {
            0
        }
    }

    /// Decodes the telegram, checking start bits, the three parities and
    /// the value ranges in the fixed order start, minutes, hours, date.
    pub fn dcf77_decoder(&self) -> (r: Result<DecodedDateTime, DateTimeErr>)
        requires
            self.wf(),
        ensures
            r == spec_decode(self.data()),
    {
        let w = self.encoded_data;
        if (w >> 20u64) & 1 != 1 || w & 1 != 0 {
            proof {
                assert(((w >> 20u64) & 1 != 1 || w & 1 != 0) == !start_ok(w)) by (bit_vector);
            }
            return Err(DateTimeErr::WrongStart);
        }
        proof {
            assert(((w >> 20u64) & 1 == 1 && w & 1 == 0) == start_ok(w)) by (bit_vector);
        }

        let minutes_raw = (w >> 21u64) & 0x7f;
        proof {
            assert((w >> 21u64) & 0x7f <= 0x7f && ((w >> 21u64) & 0x7f) >> 7u64 == 0)
                by (bit_vector);
            assert(minutes_raw == minutes_field(w));
            crate::bits::lemma_parity_fold_shrink(minutes_raw, 7, 32);
            lemma_bit_is_binary(w, 28);
        }
        let minutes_parity = Self::check_parity(minutes_raw as u32);
        let minutes = self.naive_minutes(minutes_raw as u32);
        if minutes_parity != ((w >> 28u64) & 1) as u32 || minutes >= 60 {
            return Err(DateTimeErr::MinutesWrong);
        }

        let hours_raw = (w >> 29u64) & 0x3f;
        proof {
            assert((w >> 29u64) & 0x3f <= 0x3f && ((w >> 29u64) & 0x3f) >> 6u64 == 0)
                by (bit_vector);
            assert(hours_raw == hours_field(w));
            crate::bits::lemma_parity_fold_shrink(hours_raw, 6, 32);
            lemma_bit_is_binary(w, 35);
        }
        let hours_parity = Self::check_parity(hours_raw as u32);
        let hours = self.naive_day_or_hours(hours_raw as u32);
        if hours_parity != ((w >> 35u64) & 1) as u32 || hours >= 24 {
            return Err(DateTimeErr::HoursWrong);
        }

        let frame_raw = (w >> 36u64) & 0x3fffff;
        proof {
            assert((w >> 36u64) & 0x3fffff <= 0x3fffff && ((w >> 36u64) & 0x3fffff) >> 22u64 == 0)
                by (bit_vector);
            assert(frame_raw == date_frame(w));
            crate::bits::lemma_parity_fold_shrink(frame_raw, 22, 32);
            lemma_bit_is_binary(w, 58);
        }
        let date_parity = Self::check_parity(frame_raw as u32);

        let month_raw = (w >> 45u64) & 0x1f;
        let day_raw = (w >> 36u64) & 0x3f;
        let year_raw = (w >> 50u64) & 0xff;
        proof {
            assert((w >> 45u64) & 0x1f <= 0x1f) by (bit_vector);
            assert((w >> 36u64) & 0x3f <= 0x3f) by (bit_vector);
            assert((w >> 50u64) & 0xff <= 0xff) by (bit_vector);
            assert(month_raw == month_field(w));
            assert(day_raw == day_field(w));
            assert(year_raw == year_field(w));
        }
        let month = self.naive_month(month_raw as u32);
        let day = self.naive_day_or_hours(day_raw as u32);
        let year = self.naive_year(year_raw as u32);
        if date_parity != ((w >> 58u64) & 1) as u32 || month < 1 || month > 12 || day < 1 || day
            > 31 || year >= 2099 {
            return Err(DateTimeErr::DateWrong);
        }

        Ok(
            DecodedDateTime {
                year: year as u16,
                month: month as u8,
                day: day as u8,
                hour: hours as u8,
                minute: minutes as u8,
                second: 0,
            },
        )
    }
}

/// A decoded telegram always lies within the calendar ranges of the data
/// model: decoding never returns an out-of-range value.
pub proof fn lemma_decode_in_range(w: u64)
    ensures
        spec_decode(w) matches Ok(dt) ==> dt.wf(),
{
    if spec_decode(w) is Ok {
        lemma_bcd_sum_bound(minutes_field(w), 7);
        lemma_bcd_sum_bound(hours_field(w), 6);
        lemma_bcd_sum_bound(day_field(w), 6);
        lemma_bcd_sum_bound(month_field(w), 5);
        lemma_bcd_sum_bound(year_field(w), 8);
    }
}

} // verus!
