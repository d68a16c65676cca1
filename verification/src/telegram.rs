//! Telegram construction: builds a valid DCF77 frame word from a
//! date-time, and the laws tying construction to decoding — a built
//! frame decodes back to the date-time it was built from, and flipping
//! any single covered bit is caught by the first affected check.

use vstd::prelude::*;

verus! {

use crate::bits::{word_bit, parity_fold, bcd_sum};
use crate::datetime_converter::{
    DCF77DateTimeConverter,
    DateTimeErr,
    DecodedDateTime,
    minutes_field,
    hours_field,
    day_field,
    month_field,
    year_field,
    date_frame,
    start_ok,
    minutes_ok,
    hours_ok,
    date_ok,
    decoded_of,
    spec_decode,
};

/// Two-digit BCD encoding of a value below 100: units in the low
/// nibble, tens in the high nibble.
pub open spec fn bcd_of(v: u64) -> u64 {
    ((v % 10) + (v / 10) * 16) as u64
}

/// The parity bit that makes the covered field even: 1 when the field
/// holds an odd number of set bits.
pub open spec fn parity_bit(v: u64, n: nat) -> u64 {
    if parity_fold(v, n) {
        1
    } else {
        0
    }
}

/// The block covered by the date parity bit, relative to bit 36: day at
/// 0..5, weekday (left clear) at 6..8, month at 9..13, year at 14..21.
pub open spec fn date_block(d: u64, mo: u64, yy: u64) -> u64 {
    bcd_of(d) | (bcd_of(mo) << 9) | (bcd_of(yy) << 14)
}

/// A telegram word assembled from plain minute, hour, day, month and
/// two-digit year values: BCD fields at their positions, the three
/// parity bits, the start-of-time bit set and the start-of-minute bit
/// clear.
pub open spec fn assemble(mi: u64, h: u64, d: u64, mo: u64, yy: u64) -> u64 {
    (1u64 << 20) | (bcd_of(mi) << 21) | (parity_bit(bcd_of(mi), 7) << 28) | (bcd_of(h) << 29) | (
    parity_bit(bcd_of(h), 6) << 35) | (date_block(d, mo, yy) << 36) | (parity_bit(
        date_block(d, mo, yy),
        22,
    ) << 58)
}

/// The valid telegram word that carries `dt`.
pub open spec fn spec_encode(dt: DecodedDateTime) -> u64 {
    assemble(
        dt.minute as u64,
        dt.hour as u64,
        dt.day as u64,
        dt.month as u64,
        (dt.year - 2000) as u64,
    )
}

/// Builds the valid telegram word that carries `dt`: every field
/// BCD-encoded at its position, all three parity bits correct, the
/// weekday bits left clear.
pub fn encode(dt: &DecodedDateTime) -> (r: u64)
    requires
        dt.wf(),
    ensures
        r == spec_encode(*dt),
{
    let mi = dt.minute as u64;
    let h = dt.hour as u64;
    let d = dt.day as u64;
    let mo = dt.month as u64;
    let yy = (dt.year - 2000) as u64;

    let mb = (mi % 10) + (mi / 10) * 16;
    let hb = (h % 10) + (h / 10) * 16;
    let db = (d % 10) + (d / 10) * 16;
    let mob = (mo % 10) + (mo / 10) * 16;
    let yb = (yy % 10) + (yy / 10) * 16;
    assert(mb == bcd_of(mi) && hb == bcd_of(h) && db == bcd_of(d) && mob == bcd_of(mo) && yb
        == bcd_of(yy));

    let block = db | (mob << 9u64) | (yb << 14u64);
    assert(block == date_block(d, mo, yy));

    proof {
        assert(mb >> 7u64 == 0 && mb <= 0xffff_ffff) by (bit_vector)
            requires
                mb < 128,
        ;
        assert(hb >> 6u64 == 0 && hb <= 0xffff_ffff) by (bit_vector)
            requires
                hb < 64,
        ;
        assert(block >> 22u64 == 0 && block <= 0xffff_ffff) by (bit_vector)
            requires
                block == db | (mob << 9u64) | (yb << 14u64),
                db < 0x40,
                mob < 0x20,
                yb < 0x100,
        ;
        crate::bits::lemma_parity_fold_shrink(mb, 7, 32);
        crate::bits::lemma_parity_fold_shrink(hb, 6, 32);
        crate::bits::lemma_parity_fold_shrink(block, 22, 32);
    }
    let pm = DCF77DateTimeConverter::check_parity(mb as u32) as u64;
    let ph = DCF77DateTimeConverter::check_parity(hb as u32) as u64;
    let pd = DCF77DateTimeConverter::check_parity(block as u32) as u64;
    assert(pm == parity_bit(bcd_of(mi), 7));
    assert(ph == parity_bit(bcd_of(h), 6));
    assert(pd == parity_bit(date_block(d, mo, yy), 22));

    (1u64 << 20u64) | (mb << 21u64) | (pm << 28u64) | (hb << 29u64) | (ph << 35u64) | (block
        << 36u64) | (pd << 58u64)
}

/// Decoding inverts construction: the telegram built from any in-range
/// date-time decodes back to exactly that date-time.
pub proof fn lemma_decode_encode(dt: DecodedDateTime)
    requires
        dt.wf(),
    ensures
        spec_decode(spec_encode(dt)) == Ok::<DecodedDateTime, DateTimeErr>(dt),
{
    let mi = dt.minute as u64;
    let h = dt.hour as u64;
    let d = dt.day as u64;
    let mo = dt.month as u64;
    let yy = (dt.year - 2000) as u64;
    let w = assemble(mi, h, d, mo, yy);

    assert(start_ok(w) && minutes_field(w) == bcd_of(mi) && word_bit(w, 28) == parity_fold(
        bcd_of(mi),
        7,
    )) by (bit_vector)
        requires
            w == assemble(mi, h, d, mo, yy),
            mi < 60,
            h < 24,
            1 <= d <= 31,
            1 <= mo <= 12,
            yy < 99,
    ;
    assert(bcd_sum(bcd_of(mi), 7) == mi) by (bit_vector)
        requires
            mi < 60,
    ;
    assert(minutes_ok(w));

    assert(hours_field(w) == bcd_of(h) && word_bit(w, 35) == parity_fold(bcd_of(h), 6))
        by (bit_vector)
        requires
            w == assemble(mi, h, d, mo, yy),
            mi < 60,
            h < 24,
            1 <= d <= 31,
            1 <= mo <= 12,
            yy < 99,
    ;
    assert(bcd_sum(bcd_of(h), 6) == h) by (bit_vector)
        requires
            h < 24,
    ;
    assert(hours_ok(w));

    assert(date_frame(w) == date_block(d, mo, yy) && word_bit(w, 58) == parity_fold(
        date_block(d, mo, yy),
        22,
    ) && day_field(w) == bcd_of(d) && month_field(w) == bcd_of(mo) && year_field(w) == bcd_of(yy))
        by (bit_vector)
        requires
            w == assemble(mi, h, d, mo, yy),
            mi < 60,
            h < 24,
            1 <= d <= 31,
            1 <= mo <= 12,
            yy < 99,
    ;
    assert(bcd_sum(bcd_of(d), 6) == d && bcd_sum(bcd_of(mo), 5) == mo && bcd_sum(bcd_of(yy), 8)
        == yy) by (bit_vector)
        requires
            1 <= d <= 31,
            1 <= mo <= 12,
            yy < 99,
    ;
    assert(date_ok(w));
    assert(decoded_of(w) == dt);
}

/// The error that a single flipped bit at position `i` provokes: the
/// first check, in decode order, whose coverage includes `i`.
pub open spec fn flip_err(i: u64) -> DateTimeErr {
    if i == 0 || i == 20 {
        DateTimeErr::WrongStart
    } else if 21 <= i <= 27 {
        DateTimeErr::MinutesWrong
    } else if 29 <= i <= 34 {
        DateTimeErr::HoursWrong
    } else {
        DateTimeErr::DateWrong
    }
}

/// Flipping bit `k` leaves every other bit as it was.
proof fn lemma_xor_bit_other(v: u64, k: u64, j: u64)
    by (bit_vector)
    requires
        k < 64,
        j < 64,
        j != k,
    ensures
        word_bit(v ^ (1u64 << k), j) == word_bit(v, j),
{
}

/// Flipping bit `k` inverts it.
proof fn lemma_xor_bit_self(v: u64, k: u64)
    by (bit_vector)
    requires
        k < 64,
    ensures
        word_bit(v ^ (1u64 << k), k) == !word_bit(v, k),
{
}

/// Two values that agree on their first `n` bits have the same parity
/// fold over those bits.
proof fn lemma_parity_same(v1: u64, v2: u64, n: nat)
    requires
        n <= 64,
        forall|j: u64| j < n ==> word_bit(v1, j) == word_bit(v2, j),
    ensures
        parity_fold(v1, n) == parity_fold(v2, n),
    decreases n,
{
    if n > 0 {
        lemma_parity_same(v1, v2, (n - 1) as nat);
    }
}

/// Flipping one bit inside a parity fold flips the fold.
proof fn lemma_parity_flip(v: u64, k: u64, n: nat)
    requires
        k < n <= 64,
    ensures
        parity_fold(v ^ (1u64 << k), n) != parity_fold(v, n),
    decreases n,
{
    if n - 1 == k {
        lemma_xor_bit_self(v, k);
        assert forall|j: u64| j < k implies word_bit(v ^ (1u64 << k), j) == word_bit(v, j) by {
            lemma_xor_bit_other(v, k, j);
        }
        lemma_parity_same(v ^ (1u64 << k), v, k as nat);
    } else {
        lemma_xor_bit_other(v, k, (n - 1) as u64);
        lemma_parity_flip(v, k, (n - 1) as nat);
    }
}

/// A single bit flip at any position covered by a start or parity check
/// — both start bits, and the minutes, hours and date fields — turns a
/// valid telegram into one that decode rejects with the error of the
/// first affected field.
pub proof fn lemma_bit_flip_detected(w: u64, i: u64)
    requires
        spec_decode(w) is Ok,
        i == 0 || i == 20 || (21 <= i <= 27) || (29 <= i <= 34) || (36 <= i <= 57),
    ensures
        spec_decode(w ^ (1u64 << i)) == Err::<DecodedDateTime, DateTimeErr>(flip_err(i)),
{
    let w2 = w ^ (1u64 << i);
    if i == 0 || i == 20 {
        assert(!start_ok(w2)) by (bit_vector)
            requires
                w2 == w ^ (1u64 << i),
                i == 0 || i == 20,
                start_ok(w),
        ;
    } else if 21 <= i <= 27 {
        assert(start_ok(w2) && minutes_field(w2) == minutes_field(w) ^ (1u64 << ((i - 21) as u64))
            && word_bit(w2, 28) == word_bit(w, 28)) by (bit_vector)
            requires
                w2 == w ^ (1u64 << i),
                21 <= i <= 27,
                start_ok(w),
        ;
        lemma_parity_flip(minutes_field(w), (i - 21) as u64, 7);
        assert(!minutes_ok(w2));
    } else if 29 <= i <= 34 {
        assert(start_ok(w2) && minutes_field(w2) == minutes_field(w) && word_bit(w2, 28)
            == word_bit(w, 28) && hours_field(w2) == hours_field(w) ^ (1u64 << ((i - 29) as u64))
            && word_bit(w2, 35) == word_bit(w, 35)) by (bit_vector)
            requires
                w2 == w ^ (1u64 << i),
                29 <= i <= 34,
                start_ok(w),
        ;
        lemma_parity_flip(hours_field(w), (i - 29) as u64, 6);
        assert(minutes_ok(w2) == minutes_ok(w));
        assert(!hours_ok(w2));
    } else {
        assert(start_ok(w2) && minutes_field(w2) == minutes_field(w) && word_bit(w2, 28)
            == word_bit(w, 28) && hours_field(w2) == hours_field(w) && word_bit(w2, 35)
            == word_bit(w, 35) && date_frame(w2) == date_frame(w) ^ (1u64 << ((i - 36) as u64))
            && word_bit(w2, 58) == word_bit(w, 58)) by (bit_vector)
            requires
                w2 == w ^ (1u64 << i),
                36 <= i <= 57,
                start_ok(w),
        ;
        lemma_parity_flip(date_frame(w), (i - 36) as u64, 22);
        assert(minutes_ok(w2) == minutes_ok(w));
        assert(hours_ok(w2) == hours_ok(w));
        assert(!date_ok(w2));
    }
}

} // verus!

