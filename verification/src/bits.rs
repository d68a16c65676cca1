//! Bit-level specification vocabulary shared by the telegram codec:
//! single-bit tests, even-parity folds and BCD weighted sums.

use vstd::prelude::*;

verus! {

/// Bit `i` of `w`, LSB-indexed.
pub open spec fn word_bit(w: u64, i: u64) -> bool {
    (w >> i) & 1 == 1
}

/// Odd-parity fold of bits `0..n` of `w`: true when an odd number of
/// those bits are set.
pub open spec fn parity_fold(w: u64, n: nat) -> bool
    decreases n,
{
    if n == 0 {
        false
    } else {
        parity_fold(w, (n - 1) as nat) != word_bit(w, (n - 1) as u64)
    }
}

/// The weight that a set bit at position `i` contributes in a BCD
/// field: 1, 2, 4, 8 for the units nibble, 10, 20, 40, 80 for the tens.
pub open spec fn bcd_weight(i: nat) -> int {
    if i == 0 {
        1
    } else if i == 1 {
        2
    } else if i == 2 {
        4
    } else if i == 3 {
        8
    } else if i == 4 {
        10
    } else if i == 5 {
        20
    } else if i == 6 {
        40
    } else {
        80
    }
}

/// A bit at or above the width of a small value is clear.
pub proof fn lemma_high_bits_clear(v: u64, k: u64, j: u64)
    by (bit_vector)
    requires
        k <= j < 64,
        v >> k == 0,
    ensures
        !word_bit(v, j),
{
}

/// The parity fold over `n2` bits of a value whose bits at and above
/// `n1` are clear equals the fold over its first `n1` bits.
pub proof fn lemma_parity_fold_shrink(v: u64, n1: nat, n2: nat)
    requires
        n1 <= n2 <= 64,
        n1 < 64,
        v >> (n1 as u64) == 0,
    ensures
        parity_fold(v, n2) == parity_fold(v, n1),
    decreases n2,
{
    if n2 > n1 {
        lemma_high_bits_clear(v, n1 as u64, (n2 - 1) as u64);
        lemma_parity_fold_shrink(v, n1, (n2 - 1) as nat);
    }
}

/// Weighted sum of bits `0..n` of `w` under the BCD weight table.
pub open spec fn bcd_sum(w: u64, n: nat) -> int
    decreases n,
{
    if n == 0 {
        0
    } else {
        bcd_sum(w, (n - 1) as nat) + if word_bit(w, (n - 1) as u64) {
            bcd_weight((n - 1) as nat)
        } else {
            0
        }
    }
}

} // verus!
