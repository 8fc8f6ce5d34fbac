//! Temperatures are carried as whole hundredths of a degree, the precision
//! at which the service reports them.
use vstd::prelude::*;

verus! {

/// The freezing point of water, in hundredths of a degree Fahrenheit.
pub const FREEZING_CENTI_F: i64 = 3200;

/// `f` hundredths of a degree Fahrenheit in hundredths of a degree Celsius,
/// `(f - 3200) * 5 / 9` rounded to the nearest whole number, halves away from
/// zero (a half never occurs, the exact value being a multiple of one ninth).
pub open spec fn celsius_hundredths(f: int) -> int {
    let n = 5 * (f - 3200);
    if n >= 0 {
        (n + 4) / 9
    } else {
        -((4 - n) / 9)
    }
}

/// The rounded value lies within four ninths of a hundredth of the exact one.
pub proof fn lemma_celsius_nearest(f: int)
    ensures
        9 * celsius_hundredths(f) - 4 <= 5 * (f - 3200) <= 9 * celsius_hundredths(f) + 4,
{
    let n = 5 * (f - 3200);
    if n >= 0 {
        let q = (n + 4) / 9;
        assert(9 * q <= n + 4 < 9 * q + 9) by (nonlinear_arith)
            requires
                q == (n + 4) / 9,
                n >= 0,
        ;
    } else {
        let q = (4 - n) / 9;
        assert(9 * q <= 4 - n < 9 * q + 9) by (nonlinear_arith)
            requires
                q == (4 - n) / 9,
                n < 0,
        ;
    }
}

/// Converting to Celsius and back with `F = C * 9 / 5 + 32` lands within
/// four fifths of a hundredth of a degree of the starting value, inside the
/// reported precision of one hundredth: five times the gap, `9 * C + 5 * 3200 - 5 * F`,
/// is at most four.
pub proof fn lemma_celsius_round_trip(f: int)
    ensures
        -4 <= (9 * celsius_hundredths(f) + 5 * 3200) - 5 * f <= 4,
{
    lemma_celsius_nearest(f);
}

/// Converts hundredths of a degree Fahrenheit to hundredths of a degree
/// Celsius, rounded to the nearest hundredth.
pub fn fahrenheit_to_celsius(fahrenheit: i64) -> (r: i64)
    ensures
        r == celsius_hundredths(fahrenheit as int),
{
    let n: i128 = 5 * (fahrenheit as i128 - FREEZING_CENTI_F as i128);
    let q: i128 = if n >= 0 {
        (n + 4) / 9
    } else {
        -((4 - n) / 9)
    };
    assert(-0x8000_0000_0000_0000 <= q < 0x8000_0000_0000_0000) by (nonlinear_arith)
        requires
            n == 5 * (fahrenheit - 3200),
            -0x8000_0000_0000_0000 <= fahrenheit < 0x8000_0000_0000_0000,
            n >= 0 ==> q == (n + 4) / 9,
            n < 0 ==> q == -((4 - n) / 9),
    ;
    q as i64
}

} // verus!
