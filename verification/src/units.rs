//! Display magnitudes: which power of the base a byte count is shown in, and
//! the count scaled to that power with one decimal digit.

use vstd::arithmetic::power::{
    lemma0_pow, lemma1_pow, lemma_pow0, lemma_pow_increases, lemma_pow_positive,
    lemma_pow_strictly_increases, pow,
};
use vstd::prelude::*;

verus! {

/// The base between two neighbouring units.
pub const BASE: u64 = 1024;

/// The largest exponent that has a unit of its own.
pub const MAX_EXPONENT: u32 = 4;

/// The exponent a magnitude is displayed in: the largest `e` in 1..=4 with
/// `num > base^e`, and 0 when there is none. The comparison is strict, so a
/// magnitude of exactly `base^e` is still shown one unit lower.
pub open spec fn exponent(num: nat, base: nat) -> nat {
    if num > pow(base as int, 4) {
        4
    } else if num > pow(base as int, 3) {
        3
    } else if num > pow(base as int, 2) {
        2
    } else if num > pow(base as int, 1) {
        1
    } else {
        0
    }
}

/// `num` in units of `1024^exp`, times ten and rounded to the nearest integer,
/// halves upwards.
pub open spec fn tenths(num: nat, exp: nat) -> nat {
    let unit = pow(BASE as int, exp);
    ((20 * num + unit) / (2 * unit)) as nat
}

/// `tenths(num, exp)` is the integer nearest to ten times `num / 1024^exp`:
/// the two differ by half at most, and where they differ by exactly half,
/// `tenths` is the larger.
pub proof fn lemma_tenths_is_nearest(num: nat, exp: nat)
    ensures
        2 * pow(BASE as int, exp) * tenths(num, exp) <= 20 * num + pow(BASE as int, exp),
        2 * pow(BASE as int, exp) * tenths(num, exp) > 20 * num - pow(BASE as int, exp),
{
    lemma_pow_positive(BASE as int, exp);
    let unit = pow(BASE as int, exp);
    let t = (20 * num + unit) / (2 * unit);
    assert(2 * unit * t <= 20 * num + unit && 2 * unit * t > 20 * num - unit) by (nonlinear_arith)
        requires
            unit > 0,
            num >= 0,
            t == (20 * num + unit) / (2 * unit),
    ;
}

/// `tenths`, held to what a 16-bit field can carry.
pub open spec fn scaled(num: nat, exp: nat) -> nat {
    if tenths(num, exp) > u16::MAX {
        u16::MAX as nat
    } else {
        tenths(num, exp)
    }
}

/// `part` as a whole percentage of `total`, rounded down and held to what an
/// 8-bit field can carry. Of an empty total every part is 0 percent.
pub open spec fn percent(part: nat, total: nat) -> nat {
    if total == 0 {
        0
    } else if part * 100 / total > u8::MAX {
        u8::MAX as nat
    } else {
        part * 100 / total
    }
}

/// One more factor of the base.
pub proof fn lemma_pow_step(base: int, e: nat)
    ensures
        pow(base, e + 1) == pow(base, e) * base,
{
    reveal(pow);
    assert(pow(base, e + 1) == base * pow(base, e));
    assert(base * pow(base, e) == pow(base, e) * base) by (nonlinear_arith);
}

/// `base^exp` where it is at most `limit`, and `None` where it is larger.
pub fn power_within(base: u64, exp: u32, limit: u128) -> (r: Option<u128>)
    ensures
        match r {
            Some(p) => p == pow(base as int, exp as nat) && p <= limit,
            None => pow(base as int, exp as nat) > limit,
        },
{
    if exp == 0 {
        proof {
            lemma_pow0(base as int);
        }
        return if limit >= 1 { Some(1) } else { None };
    }
    if base <= 1 {
        proof {
            if base == 0 {
                lemma0_pow(exp as nat);
            } else {
                lemma1_pow(exp as nat);
            }
        }
        let p: u128 = base as u128;
        return if p <= limit { Some(p) } else { None };
    }
    if limit == 0 {
        proof {
            lemma_pow_positive(base as int, exp as nat);
        }
        return None;
    }
    let mut p: u128 = 1;
    let mut i: u32 = 0;
    proof {
        lemma_pow0(base as int);
    }
    while i < exp
        invariant
            i <= exp,
            base >= 2,
            p == pow(base as int, i as nat),
            p <= limit,
        decreases exp - i,
    {
        proof {
            lemma_pow_step(base as int, i as nat);
            lemma_pow_increases(base as nat, (i + 1) as nat, exp as nat);
        }
        match p.checked_mul(base as u128) {
            None => {
                return None;
            },
            Some(q) => {
                if q > limit {
                    return None;
                }
                p = q;
            },
        }
        i = i + 1;
    }
    Some(p)
}

/// Whether `num` is strictly above `base^exp`.
pub fn exceeds_power(num: u128, base: u64, exp: u32) -> (r: bool)
    ensures
        r == (num > pow(base as int, exp as nat)),
{
    match power_within(base, exp, num) {
        Some(p) => num > p,
        None => false,
    }
}

/// The display exponent of a magnitude of up to 128 bits.
pub fn exponent_of(num: u128, base: u64) -> (e: u32)
    ensures
        e == exponent(num as nat, base as nat),
        e <= MAX_EXPONENT,
{
    if exceeds_power(num, base, 4) {
        4
    } else if exceeds_power(num, base, 3) {
        3
    } else if exceeds_power(num, base, 2) {
        2
    } else if exceeds_power(num, base, 1) {
        1
    } else {
        0
    }
}

/// The scaled display value of a magnitude below `2^120`, which leaves room
/// for twenty times the magnitude in 128 bits.
pub(crate) fn scaled_wide(num: u128, exp: u32) -> (r: u16)
    requires
        num < 0x100_0000_0000_0000_0000_0000_0000_0000,
    ensures
        r == scaled(num as nat, exp as nat),
{
    let twenty: u128 = 20 * num;
    match power_within(BASE, exp, twenty) {
        None => {
            proof {
                let unit = pow(BASE as int, exp as nat);
                assert((20 * num + unit) / (2 * unit) == 0) by (nonlinear_arith)
                    requires
                        0 <= 20 * num < unit,
                ;
            }
            0
        },
        Some(unit) => {
            proof {
                lemma_pow_positive(BASE as int, exp as nat);
            }
            let q: u128 = (twenty + unit) / (2 * unit);
            if q > 65535 {
                65535
            } else {
                q as u16
            }
        },
    }
}

/// The scaled display value of a magnitude: `num` in units of `1024^exp`,
/// times ten, rounded to the nearest integer and held to 16 bits.
pub fn scaled_of(num: u64, exp: u32) -> (r: u16)
    ensures
        r == scaled(num as nat, exp as nat),
{
    scaled_wide(num as u128, exp)
}

/// The percentage that `part` is of `total`.
pub fn percent_of(part: u64, total: u64) -> (r: u8)
    ensures
        r == percent(part as nat, total as nat),
{
    if total == 0 {
        return 0;
    }
    let q: u128 = (part as u128) * 100 / (total as u128);
    if q > 255 {
        255
    } else {
        q as u8
    }
}

/// The first powers of 1024.
pub proof fn lemma_powers_of_base()
    ensures
        pow(BASE as int, 0) == 1,
        pow(BASE as int, 1) == 0x400,
        pow(BASE as int, 2) == 0x10_0000,
        pow(BASE as int, 3) == 0x4000_0000,
        pow(BASE as int, 4) == 0x100_0000_0000,
{
    lemma_pow0(BASE as int);
    lemma_pow_step(BASE as int, 0);
    lemma_pow_step(BASE as int, 1);
    lemma_pow_step(BASE as int, 2);
    lemma_pow_step(BASE as int, 3);
}

/// Every magnitude has one of the five exponents 0 to 4, whatever the base.
pub proof fn lemma_exponent_in_range(num: nat, base: nat)
    ensures
        exponent(num, base) <= MAX_EXPONENT,
{
}

/// The exponent is chosen by a strict comparison: a magnitude of exactly
/// `base^k` is displayed with exponent `k - 1`, and one more with exponent `k`.
pub proof fn lemma_exponent_at_boundary(base: nat, k: nat)
    requires
        base >= 2,
        1 <= k <= MAX_EXPONENT,
    ensures
        exponent(pow(base as int, k) as nat, base) == k - 1,
        exponent((pow(base as int, k) + 1) as nat, base) == k,
{
    lemma_pow_positive(base as int, k);
    if k < 4 {
        lemma_pow_strictly_increases(base, k, 4);
    }
    if k < 3 {
        lemma_pow_strictly_increases(base, k, 3);
    }
    if k < 2 {
        lemma_pow_strictly_increases(base, k, 2);
    }
    if k > 1 {
        lemma_pow_strictly_increases(base, 1, k);
        lemma_pow_strictly_increases(base, (k - 1) as nat, k);
    }
    if k > 2 {
        lemma_pow_strictly_increases(base, 2, k);
    }
    if k > 3 {
        lemma_pow_strictly_increases(base, 3, k);
    }
}

/// The largest magnitude whose scaled value in its own exponent needs no
/// clamping: 6553 units of `1024^4`.
pub open spec fn display_limit() -> nat {
    6553 * 0x100_0000_0000
}

/// A magnitude up to `display_limit()`, scaled in its own exponent with base
/// 1024, fits a 16-bit field as it is; below the highest exponent it is at
/// most 10240, that is 1024.0 units.
pub proof fn lemma_scaled_fits(num: nat)
    requires
        num <= display_limit(),
    ensures
        tenths(num, exponent(num, BASE as nat)) <= u16::MAX,
        scaled(num, exponent(num, BASE as nat)) == tenths(num, exponent(num, BASE as nat)),
        exponent(num, BASE as nat) < MAX_EXPONENT ==> tenths(num, exponent(num, BASE as nat))
            <= 10240,
{
    lemma_powers_of_base();
    let e = exponent(num, BASE as nat);
    let unit = pow(BASE as int, e);
    if e == 0 {
        assert(unit == 1);
        assert((20 * num + 1) / 2 == 10 * num);
    } else if e < 4 {
        assert(num <= 1024 * unit);
        assert((20 * num + unit) / (2 * unit) <= 10240) by (nonlinear_arith)
            requires
                0 <= num <= 1024 * unit,
                unit > 0,
        ;
    } else {
        assert(unit == 0x100_0000_0000);
        assert((20 * num + unit) / (2 * unit) <= 65535) by (nonlinear_arith)
            requires
                0 <= num <= 6553 * unit,
                unit > 0,
        ;
    }
}

/// Nothing scales to nothing, in every unit.
pub proof fn lemma_scaled_zero(exp: nat)
    ensures
        tenths(0, exp) == 0,
        scaled(0, exp) == 0,
{
    lemma_pow_positive(BASE as int, exp);
    let unit = pow(BASE as int, exp);
    assert((20 * 0 + unit) / (2 * unit) == 0) by (nonlinear_arith)
        requires
            unit > 0,
    ;
}

/// A part of a total is at most 100 percent of it.
pub proof fn lemma_percent_of_part(part: nat, total: nat)
    requires
        part <= total,
    ensures
        percent(part, total) <= 100,
{
    if total > 0 {
        assert(part * 100 / total <= 100) by (nonlinear_arith)
            requires
                part <= total,
                total > 0,
        ;
    }
}

} // verus!
