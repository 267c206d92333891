//! Overflow-checked fixed-point arithmetic: basis-point ratios, decimal
//! rescaling, notional and signed PnL computation.
//!
//! All monetary quantities are non-negative fixed-point integers scaled by a
//! decimal precision; PnL is a signed wide integer. Every operation either
//! returns the exact mathematical result (division truncating toward zero) or
//! fails with `MathOverflow` when an intermediate would not fit.

use vstd::prelude::*;
use vstd::arithmetic::div_mod::{
    lemma_div_by_multiple,
    lemma_div_is_ordered,
    lemma_fundamental_div_mod,
};
use vstd::arithmetic::mul::{
    lemma_mul_inequality,
    lemma_mul_is_commutative,
    lemma_mul_is_distributive_add,
    lemma_mul_upper_bound,
};

use crate::ErrorCode;
use crate::UNIT_DECIMALS;

verus! {

/// `10^p` as a mathematical integer.
pub open spec fn pow10_spec(p: nat) -> nat
    decreases p,
{
    if p == 0 {
        1
    } else {
        10 * pow10_spec((p - 1) as nat)
    }
}

pub proof fn lemma_pow10_pos(p: nat)
    ensures
        pow10_spec(p) >= 1,
    decreases p,
{
    if p > 0 {
        lemma_pow10_pos((p - 1) as nat);
    }
}

pub proof fn lemma_pow10_mono(p: nat, q: nat)
    requires
        p <= q,
    ensures
        pow10_spec(p) <= pow10_spec(q),
    decreases q,
{
    if p < q {
        lemma_pow10_mono(p, (q - 1) as nat);
        lemma_pow10_pos((q - 1) as nat);
    }
}

/// Rescale `amount` from `from_dec` to `to_dec` decimal places: divide
/// (truncating) when shrinking precision, multiply when growing it.
pub open spec fn scale_spec(amount: int, from_dec: int, to_dec: int) -> int {
    if from_dec >= to_dec {
        amount / pow10_spec((from_dec - to_dec) as nat) as int
    } else {
        amount * pow10_spec((to_dec - from_dec) as nat) as int
    }
}

/// The rescaling of `amount` stays within the wide-integer range.
pub open spec fn scale_ok(amount: int, from_dec: int, to_dec: int) -> bool {
    if from_dec == to_dec {
        true
    } else if from_dec > to_dec {
        pow10_spec((from_dec - to_dec) as nat) <= u128::MAX
    } else {
        pow10_spec((to_dec - from_dec) as nat) <= u128::MAX
            && amount * pow10_spec((to_dec - from_dec) as nat) as int <= u128::MAX
    }
}

/// `floor(amount * rate / 10000)`.
pub open spec fn bps_spec(amount: int, rate_bps: int) -> int {
    amount * rate_bps / 10000
}

/// The basis-point product stays within the wide-integer range.
pub open spec fn bps_ok(amount: int, rate_bps: int) -> bool {
    amount * rate_bps <= u128::MAX
}

/// `floor(num * 10000 / denom)`.
pub open spec fn ratio_bps_spec(num: int, denom: int) -> int {
    num * 10000 / denom
}

/// The ratio is defined and its numerator stays within the wide-integer range.
pub open spec fn ratio_bps_ok(num: int, denom: int) -> bool {
    num * 10000 <= u128::MAX && denom > 0
}

/// Position size times NAV, rescaled from size-times-price precision into
/// settlement-asset precision.
pub open spec fn notional_spec(size: u64, nav: u64, price_decimals: u8, quote_decimals: u8) -> int {
    scale_spec(size * nav, UNIT_DECIMALS + price_decimals, quote_decimals as int)
}

pub open spec fn notional_ok(size: u64, nav: u64, price_decimals: u8, quote_decimals: u8) -> bool {
    scale_ok(size * nav, UNIT_DECIMALS + price_decimals, quote_decimals as int)
}

/// Signed PnL of the long side when the NAV moves from `entry_nav` to
/// `close_nav`: the sign of the move times the rescaled magnitude.
pub open spec fn pnl_long_spec(
    size: u64,
    entry_nav: u64,
    close_nav: u64,
    price_decimals: u8,
    quote_decimals: u8,
) -> int {
    if close_nav >= entry_nav {
        scale_spec((close_nav - entry_nav) * size, UNIT_DECIMALS + price_decimals, quote_decimals as int)
    } else {
        -scale_spec((entry_nav - close_nav) * size, UNIT_DECIMALS + price_decimals, quote_decimals as int)
    }
}

/// The short side's PnL is the exact negation of the long side's.
pub open spec fn pnl_short_spec(
    size: u64,
    entry_nav: u64,
    close_nav: u64,
    price_decimals: u8,
    quote_decimals: u8,
) -> int {
    -pnl_long_spec(size, entry_nav, close_nav, price_decimals, quote_decimals)
}

/// The PnL magnitude rescales without overflow and fits the signed range.
pub open spec fn pnl_ok(
    size: u64,
    entry_nav: u64,
    close_nav: u64,
    price_decimals: u8,
    quote_decimals: u8,
) -> bool {
    let mag = if close_nav >= entry_nav {
        (close_nav - entry_nav) * size
    } else {
        (entry_nav - close_nav) * size
    };
    scale_ok(mag, UNIT_DECIMALS + price_decimals, quote_decimals as int)
        && scale_spec(mag, UNIT_DECIMALS + price_decimals, quote_decimals as int) <= i128::MAX
}

proof fn lemma_mul_div_limit(a: u128, b: u128)
    requires
        a > 0,
    ensures
        b <= u128::MAX as int / a as int ==> a * b <= u128::MAX,
        b > u128::MAX as int / a as int ==> a * b > u128::MAX,
{
    let q = u128::MAX as int / a as int;
    lemma_fundamental_div_mod(u128::MAX as int, a as int);
    if b <= q {
        lemma_mul_inequality(b as int, q, a as int);
    } else {
        lemma_mul_inequality(q + 1, b as int, a as int);
        lemma_mul_is_distributive_add(a as int, q, 1);
    }
}

/// `a * b` when it fits the wide-integer range, `None` otherwise.
pub fn checked_mul_u128(a: u128, b: u128) -> (r: Option<u128>)
    ensures
        match r {
            Some(v) => a * b <= u128::MAX && v == a * b,
            None => a * b > u128::MAX,
        },
{
    if a == 0 {
        Some(0)
    } else if b <= u128::MAX / a {
        proof {
            lemma_mul_div_limit(a, b);
        }
        Some(a * b)
    } else {
        proof {
            lemma_mul_div_limit(a, b);
        }
        None
    }
}

/// `floor(amount * rate_bps / 10000)` with an overflow-checked product.
pub fn bps(amount: u128, rate_bps: u16) -> (r: Result<u128, ErrorCode>)
    ensures
        match r {
            Ok(v) => bps_ok(amount as int, rate_bps as int) && v == bps_spec(
                amount as int,
                rate_bps as int,
            ),
            Err(e) => e == ErrorCode::MathOverflow && !bps_ok(amount as int, rate_bps as int),
        },
{
    match checked_mul_u128(amount, rate_bps as u128) {
        Some(x) => Ok(x / 10000),
        None => Err(ErrorCode::MathOverflow),
    }
}

/// `floor(num * 10000 / denom)` with an overflow-checked product; fails on a
/// zero denominator as well.
pub fn ratio_bps_u128(num: u128, denom: u128) -> (r: Result<u128, ErrorCode>)
    ensures
        match r {
            Ok(v) => ratio_bps_ok(num as int, denom as int) && v == ratio_bps_spec(
                num as int,
                denom as int,
            ),
            Err(e) => e == ErrorCode::MathOverflow && !ratio_bps_ok(num as int, denom as int),
        },
{
    match checked_mul_u128(num, 10000) {
        Some(x) => {
            if denom == 0 {
                Err(ErrorCode::MathOverflow)
            } else {
                Ok(x / denom)
            }
        },
        None => Err(ErrorCode::MathOverflow),
    }
}

/// `10^p` when it fits the wide-integer range, `None` otherwise.
pub fn pow10_u128(p: u32) -> (r: Option<u128>)
    ensures
        match r {
            Some(v) => pow10_spec(p as nat) <= u128::MAX && v == pow10_spec(p as nat),
            None => pow10_spec(p as nat) > u128::MAX,
        },
{
    let mut acc: u128 = 1;
    let mut i: u32 = 0;
    while i < p
        invariant
            i <= p,
            acc == pow10_spec(i as nat),
        decreases p - i,
    {
        if acc > u128::MAX / 10 {
            proof {
                lemma_mul_div_limit(10, acc);
                assert(pow10_spec((i + 1) as nat) == 10 * pow10_spec(i as nat));
                lemma_pow10_mono((i + 1) as nat, p as nat);
            }
            return None;
        }
        proof {
            lemma_mul_div_limit(10, acc);
            assert(pow10_spec((i + 1) as nat) == 10 * pow10_spec(i as nat));
        }
        acc = 10 * acc;
        i = i + 1;
    }
    Some(acc)
}

/// Rescale `amount` from `from_dec` to `to_dec` decimal places: divide
/// (truncating toward zero) when shrinking precision, multiply when growing.
pub fn scale_amount(amount: u128, from_dec: u32, to_dec: u32) -> (r: Result<u128, ErrorCode>)
    ensures
        match r {
            Ok(v) => scale_ok(amount as int, from_dec as int, to_dec as int) && v == scale_spec(
                amount as int,
                from_dec as int,
                to_dec as int,
            ),
            Err(e) => e == ErrorCode::MathOverflow && !scale_ok(
                amount as int,
                from_dec as int,
                to_dec as int,
            ),
        },
{
    if from_dec == to_dec {
        proof {
            assert(pow10_spec(0) == 1);
        }
        return Ok(amount);
    }
    if from_dec > to_dec {
        let p = from_dec - to_dec;
        match pow10_u128(p) {
            Some(d) => {
                proof {
                    lemma_pow10_pos(p as nat);
                    lemma_div_is_ordered(amount as int, u128::MAX as int, d as int);
                }
                Ok(amount / d)
            },
            None => Err(ErrorCode::MathOverflow),
        }
    } else {
        let p = to_dec - from_dec;
        match pow10_u128(p) {
            Some(m) => {
                match checked_mul_u128(amount, m) {
                    Some(v) => Ok(v),
                    None => Err(ErrorCode::MathOverflow),
                }
            },
            None => Err(ErrorCode::MathOverflow),
        }
    }
}

/// Notional in settlement-asset precision: `size * nav` rescaled from
/// `UNIT_DECIMALS + price_decimals` decimals down or up to `quote_decimals`.
pub fn notional_quote(
    size_units: u64,
    nav_price: u64,
    price_decimals: u8,
    quote_decimals: u8,
) -> (r: Result<u128, ErrorCode>)
    ensures
        match r {
            Ok(v) => notional_ok(size_units, nav_price, price_decimals, quote_decimals) && v
                == notional_spec(size_units, nav_price, price_decimals, quote_decimals),
            Err(e) => e == ErrorCode::MathOverflow && !notional_ok(
                size_units,
                nav_price,
                price_decimals,
                quote_decimals,
            ),
        },
{
    proof {
        lemma_mul_upper_bound(size_units as int, u64::MAX as int, nav_price as int, u64::MAX as int);
    }
    let prod = (size_units as u128) * (nav_price as u128);
    scale_amount(prod, UNIT_DECIMALS as u32 + price_decimals as u32, quote_decimals as u32)
}

/// Signed PnL of the long side in settlement-asset units, computed as the
/// sign of the NAV move times the rescaled magnitude. The result fits the
/// signed wide-integer range or the call fails with `MathOverflow`.
pub fn pnl_quote(
    size_units: u64,
    entry_nav: u64,
    close_nav: u64,
    price_decimals: u8,
    quote_decimals: u8,
) -> (r: Result<i128, ErrorCode>)
    ensures
        match r {
            Ok(v) => pnl_ok(size_units, entry_nav, close_nav, price_decimals, quote_decimals) && v
                == pnl_long_spec(size_units, entry_nav, close_nav, price_decimals, quote_decimals),
            Err(e) => e == ErrorCode::MathOverflow && !pnl_ok(
                size_units,
                entry_nav,
                close_nav,
                price_decimals,
                quote_decimals,
            ),
        },
{
    let (diff_mag, negative): (u64, bool) = if close_nav >= entry_nav {
        (close_nav - entry_nav, false)
    } else {
        (entry_nav - close_nav, true)
    };
    proof {
        lemma_mul_upper_bound(diff_mag as int, u64::MAX as int, size_units as int, u64::MAX as int);
    }
    let mag = (diff_mag as u128) * (size_units as u128);
    let scaled = match scale_amount(
        mag,
        UNIT_DECIMALS as u32 + price_decimals as u32,
        quote_decimals as u32,
    ) {
        Ok(s) => s,
        Err(e) => {
            return Err(e);
        },
    };
    if scaled > i128::MAX as u128 {
        return Err(ErrorCode::MathOverflow);
    }
    if negative {
        Ok(-(scaled as i128))
    } else {
        Ok(scaled as i128)
    }
}

/// A genuine basis-point fraction of an amount never exceeds the amount, and
/// its product never exceeds the amount's own ten-thousandfold.
pub proof fn lemma_bps_bounds(amount: u128, rate_bps: u16)
    requires
        rate_bps <= 10000,
    ensures
        amount * rate_bps <= amount * 10000,
        bps_spec(amount as int, rate_bps as int) <= amount,
{
    lemma_mul_inequality(rate_bps as int, 10000, amount as int);
    lemma_mul_is_commutative(rate_bps as int, amount as int);
    lemma_mul_is_commutative(10000, amount as int);
    lemma_div_is_ordered(amount as int * rate_bps as int, amount as int * 10000, 10000);
    lemma_div_by_multiple(amount as int, 10000);
}

/// `x` forced into `[lo, hi]`: out-of-range values land on the nearer bound.
pub open spec fn clamp_spec(x: int, lo: int, hi: int) -> int {
    if x < lo {
        lo
    } else if x > hi {
        hi
    } else {
        x
    }
}

pub fn clamp_i128(x: i128, lo: i128, hi: i128) -> (r: i128)
    ensures
        r == clamp_spec(x as int, lo as int, hi as int),
{
    if x < lo {
        lo
    } else if x > hi {
        hi
    } else {
        x
    }
}

/// A flat NAV yields exactly zero PnL, whatever the size and precisions.
pub proof fn lemma_pnl_flat_is_zero(size: u64, nav: u64, price_decimals: u8, quote_decimals: u8)
    ensures
        pnl_long_spec(size, nav, nav, price_decimals, quote_decimals) == 0,
{
    lemma_pow10_pos((UNIT_DECIMALS + price_decimals - quote_decimals) as nat);
    lemma_pow10_pos((quote_decimals - (UNIT_DECIMALS + price_decimals)) as nat);
}

/// The short side's PnL is the exact negation of the long side's, for every
/// size, pair of NAVs and precisions.
pub proof fn lemma_pnl_short_negates_long(
    size: u64,
    entry_nav: u64,
    close_nav: u64,
    price_decimals: u8,
    quote_decimals: u8,
)
    ensures
        pnl_short_spec(size, entry_nav, close_nav, price_decimals, quote_decimals)
            == -pnl_long_spec(size, entry_nav, close_nav, price_decimals, quote_decimals),
{
}

/// Swapping entry and close NAV negates the long side's PnL: the magnitude of
/// the move is the same in both directions, only the sign flips.
pub proof fn lemma_pnl_swap_negates(
    size: u64,
    entry_nav: u64,
    close_nav: u64,
    price_decimals: u8,
    quote_decimals: u8,
)
    ensures
        pnl_long_spec(size, close_nav, entry_nav, price_decimals, quote_decimals)
            == -pnl_long_spec(size, entry_nav, close_nav, price_decimals, quote_decimals),
{
    if entry_nav == close_nav {
        lemma_pnl_flat_is_zero(size, entry_nav, price_decimals, quote_decimals);
    }
}

} // verus!
