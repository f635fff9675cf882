//! Effect intensities.
//!
//! An intensity is a single-precision number. The library holds it as its
//! IEEE 754 bit pattern in a `u32` and never does arithmetic on it: it orders
//! patterns, clamps scale factors, floors glow amounts, and leaves the one
//! product that scaling needs to a multiplier that the caller hands in.

use vstd::prelude::*;

verus! {

/// The sign bit of a pattern.
pub const SIGN: u32 = 0x8000_0000;

/// Positive infinity. Every larger magnitude is a NaN.
pub const INFINITY: u32 = 0x7f80_0000;

/// Positive zero.
pub const ZERO: u32 = 0;

/// The number 1.0, below which a glow amount does not register for bloom.
pub const ONE: u32 = 0x3f80_0000;

/// The number 0.001. An amount that does not reach it counts as switched off.
pub const MIN_AMOUNT: u32 = 0x3a83_126f;

/// The number 0.01, the smallest factor that scaling ever applies.
pub const MIN_SCALE: u32 = 0x3c23_d70a;

/// The pattern with its sign bit cleared.
pub open spec fn magnitude(x: u32) -> u32 {
    if x >= SIGN {
        (x - SIGN) as u32
    } else {
        x
    }
}

/// The sign bit is set (true of negative zero and of half the NaNs too).
pub open spec fn is_negative(x: u32) -> bool {
    x >= SIGN
}

/// The pattern is not a number.
pub open spec fn is_nan(x: u32) -> bool {
    magnitude(x) > INFINITY
}

/// The pattern is a number other than the two infinities.
pub open spec fn is_finite(x: u32) -> bool {
    magnitude(x) < INFINITY
}

/// Where a number stands on the number line, as an integer that grows with
/// the number: the magnitude for a positive pattern, its negation for a
/// negative one. Both zeros stand at 0. Meaningless for a NaN.
pub open spec fn position(x: u32) -> int {
    if is_negative(x) {
        -(magnitude(x) as int)
    } else {
        magnitude(x) as int
    }
}

/// `a < b` as numbers. False when either is a NaN.
pub open spec fn less(a: u32, b: u32) -> bool {
    !is_nan(a) && !is_nan(b) && position(a) < position(b)
}

/// `a >= b` as numbers. False when either is a NaN.
pub open spec fn not_below(a: u32, b: u32) -> bool {
    !is_nan(a) && !is_nan(b) && position(a) >= position(b)
}

/// The factor that scaling applies for a requested `factor`: the factor
/// itself when it is a finite number of at least `MIN_SCALE`, else
/// `MIN_SCALE`. So zero, a negative number, an infinity and a NaN all
/// scale by `MIN_SCALE`.
pub open spec fn clamped_scale(factor: u32) -> u32 {
    if is_finite(factor) && not_below(factor, MIN_SCALE) {
        factor
    } else {
        MIN_SCALE
    }
}

/// A glow amount after flooring: the larger of `raw` and 1.0, and 1.0 when
/// `raw` is a NaN.
pub open spec fn floored(raw: u32) -> u32 {
    if not_below(raw, ONE) {
        raw
    } else {
        ONE
    }
}

/// An amount too small to show: it does not reach `MIN_AMOUNT`. A NaN is
/// negligible.
pub open spec fn negligible(amount: u32) -> bool {
    !not_below(amount, MIN_AMOUNT)
}

/// `multiply` may be called on every pair of patterns.
pub open spec fn accepts_all<F: Fn(u32, u32) -> u32>(multiply: F) -> bool {
    forall|a: u32, b: u32| call_requires(multiply, (a, b))
}

/// `multiply` has one result for each pair of patterns.
pub open spec fn single_valued<F: Fn(u32, u32) -> u32>(multiply: F) -> bool {
    forall|a: u32, b: u32, first: u32, second: u32|
        call_ensures(multiply, (a, b), first) && call_ensures(multiply, (a, b), second) ==> first
            == second
}

/// `out` is what `multiply` may return for `amount` and the clamped `factor`.
pub open spec fn scales_to<F: Fn(u32, u32) -> u32>(
    multiply: F,
    amount: u32,
    factor: u32,
    out: u32,
) -> bool {
    call_ensures(multiply, (amount, clamped_scale(factor)), out)
}

/// `out` is the floored form of what `multiply` may return for `amount` and
/// the clamped `factor`.
pub open spec fn glows_to<F: Fn(u32, u32) -> u32>(
    multiply: F,
    amount: u32,
    factor: u32,
    out: u32,
) -> bool {
    exists|raw: u32| #[trigger]
        call_ensures(multiply, (amount, clamped_scale(factor)), raw) && out == floored(raw)
}

/// A pair of intensities: an offset along the two axes of the screen.
#[derive(Clone, Copy, PartialEq, Eq, Debug, Structural)]
pub struct Offset {
    pub x: u32,
    pub y: u32,
}

/// `out` is `offset` with each of its two amounts scaled by `factor`.
pub open spec fn offset_scales_to<F: Fn(u32, u32) -> u32>(
    multiply: F,
    offset: Offset,
    factor: u32,
    out: Offset,
) -> bool {
    scales_to(multiply, offset.x, factor, out.x) && scales_to(multiply, offset.y, factor, out.y)
}

/// Tells whether `amount >= threshold` as numbers.
pub fn reaches(amount: u32, threshold: u32) -> (r: bool)
    ensures
        r == not_below(amount, threshold),
{
    let amount_negative = amount >= SIGN;
    let threshold_negative = threshold >= SIGN;
    let amount_size: u32 = if amount_negative {
        amount - SIGN
    } else {
        amount
    };
    let threshold_size: u32 = if threshold_negative {
        threshold - SIGN
    } else {
        threshold
    };
    if amount_size > INFINITY || threshold_size > INFINITY {
        false
    } else if amount_negative {
        if threshold_negative {
            amount_size <= threshold_size
        } else {
            amount_size == 0 && threshold_size == 0
        }
    } else {
        threshold_negative || amount_size >= threshold_size
    }
}

/// Tells whether `amount` is too small to show.
pub fn is_negligible(amount: u32) -> (r: bool)
    ensures
        r == negligible(amount),
{
    !reaches(amount, MIN_AMOUNT)
}

/// Clamps a requested scale factor.
pub fn clamp_scale(factor: u32) -> (by: u32)
    ensures
        by == clamped_scale(factor),
        is_finite(by),
        not_below(by, MIN_SCALE),
{
    if MIN_SCALE <= factor && factor < INFINITY {
        factor
    } else {
        MIN_SCALE
    }
}

/// Floors a glow amount at 1.0.
pub fn floor_glow(raw: u32) -> (out: u32)
    ensures
        out == floored(raw),
        not_below(out, ONE),
{
    if ONE <= raw && raw <= INFINITY {
        raw
    } else {
        ONE
    }
}

/// Scales one amount: hands it and the clamped factor to `multiply`.
pub fn scale_amount<F: Fn(u32, u32) -> u32>(amount: u32, factor: u32, multiply: &F) -> (out: u32)
    requires
        accepts_all(*multiply),
    ensures
        scales_to(*multiply, amount, factor, out),
{
    multiply(amount, clamp_scale(factor))
}

/// Scales an offset, axis by axis.
pub fn scale_offset<F: Fn(u32, u32) -> u32>(offset: Offset, factor: u32, multiply: &F) -> (out:
    Offset)
    requires
        accepts_all(*multiply),
    ensures
        offset_scales_to(*multiply, offset, factor, out),
{
    Offset {
        x: scale_amount(offset.x, factor, multiply),
        y: scale_amount(offset.y, factor, multiply),
    }
}

/// Scales one glow amount and floors the product at 1.0.
pub fn scale_glow<F: Fn(u32, u32) -> u32>(amount: u32, factor: u32, multiply: &F) -> (out: u32)
    requires
        accepts_all(*multiply),
    ensures
        glows_to(*multiply, amount, factor, out),
        not_below(out, ONE),
{
    let raw: u32 = multiply(amount, clamp_scale(factor));
    floor_glow(raw)
}

/// A factor below `MIN_SCALE`, zero and negative ones among them, is clamped
/// to `MIN_SCALE`, which is its own clamped form.
pub proof fn lemma_small_factor_clamps(factor: u32)
    requires
        not_below(ZERO, factor) || less(factor, MIN_SCALE),
    ensures
        clamped_scale(factor) == MIN_SCALE,
        clamped_scale(MIN_SCALE) == MIN_SCALE,
{
}

/// A factor that is no finite number is clamped to `MIN_SCALE`.
pub proof fn lemma_unbounded_factor_clamps(factor: u32)
    requires
        !is_finite(factor),
    ensures
        clamped_scale(factor) == MIN_SCALE,
{
}

/// A finite factor of at least `MIN_SCALE` is applied as it is.
pub proof fn lemma_large_factor_stays(factor: u32)
    requires
        is_finite(factor),
        not_below(factor, MIN_SCALE),
    ensures
        clamped_scale(factor) == factor,
{
}

/// Flooring never yields less than 1.0, keeps what already reaches it, and
/// is idempotent.
pub proof fn lemma_floor(raw: u32)
    ensures
        not_below(floored(raw), ONE),
        not_below(raw, ONE) ==> floored(raw) == raw,
        floored(floored(raw)) == floored(raw),
{
}

/// Every number either reaches a threshold or is less than it, never both.
pub proof fn lemma_order_total(a: u32, b: u32)
    requires
        !is_nan(a),
        !is_nan(b),
    ensures
        less(a, b) <==> !not_below(a, b),
{
}

} // verus!
