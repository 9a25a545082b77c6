//! Fixed-point arithmetic helpers.
//!
//! Every angular and screen-space quantity in the pipeline is a nonnegative
//! integer counting 1/65536 units. The helpers here multiply and divide such
//! quantities while keeping the scale, and take integer square roots; each
//! states its exact result so callers can reason about the pipeline's values
//! without reference to the implementations.

use vstd::prelude::*;

verus! {

/// Number of fixed-point units in one whole unit (one radian, one pixel).
pub const FX_ONE: u64 = 65536;

/// pi, in fixed-point units.
pub const FX_PI: u64 = 205887;

/// pi/2, in fixed-point units.
pub const FX_PI_2: u64 = 102944;

/// pi/4, in fixed-point units.
pub const FX_PI_4: u64 = 51472;

/// 2*pi, in fixed-point units.
pub const FX_TWO_PI: u64 = 411775;

/// Largest operand the fixed-point product accepts: products of two such
/// operands still fit in 64 bits.
pub const FX_MUL_LIMIT: u64 = 0x1_0000_0000;

/// Largest dividend the fixed-point quotient accepts: rescaling such a
/// dividend by `FX_ONE` still fits in 64 bits.
pub const FX_DIV_LIMIT: u64 = 0x1_0000_0000_0000;

/// The fixed-point product: both operands count 1/65536 units and so does
/// the result, which is rounded toward zero.
pub fn fx_mul(a: u64, b: u64) -> (r: u64)
    requires
        a < FX_MUL_LIMIT,
        b < FX_MUL_LIMIT,
    ensures
        r == (a * b) / (FX_ONE as int),
        r <= (a * b) / (FX_ONE as int),
{
    proof {
        assert(a * b <= 0xFFFF_FFFE_0000_0001) by (nonlinear_arith)
            requires
                a <= 0xFFFF_FFFFu64,
                b <= 0xFFFF_FFFFu64,
        ;
    }
    (a * b) / FX_ONE
}

/// The fixed-point quotient: both operands count 1/65536 units and so does
/// the result, which is rounded toward zero.
pub fn fx_div(a: u64, b: u64) -> (r: u64)
    requires
        a < FX_DIV_LIMIT,
        b > 0,
    ensures
        r == (a * (FX_ONE as int)) / (b as int),
{
    proof {
        assert(a * 65536 <= 0xFFFF_FFFF_FFFF_0000) by (nonlinear_arith)
            requires
                a <= 0xFFFF_FFFF_FFFFu64,
        ;
    }
    (a * FX_ONE) / b
}

/// The integer square root, defined value by value: the root grows by one
/// exactly when the next square is reached.
pub open spec fn spec_isqrt(n: int) -> int
    decreases n,
{
    if n < 1 {
        0int
    } else {
        let r = spec_isqrt(n - 1);
        if (r + 1) * (r + 1) <= n {
            r + 1
        } else {
            r
        }
    }
}

/// The integer square root of `n` is the unique value whose square is at
/// most `n` while the next square exceeds it.
pub proof fn lemma_isqrt_bounds(n: int)
    requires
        n >= 0,
    ensures
        spec_isqrt(n) * spec_isqrt(n) <= n,
        n < (spec_isqrt(n) + 1) * (spec_isqrt(n) + 1),
        spec_isqrt(n) >= 0,
    decreases n,
{
    if n >= 1 {
        lemma_isqrt_bounds(n - 1);
        let r = spec_isqrt(n - 1);
        if (r + 1) * (r + 1) <= n {
            assert((r + 2) * (r + 2) > (r + 1) * (r + 1)) by (nonlinear_arith)
                requires
                    r >= 0,
            ;
        }
    }
}

/// Any value squeezed the same way equals the integer square root.
pub proof fn lemma_isqrt_unique(n: int, r: int)
    requires
        n >= 0,
        r >= 0,
        r * r <= n,
        n < (r + 1) * (r + 1),
    ensures
        r == spec_isqrt(n),
{
    lemma_isqrt_bounds(n);
    let s = spec_isqrt(n);
    if r < s {
        assert((r + 1) * (r + 1) <= s * s) by (nonlinear_arith)
            requires
                0 <= r,
                r + 1 <= s,
        ;
    }
    if s < r {
        assert((s + 1) * (s + 1) <= r * r) by (nonlinear_arith)
            requires
                0 <= s,
                s + 1 <= r,
        ;
    }
}

/// Integer square root: the largest `r` with `r * r <= x`.
pub fn isqrt(x: u64) -> (r: u64)
    ensures
        r == spec_isqrt(x as int),
        r * r <= x,
        x < (r + 1) * (r + 1),
        r < 0x1_0000_0000,
{
    let mut lo: u64 = 0;
    let mut hi: u64 = 0x1_0000_0000;
    proof {
        assert(x < (0x1_0000_0000u64 as int) * (0x1_0000_0000u64 as int)) by (nonlinear_arith);
    }
    while hi - lo > 1
        invariant
            lo < hi,
            hi <= 0x1_0000_0000,
            lo * lo <= x,
            x < hi * hi,
        decreases hi - lo,
    {
        let mid = lo + (hi - lo) / 2;
        proof {
            assert(mid * mid <= 0xFFFF_FFFFu64 * 0xFFFF_FFFFu64) by (nonlinear_arith)
                requires
                    mid <= 0xFFFF_FFFFu64,
            ;
        }
        if mid * mid <= x {
            lo = mid;
        } else {
            hi = mid;
        }
    }
    proof {
        lemma_isqrt_unique(x as int, lo as int);
    }
    lo
}

} // verus!
