//! Signed fixed-point arithmetic: an `i64` carries a number scaled by
//! `FX_SCALE`, so `FX_SCALE` itself represents one. Multiplication and
//! division round toward zero, and every operation is exact with respect to
//! the spec-level formulas below.

use vstd::prelude::*;

verus! {

/// The raw representation of one: values are scaled by 2^32.
pub const FX_SCALE: i64 = 4294967296;

/// Absolute value of a mathematical integer.
pub open spec fn iabs(a: int) -> int {
    if a < 0 {
        -a
    } else {
        a
    }
}

/// Division rounding toward zero; meaningful for `b > 0`.
pub open spec fn qdiv(a: int, b: int) -> int {
    if a >= 0 {
        a / b
    } else {
        -((-a) / b)
    }
}

/// The exact value of a fixed-point product.
pub open spec fn fx_mul_value(a: int, b: int) -> int {
    qdiv(a * b, FX_SCALE as int)
}

/// The exact value of a fixed-point quotient (divisor must be positive).
pub open spec fn fx_div_value(a: int, b: int) -> int {
    qdiv(a * (FX_SCALE as int), b)
}

/// Whether a mathematical value is representable as a raw `i64`.
pub open spec fn fits_fx(v: int) -> bool {
    i64::MIN <= v <= i64::MAX
}

/// The product of absolute values is the absolute value of the product, and
/// the sign of a product follows the signs of its factors.
proof fn lemma_abs_sign_of_product(a: int, b: int)
    ensures
        iabs(a * b) == iabs(a) * iabs(b),
        a >= 0 && b >= 0 ==> a * b >= 0,
        a <= 0 && b <= 0 ==> a * b >= 0,
        a <= 0 && b >= 0 ==> a * b <= 0,
        a >= 0 && b <= 0 ==> a * b <= 0,
{
    if a >= 0 && b >= 0 {
        assert(a * b >= 0 && a * b == a * b) by (nonlinear_arith)
            requires
                a >= 0,
                b >= 0,
        ;
    } else if a < 0 && b < 0 {
        assert(a * b >= 0 && (-a) * (-b) == a * b) by (nonlinear_arith)
            requires
                a < 0,
                b < 0,
        ;
    } else if a < 0 {
        assert(a * b <= 0 && (-a) * b == -(a * b)) by (nonlinear_arith)
            requires
                a < 0,
                b >= 0,
        ;
    } else {
        assert(a * b <= 0 && a * (-b) == -(a * b)) by (nonlinear_arith)
            requires
                a >= 0,
                b < 0,
        ;
    }
}

/// Magnitude of a signed value as an unsigned one.
fn magnitude(a: i64) -> (r: u64)
    ensures
        r == iabs(a as int),
{
    if a < 0 {
        let w: i128 = -(a as i128);
        w as u64
    } else {
        a as u64
    }
}

/// Rounded-toward-zero evaluation of `a * b / c`, with the product taken at
/// full width, so only the final quotient must be representable.
pub fn fx_mul_div(a: i64, b: i64, c: i64) -> (r: i64)
    requires
        c >= 1,
        fits_fx(qdiv(a * b, c as int)),
    ensures
        r == qdiv(a * b, c as int),
{
    let negative: bool = (a < 0) != (b < 0);
    let aa: u64 = magnitude(a);
    let bb: u64 = magnitude(b);
    proof {
        assert(iabs(a as int) * iabs(b as int) <= 0x8000000000000000 * 0x8000000000000000)
            by (nonlinear_arith)
            requires
                0 <= iabs(a as int) <= 0x8000000000000000,
                0 <= iabs(b as int) <= 0x8000000000000000,
        ;
        lemma_abs_sign_of_product(a as int, b as int);
    }
    let p: u128 = (aa as u128) * (bb as u128);
    let q: u128 = p / (c as u128);
    proof {
        assert(q == iabs(a as int * b as int) / (c as int));
        if negative {
            assert(a as int * b as int <= 0);
            assert(iabs(a as int * b as int) == -(a as int * b as int));
            if a as int * b as int == 0 {
                assert(q == 0);
            } else {
                assert(qdiv(a as int * b as int, c as int) == -(q as int));
            }
        } else {
            assert(a as int * b as int >= 0);
            assert(qdiv(a as int * b as int, c as int) == q as int);
        }
        assert(q <= 0x8000000000000000);
    }
    let qi: i128 = q as i128;
    let ri: i128 = if negative {
        -qi
    } else {
        qi
    };
    ri as i64
}

/// Fixed-point multiplication, rounding toward zero.
pub fn fx_mul(a: i64, b: i64) -> (r: i64)
    requires
        fits_fx(fx_mul_value(a as int, b as int)),
    ensures
        r == fx_mul_value(a as int, b as int),
{
    fx_mul_div(a, b, FX_SCALE)
}

/// Fixed-point division by a positive divisor, rounding toward zero.
pub fn fx_div(a: i64, b: i64) -> (r: i64)
    requires
        b >= 1,
        fits_fx(fx_div_value(a as int, b as int)),
    ensures
        r == fx_div_value(a as int, b as int),
{
    fx_mul_div(a, FX_SCALE, b)
}

/// Halving toward zero, used for the 0.5 factor of the stability bound:
/// in fixed point, multiplying by one half is exactly division by two.
pub fn fx_half(a: i64) -> (r: i64)
    ensures
        r == qdiv(a as int, 2),
{
    fx_mul_div(a, 1, 2)
}

/// The fixed-point square root, rounded down: the result is the largest raw
/// value whose square does not exceed the argument (the scaling by `FX_SCALE`
/// keeps the result in the same fixed-point format as the argument).
pub fn fx_sqrt(a: i64) -> (r: i64)
    requires
        a >= 0,
    ensures
        r >= 0,
        (r as int) * (r as int) <= (a as int) * (FX_SCALE as int),
        (a as int) * (FX_SCALE as int) < (r as int + 1) * (r as int + 1),
{
    proof {
        assert((a as int) * (FX_SCALE as int) <= 0x7fffffffffffffffint * 0x100000000int)
            by (nonlinear_arith)
            requires
                0 <= a as int <= 0x7fffffffffffffffint,
                FX_SCALE as int == 0x100000000int,
        ;
    }
    let n: u128 = (a as u128) * (FX_SCALE as u128);
    let mut lo: u128 = 0;
    let mut hi: u128 = 0x1000000000000;
    proof {
        assert(n as int == (a as int) * 0x100000000int);
        assert(n as int <= 0x7fffffffffffffffint * 0x100000000int);
        assert(0x7fffffffffffffffint * 0x100000000int < 0x1000000000000int * 0x1000000000000int);
        lemma_square_bound(hi as int, 0x1000000000000int);
    }
    while lo + 1 < hi
        invariant
            lo < hi,
            hi <= 0x1000000000000,
            (lo as int) * (lo as int) <= n as int,
            (n as int) < (hi as int) * (hi as int),
        decreases hi - lo,
    {
        let mid = lo + (hi - lo) / 2;
        proof {
            lemma_square_bound(mid as int, 0x1000000000000int);
            assert(0x1000000000000int * 0x1000000000000int <= 0xffffffffffffffffffffffffffffffffint);
        }
        if mid * mid <= n {
            lo = mid;
        } else {
            hi = mid;
        }
    }
    lo as i64
}

/// Squaring is monotone on the non-negative integers.
proof fn lemma_square_bound(x: int, b: int)
    by (nonlinear_arith)
    requires
        0 <= x <= b,
    ensures
        x * x <= b * b,
{
}

/// Rounding toward zero is symmetric: negating the numerator negates the
/// quotient.
pub proof fn lemma_qdiv_neg(a: int, b: int)
    requires
        b >= 1,
    ensures
        qdiv(-a, b) == -qdiv(a, b),
{
}

/// Negating one factor of a fixed-point product negates the product.
pub proof fn lemma_fx_mul_neg(a: int, b: int)
    ensures
        fx_mul_value(-a, b) == -fx_mul_value(a, b),
{
    assert((-a) * b == -(a * b)) by (nonlinear_arith);
    lemma_qdiv_neg(a * b, FX_SCALE as int);
}

/// A zero factor gives a zero fixed-point product.
pub proof fn lemma_fx_mul_zero(a: int)
    ensures
        fx_mul_value(a, 0) == 0,
        fx_mul_value(0, a) == 0,
{
    assert(a * 0 == 0) by (nonlinear_arith);
    assert(0 * a == 0) by (nonlinear_arith);
}

} // verus!
