//! The rotation-specific part of the filter that is plain arithmetic on the
//! four components of a unit rotation: the double-cover correction. A unit
//! rotation `q` and its negation `-q` represent the same orientation; before
//! each step the target is flipped to the representative on the same side of
//! the sphere as the current output, so the filter never takes the long way
//! around. The tangent-space integration itself (logarithmic and exponential
//! maps) is transcendental and lives with the engine-facing layer.

use vstd::prelude::*;

use vstd::arithmetic::div_mod::{
    lemma_div_is_ordered_by_denominator, lemma_div_multiples_vanish, lemma_div_pos_is_pos,
};

use crate::fixed_point::{
    fits_fx, fx_div, fx_div_value, fx_mul, fx_mul_value, fx_sqrt, iabs, lemma_fx_mul_neg, FX_SCALE,
};

verus! {

/// A rotation as four fixed-point components. A unit rotation has components
/// in [-1, 1]; the operations here state exact requirements instead of
/// assuming unit length.
#[derive(Clone, Copy, Debug, PartialEq, Eq, Structural)]
pub struct FxQuat {
    pub x: i64,
    pub y: i64,
    pub z: i64,
    pub w: i64,
}

/// Whether each component can be negated without leaving the `i64` range.
pub open spec fn quat_negatable(q: FxQuat) -> bool {
    &&& q.x > i64::MIN
    &&& q.y > i64::MIN
    &&& q.z > i64::MIN
    &&& q.w > i64::MIN
}

/// The componentwise negation, the other representative of the same
/// orientation.
pub open spec fn quat_neg_value(q: FxQuat) -> FxQuat
    recommends
        quat_negatable(q),
{
    FxQuat {
        x: (-(q.x as int)) as i64,
        y: (-(q.y as int)) as i64,
        z: (-(q.z as int)) as i64,
        w: (-(q.w as int)) as i64,
    }
}

/// The exact value of the fixed-point four-component dot product.
pub open spec fn quat_dot_value(a: FxQuat, b: FxQuat) -> int {
    fx_mul_value(a.x as int, b.x as int) + fx_mul_value(a.y as int, b.y as int) + fx_mul_value(
        a.z as int,
        b.z as int,
    ) + fx_mul_value(a.w as int, b.w as int)
}

/// Whether the dot product's intermediates are representable.
pub open spec fn quat_dot_in_range(a: FxQuat, b: FxQuat) -> bool {
    &&& fits_fx(fx_mul_value(a.x as int, b.x as int))
    &&& fits_fx(fx_mul_value(a.y as int, b.y as int))
    &&& fits_fx(fx_mul_value(a.z as int, b.z as int))
    &&& fits_fx(fx_mul_value(a.w as int, b.w as int))
    &&& fits_fx(
        fx_mul_value(a.x as int, b.x as int) + fx_mul_value(a.y as int, b.y as int),
    )
    &&& fits_fx(
        fx_mul_value(a.x as int, b.x as int) + fx_mul_value(a.y as int, b.y as int) + fx_mul_value(
            a.z as int,
            b.z as int,
        ),
    )
    &&& fits_fx(quat_dot_value(a, b))
}

/// The target representative the step works with: the input flipped when it
/// points away from the current output.
pub open spec fn align_value(x: FxQuat, y: FxQuat) -> FxQuat
    recommends
        quat_negatable(x),
{
    if quat_dot_value(x, y) < 0 {
        quat_neg_value(x)
    } else {
        x
    }
}

/// The fixed-point four-component dot product.
pub fn quat_dot(a: &FxQuat, b: &FxQuat) -> (r: i64)
    requires
        quat_dot_in_range(*a, *b),
    ensures
        r == quat_dot_value(*a, *b),
{
    let xx = fx_mul(a.x, b.x);
    let yy = fx_mul(a.y, b.y);
    let zz = fx_mul(a.z, b.z);
    let ww = fx_mul(a.w, b.w);
    xx + yy + zz + ww
}

/// The componentwise negation.
pub fn quat_neg(q: &FxQuat) -> (r: FxQuat)
    requires
        quat_negatable(*q),
    ensures
        r == quat_neg_value(*q),
{
    FxQuat { x: -q.x, y: -q.y, z: -q.z, w: -q.w }
}

/// The double-cover correction: if the target rotation points away from the
/// current output (negative dot product), hand back its negation, the
/// equivalent representative on the near side.
pub fn correct_double_cover(x: &FxQuat, y: &FxQuat) -> (r: FxQuat)
    requires
        quat_negatable(*x),
        quat_dot_in_range(*x, *y),
    ensures
        r == align_value(*x, *y),
{
    let d = quat_dot(x, y);
    if d < 0 {
        quat_neg(x)
    } else {
        *x
    }
}

/// The conjugate, which for a unit rotation is its inverse: the rotation
/// delta the step measures is `x` composed with the inverse of the previous
/// target.
pub open spec fn quat_conjugate_value(q: FxQuat) -> FxQuat
    recommends
        quat_negatable(q),
{
    FxQuat { x: (-(q.x as int)) as i64, y: (-(q.y as int)) as i64, z: (-(q.z as int)) as i64, w: q.w }
}

/// The componentwise conjugate.
pub fn quat_conjugate(q: &FxQuat) -> (r: FxQuat)
    requires
        quat_negatable(*q),
    ensures
        r == quat_conjugate_value(*q),
{
    FxQuat { x: -q.x, y: -q.y, z: -q.z, w: q.w }
}

/// The x component of the Hamilton product.
pub open spec fn quat_mul_x_value(a: FxQuat, b: FxQuat) -> int {
    fx_mul_value(a.w as int, b.x as int) + fx_mul_value(a.x as int, b.w as int) + fx_mul_value(
        a.y as int,
        b.z as int,
    ) - fx_mul_value(a.z as int, b.y as int)
}

/// The y component of the Hamilton product.
pub open spec fn quat_mul_y_value(a: FxQuat, b: FxQuat) -> int {
    fx_mul_value(a.w as int, b.y as int) - fx_mul_value(a.x as int, b.z as int) + fx_mul_value(
        a.y as int,
        b.w as int,
    ) + fx_mul_value(a.z as int, b.x as int)
}

/// The z component of the Hamilton product.
pub open spec fn quat_mul_z_value(a: FxQuat, b: FxQuat) -> int {
    fx_mul_value(a.w as int, b.z as int) + fx_mul_value(a.x as int, b.y as int) - fx_mul_value(
        a.y as int,
        b.x as int,
    ) + fx_mul_value(a.z as int, b.w as int)
}

/// The w component of the Hamilton product.
pub open spec fn quat_mul_w_value(a: FxQuat, b: FxQuat) -> int {
    fx_mul_value(a.w as int, b.w as int) - fx_mul_value(a.x as int, b.x as int) - fx_mul_value(
        a.y as int,
        b.y as int,
    ) - fx_mul_value(a.z as int, b.z as int)
}

/// Whether the Hamilton product's intermediates are representable. Each
/// component is a sum of four products, accumulated left to right.
pub open spec fn quat_mul_in_range(a: FxQuat, b: FxQuat) -> bool {
    &&& fits_fx(fx_mul_value(a.w as int, b.x as int))
    &&& fits_fx(fx_mul_value(a.x as int, b.w as int))
    &&& fits_fx(fx_mul_value(a.y as int, b.z as int))
    &&& fits_fx(fx_mul_value(a.z as int, b.y as int))
    &&& fits_fx(fx_mul_value(a.w as int, b.x as int) + fx_mul_value(a.x as int, b.w as int))
    &&& fits_fx(
        fx_mul_value(a.w as int, b.x as int) + fx_mul_value(a.x as int, b.w as int) + fx_mul_value(
            a.y as int,
            b.z as int,
        ),
    )
    &&& fits_fx(quat_mul_x_value(a, b))
    &&& fits_fx(fx_mul_value(a.w as int, b.y as int))
    &&& fits_fx(fx_mul_value(a.x as int, b.z as int))
    &&& fits_fx(fx_mul_value(a.y as int, b.w as int))
    &&& fits_fx(fx_mul_value(a.z as int, b.x as int))
    &&& fits_fx(fx_mul_value(a.w as int, b.y as int) - fx_mul_value(a.x as int, b.z as int))
    &&& fits_fx(
        fx_mul_value(a.w as int, b.y as int) - fx_mul_value(a.x as int, b.z as int) + fx_mul_value(
            a.y as int,
            b.w as int,
        ),
    )
    &&& fits_fx(quat_mul_y_value(a, b))
    &&& fits_fx(fx_mul_value(a.w as int, b.z as int))
    &&& fits_fx(fx_mul_value(a.x as int, b.y as int))
    &&& fits_fx(fx_mul_value(a.y as int, b.x as int))
    &&& fits_fx(fx_mul_value(a.z as int, b.w as int))
    &&& fits_fx(fx_mul_value(a.w as int, b.z as int) + fx_mul_value(a.x as int, b.y as int))
    &&& fits_fx(
        fx_mul_value(a.w as int, b.z as int) + fx_mul_value(a.x as int, b.y as int) - fx_mul_value(
            a.y as int,
            b.x as int,
        ),
    )
    &&& fits_fx(quat_mul_z_value(a, b))
    &&& fits_fx(fx_mul_value(a.w as int, b.w as int))
    &&& fits_fx(fx_mul_value(a.x as int, b.x as int))
    &&& fits_fx(fx_mul_value(a.y as int, b.y as int))
    &&& fits_fx(fx_mul_value(a.z as int, b.z as int))
    &&& fits_fx(fx_mul_value(a.w as int, b.w as int) - fx_mul_value(a.x as int, b.x as int))
    &&& fits_fx(
        fx_mul_value(a.w as int, b.w as int) - fx_mul_value(a.x as int, b.x as int) - fx_mul_value(
            a.y as int,
            b.y as int,
        ),
    )
    &&& fits_fx(quat_mul_w_value(a, b))
}

/// The Hamilton product `a * b`: composition of rotations, used to form the
/// delta between the target and the previous target (or the output).
pub fn quat_mul(a: &FxQuat, b: &FxQuat) -> (r: FxQuat)
    requires
        quat_mul_in_range(*a, *b),
    ensures
        r.x == quat_mul_x_value(*a, *b),
        r.y == quat_mul_y_value(*a, *b),
        r.z == quat_mul_z_value(*a, *b),
        r.w == quat_mul_w_value(*a, *b),
{
    let wx = fx_mul(a.w, b.x);
    let xw = fx_mul(a.x, b.w);
    let yz = fx_mul(a.y, b.z);
    let zy = fx_mul(a.z, b.y);
    let rx = wx + xw + yz - zy;
    let wy = fx_mul(a.w, b.y);
    let xz = fx_mul(a.x, b.z);
    let yw = fx_mul(a.y, b.w);
    let zx = fx_mul(a.z, b.x);
    let ry = wy - xz + yw + zx;
    let wz = fx_mul(a.w, b.z);
    let xy = fx_mul(a.x, b.y);
    let yx = fx_mul(a.y, b.x);
    let zw = fx_mul(a.z, b.w);
    let rz = wz + xy - yx + zw;
    let ww = fx_mul(a.w, b.w);
    let xx = fx_mul(a.x, b.x);
    let yy = fx_mul(a.y, b.y);
    let zz = fx_mul(a.z, b.z);
    let rw = ww - xx - yy - zz;
    FxQuat { x: rx, y: ry, z: rz, w: rw }
}

/// The Hamilton product as a value, once its components are representable.
pub open spec fn quat_mul_value(a: FxQuat, b: FxQuat) -> FxQuat
    recommends
        quat_mul_in_range(a, b),
{
    FxQuat {
        x: quat_mul_x_value(a, b) as i64,
        y: quat_mul_y_value(a, b) as i64,
        z: quat_mul_z_value(a, b) as i64,
        w: quat_mul_w_value(a, b) as i64,
    }
}

/// The relative rotation from the previous target to the current one,
/// renormalized: the product `x * inverse(xp)`, divided by its fixed-point
/// norm. This is what the step hands to the logarithmic map to estimate the
/// target's angular rate; only that transcendental map itself stays outside.
pub fn rotation_delta(x: &FxQuat, xp: &FxQuat) -> (r: (FxQuat, i64))
    requires
        quat_negatable(*xp),
        quat_mul_in_range(*x, quat_conjugate_value(*xp)),
        quat_dot_in_range(
            quat_mul_value(*x, quat_conjugate_value(*xp)),
            quat_mul_value(*x, quat_conjugate_value(*xp)),
        ),
        quat_dot_value(
            quat_mul_value(*x, quat_conjugate_value(*xp)),
            quat_mul_value(*x, quat_conjugate_value(*xp)),
        ) >= 0x40000000,
        iabs(quat_mul_x_value(*x, quat_conjugate_value(*xp))) <= 0x3fffffffffffffff,
        iabs(quat_mul_y_value(*x, quat_conjugate_value(*xp))) <= 0x3fffffffffffffff,
        iabs(quat_mul_z_value(*x, quat_conjugate_value(*xp))) <= 0x3fffffffffffffff,
        iabs(quat_mul_w_value(*x, quat_conjugate_value(*xp))) <= 0x3fffffffffffffff,
    ensures
        r.1 >= 0x80000000,
        (r.1 as int) * (r.1 as int) <= quat_dot_value(
            quat_mul_value(*x, quat_conjugate_value(*xp)),
            quat_mul_value(*x, quat_conjugate_value(*xp)),
        ) * (FX_SCALE as int),
        quat_dot_value(
            quat_mul_value(*x, quat_conjugate_value(*xp)),
            quat_mul_value(*x, quat_conjugate_value(*xp)),
        ) * (FX_SCALE as int) < (r.1 as int + 1) * (r.1 as int + 1),
        r.0.x == fx_div_value(quat_mul_x_value(*x, quat_conjugate_value(*xp)), r.1 as int),
        r.0.y == fx_div_value(quat_mul_y_value(*x, quat_conjugate_value(*xp)), r.1 as int),
        r.0.z == fx_div_value(quat_mul_z_value(*x, quat_conjugate_value(*xp)), r.1 as int),
        r.0.w == fx_div_value(quat_mul_w_value(*x, quat_conjugate_value(*xp)), r.1 as int),
{
    let inverse = quat_conjugate(xp);
    let product = quat_mul(x, &inverse);
    proof {
        assert(product == quat_mul_value(*x, quat_conjugate_value(*xp)));
    }
    quat_normalized(&product)
}

/// Dividing a scaled component by a norm of at least half of one at most
/// doubles its magnitude, so the quotient stays representable.
proof fn lemma_scaled_quotient_fits(c: int, n: int)
    requires
        n >= 0x80000000,
        iabs(c) <= 0x3fffffffffffffff,
    ensures
        fits_fx(fx_div_value(c, n)),
{
    let ic = iabs(c);
    assert(ic * (FX_SCALE as int) == 0x100000000int * ic) by (nonlinear_arith)
        requires
            FX_SCALE as int == 0x100000000int,
    ;
    assert(c * (FX_SCALE as int) == 0x100000000int * c) by (nonlinear_arith)
        requires
            FX_SCALE as int == 0x100000000int,
    ;
    lemma_div_multiples_vanish(2 * ic, 0x80000000);
    assert(0x80000000int * (2 * ic) == 0x100000000int * ic);
    lemma_div_is_ordered_by_denominator(0x100000000int * ic, 0x80000000, n);
    lemma_div_pos_is_pos(0x100000000int * ic, n);
    if c >= 0 {
        assert(fx_div_value(c, n) == (0x100000000int * ic) / n);
    } else {
        assert(-(c * (FX_SCALE as int)) == 0x100000000int * ic);
        assert(fx_div_value(c, n) == -((0x100000000int * ic) / n));
    }
}

/// Dividing every component by a positive fixed-point norm.
pub fn quat_scale_down(q: &FxQuat, n: i64) -> (r: FxQuat)
    requires
        n >= 1,
        fits_fx(fx_div_value(q.x as int, n as int)),
        fits_fx(fx_div_value(q.y as int, n as int)),
        fits_fx(fx_div_value(q.z as int, n as int)),
        fits_fx(fx_div_value(q.w as int, n as int)),
    ensures
        r.x == fx_div_value(q.x as int, n as int),
        r.y == fx_div_value(q.y as int, n as int),
        r.z == fx_div_value(q.z as int, n as int),
        r.w == fx_div_value(q.w as int, n as int),
{
    FxQuat { x: fx_div(q.x, n), y: fx_div(q.y, n), z: fx_div(q.z, n), w: fx_div(q.w, n) }
}

/// Normalization before a logarithmic map: accumulated rounding pushes a
/// composed rotation slightly off the unit sphere, to which that map is
/// numerically sensitive. Takes a near-unit rotation (squared length at
/// least a quarter, components at most half the raw range) and returns each
/// component divided by the fixed-point norm, together with the norm itself,
/// which is pinned exactly by the two squaring bounds.
pub fn quat_normalized(q: &FxQuat) -> (r: (FxQuat, i64))
    requires
        quat_dot_in_range(*q, *q),
        quat_dot_value(*q, *q) >= 0x40000000,
        iabs(q.x as int) <= 0x3fffffffffffffff,
        iabs(q.y as int) <= 0x3fffffffffffffff,
        iabs(q.z as int) <= 0x3fffffffffffffff,
        iabs(q.w as int) <= 0x3fffffffffffffff,
    ensures
        r.1 >= 0x80000000,
        (r.1 as int) * (r.1 as int) <= quat_dot_value(*q, *q) * (FX_SCALE as int),
        quat_dot_value(*q, *q) * (FX_SCALE as int) < (r.1 as int + 1) * (r.1 as int + 1),
        r.0.x == fx_div_value(q.x as int, r.1 as int),
        r.0.y == fx_div_value(q.y as int, r.1 as int),
        r.0.z == fx_div_value(q.z as int, r.1 as int),
        r.0.w == fx_div_value(q.w as int, r.1 as int),
{
    let dot = quat_dot(q, q);
    let norm = fx_sqrt(dot);
    proof {
        assert(norm as int >= 0x80000000int) by (nonlinear_arith)
            requires
                (norm as int + 1) * (norm as int + 1) > (dot as int) * (FX_SCALE as int),
                dot as int >= 0x40000000int,
                FX_SCALE as int == 0x100000000int,
                norm as int >= 0,
        ;
        lemma_scaled_quotient_fits(q.x as int, norm as int);
        lemma_scaled_quotient_fits(q.y as int, norm as int);
        lemma_scaled_quotient_fits(q.z as int, norm as int);
        lemma_scaled_quotient_fits(q.w as int, norm as int);
    }
    let unit = quat_scale_down(q, norm);
    (unit, norm)
}

/// Negating the target negates its dot product with the output.
proof fn lemma_quat_dot_neg(x: FxQuat, y: FxQuat)
    requires
        quat_negatable(x),
    ensures
        quat_dot_value(quat_neg_value(x), y) == -quat_dot_value(x, y),
{
    lemma_fx_mul_neg(x.x as int, y.x as int);
    lemma_fx_mul_neg(x.y as int, y.y as int);
    lemma_fx_mul_neg(x.z as int, y.z as int);
    lemma_fx_mul_neg(x.w as int, y.w as int);
}

/// Double-cover invariance of the correction: as long as the target is not
/// exactly orthogonal to the output, feeding the filter `-q` instead of `q`
/// yields the same corrected target, so the step that follows sees identical
/// inputs and produces identical outputs.
pub proof fn lemma_double_cover_alignment(x: FxQuat, y: FxQuat)
    requires
        quat_negatable(x),
        quat_dot_value(x, y) != 0,
    ensures
        align_value(quat_neg_value(x), y) == align_value(x, y),
{
    lemma_quat_dot_neg(x, y);
    if quat_dot_value(x, y) < 0 {
        assert(quat_dot_value(quat_neg_value(x), y) > 0);
        assert(align_value(quat_neg_value(x), y) == quat_neg_value(x));
        assert(align_value(x, y) == quat_neg_value(x));
    } else {
        assert(quat_dot_value(quat_neg_value(x), y) < 0);
        assert(quat_neg_value(quat_neg_value(x)) == x);
        assert(align_value(quat_neg_value(x), y) == x);
    }
}

} // verus!
