use second_order_systems::fixed_point::{fx_sqrt, FX_SCALE};
use second_order_systems::rotation::{
    correct_double_cover, quat_conjugate, quat_dot, quat_mul, quat_neg, quat_normalized,
    rotation_delta, FxQuat,
};

const ONE: i64 = FX_SCALE;

/// About 0.5 * sqrt(2), the components of a 90-degree rotation about one
/// axis.
const HALF_SQRT2: i64 = 3037000500;

fn identity() -> FxQuat {
    FxQuat { x: 0, y: 0, z: 0, w: ONE }
}

fn quarter_turn_z() -> FxQuat {
    FxQuat { x: 0, y: 0, z: HALF_SQRT2, w: HALF_SQRT2 }
}

#[test]
fn dot_product_matches_known_values() {
    assert_eq!(quat_dot(&identity(), &identity()), ONE);
    assert_eq!(quat_dot(&quarter_turn_z(), &identity()), HALF_SQRT2);
    // (0.5*sqrt(2))^2 + (0.5*sqrt(2))^2 is one, up to truncation.
    let d = quat_dot(&quarter_turn_z(), &quarter_turn_z());
    assert!((d - ONE).abs() <= 2);
    assert_eq!(quat_dot(&quat_neg(&identity()), &identity()), -ONE);
}

#[test]
fn negation_flips_every_component() {
    let q = FxQuat { x: 1, y: -2, z: 3, w: -ONE };
    assert_eq!(quat_neg(&q), FxQuat { x: -1, y: 2, z: -3, w: ONE });
}

#[test]
fn aligned_target_passes_through() {
    let x = quarter_turn_z();
    let y = identity();
    assert_eq!(correct_double_cover(&x, &y), x);
}

#[test]
fn opposed_target_is_flipped() {
    let x = quat_neg(&quarter_turn_z());
    let y = identity();
    assert_eq!(correct_double_cover(&x, &y), quarter_turn_z());
}

#[test]
fn square_root_matches_known_values() {
    assert_eq!(fx_sqrt(0), 0);
    assert_eq!(fx_sqrt(1), 65536);
    assert_eq!(fx_sqrt(ONE), ONE);
    assert_eq!(fx_sqrt(4 * ONE), 2 * ONE);
    assert_eq!(fx_sqrt(2 * ONE), 6074000999);
}

#[test]
fn hamilton_product_composes_quarter_turns() {
    // i * j == k
    let i = FxQuat { x: ONE, y: 0, z: 0, w: 0 };
    let j = FxQuat { x: 0, y: ONE, z: 0, w: 0 };
    assert_eq!(quat_mul(&i, &j), FxQuat { x: 0, y: 0, z: ONE, w: 0 });
    // Two quarter turns about z make a half turn, exactly in this scale.
    let q = quarter_turn_z();
    assert_eq!(quat_mul(&q, &q), FxQuat { x: 0, y: 0, z: ONE, w: 0 });
    // Identity is neutral.
    assert_eq!(quat_mul(&q, &identity()), q);
    assert_eq!(quat_mul(&identity(), &q), q);
}

#[test]
fn conjugate_inverts_a_unit_rotation() {
    let q = quarter_turn_z();
    let c = quat_conjugate(&q);
    assert_eq!(c, FxQuat { x: 0, y: 0, z: -HALF_SQRT2, w: HALF_SQRT2 });
    // q * conj(q) is the identity, up to a raw unit of truncation.
    let p = quat_mul(&q, &c);
    assert_eq!(p.x, 0);
    assert_eq!(p.y, 0);
    assert!(p.z.abs() <= 1);
    assert!((p.w - ONE).abs() <= 2);
}

#[test]
fn normalization_restores_a_drifted_rotation() {
    // A rotation pushed slightly off the unit sphere by accumulated error.
    let drifted = FxQuat { x: 0, y: 0, z: HALF_SQRT2 + 1000, w: HALF_SQRT2 };
    let (unit, norm) = quat_normalized(&drifted);
    assert_eq!(norm, 4294968002);
    assert_eq!(unit, FxQuat { x: 0, y: 0, z: 3037001000, w: 3037000000 });
    let d = quat_dot(&unit, &unit);
    assert!((d - ONE).abs() <= 2);
    // An exactly unit rotation stays put.
    let (unit, norm) = quat_normalized(&identity());
    assert_eq!(norm, ONE);
    assert_eq!(unit, identity());
}

#[test]
fn rotation_delta_measures_the_relative_rotation() {
    // From the identity to a quarter turn: the delta is the quarter turn
    // itself, already unit length in this scale.
    let (delta, norm) = rotation_delta(&quarter_turn_z(), &identity());
    assert_eq!(norm, ONE);
    assert_eq!(delta, quarter_turn_z());
    // The reverse direction gives the inverse rotation.
    let (delta, norm) = rotation_delta(&identity(), &quarter_turn_z());
    assert_eq!(norm, ONE);
    assert_eq!(delta, quat_conjugate(&quarter_turn_z()));
    // A held target gives the identity delta.
    let (delta, norm) = rotation_delta(&quarter_turn_z(), &quarter_turn_z());
    assert_eq!(delta.x, 0);
    assert_eq!(delta.y, 0);
    assert!(delta.z.abs() <= 1);
    assert!((delta.w - ONE).abs() <= 2);
    assert!((norm - ONE).abs() <= 2);
}

#[test]
fn double_cover_correction_is_sign_invariant() {
    // Either representative of the same orientation corrects to the same
    // target, so the integration step that follows sees identical inputs.
    let y = quarter_turn_z();
    let samples = [
        identity(),
        quarter_turn_z(),
        FxQuat { x: HALF_SQRT2, y: 0, z: 0, w: -HALF_SQRT2 },
        FxQuat { x: 123456, y: -789012, z: 345678, w: -ONE + 1 },
    ];
    for q in samples {
        let neg_q = quat_neg(&q);
        if quat_dot(&q, &y) != 0 {
            assert_eq!(correct_double_cover(&q, &y), correct_double_cover(&neg_q, &y));
        }
    }
}
