use second_order_systems::fixed_point::{fx_mul_div, FX_SCALE};
use second_order_systems::system::{
    FxVec2, FxVec3, SecondOrderSystemScalar, SecondOrderSystemVector2, SecondOrderSystemVector3,
};

const ONE: i64 = FX_SCALE;

fn sixtieth() -> i64 {
    fx_mul_div(ONE, 1, 60)
}

/// Runs one scalar channel with the same tuning, for comparison.
fn scalar_run(xp: i64, y: i64, yd: i64, target: i64, ticks: u32) -> i64 {
    let mut s = SecondOrderSystemScalar::new(ONE, ONE / 2, 2 * ONE);
    s.update_initial_values(xp, y, yd);
    let mut out = y;
    for _ in 0..ticks {
        out = s.update(target, sixtieth());
    }
    out
}

#[test]
fn vector2_updates_componentwise() {
    let mut v = SecondOrderSystemVector2::new(ONE, ONE / 2, 2 * ONE);
    v.update_initial_values(
        FxVec2 { x: 0, y: 5 * ONE },
        FxVec2 { x: 0, y: 5 * ONE },
        FxVec2 { x: 0, y: 0 },
    );
    let target = FxVec2 { x: ONE, y: -2 * ONE };
    let mut out = FxVec2 { x: 0, y: 0 };
    for _ in 0..50 {
        out = v.update(target, sixtieth());
    }
    assert_eq!(out.x, scalar_run(0, 0, 0, ONE, 50));
    assert_eq!(out.y, scalar_run(5 * ONE, 5 * ONE, 0, -2 * ONE, 50));
}

#[test]
fn vector2_zero_initialized_state() {
    let v = SecondOrderSystemVector2::new(ONE, ONE, 0);
    assert_eq!(v.xp, FxVec2 { x: 0, y: 0 });
    assert_eq!(v.y, FxVec2 { x: 0, y: 0 });
    assert_eq!(v.yd, FxVec2 { x: 0, y: 0 });
}

#[test]
fn vector3_updates_componentwise() {
    let mut v = SecondOrderSystemVector3::new(ONE, ONE / 2, 2 * ONE);
    v.update_initial_values(
        FxVec3 { x: 0, y: 5 * ONE, z: -ONE },
        FxVec3 { x: 0, y: 5 * ONE, z: -ONE },
        FxVec3 { x: 0, y: 0, z: 0 },
    );
    let target = FxVec3 { x: ONE, y: -2 * ONE, z: 3 * ONE };
    let mut out = FxVec3 { x: 0, y: 0, z: 0 };
    for _ in 0..50 {
        out = v.update(target, sixtieth());
    }
    assert_eq!(out.x, scalar_run(0, 0, 0, ONE, 50));
    assert_eq!(out.y, scalar_run(5 * ONE, 5 * ONE, 0, -2 * ONE, 50));
    assert_eq!(out.z, scalar_run(-ONE, -ONE, 0, 3 * ONE, 50));
}

#[test]
fn vector3_setters_rederive_coefficients() {
    let mut a = SecondOrderSystemVector3::new(ONE, ONE, 0);
    let b = SecondOrderSystemVector3::new(2 * ONE, ONE, 0);
    assert_ne!(a.k, b.k);
    a.update_period(2 * ONE);
    assert_eq!(a.k, b.k);
}
