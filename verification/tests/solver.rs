use second_order_systems::fixed_point::FX_SCALE;
use second_order_systems::solver::{solve_coefficients, Coefficients};
use second_order_systems::system::SecondOrderSystemScalar;

const ONE: i64 = FX_SCALE;

#[test]
fn coefficients_for_unit_period() {
    // period = 1.0, damping = 0.5, response = 2.0
    let k = solve_coefficients(ONE, ONE / 2, 2 * ONE);
    assert_eq!(k.k0, 683565275);
    assert_eq!(k.k1, 108792792);
    assert_eq!(k.k2, 683565275);
}

#[test]
fn coefficients_for_critical_damping() {
    // period = 1.0, damping = 1.0, response = 0.0
    let k = solve_coefficients(ONE, ONE, 0);
    assert_eq!(k.k0, 1367130551);
    assert_eq!(k.k1, 108792792);
    assert_eq!(k.k2, 0);
}

#[test]
fn solver_is_repeatable() {
    let a = solve_coefficients(3 * ONE, ONE / 4, -2 * ONE);
    let b = solve_coefficients(3 * ONE, ONE / 4, -2 * ONE);
    assert_eq!(a, b);
}

#[test]
fn setters_rederive_coefficients_immediately() {
    let mut s = SecondOrderSystemScalar::new(ONE, ONE / 2, 2 * ONE);
    let before: Coefficients = s.k;

    s.update_damping(ONE);
    let expected = solve_coefficients(ONE, ONE, 2 * ONE);
    assert_eq!(s.k, expected);
    assert_ne!(s.k, before);

    s.update_period(2 * ONE);
    let expected = solve_coefficients(2 * ONE, ONE, 2 * ONE);
    assert_eq!(s.k, expected);

    s.update_response(0);
    let expected = solve_coefficients(2 * ONE, ONE, 0);
    assert_eq!(s.k, expected);
    assert_eq!(s.k.k2, 0);
}

#[test]
fn setters_keep_running_state() {
    let mut s = SecondOrderSystemScalar::new(ONE, ONE / 2, 2 * ONE);
    s.update_initial_values(11, 22, 33);
    s.update_damping(ONE);
    assert_eq!(s.xp, 11);
    assert_eq!(s.y, 22);
    assert_eq!(s.yd, 33);
}
