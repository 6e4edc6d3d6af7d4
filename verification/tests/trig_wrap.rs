use phase_portrait::dynamics::{PhasePos, PhaseState, VectorField};
use phase_portrait::fixed::{Fx, SCALE};
use phase_portrait::trig::{cos, sin, HALF_PI_RAW, PI_RAW};

fn to_f64(x: Fx) -> f64 {
    x.raw as f64 / SCALE as f64
}

#[test]
fn sin_of_zero_is_zero() {
    assert_eq!(sin(Fx::from_raw(0)).raw, 0);
}

#[test]
fn sin_of_quarter_turn_is_nearly_one() {
    assert_eq!(sin(Fx::from_raw(HALF_PI_RAW)).raw, 1048412);
    assert_eq!(cos(Fx::from_raw(0)).raw, 1048412);
}

#[test]
fn sin_tracks_the_real_sine() {
    let mut x = -7.0f64;
    while x < 7.0 {
        let fx = Fx::from_raw((x * SCALE as f64).round() as i64);
        let got = to_f64(sin(fx));
        assert!((got - x.sin()).abs() < 3e-4, "sin({x}) = {got}");
        x += 0.1;
    }
}

#[test]
fn cos_tracks_the_real_cosine() {
    let mut x = -7.0f64;
    while x < 7.0 {
        let fx = Fx::from_raw((x * SCALE as f64).round() as i64);
        let got = to_f64(cos(fx));
        assert!((got - x.cos()).abs() < 3e-4, "cos({x}) = {got}");
        x += 0.1;
    }
}

fn bounded_cursor() -> PhasePos {
    PhasePos::new_bounded(
        PhaseState { q: Fx::from_raw(0), p: Fx::from_raw(0) },
        (Fx { raw: -PI_RAW }, Fx { raw: PI_RAW }),
        VectorField::Conservative,
        Fx { raw: 10486 },
    )
}

#[test]
fn wrap_reduces_exactly() {
    let sys = bounded_cursor();
    assert_eq!(sys.wrap(Fx::from_raw(10_000_000)).raw, -3176796);
    assert_eq!(sys.wrap(Fx::from_raw(0)).raw, 0);
    assert_eq!(sys.wrap(Fx::from_raw(PI_RAW)).raw, -PI_RAW);
    assert_eq!(sys.wrap(Fx::from_raw(-PI_RAW)).raw, -PI_RAW);
}

#[test]
fn wrap_contains_all_finite_inputs() {
    let sys = bounded_cursor();
    let mut x: i64 = -40_000_000;
    while x <= 40_000_000 {
        let w = sys.wrap(Fx::from_raw(x)).raw;
        assert!(-PI_RAW <= w && w < PI_RAW, "wrap({x}) = {w}");
        x += 77_777;
    }
}

#[test]
fn wrap_without_bounds_is_identity() {
    let sys = PhasePos::new(
        PhaseState { q: Fx::from_raw(0), p: Fx::from_raw(0) },
        VectorField::Conservative,
        Fx { raw: 10486 },
    );
    assert_eq!(sys.wrap(Fx::from_raw(10_000_000)).raw, 10_000_000);
}
