use phase_portrait::dynamics::{energy, rk4_integrate, PhasePos, PhaseState, VectorField};
use phase_portrait::fixed::{Fx, SCALE};
use phase_portrait::trig::PI_RAW;

const H_RAW: i64 = 10486;

fn to_f64(x: Fx) -> f64 {
    x.raw as f64 / SCALE as f64
}

fn state(q: i64, p: i64) -> PhaseState {
    PhaseState { q: Fx::from_raw(q), p: Fx::from_raw(p) }
}

#[test]
fn rk4_tracks_small_oscillations() {
    // Conservative pendulum from (0, 0.1): position follows the
    // small-angle solution 0.1 sin(t) closely over the first 100 steps.
    let field = VectorField::Conservative;
    let h = Fx { raw: H_RAW };
    let mut s = state(0, (0.1 * SCALE as f64).round() as i64);
    for i in 1..=100 {
        s = rk4_integrate(&s, &field, h);
        let t = (i as f64) * (H_RAW as f64) / (SCALE as f64);
        let expected = 0.1 * t.sin();
        assert!((to_f64(s.q) - expected).abs() < 1e-3, "step {i}: {}", to_f64(s.q));
    }
}

#[test]
fn energy_is_nearly_conserved() {
    // Undriven, undamped pendulum away from the separatrix: the energy
    // p^2/2 - cos q stays within 0.002 of its initial value.
    let field = VectorField::Conservative;
    let h = Fx { raw: H_RAW };
    let mut s = state(0, SCALE);
    let e0 = energy(s).raw;
    for _ in 0..20000 {
        s = rk4_integrate(&s, &field, h);
        let drift = (energy(s).raw - e0).abs();
        assert!(drift < 2098, "energy drift {drift}");
    }
}

#[test]
fn dissipative_with_zero_damping_and_unit_frequency_matches_conservative() {
    let h = Fx { raw: H_RAW };
    let zero_damping = VectorField::Dissipative { a: Fx::from_raw(0), w: Fx::from_int(1) };
    let mut a = state(0, SCALE / 2);
    let mut b = a;
    for _ in 0..200 {
        a = rk4_integrate(&a, &VectorField::Conservative, h);
        b = rk4_integrate(&b, &zero_damping, h);
        assert_eq!(a, b);
    }
}

#[test]
fn forced_field_damps_the_motion() {
    let h = Fx { raw: H_RAW };
    let mut s = state(0, SCALE);
    for _ in 0..4000 {
        s = rk4_integrate(&s, &VectorField::Forced, h);
    }
    // After 40 time units of unit damping almost nothing is left.
    assert!(to_f64(s.q).abs() < 0.05 && to_f64(s.p).abs() < 0.05);
}

#[test]
fn next_advances_and_wraps() {
    let bounds = (Fx { raw: -PI_RAW }, Fx { raw: PI_RAW });
    let mut sys = PhasePos::new_bounded(
        state(0, 3 * SCALE),
        bounds,
        VectorField::Conservative,
        Fx { raw: H_RAW },
    );
    for _ in 0..5000 {
        let s = sys.next();
        assert!(-PI_RAW <= s.q.raw && s.q.raw < PI_RAW);
    }
}

#[test]
fn reset_rewinds_the_cursor() {
    let mut sys = PhasePos::new(state(0, SCALE), VectorField::Conservative, Fx { raw: H_RAW });
    let first: Vec<PhaseState> = sys.trajectory(10);
    sys.reset();
    let second: Vec<PhaseState> = sys.trajectory(10);
    assert_eq!(first, second);
}

#[test]
fn new_pos_restarts_from_a_new_state() {
    let mut sys = PhasePos::new(state(0, SCALE), VectorField::Conservative, Fx { raw: H_RAW });
    let _ = sys.trajectory(10);
    sys.new_pos(state(SCALE, 0));
    let one = sys.next();
    let mut fresh =
        PhasePos::new(state(SCALE, 0), VectorField::Conservative, Fx { raw: H_RAW });
    assert_eq!(one, fresh.next());
}

#[test]
fn trajectory_matches_repeated_next() {
    let mut sys = PhasePos::new_bounded(
        state(0, 2 * SCALE),
        (Fx { raw: -PI_RAW }, Fx { raw: PI_RAW }),
        VectorField::Forced,
        Fx { raw: H_RAW },
    );
    let mut twin = PhasePos::new_bounded(
        state(0, 2 * SCALE),
        (Fx { raw: -PI_RAW }, Fx { raw: PI_RAW }),
        VectorField::Forced,
        Fx { raw: H_RAW },
    );
    let traj = sys.trajectory(100);
    assert_eq!(traj.len(), 100);
    for s in traj {
        assert_eq!(s, twin.next());
    }
}
