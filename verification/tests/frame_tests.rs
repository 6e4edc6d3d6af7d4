use phase_portrait::dynamics::{PhasePos, PhaseState, VectorField};
use phase_portrait::fixed::{Fx, SCALE};
use phase_portrait::frame::{frame_damping, line_momentum, render_frame, Config, HALF_RAW};
use phase_portrait::render::render_line;
use phase_portrait::trig::PI_RAW;

#[test]
fn reference_config_holds_the_documented_constants() {
    let c = Config::reference();
    assert_eq!(c.img_w.raw, 800 * SCALE);
    assert_eq!(c.img_h.raw, 800 * SCALE);
    assert_eq!(c.n_line, 50);
    assert_eq!(c.n_frame, 100);
    assert_eq!(c.traj_len, 20000);
    assert_eq!(c.h.raw, 10486);
    assert_eq!((c.wrap_lo.raw, c.wrap_hi.raw), (-PI_RAW, PI_RAW));
    assert_eq!((c.box_q.0.raw, c.box_q.1.raw), (-PI_RAW, PI_RAW));
    assert_eq!((c.box_p.0.raw, c.box_p.1.raw), (-4 * SCALE, 4 * SCALE));
    assert_eq!((c.sweep.0.raw, c.sweep.1.raw), (-12 * SCALE, 12 * SCALE));
    assert_eq!(c.thresh.raw, 200 * SCALE);
}

#[test]
fn momentum_sweep_spans_the_range() {
    let c = Config::reference();
    // Frame 0: line 0 starts at the bottom of the sweep, line 25 at its
    // middle.
    assert_eq!(line_momentum(0, 0, c.n_line, c.n_frame, c.sweep).raw, -12 * SCALE);
    assert_eq!(line_momentum(25, 0, c.n_line, c.n_frame, c.sweep).raw, 0);
    // Frame 50 shifts every line by half an index.
    assert_eq!(line_momentum(0, 50, c.n_line, c.n_frame, c.sweep).raw, -12331254);
}

#[test]
fn damping_oscillates_across_frames() {
    assert_eq!(frame_damping(0, 100).raw, 0);
    // Frame 25 of 100: sin(pi/2).
    assert_eq!(frame_damping(25, 100).raw, 1048412);
    // Frame 75 of 100: sin(3 pi / 2), one raw unit off the quarter-turn
    // value because the floor rounding is not symmetric about zero.
    assert_eq!(frame_damping(75, 100).raw, -1048411);
}

#[test]
fn renders_of_the_same_frame_are_identical() {
    // Two independent renders of frame 37 with identical constants
    // produce identical segment lists, bit for bit.
    let mut c = Config::reference();
    c.traj_len = 5000;
    let one = render_frame(&c, 37);
    let two = render_frame(&c, 37);
    assert_eq!(one, two);
}

#[test]
fn frame_zero_line_zero_end_to_end() {
    // Frame 0, line 0: momentum -12, damping 0, frequency one half,
    // 20000 wrapped steps.  Every position stays in [-pi, pi) and every
    // drawn segment is shorter than the 200 pixel threshold.
    let c = Config::reference();
    let p0 = line_momentum(0, 0, c.n_line, c.n_frame, c.sweep);
    assert_eq!(p0.raw, -12 * SCALE);
    let a = frame_damping(0, c.n_frame);
    assert_eq!(a.raw, 0);
    let field = VectorField::Dissipative { a, w: Fx { raw: HALF_RAW } };
    let mut sys = PhasePos::new_bounded(
        PhaseState { q: Fx::from_raw(0), p: p0 },
        (c.wrap_lo, c.wrap_hi),
        field,
        c.h,
    );
    let pts = sys.trajectory(c.traj_len);
    assert_eq!(pts.len(), 20000);
    for s in &pts {
        assert!(-PI_RAW <= s.q.raw && s.q.raw < PI_RAW);
    }
    let dst = ((Fx::from_raw(0), c.img_w), (Fx::from_raw(0), c.img_h));
    let segs = render_line(&pts, (c.box_q, c.box_p), dst, c.thresh);
    assert!(!segs.is_empty());
    let t2 = (c.thresh.raw as i128) * (c.thresh.raw as i128);
    for seg in &segs {
        let dx = seg.x1.raw as i128 - seg.x0.raw as i128;
        let dy = seg.y1.raw as i128 - seg.y0.raw as i128;
        assert!(dx * dx + dy * dy < t2);
    }
    // The wrap boundary is crossed, so some candidate segments were
    // suppressed.
    assert!(segs.len() < pts.len() - 1);
}

#[test]
fn render_frame_concatenates_its_lines() {
    let mut c = Config::reference();
    c.n_line = 2;
    c.traj_len = 300;
    let whole = render_frame(&c, 0);
    let mut by_hand = Vec::new();
    for i in 0..c.n_line {
        let p0 = line_momentum(i, 0, c.n_line, c.n_frame, c.sweep);
        let field = VectorField::Dissipative {
            a: frame_damping(0, c.n_frame),
            w: Fx { raw: HALF_RAW },
        };
        let mut sys = PhasePos::new_bounded(
            PhaseState { q: Fx::from_raw(0), p: p0 },
            (c.wrap_lo, c.wrap_hi),
            field,
            c.h,
        );
        let pts = sys.trajectory(c.traj_len);
        let dst = ((Fx::from_raw(0), c.img_w), (Fx::from_raw(0), c.img_h));
        by_hand.extend(render_line(&pts, (c.box_q, c.box_p), dst, c.thresh));
    }
    assert_eq!(whole, by_hand);
}
