use phase_portrait::dynamics::PhaseState;
use phase_portrait::fixed::{Fx, SCALE};
use phase_portrait::render::render_line;
use phase_portrait::trig::PI_RAW;

fn boxes() -> (((Fx, Fx), (Fx, Fx)), ((Fx, Fx), (Fx, Fx))) {
    let src = (
        (Fx { raw: -PI_RAW }, Fx { raw: PI_RAW }),
        (Fx::from_int(-4), Fx::from_int(4)),
    );
    let dst = (
        (Fx::from_raw(0), Fx::from_int(800)),
        (Fx::from_raw(0), Fx::from_int(800)),
    );
    (src, dst)
}

fn state(q: i64, p: i64) -> PhaseState {
    PhaseState { q: Fx::from_raw(q), p: Fx::from_raw(p) }
}

fn dist2(seg: &phase_portrait::render::Segment) -> i128 {
    let dx = seg.x1.raw as i128 - seg.x0.raw as i128;
    let dy = seg.y1.raw as i128 - seg.y0.raw as i128;
    dx * dx + dy * dy
}

#[test]
fn near_pair_draws_exactly_one_segment() {
    let (src, dst) = boxes();
    let pts = vec![state(0, 0), state(SCALE / 10, 0)];
    let segs = render_line(&pts, src, dst, Fx::from_int(200));
    assert_eq!(segs.len(), 1);
    let seg = &segs[0];
    assert_eq!((seg.x0.raw, seg.y0.raw), (400 * SCALE, 400 * SCALE));
    assert!(dist2(seg) < (200 * SCALE as i128) * (200 * SCALE as i128));
}

#[test]
fn far_pair_draws_nothing() {
    // A wrap-around from one edge of the box to the other spans almost
    // the whole canvas: the segment is suppressed.
    let (src, dst) = boxes();
    let pts = vec![state(-PI_RAW, 0), state(PI_RAW - 1, 0)];
    let segs = render_line(&pts, src, dst, Fx::from_int(200));
    assert_eq!(segs.len(), 0);
}

#[test]
fn colour_comes_from_the_first_point_of_each_segment() {
    let (src, dst) = boxes();
    let pts = vec![state(0, 5 * SCALE / 2), state(0, 5 * SCALE / 2 + SCALE / 10)];
    let segs = render_line(&pts, src, dst, Fx::from_int(200));
    assert_eq!(segs.len(), 1);
    let seg = &segs[0];
    assert_eq!(seg.cr, 127);
    assert_eq!(seg.cg, 0);
    assert_eq!(seg.cb, 255 - 127);
    assert_eq!(seg.ca, 255);
}

#[test]
fn segments_chain_along_the_trajectory() {
    let (src, dst) = boxes();
    let mut pts = Vec::new();
    for i in 0..10i64 {
        pts.push(state(i * SCALE / 20, 0));
    }
    let segs = render_line(&pts, src, dst, Fx::from_int(200));
    assert_eq!(segs.len(), 9);
    for w in segs.windows(2) {
        assert_eq!((w[0].x1.raw, w[0].y1.raw), (w[1].x0.raw, w[1].y0.raw));
    }
}

#[test]
fn short_inputs_draw_nothing() {
    let (src, dst) = boxes();
    let none: Vec<PhaseState> = Vec::new();
    assert_eq!(render_line(&none, src, dst, Fx::from_int(200)).len(), 0);
    let one = vec![state(0, 0)];
    assert_eq!(render_line(&one, src, dst, Fx::from_int(200)).len(), 0);
}
