//! Discontinuity-aware line rendering.
//!
//! A trajectory is turned into the list of drawable line segments: each
//! consecutive pair of states is projected into pixel space and kept only
//! when the two pixels are closer than the threshold, which suppresses
//! the artificial strokes a periodic wrap-around would otherwise paint
//! across the canvas.  A segment's colour channels are
//! `(intensity, 0, 255 - intensity, opaque)` where the intensity comes
//! from the momentum of the segment's first point.  The spec function
//! `line_segs` pins the output exactly.

use vstd::prelude::*;
use crate::dynamics::PhaseState;
use crate::fixed::{Fx, RAW_MAX, fxi, lemma_fxi, lemma_sat_bounds};
use crate::project::{box_inv, colorize, colorize_s, lemma_colorize_range, lemma_map_point_range, map_point, map_point_s, near_s, seg_near};

verus! {

/// One drawable line segment: two pixel endpoints and the four colour
/// channels (red, green, blue, alpha).
#[derive(Clone, Copy, PartialEq, Eq, Structural, Debug)]
pub struct Segment {
    pub x0: Fx,
    pub y0: Fx,
    pub x1: Fx,
    pub y1: Fx,
    pub cr: u8,
    pub cg: u8,
    pub cb: u8,
    pub ca: u8,
}

impl Segment {
    pub open spec fn inv(self) -> bool {
        self.x0.inv() && self.y0.inv() && self.x1.inv() && self.y1.inv()
    }
}

/// The segment drawn between two consecutive states: endpoints projected
/// through the box pair, colour taken from the first state's momentum.
pub open spec fn seg_of(
    s0: PhaseState,
    s1: PhaseState,
    a: ((Fx, Fx), (Fx, Fx)),
    b: ((Fx, Fx), (Fx, Fx)),
) -> Segment {
    let e0 = map_point_s(s0.q.v(), s0.p.v(), a, b);
    let e1 = map_point_s(s1.q.v(), s1.p.v(), a, b);
    let c = colorize_s(s0.p.v());
    Segment {
        x0: fxi(e0.0),
        y0: fxi(e0.1),
        x1: fxi(e1.0),
        y1: fxi(e1.1),
        cr: c as u8,
        cg: 0,
        cb: (255 - c) as u8,
        ca: 255,
    }
}

/// Whether the segment between two consecutive states is drawn: its two
/// pixel endpoints must be strictly closer than `thresh`.
pub open spec fn pair_near(
    s0: PhaseState,
    s1: PhaseState,
    a: ((Fx, Fx), (Fx, Fx)),
    b: ((Fx, Fx), (Fx, Fx)),
    thresh: int,
) -> bool {
    let e0 = map_point_s(s0.q.v(), s0.p.v(), a, b);
    let e1 = map_point_s(s1.q.v(), s1.p.v(), a, b);
    near_s(e0.0, e0.1, e1.0, e1.1, thresh)
}

/// The drawable segments of a trajectory: one candidate per consecutive
/// pair of states, kept exactly when the pair is near.
pub open spec fn line_segs(
    pts: Seq<PhaseState>,
    a: ((Fx, Fx), (Fx, Fx)),
    b: ((Fx, Fx), (Fx, Fx)),
    thresh: int,
) -> Seq<Segment>
    decreases pts.len(),
{
    if pts.len() < 2 {
        Seq::empty()
    } else {
        let init = line_segs(pts.drop_last(), a, b, thresh);
        let s0 = pts[pts.len() - 2];
        let s1 = pts[pts.len() - 1];
        if pair_near(s0, s1, a, b, thresh) {
            init.push(seg_of(s0, s1, a, b))
        } else {
            init
        }
    }
}

/// Project a whole trajectory and keep the segments between consecutive
/// points that are closer than `thresh` pixels, in trajectory order.
pub fn render_line(
    pts: &Vec<PhaseState>,
    a: ((Fx, Fx), (Fx, Fx)),
    b: ((Fx, Fx), (Fx, Fx)),
    thresh: Fx,
) -> (segs: Vec<Segment>)
    requires
        box_inv(a),
        b.0.0.inv(),
        b.0.1.inv(),
        b.1.0.inv(),
        b.1.1.inv(),
        thresh.inv(),
        forall|i: int| 0 <= i < pts@.len() ==> (#[trigger] pts@[i]).inv(),
    ensures
        segs@ == line_segs(pts@, a, b, thresh.v()),
{
    let mut segs: Vec<Segment> = Vec::new();
    let n = pts.len();
    if n < 2 {
        proof {
            assert(segs@ =~= line_segs(pts@, a, b, thresh.v()));
        }
        return segs;
    }
    let mut j: usize = 1;
    while j < n
        invariant
            1 <= j <= n,
            n == pts@.len(),
            2 <= n,
            box_inv(a),
            b.0.0.inv(),
            b.0.1.inv(),
            b.1.0.inv(),
            b.1.1.inv(),
            thresh.inv(),
            forall|i: int| 0 <= i < pts@.len() ==> (#[trigger] pts@[i]).inv(),
            segs@ == line_segs(pts@.take(j as int), a, b, thresh.v()),
        decreases n - j,
    {
        let s0 = pts[j - 1];
        let s1 = pts[j];
        let e0 = map_point((s0.q, s0.p), a, b);
        let e1 = map_point((s1.q, s1.p), a, b);
        proof {
            assert(pts@.take(j + 1).drop_last() =~= pts@.take(j as int));
        }
        if seg_near(e0, e1, thresh) {
            let c = colorize(s0.p);
            let seg = Segment {
                x0: e0.0,
                y0: e0.1,
                x1: e1.0,
                y1: e1.1,
                cr: c,
                cg: 0,
                cb: 255 - c,
                ca: 255,
            };
            proof {
                lemma_colorize_range(s0.p.v());
                let m = map_point_s(s0.q.v(), s0.p.v(), a, b);
                let m1 = map_point_s(s1.q.v(), s1.p.v(), a, b);
                lemma_fxi(m.0);
                lemma_fxi(m.1);
                lemma_fxi(m1.0);
                lemma_fxi(m1.1);
                assert(seg == seg_of(s0, s1, a, b));
                assert(segs@.push(seg) =~= line_segs(pts@.take(j + 1), a, b, thresh.v()));
            }
            segs.push(seg);
        } else {
            proof {
                assert(segs@ =~= line_segs(pts@.take(j + 1), a, b, thresh.v()));
            }
        }
        j = j + 1;
    }
    proof {
        assert(pts@.take(n as int) =~= pts@);
    }
    segs
}

/// Discontinuity suppression, stated for one pair of points: two states
/// whose pixels are at least `thresh` apart never yield a segment, and
/// two states whose pixels are strictly closer yield exactly one.
pub proof fn lemma_discontinuity_suppression(
    s0: PhaseState,
    s1: PhaseState,
    a: ((Fx, Fx), (Fx, Fx)),
    b: ((Fx, Fx), (Fx, Fx)),
    thresh: int,
)
    ensures
        pair_near(s0, s1, a, b, thresh) ==> line_segs(seq![s0, s1], a, b, thresh) == seq![
            seg_of(s0, s1, a, b),
        ],
        !pair_near(s0, s1, a, b, thresh) ==> line_segs(seq![s0, s1], a, b, thresh)
            == Seq::<Segment>::empty(),
{
    let pts = seq![s0, s1];
    assert(pts.drop_last() =~= seq![s0]);
    assert(line_segs(seq![s0], a, b, thresh) =~= Seq::<Segment>::empty());
    if pair_near(s0, s1, a, b, thresh) {
        assert(line_segs(pts, a, b, thresh) =~= seq![seg_of(s0, s1, a, b)]);
    }
}

/// Every near adjacent pair is drawn: its segment appears in the
/// rendered output.
pub proof fn lemma_near_pair_is_drawn(
    pts: Seq<PhaseState>,
    a: ((Fx, Fx), (Fx, Fx)),
    b: ((Fx, Fx), (Fx, Fx)),
    thresh: int,
    i: int,
)
    requires
        0 <= i,
        i + 1 < pts.len(),
        pair_near(pts[i], pts[i + 1], a, b, thresh),
    ensures
        exists|k: int|
            0 <= k < line_segs(pts, a, b, thresh).len() && line_segs(pts, a, b, thresh)[k]
                == seg_of(pts[i], pts[i + 1], a, b),
    decreases pts.len(),
{
    let all = line_segs(pts, a, b, thresh);
    if i + 2 == pts.len() {
        let init = line_segs(pts.drop_last(), a, b, thresh);
        assert(all == init.push(seg_of(pts[i], pts[i + 1], a, b)));
        assert(all[all.len() - 1] == seg_of(pts[i], pts[i + 1], a, b));
    } else {
        lemma_near_pair_is_drawn(pts.drop_last(), a, b, thresh, i);
        let init = line_segs(pts.drop_last(), a, b, thresh);
        let k = choose|k: int|
            0 <= k < init.len() && init[k] == seg_of(
                pts.drop_last()[i],
                pts.drop_last()[i + 1],
                a,
                b,
            );
        assert(all[k] == seg_of(pts[i], pts[i + 1], a, b));
    }
}

/// Every segment a trajectory yields joins a near pair: no drawn segment
/// spans the threshold.
pub proof fn lemma_segments_all_near(
    pts: Seq<PhaseState>,
    a: ((Fx, Fx), (Fx, Fx)),
    b: ((Fx, Fx), (Fx, Fx)),
    thresh: int,
)
    ensures
        forall|k: int|
            0 <= k < line_segs(pts, a, b, thresh).len() ==> {
                let s = #[trigger] line_segs(pts, a, b, thresh)[k];
                near_s(s.x0.v(), s.y0.v(), s.x1.v(), s.y1.v(), thresh)
            },
    decreases pts.len(),
{
    if pts.len() < 2 {
    } else {
        lemma_segments_all_near(pts.drop_last(), a, b, thresh);
        let init = line_segs(pts.drop_last(), a, b, thresh);
        let all = line_segs(pts, a, b, thresh);
        let s0 = pts[pts.len() - 2];
        let s1 = pts[pts.len() - 1];
        if pair_near(s0, s1, a, b, thresh) {
            let e0 = map_point_s(s0.q.v(), s0.p.v(), a, b);
            let e1 = map_point_s(s1.q.v(), s1.p.v(), a, b);
            lemma_map_point_range(s0.q.v(), s0.p.v(), a, b);
            lemma_map_point_range(s1.q.v(), s1.p.v(), a, b);
            lemma_fxi(e0.0);
            lemma_fxi(e0.1);
            lemma_fxi(e1.0);
            lemma_fxi(e1.1);
            let sg = seg_of(s0, s1, a, b);
            assert(all == init.push(sg));
            assert forall|k: int| 0 <= k < all.len() implies {
                let s = #[trigger] all[k];
                near_s(s.x0.v(), s.y0.v(), s.x1.v(), s.y1.v(), thresh)
            } by {
                if k < init.len() {
                    assert(all[k] == init[k]);
                } else {
                    assert(all[k] == sg);
                }
            }
        } else {
            assert(all == init);
        }
    }
}

} // verus!
