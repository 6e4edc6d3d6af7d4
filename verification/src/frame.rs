//! Per-frame generation: the configuration constants, the per-frame
//! damping parameter and momentum sweep, and the renderer that turns a
//! frame index into its full list of drawable segments.
//!
//! A frame is a pure function of its index and the configuration: the
//! spec function `frame_segs` pins the segment list exactly, which makes
//! renders reproducible bit for bit (`lemma_render_deterministic`).
//! Frames share no state, so a caller may generate them in any order or
//! in parallel and draw the returned segments onto its own canvas.

use vstd::prelude::*;
use crate::dynamics::{PhasePos, PhaseState, VectorField, st};
use crate::fixed::{Fx, SCALE, fx_add, fx_divn, fx_mul, fxi, lemma_fxi, lemma_sat_bounds, sat_i};
use crate::project::{axis_inv, box_inv, map_val, map_val_s};
use crate::render::{Segment, line_segs, render_line};
use crate::trig::{PI_RAW, TWO_PI_RAW, sin, sin_fx};

verus! {

/// The raw fixed-point representation of one half: the natural frequency
/// of the per-frame dissipative field.
pub const HALF_RAW: i64 = 524288;

/// The configuration constants of a run: canvas size, sweep and box
/// geometry, step size, and the per-frame counts.
#[derive(Clone, Copy, Debug)]
pub struct Config {
    /// Canvas width, in fixed-point pixels.
    pub img_w: Fx,
    /// Canvas height, in fixed-point pixels.
    pub img_h: Fx,
    /// Trajectory lines per frame.
    pub n_line: usize,
    /// Total frames of the animation.
    pub n_frame: usize,
    /// Integration steps per trajectory.
    pub traj_len: usize,
    /// Integration step size.
    pub h: Fx,
    /// Lower position wrap bound.
    pub wrap_lo: Fx,
    /// Upper position wrap bound.
    pub wrap_hi: Fx,
    /// Source box, position axis.
    pub box_q: (Fx, Fx),
    /// Source box, momentum axis.
    pub box_p: (Fx, Fx),
    /// Initial-momentum sweep range.
    pub sweep: (Fx, Fx),
    /// Pixel distance threshold for discontinuity suppression.
    pub thresh: Fx,
}

impl Config {
    pub open spec fn inv(self) -> bool {
        &&& self.img_w.inv()
        &&& self.img_h.inv()
        &&& 1 <= self.n_line <= 1000000
        &&& 1 <= self.n_frame <= 1000000
        &&& self.h.inv()
        &&& self.h.v() > 0
        &&& self.wrap_lo.inv()
        &&& self.wrap_hi.inv()
        &&& self.wrap_lo.v() < self.wrap_hi.v()
        &&& axis_inv(self.box_q)
        &&& axis_inv(self.box_p)
        &&& self.sweep.0.inv()
        &&& self.sweep.1.inv()
        &&& self.thresh.inv()
    }

    /// The reference constants: an 800 by 800 canvas, 50 lines over 100
    /// frames of 20000 steps at step size 0.01, position wrapped into
    /// `(-pi, pi)`, the render box `q` in `[-pi, pi]` and `p` in
    /// `[-4, 4]`, the momentum sweep `[-12, 12]`, and a 200 pixel
    /// threshold.
    pub fn reference() -> (c: Config)
        ensures
            c.inv(),
            c.img_w.raw == 838860800,
            c.img_h.raw == 838860800,
            c.n_line == 50,
            c.n_frame == 100,
            c.traj_len == 20000,
            c.h.raw == 10486,
            c.wrap_lo.raw == -PI_RAW,
            c.wrap_hi.raw == PI_RAW,
            c.box_q.0.raw == -PI_RAW,
            c.box_q.1.raw == PI_RAW,
            c.box_p.0.raw == -4194304,
            c.box_p.1.raw == 4194304,
            c.sweep.0.raw == -12582912,
            c.sweep.1.raw == 12582912,
            c.thresh.raw == 209715200,
    {
        Config {
            img_w: Fx { raw: 838860800 },
            img_h: Fx { raw: 838860800 },
            n_line: 50,
            n_frame: 100,
            traj_len: 20000,
            h: Fx { raw: 10486 },
            wrap_lo: Fx { raw: -PI_RAW },
            wrap_hi: Fx { raw: PI_RAW },
            box_q: (Fx { raw: -PI_RAW }, Fx { raw: PI_RAW }),
            box_p: (Fx { raw: -4194304 }, Fx { raw: 4194304 }),
            sweep: (Fx { raw: -12582912 }, Fx { raw: 12582912 }),
            thresh: Fx { raw: 209715200 },
        }
    }
}

/// The damping coefficient of frame `frame` of `n`: `sin(2 pi frame / n)`,
/// so the dissipation oscillates across the animation.
pub open spec fn frame_damping_s(frame: int, n: int) -> int {
    sin_fx(fx_divn(fx_mul(TWO_PI_RAW as int, sat_i(frame * (SCALE as int))), n))
}

/// The damping coefficient of one frame.
pub fn frame_damping(frame: usize, n_frame: usize) -> (a: Fx)
    requires
        frame < n_frame,
        n_frame <= 1000000,
    ensures
        a.inv(),
        a.v() == frame_damping_s(frame as int, n_frame as int),
{
    let two_pi = Fx { raw: TWO_PI_RAW };
    let f = Fx::from_int(frame as i64);
    sin(two_pi.mul(f).divn(n_frame as i64))
}

/// The initial momentum of line `i` of frame `frame`: the line index,
/// shifted by the frame's fractional offset, mapped linearly from
/// `[0, n_line]` onto the sweep range.
pub open spec fn line_momentum_s(i: int, frame: int, n_line: int, n_frame: int, sw: (Fx, Fx)) -> int {
    map_val_s(
        fx_add(sat_i(i * (SCALE as int)), fx_divn(sat_i(frame * (SCALE as int)), n_frame)),
        0,
        sat_i(n_line * (SCALE as int)),
        sw.0.v(),
        sw.1.v(),
    )
}

/// The initial momentum of one line of one frame.
pub fn line_momentum(i: usize, frame: usize, n_line: usize, n_frame: usize, sw: (Fx, Fx)) -> (p: Fx)
    requires
        i < n_line,
        frame < n_frame,
        1 <= n_line <= 1000000,
        1 <= n_frame <= 1000000,
        sw.0.inv(),
        sw.1.inv(),
    ensures
        p.inv(),
        p.v() == line_momentum_s(i as int, frame as int, n_line as int, n_frame as int, sw),
{
    let x = Fx::from_int(i as i64).add(Fx::from_int(frame as i64).divn(n_frame as i64));
    let hi = Fx::from_int(n_line as i64);
    proof {
        lemma_sat_bounds(n_line as int * (SCALE as int));
    }
    map_val(x, (Fx { raw: 0 }, hi), sw)
}

/// The vector field of one frame: the generalized dissipative pendulum
/// with the frame's damping coefficient and natural frequency one half.
pub open spec fn frame_field(cfg: Config, frame: int) -> VectorField {
    VectorField::Dissipative {
        a: fxi(frame_damping_s(frame, cfg.n_frame as int)),
        w: fxi(HALF_RAW as int),
    }
}

/// The initial state of one line: position zero, swept momentum.
pub open spec fn line_start(cfg: Config, frame: int, i: int) -> PhaseState {
    st(0, line_momentum_s(i, frame, cfg.n_line as int, cfg.n_frame as int, cfg.sweep))
}

/// The integration cursor of one line of one frame.
pub open spec fn line_cursor(cfg: Config, frame: int, i: int) -> PhasePos {
    PhasePos {
        pos: line_start(cfg, frame, i),
        cur_pos: line_start(cfg, frame, i),
        bounds: Some((cfg.wrap_lo, cfg.wrap_hi)),
        vel: frame_field(cfg, frame),
        h: cfg.h,
    }
}

/// The trajectory of one line of one frame.
pub open spec fn line_states(cfg: Config, frame: int, i: int) -> Seq<PhaseState> {
    line_cursor(cfg, frame, i).traj_seq(
        line_start(cfg, frame, i).q.v(),
        line_start(cfg, frame, i).p.v(),
        cfg.traj_len as nat,
    )
}

/// The destination box: the full canvas, origin at zero.
pub open spec fn dst_box(cfg: Config) -> ((Fx, Fx), (Fx, Fx)) {
    ((fxi(0), cfg.img_w), (fxi(0), cfg.img_h))
}

/// The segments of the first `k` lines of a frame, in line order.
pub open spec fn frame_segs_upto(cfg: Config, frame: int, k: int) -> Seq<Segment>
    decreases k,
{
    if k <= 0 {
        Seq::empty()
    } else {
        frame_segs_upto(cfg, frame, k - 1) + line_segs(
            line_states(cfg, frame, k - 1),
            (cfg.box_q, cfg.box_p),
            dst_box(cfg),
            cfg.thresh.v(),
        )
    }
}

/// All drawable segments of one frame, in drawing order.
pub open spec fn frame_segs(cfg: Config, frame: int) -> Seq<Segment> {
    frame_segs_upto(cfg, frame, cfg.n_line as int)
}

/// Render one frame: for each line, sweep the initial momentum, integrate
/// the frame's dissipative field with wrapped position, and keep the
/// near segments.  The result is exactly `frame_segs(cfg, frame)`: a pure
/// function of the configuration and the frame index.
pub fn render_frame(cfg: &Config, frame: usize) -> (segs: Vec<Segment>)
    requires
        cfg.inv(),
        frame < cfg.n_frame,
    ensures
        segs@ == frame_segs(*cfg, frame as int),
{
    let mut segs: Vec<Segment> = Vec::new();
    let a_damp = frame_damping(frame, cfg.n_frame);
    let w = Fx { raw: HALF_RAW };
    let field = VectorField::Dissipative { a: a_damp, w };
    let zero = Fx { raw: 0 };
    let dst = ((zero, cfg.img_w), (zero, cfg.img_h));
    let src = (cfg.box_q, cfg.box_p);
    proof {
        lemma_fxi(a_damp.v());
    }
    let mut i: usize = 0;
    while i < cfg.n_line
        invariant
            i <= cfg.n_line,
            cfg.inv(),
            frame < cfg.n_frame,
            field == frame_field(*cfg, frame as int),
            field.inv(),
            zero == fxi(0),
            dst == dst_box(*cfg),
            src == (cfg.box_q, cfg.box_p),
            segs@ == frame_segs_upto(*cfg, frame as int, i as int),
        decreases cfg.n_line - i,
    {
        let p0 = line_momentum(i, frame, cfg.n_line, cfg.n_frame, cfg.sweep);
        let start = PhaseState { q: zero, p: p0 };
        proof {
            lemma_fxi(p0.v());
            assert(start == line_start(*cfg, frame as int, i as int));
        }
        let mut sys = PhasePos::new_bounded(start, (cfg.wrap_lo, cfg.wrap_hi), field, cfg.h);
        proof {
            assert(sys == line_cursor(*cfg, frame as int, i as int));
        }
        let pts = sys.trajectory(cfg.traj_len);
        let mut line = render_line(&pts, src, dst, cfg.thresh);
        proof {
            assert(pts@ == line_states(*cfg, frame as int, i as int));
        }
        segs.append(&mut line);
        i = i + 1;
    }
    segs
}

/// Determinism: two renders of the same frame under the same constants
/// yield the same segment list, because a frame is a pure function of
/// the configuration and its index.
pub proof fn lemma_render_deterministic(s1: Seq<Segment>, s2: Seq<Segment>, cfg: Config, frame: int)
    requires
        s1 == frame_segs(cfg, frame),
        s2 == frame_segs(cfg, frame),
    ensures
        s1 == s2,
{
}

} // verus!
