//! Affine projection from phase space into pixel space, the momentum
//! colour map, and the segment-distance test.
//!
//! `map_val` scales one coordinate from a source interval onto a
//! destination interval; `map_point` applies it per axis.  `colorize`
//! turns a momentum into a byte intensity, clamped at full intensity
//! rather than wrapping (the clamp is a deliberate hardening of the
//! raw truncating cast).  `seg_near` decides whether two pixel points
//! are closer than a threshold, by comparing squared distances, which
//! is exact in fixed point where a square root would not be.

use vstd::prelude::*;
use vstd::arithmetic::div_mod::{lemma_div_multiples_vanish, lemma_div_of0, lemma_div_pos_is_pos};
use vstd::arithmetic::mul::lemma_mul_is_commutative;
use crate::fixed::{Fx, RAW_MAX, SCALE, WIDE_MAX, fx_abs, lemma_sat_bounds, sat_i};
use crate::fixed::{floor_div, lemma_mul_abs_bound, sat64};

verus! {

/// An interval pair is valid when both ends are in range and the source
/// interval is non-degenerate.
pub open spec fn axis_inv(a: (Fx, Fx)) -> bool {
    a.0.inv() && a.1.inv() && a.0.v() < a.1.v()
}

/// A bounding box: the pair of its two axis intervals.
pub open spec fn box_inv(b: ((Fx, Fx), (Fx, Fx))) -> bool {
    axis_inv(b.0) && axis_inv(b.1)
}

/// The affine map carrying the interval `[a0, a1]` onto `[b0, b1]`:
/// `(b1 - b0) / (a1 - a0) * (x - a0) + b0`, with the division rounded
/// toward minus infinity and the result clamped into range.
pub open spec fn map_val_s(x: int, a0: int, a1: int, b0: int, b1: int) -> int {
    sat_i((b1 - b0) * (x - a0) / (a1 - a0) + b0)
}

/// Scale `x` from the source interval `a` onto the destination interval
/// `b`.  Values outside `a` map outside `b`; nothing clamps them to the
/// destination interval.
pub fn map_val(x: Fx, a: (Fx, Fx), b: (Fx, Fx)) -> (r: Fx)
    requires
        x.inv(),
        axis_inv(a),
        b.0.inv(),
        b.1.inv(),
    ensures
        r.inv(),
        r.v() == map_val_s(x.v(), a.0.v(), a.1.v(), b.0.v(), b.1.v()),
{
    proof {
        assert(fx_abs(b.1.raw - b.0.raw) <= 2 * (RAW_MAX as int));
        assert(fx_abs(x.raw - a.0.raw) <= 2 * (RAW_MAX as int));
        lemma_mul_abs_bound(b.1.raw - b.0.raw, x.raw - a.0.raw, 2 * (RAW_MAX as int));
        assert((2 * (RAW_MAX as int)) * (2 * (RAW_MAX as int))
            == 5070602400912917605986812821504int) by (nonlinear_arith);
    }
    let num: i128 = ((b.1.raw as i128) - (b.0.raw as i128)) * ((x.raw as i128) - (a.0.raw as i128));
    let den: i128 = (a.1.raw as i128) - (a.0.raw as i128);
    let q: i128 = floor_div(num, den);
    Fx { raw: sat64(q + (b.0.raw as i128)) }
}

/// The per-axis projection of a phase point `(q, p)` through the box
/// pair `(a, b)`.
pub open spec fn map_point_s(q: int, p: int, a: ((Fx, Fx), (Fx, Fx)), b: ((Fx, Fx), (Fx, Fx))) -> (
    int,
    int,
) {
    (
        map_val_s(q, a.0.0.v(), a.0.1.v(), b.0.0.v(), b.0.1.v()),
        map_val_s(p, a.1.0.v(), a.1.1.v(), b.1.0.v(), b.1.1.v()),
    )
}

/// Project a phase state from the source box `a` into the destination
/// box `b`, one affine map per axis.
pub fn map_point(x: (Fx, Fx), a: ((Fx, Fx), (Fx, Fx)), b: ((Fx, Fx), (Fx, Fx))) -> (r: (
    Fx,
    Fx,
))
    requires
        x.0.inv(),
        x.1.inv(),
        box_inv(a),
        b.0.0.inv(),
        b.0.1.inv(),
        b.1.0.inv(),
        b.1.1.inv(),
    ensures
        r.0.inv(),
        r.1.inv(),
        (r.0.v(), r.1.v()) == map_point_s(x.0.v(), x.1.v(), a, b),
{
    (map_val(x.0, a.0, b.0), map_val(x.1, a.1, b.1))
}

/// The projected coordinates always lie in the representable range.
pub proof fn lemma_map_point_range(q: int, p: int, a: ((Fx, Fx), (Fx, Fx)), b: (
    (Fx, Fx),
    (Fx, Fx),
))
    ensures
        -RAW_MAX <= map_point_s(q, p, a, b).0 <= RAW_MAX,
        -RAW_MAX <= map_point_s(q, p, a, b).1 <= RAW_MAX,
{
    lemma_sat_bounds((b.0.1.v() - b.0.0.v()) * (q - a.0.0.v()) / (a.0.1.v() - a.0.0.v())
        + b.0.0.v());
    lemma_sat_bounds((b.1.1.v() - b.1.0.v()) * (p - a.1.0.v()) / (a.1.1.v() - a.1.0.v())
        + b.1.0.v());
}

/// Projection affinity: the ends of the source interval map exactly onto
/// the ends of the destination interval.
pub proof fn lemma_projection_ends(a0: int, a1: int, b0: int, b1: int)
    requires
        a0 < a1,
        -RAW_MAX <= b0 <= RAW_MAX,
        -RAW_MAX <= b1 <= RAW_MAX,
    ensures
        map_val_s(a0, a0, a1, b0, b1) == b0,
        map_val_s(a1, a0, a1, b0, b1) == b1,
{
    lemma_div_of0(a1 - a0);
    assert((b1 - b0) * (a0 - a0) == 0) by {
        lemma_mul_is_commutative(b1 - b0, 0);
    }
    lemma_div_multiples_vanish(b1 - b0, a1 - a0);
    assert((b1 - b0) * (a1 - a0) == (a1 - a0) * (b1 - b0)) by {
        lemma_mul_is_commutative(b1 - b0, a1 - a0);
    }
}

/// Projection affinity for boxes: each of the four corners of the source
/// box maps exactly onto the corresponding corner of the destination box.
pub proof fn lemma_projection_corners(a: ((Fx, Fx), (Fx, Fx)), b: ((Fx, Fx), (Fx, Fx)))
    requires
        box_inv(a),
        b.0.0.inv(),
        b.0.1.inv(),
        b.1.0.inv(),
        b.1.1.inv(),
    ensures
        map_point_s(a.0.0.v(), a.1.0.v(), a, b) == (b.0.0.v(), b.1.0.v()),
        map_point_s(a.0.0.v(), a.1.1.v(), a, b) == (b.0.0.v(), b.1.1.v()),
        map_point_s(a.0.1.v(), a.1.0.v(), a, b) == (b.0.1.v(), b.1.0.v()),
        map_point_s(a.0.1.v(), a.1.1.v(), a, b) == (b.0.1.v(), b.1.1.v()),
{
    lemma_projection_ends(a.0.0.v(), a.0.1.v(), b.0.0.v(), b.0.1.v());
    lemma_projection_ends(a.1.0.v(), a.1.1.v(), b.1.0.v(), b.1.1.v());
}

/// Byte intensity of a momentum: `|p| / 5` of full scale, clamped at
/// 255.  The clamp (rather than a wrapping cast) is a deliberate,
/// documented deviation: intensities beyond full scale saturate instead
/// of wrapping around.
pub open spec fn colorize_s(p: int) -> int {
    let t = fx_abs(p) * 255 / (5 * (SCALE as int));
    if t > 255 {
        255
    } else {
        t
    }
}

pub proof fn lemma_colorize_range(p: int)
    ensures
        0 <= colorize_s(p) <= 255,
{
    lemma_div_pos_is_pos(fx_abs(p) * 255, 5 * (SCALE as int));
    assert(fx_abs(p) * 255 >= 0) by (nonlinear_arith)
        requires
            fx_abs(p) >= 0,
    ;
}

/// Colour intensity of a momentum value.
pub fn colorize(p: Fx) -> (c: u8)
    requires
        p.inv(),
    ensures
        c as int == colorize_s(p.v()),
{
    let ap = p.abs();
    let num: i128 = (ap.raw as i128) * 255;
    let q: i128 = floor_div(num, 5 * (SCALE as i128));
    proof {
        lemma_colorize_range(p.v());
    }
    if q > 255 {
        255
    } else {
        q as u8
    }
}

/// Squared pixel distance between two points, exactly.
pub open spec fn dist2_s(x0: int, y0: int, x1: int, y1: int) -> int {
    (x1 - x0) * (x1 - x0) + (y1 - y0) * (y1 - y0)
}

/// Whether two pixel points are strictly closer than `thresh`: the
/// squared distance comparison, exact where a square root would round.
pub open spec fn near_s(x0: int, y0: int, x1: int, y1: int, thresh: int) -> bool {
    dist2_s(x0, y0, x1, y1) < thresh * thresh
}

/// Decide whether the segment from `p1` to `p2` is shorter than
/// `thresh` pixels.
pub fn seg_near(p1: (Fx, Fx), p2: (Fx, Fx), thresh: Fx) -> (b: bool)
    requires
        p1.0.inv(),
        p1.1.inv(),
        p2.0.inv(),
        p2.1.inv(),
        thresh.inv(),
    ensures
        b == near_s(p1.0.v(), p1.1.v(), p2.0.v(), p2.1.v(), thresh.v()),
{
    let dx: i128 = (p2.0.raw as i128) - (p1.0.raw as i128);
    let dy: i128 = (p2.1.raw as i128) - (p1.1.raw as i128);
    proof {
        lemma_mul_abs_bound(dx as int, dx as int, 2 * (RAW_MAX as int));
        lemma_mul_abs_bound(dy as int, dy as int, 2 * (RAW_MAX as int));
        lemma_mul_abs_bound(thresh.raw as int, thresh.raw as int, RAW_MAX as int);
        assert((2 * (RAW_MAX as int)) * (2 * (RAW_MAX as int))
            == 5070602400912917605986812821504int) by (nonlinear_arith);
        assert((RAW_MAX as int) * (RAW_MAX as int)
            == 1267650600228229401496703205376int) by (nonlinear_arith);
    }
    let d2: i128 = dx * dx + dy * dy;
    let t2: i128 = (thresh.raw as i128) * (thresh.raw as i128);
    d2 < t2
}

} // verus!
