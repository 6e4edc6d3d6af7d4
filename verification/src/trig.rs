//! Fixed-point sine and cosine.
//!
//! The argument is reduced into `[-PI_RAW, PI_RAW)` by a single Euclidean
//! remainder, folded into the quarter wave `[-HALF_PI_RAW, HALF_PI_RAW]`
//! by the symmetry `sin(pi - y) == sin(y)`, and evaluated there with the
//! degree-seven Taylor polynomial.  The spec functions `sin_fx` and
//! `cos_fx` state the result exactly, digit for digit, so every caller's
//! contract is an exact integer formula.

use vstd::prelude::*;
use crate::fixed::{Fx, fx_add, fx_divn, fx_mul, fx_sub, wrap_i, wrap_raw};

verus! {

/// `round(pi * SCALE)`.
pub const PI_RAW: i64 = 3294199;

/// `round(pi/2 * SCALE)`.
pub const HALF_PI_RAW: i64 = 1647099;

/// `2 * PI_RAW`, the period of the wrapped angle.
pub const TWO_PI_RAW: i64 = 6588398;

/// The quarter-wave Taylor polynomial
/// `y - y^3/6 + y^5/120 - y^7/5040` over raw fixed-point values.
pub open spec fn sin_poly(y: int) -> int {
    let y2 = fx_mul(y, y);
    let y3 = fx_mul(y2, y);
    let y5 = fx_mul(y3, y2);
    let y7 = fx_mul(y5, y2);
    fx_sub(fx_add(fx_sub(y, fx_divn(y3, 6)), fx_divn(y5, 120)), fx_divn(y7, 5040))
}

/// Fixed-point sine of a raw angle: reduce into `[-PI_RAW, PI_RAW)`,
/// fold into the quarter wave, evaluate the polynomial.
pub open spec fn sin_fx(x: int) -> int {
    let r = wrap_i(x, -(PI_RAW as int), PI_RAW as int);
    let y = if r > HALF_PI_RAW {
        fx_sub(PI_RAW as int, r)
    } else if r < -(HALF_PI_RAW as int) {
        fx_sub(-(PI_RAW as int), r)
    } else {
        r
    };
    sin_poly(y)
}

/// Fixed-point cosine, via `cos(x) == sin(x + pi/2)`.
pub open spec fn cos_fx(x: int) -> int {
    sin_fx(fx_add(x, HALF_PI_RAW as int))
}

/// Sine of a fixed-point angle.
pub fn sin(x: Fx) -> (r: Fx)
    requires
        x.inv(),
    ensures
        r.inv(),
        r.v() == sin_fx(x.v()),
{
    let w: i64 = wrap_raw(x.raw, -PI_RAW, PI_RAW);
    let wf = Fx { raw: w };
    let pi = Fx { raw: PI_RAW };
    let y: Fx = if w > HALF_PI_RAW {
        pi.sub(wf)
    } else if w < -HALF_PI_RAW {
        pi.neg().sub(wf)
    } else {
        wf
    };
    let y2 = y.mul(y);
    let y3 = y2.mul(y);
    let y5 = y3.mul(y2);
    let y7 = y5.mul(y2);
    y.sub(y3.divn(6)).add(y5.divn(120)).sub(y7.divn(5040))
}

/// Cosine of a fixed-point angle.
pub fn cos(x: Fx) -> (r: Fx)
    requires
        x.inv(),
    ensures
        r.inv(),
        r.v() == cos_fx(x.v()),
{
    sin(x.add(Fx { raw: HALF_PI_RAW }))
}

} // verus!
