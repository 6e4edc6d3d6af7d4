//! Fixed-point scalars.
//!
//! A real number `x` is represented by the 64-bit integer `round(x * SCALE)`.
//! Every operation saturates at `RAW_MAX`, so the arithmetic is total and
//! each operation's result is an exact integer function of its operands:
//! the spec functions `fx_add`, `fx_sub`, `fx_mul`, `fx_divn` and `fx_abs`
//! are the whole story of the corresponding executable methods.

use vstd::prelude::*;
use vstd::arithmetic::div_mod::*;
use vstd::arithmetic::mul::*;

verus! {

/// How many raw units stand for the real number one (2^20).
pub const SCALE: i64 = 1048576;

/// Saturation bound on raw values (2^50): about 2^30 in real units.
pub const RAW_MAX: i64 = 1125899906842624;

/// Magnitude bound under which the intermediate 128-bit divisions stay
/// exact and overflow-free (2^120).
pub const WIDE_MAX: i128 = 1329227995784915872903807060280344576;

/// Clamp an unbounded integer into the representable range.
pub open spec fn sat_i(x: int) -> int {
    if x > RAW_MAX {
        RAW_MAX as int
    } else if x < -(RAW_MAX as int) {
        -(RAW_MAX as int)
    } else {
        x
    }
}

/// Saturating fixed-point addition on raw values.
pub open spec fn fx_add(a: int, b: int) -> int {
    sat_i(a + b)
}

/// Saturating fixed-point subtraction on raw values.
pub open spec fn fx_sub(a: int, b: int) -> int {
    sat_i(a - b)
}

/// Saturating fixed-point multiplication on raw values: the exact product
/// rescaled by `SCALE`, rounded toward minus infinity.
pub open spec fn fx_mul(a: int, b: int) -> int {
    sat_i((a * b) / (SCALE as int))
}

/// Division of a raw value by a positive integer, rounded toward minus
/// infinity.
pub open spec fn fx_divn(a: int, n: int) -> int {
    sat_i(a / n)
}

/// Absolute value of a raw value.
pub open spec fn fx_abs(a: int) -> int {
    if a < 0 {
        -a
    } else {
        a
    }
}

/// A fixed-point scalar; `raw` holds `SCALE` units per real unit.
#[derive(Clone, Copy, PartialEq, Eq, Structural, Debug)]
pub struct Fx {
    pub raw: i64,
}

/// The `Fx` value whose raw representation is the (in-range) integer `x`.
pub open spec fn fxi(x: int) -> Fx {
    Fx { raw: x as i64 }
}

pub proof fn lemma_fxi(x: int)
    requires
        -RAW_MAX <= x <= RAW_MAX,
    ensures
        fxi(x).v() == x,
        fxi(x).inv(),
{
}

pub proof fn lemma_sat_bounds(x: int)
    ensures
        -RAW_MAX <= sat_i(x) <= RAW_MAX,
        -RAW_MAX <= x <= RAW_MAX ==> sat_i(x) == x,
{
}

/// Clamp a wide intermediate into a raw 64-bit value.
pub(crate) fn sat64(x: i128) -> (r: i64)
    ensures
        r as int == sat_i(x as int),
{
    if x > RAW_MAX as i128 {
        RAW_MAX
    } else if x < -(RAW_MAX as i128) {
        -RAW_MAX
    } else {
        x as i64
    }
}

/// Periodic reduction of `x` into the half-open interval `[lo, hi)`.
pub open spec fn wrap_i(x: int, lo: int, hi: int) -> int {
    lo + (x - lo) % (hi - lo)
}

/// Quotient of `n` by the positive divisor `d`, rounded toward minus
/// infinity (the Euclidean quotient).
pub(crate) fn floor_div(n: i128, d: i128) -> (q: i128)
    requires
        0 < d < WIDE_MAX,
        -WIDE_MAX < n < WIDE_MAX,
    ensures
        q as int == n as int / d as int,
        0 <= n ==> 0 <= q <= n,
        n < 0 ==> n <= q <= 0,
{
    let ud: u128 = d as u128;
    if n >= 0 {
        let un: u128 = n as u128;
        let uq: u128 = un / ud;
        proof {
            lemma_div_pos_is_pos(un as int, ud as int);
            lemma_div_nonincreasing(un as int, ud as int);
        }
        uq as i128
    } else {
        let m: u128 = (-n) as u128;
        let t: u128 = m + ud - 1;
        let qc: u128 = t / ud;
        proof {
            let ti = t as int;
            let di = d as int;
            let qi = qc as int;
            lemma_div_pos_is_pos(ti, di);
            lemma_div_nonincreasing(ti, di);
            lemma_fundamental_div_mod(ti, di);
            lemma_mod_division_less_than_divisor(ti, di);
            let s = ti % di;
            assert(di * qi == ti - s);
            let rr = di * qi - (m as int);
            assert(0 <= rr < di);
            lemma_mul_unary_negation(qi, di);
            lemma_mul_is_commutative(qi, di);
            assert(n as int == (-qi) * di + rr) by {
                assert((-qi) * di == -(di * qi));
            }
            lemma_fundamental_div_mod_converse(n as int, di, -qi, rr);
            assert(qi <= m as int) by (nonlinear_arith)
                requires
                    di * qi <= m as int + di - 1,
                    1 <= di,
                    1 <= m as int,
                    0 <= qi,
            ;
        }
        -(qc as i128)
    }
}

/// Euclidean remainder of `n` by the positive divisor `d`: the unique
/// `m` in `[0, d)` with `n == d * (n / d) + m`.
pub(crate) fn euclid_mod(n: i128, d: i128) -> (m: i128)
    requires
        0 < d < WIDE_MAX,
        -WIDE_MAX < n < WIDE_MAX,
    ensures
        m as int == n as int % d as int,
        0 <= m < d,
{
    let ud: u128 = d as u128;
    if n >= 0 {
        let um: u128 = (n as u128) % ud;
        proof {
            lemma_mod_pos_bound(n as int, d as int);
        }
        um as i128
    } else {
        let m0: u128 = ((-n) as u128) % ud;
        proof {
            let di = d as int;
            let mi = (-n) as int;
            let qm = mi / di;
            lemma_fundamental_div_mod(mi, di);
            lemma_mod_pos_bound(mi, di);
            lemma_mul_unary_negation(qm, di);
            if m0 as int == 0 {
                assert(n as int == (-qm) * di + 0) by {
                    assert((-qm) * di == -(qm * di));
                }
                lemma_fundamental_div_mod_converse(n as int, di, -qm, 0);
            } else {
                assert(n as int == (-qm - 1) * di + (di - m0 as int)) by (nonlinear_arith)
                    requires
                        mi == di * qm + m0 as int,
                        n as int == -mi,
                ;
                lemma_fundamental_div_mod_converse(n as int, di, -qm - 1, di - m0 as int);
            }
        }
        if m0 == 0 {
            0
        } else {
            (ud - m0) as i128
        }
    }
}

/// Periodic reduction of a raw value into `[lo, hi)` by a single
/// Euclidean remainder, so the reduction is total and exact even far
/// outside the interval.
pub(crate) fn wrap_raw(x: i64, lo: i64, hi: i64) -> (r: i64)
    requires
        -RAW_MAX <= x <= RAW_MAX,
        -RAW_MAX <= lo < hi <= RAW_MAX,
    ensures
        r as int == wrap_i(x as int, lo as int, hi as int),
        lo <= r < hi,
{
    let per: i128 = (hi as i128) - (lo as i128);
    let m: i128 = euclid_mod((x as i128) - (lo as i128), per);
    ((lo as i128) + m) as i64
}

impl Fx {
    /// The raw representation, as a mathematical integer.
    pub open spec fn v(self) -> int {
        self.raw as int
    }

    /// Raw values stay within the saturation range.
    pub open spec fn inv(self) -> bool {
        -RAW_MAX <= self.raw <= RAW_MAX
    }

    /// The scalar with the given raw representation, clamped into range.
    pub fn from_raw(raw: i64) -> (r: Fx)
        ensures
            r.inv(),
            r.v() == sat_i(raw as int),
    {
        Fx { raw: sat64(raw as i128) }
    }

    /// The scalar standing for the integer `n` (so `n * SCALE` raw units),
    /// clamped into range.
    pub fn from_int(n: i64) -> (r: Fx)
        ensures
            r.inv(),
            r.v() == sat_i(n * SCALE),
    {
        Fx { raw: sat64((n as i128) * (SCALE as i128)) }
    }

    pub fn add(self, o: Fx) -> (r: Fx)
        requires
            self.inv(),
            o.inv(),
        ensures
            r.inv(),
            r.v() == fx_add(self.v(), o.v()),
    {
        Fx { raw: sat64((self.raw as i128) + (o.raw as i128)) }
    }

    pub fn sub(self, o: Fx) -> (r: Fx)
        requires
            self.inv(),
            o.inv(),
        ensures
            r.inv(),
            r.v() == fx_sub(self.v(), o.v()),
    {
        Fx { raw: sat64((self.raw as i128) - (o.raw as i128)) }
    }

    pub fn neg(self) -> (r: Fx)
        requires
            self.inv(),
        ensures
            r.inv(),
            r.v() == -self.v(),
    {
        Fx { raw: -self.raw }
    }

    pub fn abs(self) -> (r: Fx)
        requires
            self.inv(),
        ensures
            r.inv(),
            r.v() == fx_abs(self.v()),
    {
        if self.raw < 0 {
            Fx { raw: -self.raw }
        } else {
            self
        }
    }

    pub fn mul(self, o: Fx) -> (r: Fx)
        requires
            self.inv(),
            o.inv(),
        ensures
            r.inv(),
            r.v() == fx_mul(self.v(), o.v()),
    {
        proof {
            lemma_mul_abs_bound(self.raw as int, o.raw as int, RAW_MAX as int);
        }
        let p: i128 = (self.raw as i128) * (o.raw as i128);
        let q: i128 = floor_div(p, SCALE as i128);
        Fx { raw: sat64(q) }
    }

    /// Divide by a positive integer (used for the halves and sixths of the
    /// Runge-Kutta combination), rounding toward minus infinity.
    pub fn divn(self, n: i64) -> (r: Fx)
        requires
            self.inv(),
            0 < n,
        ensures
            r.inv(),
            r.v() == fx_divn(self.v(), n as int),
    {
        let q: i128 = floor_div(self.raw as i128, n as i128);
        Fx { raw: sat64(q) }
    }

    /// Strict order on the represented values.
    pub fn lt(self, o: Fx) -> (b: bool)
        ensures
            b == (self.v() < o.v()),
    {
        self.raw < o.raw
    }
}

/// Bound the product of two values of magnitude at most `m`.
pub proof fn lemma_mul_abs_bound(a: int, b: int, m: int)
    requires
        fx_abs(a) <= m,
        fx_abs(b) <= m,
    ensures
        -(m * m) <= a * b <= m * m,
{
    lemma_mul_upper_bound(fx_abs(a), m, fx_abs(b), m);
    lemma_mul_nonnegative(fx_abs(a), fx_abs(b));
    lemma_mul_unary_negation(a, b);
    lemma_mul_unary_negation(-a, b);
    assert(fx_abs(a) * fx_abs(b) == a * b || fx_abs(a) * fx_abs(b) == -(a * b));
}

} // verus!
