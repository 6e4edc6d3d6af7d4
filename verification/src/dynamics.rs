//! Pendulum dynamics: vector fields, the fixed-step fourth-order
//! Runge-Kutta integrator, and the periodic boundary wrap.
//!
//! A phase state is the pair `(q, p)` of angular position and momentum.
//! `PhasePos` is the restartable integration cursor: `next` advances the
//! current state by one step of size `h` and wraps the position into the
//! configured interval; `trajectory` collects a fixed number of steps.
//! Every executable function's result is pinned exactly by the spec
//! functions `rk4_s`, `step_s` and `run_s`.

use vstd::prelude::*;
use vstd::arithmetic::div_mod::lemma_mod_bound;
use crate::fixed::{Fx, fx_add, fx_divn, fx_mul, fx_sub, fxi, wrap_i, wrap_raw};
use crate::trig::{cos, cos_fx, sin, sin_fx};

verus! {

/// The raw fixed-point representation of the number two.
pub const TWO_RAW: i64 = 2097152;

/// One point of phase space: angular position `q` and momentum `p`.
#[derive(Clone, Copy, PartialEq, Eq, Structural, Debug)]
pub struct PhaseState {
    pub q: Fx,
    pub p: Fx,
}

impl PhaseState {
    pub open spec fn inv(self) -> bool {
        self.q.inv() && self.p.inv()
    }
}

/// The phase state whose raw coordinates are the (in-range) integers
/// `q` and `p`.
pub open spec fn st(q: int, p: int) -> PhaseState {
    PhaseState { q: fxi(q), p: fxi(p) }
}

/// The family of pendulum vector fields.  Each variant is a pair of pure
/// functions of the phase state: the time derivatives of position and
/// momentum.
#[derive(Clone, Copy, Debug)]
pub enum VectorField {
    /// `q' = p`, `p' = -sin q`: the undriven, undamped pendulum.
    Conservative,
    /// `q' = p`, `p' = -sin q - p`: unit linear damping.
    Forced,
    /// `q' = p`, `p' = -2 a p - w^2 sin q`: damping coefficient `a`,
    /// natural frequency `w`.
    Dissipative { a: Fx, w: Fx },
}

impl VectorField {
    pub open spec fn inv(self) -> bool {
        match self {
            VectorField::Dissipative { a, w } => a.inv() && w.inv(),
            _ => true,
        }
    }

    /// Time derivative of the position coordinate: the momentum, for
    /// every member of the family.
    pub open spec fn qdot_s(self, q: int, p: int) -> int {
        p
    }

    /// Time derivative of the momentum coordinate, as an exact
    /// fixed-point formula.
    pub open spec fn pdot_s(self, q: int, p: int) -> int {
        match self {
            VectorField::Conservative => -sin_fx(q),
            VectorField::Forced => fx_sub(-sin_fx(q), p),
            VectorField::Dissipative { a, w } => fx_sub(
                -fx_mul(fx_mul(TWO_RAW as int, a.v()), p),
                fx_mul(fx_mul(w.v(), w.v()), sin_fx(q)),
            ),
        }
    }

    pub fn qdot(&self, s: PhaseState) -> (r: Fx)
        requires
            self.inv(),
            s.inv(),
        ensures
            r.inv(),
            r.v() == self.qdot_s(s.q.v(), s.p.v()),
    {
        s.p
    }

    pub fn pdot(&self, s: PhaseState) -> (r: Fx)
        requires
            self.inv(),
            s.inv(),
        ensures
            r.inv(),
            r.v() == self.pdot_s(s.q.v(), s.p.v()),
    {
        match self {
            VectorField::Conservative => sin(s.q).neg(),
            VectorField::Forced => sin(s.q).neg().sub(s.p),
            VectorField::Dissipative { a, w } => {
                let two = Fx { raw: TWO_RAW };
                let damping = two.mul(*a).mul(s.p);
                let restoring = w.mul(*w).mul(sin(s.q));
                damping.neg().sub(restoring)
            },
        }
    }
}

/// One fourth-order Runge-Kutta step of size `h` from `(q, p)` under the
/// field `f`: the four slope samples `k1..k4` combined as
/// `state + (h/6) (k1 + 2 k2 + 2 k3 + k4)`, in exact fixed-point
/// arithmetic.
pub open spec fn rk4_s(f: VectorField, q: int, p: int, h: int) -> (int, int) {
    let h2 = fx_divn(h, 2);
    let h6 = fx_divn(h, 6);
    let k1q = f.qdot_s(q, p);
    let k1p = f.pdot_s(q, p);
    let q1 = fx_add(q, fx_mul(h2, k1q));
    let p1 = fx_add(p, fx_mul(h2, k1p));
    let k2q = f.qdot_s(q1, p1);
    let k2p = f.pdot_s(q1, p1);
    let q2 = fx_add(q, fx_mul(h2, k2q));
    let p2 = fx_add(p, fx_mul(h2, k2p));
    let k3q = f.qdot_s(q2, p2);
    let k3p = f.pdot_s(q2, p2);
    let q3 = fx_add(q, fx_mul(h, k3q));
    let p3 = fx_add(p, fx_mul(h, k3p));
    let k4q = f.qdot_s(q3, p3);
    let k4p = f.pdot_s(q3, p3);
    let sq = fx_add(fx_add(fx_add(k1q, fx_mul(TWO_RAW as int, k2q)), fx_mul(TWO_RAW as int, k3q)), k4q);
    let sp = fx_add(fx_add(fx_add(k1p, fx_mul(TWO_RAW as int, k2p)), fx_mul(TWO_RAW as int, k3p)), k4p);
    (fx_add(q, fx_mul(h6, sq)), fx_add(p, fx_mul(h6, sp)))
}

/// Advance a phase state by one fixed Runge-Kutta step.
pub fn rk4_integrate(r: &PhaseState, f: &VectorField, h: Fx) -> (s: PhaseState)
    requires
        r.inv(),
        f.inv(),
        h.inv(),
    ensures
        s.inv(),
        (s.q.v(), s.p.v()) == rk4_s(*f, r.q.v(), r.p.v(), h.v()),
{
    let h2 = h.divn(2);
    let h6 = h.divn(6);
    let k1q = f.qdot(*r);
    let k1p = f.pdot(*r);
    let s1 = PhaseState { q: r.q.add(h2.mul(k1q)), p: r.p.add(h2.mul(k1p)) };
    let k2q = f.qdot(s1);
    let k2p = f.pdot(s1);
    let s2 = PhaseState { q: r.q.add(h2.mul(k2q)), p: r.p.add(h2.mul(k2p)) };
    let k3q = f.qdot(s2);
    let k3p = f.pdot(s2);
    let s3 = PhaseState { q: r.q.add(h.mul(k3q)), p: r.p.add(h.mul(k3p)) };
    let k4q = f.qdot(s3);
    let k4p = f.pdot(s3);
    let two = Fx { raw: TWO_RAW };
    let sq = k1q.add(two.mul(k2q)).add(two.mul(k3q)).add(k4q);
    let sp = k1p.add(two.mul(k2p)).add(two.mul(k3p)).add(k4p);
    PhaseState { q: r.q.add(h6.mul(sq)), p: r.p.add(h6.mul(sp)) }
}

/// Wrap containment: for any value and any interval with `lo < hi`, the
/// periodic reduction lands in `[lo, hi)`.
pub proof fn lemma_wrap_containment(x: int, lo: int, hi: int)
    requires
        lo < hi,
    ensures
        lo <= wrap_i(x, lo, hi) < hi,
{
    lemma_mod_bound(x - lo, hi - lo);
}

/// The restartable integration cursor: a fixed initial state, the current
/// state, optional position bounds, the vector field and the step size.
pub struct PhasePos {
    pub pos: PhaseState,
    pub cur_pos: PhaseState,
    pub bounds: Option<(Fx, Fx)>,
    pub vel: VectorField,
    pub h: Fx,
}

impl PhasePos {
    pub open spec fn inv(self) -> bool {
        &&& self.pos.inv()
        &&& self.cur_pos.inv()
        &&& self.vel.inv()
        &&& self.h.inv()
        &&& self.h.v() > 0
        &&& match self.bounds {
            Some((lo, hi)) => lo.inv() && hi.inv() && lo.v() < hi.v(),
            None => true,
        }
    }

    /// The periodic reduction this cursor applies to a position value:
    /// the identity when no bounds were configured.
    pub open spec fn wrap_s(self, x: int) -> int {
        match self.bounds {
            Some((lo, hi)) => wrap_i(x, lo.v(), hi.v()),
            None => x,
        }
    }

    /// One full step of the cursor: a Runge-Kutta step followed by the
    /// periodic reduction of the position coordinate.
    pub open spec fn step_s(self, q: int, p: int) -> (int, int) {
        let s = rk4_s(self.vel, q, p, self.h.v());
        (self.wrap_s(s.0), s.1)
    }

    /// The state reached after `k` full steps from `(q, p)`.
    pub open spec fn run_s(self, q: int, p: int, k: nat) -> (int, int)
        decreases k,
    {
        if k == 0 {
            (q, p)
        } else {
            let s = self.run_s(q, p, (k - 1) as nat);
            self.step_s(s.0, s.1)
        }
    }

    /// The states reached after steps `1 ..= n` from `(q, p)`: the
    /// trajectory of length `n`, not including the initial state.
    pub open spec fn traj_seq(self, q: int, p: int, n: nat) -> Seq<PhaseState> {
        Seq::new(n, |i: int| {
            let s = self.run_s(q, p, (i + 1) as nat);
            st(s.0, s.1)
        })
    }

    /// A cursor without position bounds.
    pub fn new(p: PhaseState, v: VectorField, h: Fx) -> (s: PhasePos)
        requires
            p.inv(),
            v.inv(),
            h.inv(),
            h.v() > 0,
        ensures
            s.inv(),
            s.pos == p,
            s.cur_pos == p,
            s.bounds == None::<(Fx, Fx)>,
            s.vel == v,
            s.h == h,
    {
        PhasePos { pos: p, cur_pos: p, bounds: None, vel: v, h }
    }

    /// A cursor whose position coordinate is wrapped into `[b.0, b.1)`
    /// after every step.
    pub fn new_bounded(p: PhaseState, b: (Fx, Fx), v: VectorField, h: Fx) -> (s: PhasePos)
        requires
            p.inv(),
            v.inv(),
            h.inv(),
            h.v() > 0,
            b.0.inv(),
            b.1.inv(),
            b.0.v() < b.1.v(),
        ensures
            s.inv(),
            s.pos == p,
            s.cur_pos == p,
            s.bounds == Some(b),
            s.vel == v,
            s.h == h,
    {
        PhasePos { pos: p, cur_pos: p, bounds: Some(b), vel: v, h }
    }

    /// Apply this cursor's periodic reduction to a position value.
    pub fn wrap(&self, x: Fx) -> (r: Fx)
        requires
            self.inv(),
            x.inv(),
        ensures
            r.inv(),
            r.v() == self.wrap_s(x.v()),
            (self.bounds matches Some((lo, hi)) ==> lo.v() <= r.v() < hi.v()),
    {
        match self.bounds {
            Some((lo, hi)) => Fx { raw: wrap_raw(x.raw, lo.raw, hi.raw) },
            None => x,
        }
    }

    /// Rewind the current state to the initial state.
    pub fn reset(&mut self)
        requires
            old(self).inv(),
        ensures
            final(self).inv(),
            *final(self) == (PhasePos { cur_pos: old(self).pos, ..*old(self) }),
    {
        self.cur_pos = self.pos;
    }

    /// Restart the cursor from a new initial state.
    pub fn new_pos(&mut self, p: PhaseState)
        requires
            old(self).inv(),
            p.inv(),
        ensures
            final(self).inv(),
            *final(self) == (PhasePos { pos: p, cur_pos: p, ..*old(self) }),
    {
        self.pos = p;
        self.cur_pos = p;
    }

    /// Advance one step and return the new current state.
    pub fn next(&mut self) -> (r: PhaseState)
        requires
            old(self).inv(),
        ensures
            final(self).inv(),
            final(self).pos == old(self).pos,
            final(self).bounds == old(self).bounds,
            final(self).vel == old(self).vel,
            final(self).h == old(self).h,
            (final(self).cur_pos.q.v(), final(self).cur_pos.p.v()) == old(self).step_s(
                old(self).cur_pos.q.v(),
                old(self).cur_pos.p.v(),
            ),
            r == final(self).cur_pos,
    {
        let stepped = rk4_integrate(&self.cur_pos, &self.vel, self.h);
        let wrapped = self.wrap(stepped.q);
        let new_pos = PhaseState { q: wrapped, p: stepped.p };
        self.cur_pos = new_pos;
        new_pos
    }

    /// Advance `n` steps and collect the states visited, in order: the
    /// bounded form of the lazy state sequence.
    pub fn trajectory(&mut self, n: usize) -> (out: Vec<PhaseState>)
        requires
            old(self).inv(),
        ensures
            final(self).inv(),
            final(self).pos == old(self).pos,
            final(self).bounds == old(self).bounds,
            final(self).vel == old(self).vel,
            final(self).h == old(self).h,
            out@ == old(self).traj_seq(old(self).cur_pos.q.v(), old(self).cur_pos.p.v(), n as nat),
            (final(self).cur_pos.q.v(), final(self).cur_pos.p.v()) == old(self).run_s(
                old(self).cur_pos.q.v(),
                old(self).cur_pos.p.v(),
                n as nat,
            ),
    {
        let ghost orig = *self;
        let ghost q0 = self.cur_pos.q.v();
        let ghost p0 = self.cur_pos.p.v();
        let mut out: Vec<PhaseState> = Vec::new();
        let mut k: usize = 0;
        while k < n
            invariant
                k <= n,
                self.inv(),
                self.pos == orig.pos,
                self.bounds == orig.bounds,
                self.vel == orig.vel,
                self.h == orig.h,
                out@.len() == k as int,
                (self.cur_pos.q.v(), self.cur_pos.p.v()) == orig.run_s(q0, p0, k as nat),
                forall|i: int| 0 <= i < k as int ==> out@[i] == {
                    let s = orig.run_s(q0, p0, (i + 1) as nat);
                    st(s.0, s.1)
                },
            decreases n - k,
        {
            let s = self.next();
            proof {
                assert(orig.run_s(q0, p0, (k + 1) as nat) == orig.step_s(
                    orig.run_s(q0, p0, k as nat).0,
                    orig.run_s(q0, p0, k as nat).1,
                ));
            }
            out.push(s);
            k = k + 1;
        }
        proof {
            assert(out@ =~= orig.traj_seq(q0, p0, n as nat));
        }
        out
    }
}

/// The pendulum energy `p^2 / 2 - cos q`, conserved (up to integration
/// error) along trajectories of the conservative field.
pub open spec fn energy_s(q: int, p: int) -> int {
    fx_sub(fx_divn(fx_mul(p, p), 2), cos_fx(q))
}

/// The pendulum energy of a phase state.
pub fn energy(s: PhaseState) -> (e: Fx)
    requires
        s.inv(),
    ensures
        e.inv(),
        e.v() == energy_s(s.q.v(), s.p.v()),
{
    s.p.mul(s.p).divn(2).sub(cos(s.q))
}

} // verus!
