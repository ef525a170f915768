//! Three-component vectors over saturating fixed-point scalars.
//!
//! The same type serves for positions and velocities.  Each operation is
//! componentwise fixed-point arithmetic; its result is stated exactly by
//! the accompanying spec function over the view `(x, y, z)` of the
//! vector.  The unit-vector of the zero vector follows the fixed-point
//! division rule (divisor zero yields zero), so it is the zero vector.

use vstd::prelude::*;

use crate::fixed;
use crate::fixed::{
    fadd, fadd_s, fdiv, fdiv_s, fmul, fmul_s, fneg, fneg_s, fsqrt, fsqrt_s, fsub, fsub_s, s_ok,
    LIM,
};

verus! {

#[derive(Clone, Copy, Debug, Default, PartialEq, Eq, Structural)]
pub struct Vec3 {
    pub x: i128,
    pub y: i128,
    pub z: i128,
}

/// A point is a vector used positionally.
pub type Point3 = Vec3;

impl View for Vec3 {
    type V = (int, int, int);

    open spec fn view(&self) -> (int, int, int) {
        (self.x as int, self.y as int, self.z as int)
    }
}

/// All three components are representable scalars.
pub open spec fn v_ok(a: (int, int, int)) -> bool {
    s_ok(a.0) && s_ok(a.1) && s_ok(a.2)
}

pub open spec fn vzero_s() -> (int, int, int) {
    (0, 0, 0)
}

pub open spec fn vadd_s(a: (int, int, int), b: (int, int, int)) -> (int, int, int) {
    (fadd_s(a.0, b.0), fadd_s(a.1, b.1), fadd_s(a.2, b.2))
}

pub open spec fn vsub_s(a: (int, int, int), b: (int, int, int)) -> (int, int, int) {
    (fsub_s(a.0, b.0), fsub_s(a.1, b.1), fsub_s(a.2, b.2))
}

pub open spec fn vneg_s(a: (int, int, int)) -> (int, int, int) {
    (fneg_s(a.0), fneg_s(a.1), fneg_s(a.2))
}

/// Multiply every component by the scalar `s`.
pub open spec fn vscale_s(a: (int, int, int), s: int) -> (int, int, int) {
    (fmul_s(a.0, s), fmul_s(a.1, s), fmul_s(a.2, s))
}

/// Divide every component by the scalar `s`.
pub open spec fn vdivide_s(a: (int, int, int), s: int) -> (int, int, int) {
    (fdiv_s(a.0, s), fdiv_s(a.1, s), fdiv_s(a.2, s))
}

/// Componentwise product.
pub open spec fn vmul_each_s(a: (int, int, int), b: (int, int, int)) -> (int, int, int) {
    (fmul_s(a.0, b.0), fmul_s(a.1, b.1), fmul_s(a.2, b.2))
}

/// Dot product, summed left to right.
pub open spec fn vdot_s(a: (int, int, int), b: (int, int, int)) -> int {
    fadd_s(fadd_s(fmul_s(a.0, b.0), fmul_s(a.1, b.1)), fmul_s(a.2, b.2))
}

pub open spec fn vlensq_s(a: (int, int, int)) -> int {
    vdot_s(a, a)
}

/// Euclidean length: square root of the squared length, rounded down.
pub open spec fn vlen_s(a: (int, int, int)) -> int {
    fsqrt_s(vlensq_s(a))
}

pub open spec fn vcross_s(u: (int, int, int), v: (int, int, int)) -> (int, int, int) {
    (
        fsub_s(fmul_s(u.1, v.2), fmul_s(u.2, v.1)),
        fsub_s(fmul_s(u.2, v.0), fmul_s(u.0, v.2)),
        fsub_s(fmul_s(u.0, v.1), fmul_s(u.1, v.0)),
    )
}

/// Unit vector: the vector divided by its own length.  For the zero
/// vector the length is zero and the quotient rule makes this zero.
pub open spec fn vunit_s(a: (int, int, int)) -> (int, int, int) {
    vdivide_s(a, vlen_s(a))
}

/// Left fold of vector addition over a sequence, starting from zero.
pub open spec fn vsum_upto(s: Seq<Vec3>, k: int) -> (int, int, int)
    decreases k,
{
    if k <= 0 {
        vzero_s()
    } else {
        vadd_s(vsum_upto(s, k - 1), s[k - 1]@)
    }
}

/// A squared scalar is non-negative.
pub proof fn lemma_square_nonneg(a: int)
    ensures
        0 <= fmul_s(a, a),
{
    assert(0 <= fixed::abs_i(a) * fixed::abs_i(a)) by (nonlinear_arith);
    assert(0 <= (fixed::abs_i(a) * fixed::abs_i(a)) / (fixed::SCALE as int)) by (nonlinear_arith)
        requires
            0 <= fixed::abs_i(a) * fixed::abs_i(a);
}

/// The squared length of any vector is non-negative.
pub proof fn lemma_lensq_nonneg(a: (int, int, int))
    ensures
        0 <= vlensq_s(a) <= LIM as int,
{
    lemma_square_nonneg(a.0);
    lemma_square_nonneg(a.1);
    lemma_square_nonneg(a.2);
}

impl Vec3 {
    pub fn new(x: i128, y: i128, z: i128) -> (r: Self)
        requires
            s_ok(x as int),
            s_ok(y as int),
            s_ok(z as int),
        ensures
            r@ == (x as int, y as int, z as int),
            v_ok(r@),
    {
        Vec3 { x, y, z }
    }

    pub fn zero() -> (r: Self)
        ensures
            r@ == vzero_s(),
            v_ok(r@),
    {
        Vec3 { x: 0, y: 0, z: 0 }
    }

    /// Runtime check that all three components are representable.
    pub fn in_range(&self) -> (r: bool)
        ensures
            r == v_ok(self@),
    {
        fixed::scalar_ok(self.x) && fixed::scalar_ok(self.y) && fixed::scalar_ok(self.z)
    }

    pub fn x(&self) -> (r: i128)
        ensures
            r as int == self@.0,
    {
        self.x
    }

    pub fn y(&self) -> (r: i128)
        ensures
            r as int == self@.1,
    {
        self.y
    }

    pub fn z(&self) -> (r: i128)
        ensures
            r as int == self@.2,
    {
        self.z
    }

    pub fn dot(u: &Self, v: &Self) -> (r: i128)
        requires
            v_ok(u@),
            v_ok(v@),
        ensures
            r as int == vdot_s(u@, v@),
            s_ok(r as int),
    {
        fadd(fadd(fmul(u.x, v.x), fmul(u.y, v.y)), fmul(u.z, v.z))
    }

    pub fn length_squared(&self) -> (r: i128)
        requires
            v_ok(self@),
        ensures
            r as int == vlensq_s(self@),
            0 <= r <= LIM,
    {
        proof {
            lemma_lensq_nonneg(self@);
        }
        Self::dot(self, self)
    }

    pub fn length(&self) -> (r: i128)
        requires
            v_ok(self@),
        ensures
            r as int == vlen_s(self@),
            0 <= r <= LIM,
    {
        fsqrt(self.length_squared())
    }

    pub fn cross(u: &Self, v: &Self) -> (r: Self)
        requires
            v_ok(u@),
            v_ok(v@),
        ensures
            r@ == vcross_s(u@, v@),
            v_ok(r@),
    {
        Vec3 {
            x: fsub(fmul(u.y, v.z), fmul(u.z, v.y)),
            y: fsub(fmul(u.z, v.x), fmul(u.x, v.z)),
            z: fsub(fmul(u.x, v.y), fmul(u.y, v.x)),
        }
    }

    pub fn unitv(v: &Self) -> (r: Self)
        requires
            v_ok(v@),
        ensures
            r@ == vunit_s(v@),
            v_ok(r@),
    {
        let len = v.length();
        v.div_scale(len)
    }

    pub fn neg(&self) -> (r: Self)
        requires
            v_ok(self@),
        ensures
            r@ == vneg_s(self@),
            v_ok(r@),
    {
        Vec3 { x: fneg(self.x), y: fneg(self.y), z: fneg(self.z) }
    }

    pub fn add(&self, rhs: &Self) -> (r: Self)
        requires
            v_ok(self@),
            v_ok(rhs@),
        ensures
            r@ == vadd_s(self@, rhs@),
            v_ok(r@),
    {
        Vec3 { x: fadd(self.x, rhs.x), y: fadd(self.y, rhs.y), z: fadd(self.z, rhs.z) }
    }

    pub fn sub(&self, rhs: &Self) -> (r: Self)
        requires
            v_ok(self@),
            v_ok(rhs@),
        ensures
            r@ == vsub_s(self@, rhs@),
            v_ok(r@),
    {
        Vec3 { x: fsub(self.x, rhs.x), y: fsub(self.y, rhs.y), z: fsub(self.z, rhs.z) }
    }

    pub fn scale(&self, s: i128) -> (r: Self)
        requires
            v_ok(self@),
            s_ok(s as int),
        ensures
            r@ == vscale_s(self@, s as int),
            v_ok(r@),
    {
        Vec3 { x: fmul(self.x, s), y: fmul(self.y, s), z: fmul(self.z, s) }
    }

    pub fn div_scale(&self, s: i128) -> (r: Self)
        requires
            v_ok(self@),
            s_ok(s as int),
        ensures
            r@ == vdivide_s(self@, s as int),
            v_ok(r@),
    {
        Vec3 { x: fdiv(self.x, s), y: fdiv(self.y, s), z: fdiv(self.z, s) }
    }

    pub fn mul_each(&self, rhs: &Self) -> (r: Self)
        requires
            v_ok(self@),
            v_ok(rhs@),
        ensures
            r@ == vmul_each_s(self@, rhs@),
            v_ok(r@),
    {
        Vec3 { x: fmul(self.x, rhs.x), y: fmul(self.y, rhs.y), z: fmul(self.z, rhs.z) }
    }

    /// Sum of a sequence of vectors, left to right, starting from zero.
    pub fn sum(vs: &Vec<Vec3>) -> (r: Self)
        requires
            forall|k: int| 0 <= k < vs@.len() ==> v_ok(#[trigger] vs@[k]@),
        ensures
            r@ == vsum_upto(vs@, vs@.len() as int),
            v_ok(r@),
    {
        let mut total = Self::zero();
        let mut i: usize = 0;
        while i < vs.len()
            invariant
                0 <= i <= vs@.len(),
                forall|k: int| 0 <= k < vs@.len() ==> v_ok(#[trigger] vs@[k]@),
                total@ == vsum_upto(vs@, i as int),
                v_ok(total@),
            decreases vs@.len() - i,
        {
            total = total.add(&vs[i]);
            i = i + 1;
        }
        total
    }
}

} // verus!
