//! Pairwise gravitational acceleration.
//!
//! For a body at `on` and an attracting body at `from` with pre-scaled
//! mass `m` (the stored mass is the product of the gravitational constant
//! and the mass, so no separate constant appears), the contribution to
//! the acceleration of the body at `on` is `(m / |r|³) · r` with
//! `r = from − on`.  When the distance cube is zero — coincident bodies,
//! or a separation so small that the cube rounds to zero — the
//! fixed-point quotient rule makes the contribution zero.
//!
//! The total acceleration of body `i` is the sum of the contributions of
//! all other bodies, added left to right in body order.

use vstd::prelude::*;

use crate::fixed::{fdiv, fdiv_s, fmul, fmul_s, s_ok};
use crate::vec3::{
    v_ok, vadd_s, vlen_s, vneg_s, vscale_s, vsub_s, vzero_s, Vec3,
};

verus! {

/// Acceleration contribution on a body at `on` from mass `m` at `from`.
pub open spec fn contrib_s(on: (int, int, int), from: (int, int, int), m: int) -> (int, int, int) {
    let r = vsub_s(from, on);
    let len = vlen_s(r);
    let cube = fmul_s(fmul_s(len, len), len);
    vscale_s(r, fdiv_s(m, cube))
}

/// Sum of the contributions on body `i` from the bodies `j < k`, `j ≠ i`,
/// added in body order.  Each entry of `pm` is a position and a mass.
pub open spec fn accel_upto(pm: Seq<((int, int, int), int)>, i: int, k: int) -> (int, int, int)
    decreases k,
{
    if k <= 0 {
        vzero_s()
    } else if k - 1 == i {
        accel_upto(pm, i, k - 1)
    } else {
        vadd_s(accel_upto(pm, i, k - 1), contrib_s(pm[i].0, pm[k - 1].0, pm[k - 1].1))
    }
}

/// Total acceleration on body `i`: contributions from every other body.
pub open spec fn accel_s(pm: Seq<((int, int, int), int)>, i: int) -> (int, int, int) {
    accel_upto(pm, i, pm.len() as int)
}

/// Acceleration contribution, executable form.
pub fn accel_contrib(on: &Vec3, from: &Vec3, m: i128) -> (a: Vec3)
    requires
        v_ok(on@),
        v_ok(from@),
        s_ok(m as int),
    ensures
        a@ == contrib_s(on@, from@, m as int),
        v_ok(a@),
{
    let r = from.sub(on);
    let len = r.length();
    let cube = fmul(fmul(len, len), len);
    let s = fdiv(m, cube);
    r.scale(s)
}

/// A body alone, or in an empty world, feels no force: with at most one
/// body the acceleration sum is exactly zero.
pub proof fn lemma_accel_alone(pm: Seq<((int, int, int), int)>, i: int)
    requires
        pm.len() <= 1,
        pm.len() == 1 ==> i == 0,
    ensures
        accel_s(pm, i) == vzero_s(),
{
    if pm.len() == 0 {
        assert(accel_s(pm, i) == vzero_s());
    } else {
        assert(accel_upto(pm, 0, 0) == vzero_s());
        assert(accel_upto(pm, 0, 1) == vzero_s());
    }
}

/// Newton's third law in the fixed-point model, for one shared mass
/// value: the contribution of a mass `m` at `q` on a body at `p` is the
/// exact negation of the contribution of a mass `m` at `p` on a body at
/// `q`.  Rounding toward zero and the symmetric clamp range make the
/// negation exact, not merely approximate.  (With two different masses
/// the two *accelerations* are not negatives of one another: a body of
/// mass zero attracts nothing yet is itself attracted.)
pub proof fn lemma_contrib_antisym(p: (int, int, int), q: (int, int, int), m: int)
    ensures
        contrib_s(p, q, m) == vneg_s(contrib_s(q, p, m)),
{
    let r = vsub_s(q, p);
    let r2 = vsub_s(p, q);
    assert(r2.0 == -r.0 && r2.1 == -r.1 && r2.2 == -r.2);
    crate::fixed::lemma_fmul_neg(r.0, r.0);
    crate::fixed::lemma_fmul_neg(r.0, -r.0);
    crate::fixed::lemma_fmul_neg(r.1, r.1);
    crate::fixed::lemma_fmul_neg(r.1, -r.1);
    crate::fixed::lemma_fmul_neg(r.2, r.2);
    crate::fixed::lemma_fmul_neg(r.2, -r.2);
    assert(crate::vec3::vlensq_s(r2) == crate::vec3::vlensq_s(r));
    let len = vlen_s(r);
    assert(vlen_s(r2) == len);
    let cube = fmul_s(fmul_s(len, len), len);
    let s = fdiv_s(m, cube);
    crate::fixed::lemma_fmul_neg(r.0, s);
    crate::fixed::lemma_fmul_neg(r.1, s);
    crate::fixed::lemma_fmul_neg(r.2, s);
}

/// Newton's third law for a two-body world with equal masses: the two
/// total accelerations computed in one force evaluation are exact
/// negations of each other.
pub proof fn lemma_two_body_antisym(pm: Seq<((int, int, int), int)>)
    requires
        pm.len() == 2,
        pm[0].1 == pm[1].1,
    ensures
        accel_s(pm, 0) == vneg_s(accel_s(pm, 1)),
{
    assert(accel_upto(pm, 0, 0) == vzero_s());
    assert(accel_upto(pm, 0, 1) == vzero_s());
    assert(accel_s(pm, 0) == vadd_s(vzero_s(), contrib_s(pm[0].0, pm[1].0, pm[1].1)));
    assert(accel_upto(pm, 1, 0) == vzero_s());
    assert(accel_upto(pm, 1, 1) == vadd_s(vzero_s(), contrib_s(pm[1].0, pm[0].0, pm[0].1)));
    assert(accel_s(pm, 1) == accel_upto(pm, 1, 1));
    lemma_contrib_antisym(pm[0].0, pm[1].0, pm[0].1);
}

} // verus!
