//! Bodies, the world, and the three integration schemes.
//!
//! A [`Body`] is a point mass: position, velocity, and pre-scaled mass
//! (the stored value is the gravitational constant times the mass).  A
//! [`World`] owns an ordered sequence of bodies and the elapsed simulated
//! time, and advances them one fixed step at a time under one of three
//! interchangeable schemes:
//!
//! * **forward Euler** — accelerations from pre-step positions are staged
//!   into a velocity buffer for every body first, then every position
//!   advances by the pre-step velocity and the staged velocity commits;
//! * **semi-implicit (symplectic) Euler** — every velocity advances by
//!   the acceleration from pre-step positions, then every position
//!   advances by the *new* velocity;
//! * **leapfrog** — positions advance by the half-step-offset velocity,
//!   then every velocity advances by the acceleration from the *new*
//!   positions; [`World::half_tick_velocity`] supplies the initial
//!   half-step kick that aligns the staggered phase.
//!
//! The ordering of operations inside one tick is exactly what the
//! contracts state; it is what distinguishes the schemes.

use vstd::prelude::*;

use crate::fixed::{fadd, fadd_s, s_ok, scalar_ok, SCALE};
use crate::gravity::{accel_contrib, accel_s, accel_upto};
use crate::vec3::{
    v_ok, vadd_s, vdivide_s, vscale_s, vsub_s, vzero_s, Point3, Vec3,
};

verus! {

/// The three interchangeable integration schemes.
#[derive(Clone, Copy, Debug, PartialEq, Eq, Structural)]
pub enum Scheme {
    ForwardEuler,
    SymplecticEuler,
    Leapfrog,
}

/// A point mass.  `next_velocity` is the forward-Euler staging buffer;
/// between ticks it always equals `velocity`, which is what [`Body::wf`]
/// records; construct bodies through [`Body::new`] to establish it.
#[derive(Clone, Copy, Debug, PartialEq, Eq, Structural)]
pub struct Body {
    pub position: Point3,
    pub velocity: Vec3,
    pub mass: i128,
    pub next_velocity: Vec3,
}

impl Body {
    /// The body's fields are representable and its staging buffer is in
    /// its resting state (equal to the velocity).
    pub open spec fn wf(self) -> bool {
        v_ok(self.position@) && v_ok(self.velocity@) && s_ok(self.mass as int)
            && self.next_velocity == self.velocity
    }

    pub fn new(position: Point3, velocity: Vec3, mass: i128) -> (b: Body)
        requires
            v_ok(position@),
            v_ok(velocity@),
            s_ok(mass as int),
        ensures
            b.position == position,
            b.velocity == velocity,
            b.mass == mass,
            b.wf(),
    {
        Body { position, velocity, mass, next_velocity: velocity }
    }

    /// Acceleration contribution on this body from `from`:
    /// `(from.mass / |r|³) · r` with `r` the separation vector.
    pub fn acceleration(&self, from: &Self) -> (a: Vec3)
        requires
            v_ok(self.position@),
            v_ok(from.position@),
            s_ok(from.mass as int),
        ensures
            a@ == crate::gravity::contrib_s(self.position@, from.position@, from.mass as int),
            v_ok(a@),
    {
        accel_contrib(&self.position, &from.position, from.mass)
    }

    /// Runtime check of [`Body::wf`].
    pub fn wf_check(&self) -> (r: bool)
        ensures
            r == self.wf(),
    {
        self.position.in_range() && self.velocity.in_range() && scalar_ok(self.mass)
            && self.next_velocity == self.velocity
    }
}

/// Positions and masses of a sequence of bodies: all that the force
/// evaluation reads.
pub open spec fn pm_of(bs: Seq<Body>) -> Seq<((int, int, int), int)> {
    Seq::new(bs.len(), |j: int| (bs[j].position@, bs[j].mass as int))
}

/// Positions advanced one step by the current velocities, with masses:
/// what the leapfrog force evaluation sees.
pub open spec fn drift_pm(bs: Seq<Body>, dt: int) -> Seq<((int, int, int), int)> {
    Seq::new(
        bs.len(),
        |j: int| (vadd_s(bs[j].position@, vscale_s(bs[j].velocity@, dt)), bs[j].mass as int),
    )
}

/// The velocity of body `k` after one tick of duration `dt`.  Forward
/// and semi-implicit Euler integrate the acceleration taken at the
/// pre-step positions; leapfrog integrates the acceleration taken at the
/// advanced positions.
pub open spec fn tick_vel(s: Scheme, bs: Seq<Body>, dt: int, k: int) -> (int, int, int) {
    match s {
        Scheme::Leapfrog => vadd_s(bs[k].velocity@, vscale_s(accel_s(drift_pm(bs, dt), k), dt)),
        _ => vadd_s(bs[k].velocity@, vscale_s(accel_s(pm_of(bs), k), dt)),
    }
}

/// The position of body `k` after one tick of duration `dt`.
/// Semi-implicit Euler advances the position by the *new* velocity; the
/// other two schemes advance it by the pre-step velocity.
pub open spec fn tick_pos(s: Scheme, bs: Seq<Body>, dt: int, k: int) -> (int, int, int) {
    match s {
        Scheme::SymplecticEuler => vadd_s(
            bs[k].position@,
            vscale_s(tick_vel(s, bs, dt, k), dt),
        ),
        _ => vadd_s(bs[k].position@, vscale_s(bs[k].velocity@, dt)),
    }
}

/// The velocity of body `k` after the leapfrog half-kick: half a step of
/// the acceleration taken at the current positions.
pub open spec fn half_kick_vel(bs: Seq<Body>, dt: int, k: int) -> (int, int, int) {
    vadd_s(
        bs[k].velocity@,
        vdivide_s(vscale_s(accel_s(pm_of(bs), k), dt), 2 * (SCALE as int)),
    )
}

/// The reference position and velocity for the rest-frame transform:
/// body `i`'s if the index is in range, otherwise zero (so the transform
/// is a no-op).
pub open spec fn frame_ref(bs: Seq<Body>, i: int) -> ((int, int, int), (int, int, int)) {
    if 0 <= i < bs.len() {
        (bs[i].position@, bs[i].velocity@)
    } else {
        (vzero_s(), vzero_s())
    }
}

/// An ordered collection of bodies plus the elapsed simulated time.
#[derive(Debug)]
pub struct World {
    scheme: Scheme,
    bodies: Vec<Body>,
    time: i128,
}

impl World {
    pub closed spec fn scheme_spec(&self) -> Scheme {
        self.scheme
    }

    pub closed spec fn bodies_spec(&self) -> Seq<Body> {
        self.bodies@
    }

    pub closed spec fn time_spec(&self) -> int {
        self.time as int
    }

    /// Every body is well formed and the elapsed time is representable.
    pub open spec fn wf(&self) -> bool {
        s_ok(self.time_spec()) && forall|k: int|
            0 <= k < self.bodies_spec().len() ==> (#[trigger] self.bodies_spec()[k]).wf()
    }

    /// Runtime check of [`World::wf`].
    pub fn wf_check(&self) -> (r: bool)
        ensures
            r == self.wf(),
    {
        if !scalar_ok(self.time) {
            return false;
        }
        let mut k: usize = 0;
        while k < self.bodies.len()
            invariant
                0 <= k <= self.bodies@.len(),
                forall|j: int| 0 <= j < k ==> (#[trigger] self.bodies@[j]).wf(),
            decreases self.bodies@.len() - k,
        {
            if !self.bodies[k].wf_check() {
                proof {
                    assert(!(self.bodies_spec()[k as int]).wf());
                }
                return false;
            }
            k += 1;
        }
        true
    }

    /// A new world at time zero.  The order of `bodies` defines the
    /// indices used by [`World::into_rest_frame`].
    pub fn new(scheme: Scheme, bodies: Vec<Body>) -> (w: World)
        requires
            forall|k: int| 0 <= k < bodies@.len() ==> (#[trigger] bodies@[k]).wf(),
        ensures
            w.scheme_spec() == scheme,
            w.bodies_spec() == bodies@,
            w.time_spec() == 0,
            w.wf(),
    {
        World { scheme, bodies, time: 0 }
    }

    /// Elapsed simulated time.
    pub fn time(&self) -> (t: i128)
        ensures
            t as int == self.time_spec(),
    {
        self.time
    }

    /// Read-only view of the bodies, in construction order.
    pub fn bodies(&self) -> (r: &Vec<Body>)
        ensures
            r@ == self.bodies_spec(),
    {
        &self.bodies
    }

    /// Re-express every body relative to body `i`: subtract body `i`'s
    /// position from every position and its velocity from every velocity
    /// (and from every staged velocity).  An out-of-range index makes
    /// the transform a no-op rather than an error.
    pub fn into_rest_frame(&mut self, i: usize)
        requires
            old(self).wf(),
        ensures
            final(self).wf(),
            final(self).scheme_spec() == old(self).scheme_spec(),
            final(self).time_spec() == old(self).time_spec(),
            final(self).bodies_spec().len() == old(self).bodies_spec().len(),
            forall|k: int| 0 <= k < old(self).bodies_spec().len() ==> {
                let b0 = old(self).bodies_spec()[k];
                let b1 = #[trigger] final(self).bodies_spec()[k];
                let rf = frame_ref(old(self).bodies_spec(), i as int);
                b1.position@ == vsub_s(b0.position@, rf.0) && b1.velocity@ == vsub_s(
                    b0.velocity@,
                    rf.1,
                ) && b1.mass == b0.mass
            },
            (i as int) < old(self).bodies_spec().len() ==> {
                &&& final(self).bodies_spec()[i as int].position@ == vzero_s()
                &&& final(self).bodies_spec()[i as int].velocity@ == vzero_s()
            },
            (i as int) >= old(self).bodies_spec().len() ==> final(self).bodies_spec() == old(
                self,
            ).bodies_spec(),
    {
        let ghost bs0 = self.bodies@;
        let (r_position, r_velocity) = if i < self.bodies.len() {
            (self.bodies[i].position, self.bodies[i].velocity)
        } else {
            (Vec3::zero(), Vec3::zero())
        };
        let ghost s0 = self.scheme;
        let ghost t0 = self.time;
        let n = self.bodies.len();
        let mut k: usize = 0;
        while k < n
            invariant
                0 <= k <= n,
                n == self.bodies@.len(),
                self.bodies@.len() == bs0.len(),
                self.scheme == s0,
                self.time == t0,
                forall|j: int| 0 <= j < bs0.len() ==> (#[trigger] bs0[j]).wf(),
                (r_position@, r_velocity@) == frame_ref(bs0, i as int),
                forall|j: int| k <= j < n ==> (#[trigger] self.bodies@[j]) == bs0[j],
                forall|j: int| 0 <= j < k ==> {
                    let b1 = #[trigger] self.bodies@[j];
                    b1.position@ == vsub_s(bs0[j].position@, r_position@) && b1.velocity@
                        == vsub_s(bs0[j].velocity@, r_velocity@) && b1.mass == bs0[j].mass
                        && b1.wf()
                },
            decreases n - k,
        {
            let b = self.bodies[k];
            self.bodies[k] = Body {
                position: b.position.sub(&r_position),
                velocity: b.velocity.sub(&r_velocity),
                mass: b.mass,
                next_velocity: b.next_velocity.sub(&r_velocity),
            };
            k += 1;
        }
        proof {
            if (i as int) >= bs0.len() {
                assert forall|j: int| 0 <= j < bs0.len() implies self.bodies@[j] == bs0[j] by {
                    assert(self.bodies@[j].position@ == vsub_s(bs0[j].position@, vzero_s()));
                    assert(self.bodies@[j] =~= bs0[j]);
                }
                assert(self.bodies@ =~= bs0);
            }
        }
    }

    /// Advance the world by one step of duration `dt` under its scheme.
    /// The elapsed time advances by exactly `dt` (saturating like every
    /// other scalar), and each body's new position and velocity are
    /// exactly [`tick_pos`] and [`tick_vel`] of the pre-step bodies.
    pub fn tick(&mut self, dt: i128)
        requires
            old(self).wf(),
            s_ok(dt as int),
        ensures
            final(self).wf(),
            final(self).scheme_spec() == old(self).scheme_spec(),
            final(self).bodies_spec().len() == old(self).bodies_spec().len(),
            final(self).time_spec() == fadd_s(old(self).time_spec(), dt as int),
            forall|k: int| 0 <= k < old(self).bodies_spec().len() ==> {
                let b1 = #[trigger] final(self).bodies_spec()[k];
                b1.position@ == tick_pos(
                    old(self).scheme_spec(),
                    old(self).bodies_spec(),
                    dt as int,
                    k,
                ) && b1.velocity@ == tick_vel(
                    old(self).scheme_spec(),
                    old(self).bodies_spec(),
                    dt as int,
                    k,
                ) && b1.mass == old(self).bodies_spec()[k].mass
            },
    {
        let s = self.scheme;
        match s {
            Scheme::ForwardEuler => self.step_forward_euler(dt),
            Scheme::SymplecticEuler => self.step_symplectic_euler(dt),
            Scheme::Leapfrog => self.step_leapfrog(dt),
        }
    }

    /// Forward Euler: stage every next velocity from pre-step positions,
    /// then advance every position by the pre-step velocity and commit
    /// the staged velocity.
    fn step_forward_euler(&mut self, dt: i128)
        requires
            old(self).wf(),
            s_ok(dt as int),
        ensures
            final(self).wf(),
            final(self).scheme_spec() == old(self).scheme_spec(),
            final(self).bodies_spec().len() == old(self).bodies_spec().len(),
            final(self).time_spec() == fadd_s(old(self).time_spec(), dt as int),
            forall|k: int| 0 <= k < old(self).bodies_spec().len() ==> {
                let b1 = #[trigger] final(self).bodies_spec()[k];
                b1.position@ == tick_pos(Scheme::ForwardEuler, old(self).bodies_spec(), dt as int, k)
                    && b1.velocity@ == tick_vel(
                    Scheme::ForwardEuler,
                    old(self).bodies_spec(),
                    dt as int,
                    k,
                ) && b1.mass == old(self).bodies_spec()[k].mass
            },
    {
        let ghost bs0 = self.bodies@;
        let ghost s0 = self.scheme;
        let ghost t0 = self.time;
        let n = self.bodies.len();
        let mut k: usize = 0;
        while k < n
            invariant
                0 <= k <= n,
                n == self.bodies@.len(),
                self.bodies@.len() == bs0.len(),
                self.scheme == s0,
                self.time == t0,
                s_ok(dt as int),
                forall|j: int| 0 <= j < n ==> (#[trigger] bs0[j]).wf(),
                forall|j: int| 0 <= j < n ==> {
                    let b = #[trigger] self.bodies@[j];
                    b.position == bs0[j].position && b.velocity == bs0[j].velocity && b.mass
                        == bs0[j].mass
                },
                forall|j: int| k <= j < n ==> (#[trigger] self.bodies@[j]) == bs0[j],
                forall|j: int| 0 <= j < k ==> (#[trigger] self.bodies@[j]).next_velocity@
                    == vadd_s(bs0[j].velocity@, vscale_s(accel_s(pm_of(bs0), j), dt as int)),
            decreases n - k,
        {
            proof {
                assert(pm_of(self.bodies@) =~= pm_of(bs0));
            }
            let a = total_accel(&self.bodies, k);
            let adt = a.scale(dt);
            let b = self.bodies[k];
            let nv = b.next_velocity.add(&adt);
            self.bodies[k] =
                Body { position: b.position, velocity: b.velocity, mass: b.mass, next_velocity: nv };
            k += 1;
        }
        k = 0;
        while k < n
            invariant
                0 <= k <= n,
                n == self.bodies@.len(),
                self.bodies@.len() == bs0.len(),
                self.scheme == s0,
                self.time == t0,
                s_ok(dt as int),
                forall|j: int| 0 <= j < n ==> (#[trigger] bs0[j]).wf(),
                forall|j: int| k <= j < n ==> {
                    let b = #[trigger] self.bodies@[j];
                    b.position == bs0[j].position && b.velocity == bs0[j].velocity && b.mass
                        == bs0[j].mass && b.next_velocity@ == tick_vel(
                        Scheme::ForwardEuler,
                        bs0,
                        dt as int,
                        j,
                    )
                },
                forall|j: int| 0 <= j < k ==> {
                    let b = #[trigger] self.bodies@[j];
                    b.position@ == tick_pos(Scheme::ForwardEuler, bs0, dt as int, j) && b.velocity@
                        == tick_vel(Scheme::ForwardEuler, bs0, dt as int, j) && b.next_velocity
                        == b.velocity && b.mass == bs0[j].mass
                },
            decreases n - k,
        {
            let b = self.bodies[k];
            let vdt = b.velocity.scale(dt);
            let pos = b.position.add(&vdt);
            self.bodies[k] = Body {
                position: pos,
                velocity: b.next_velocity,
                mass: b.mass,
                next_velocity: b.next_velocity,
            };
            k += 1;
        }
        self.time = fadd(self.time, dt);
    }

    /// Semi-implicit Euler: advance every velocity by the acceleration
    /// from pre-step positions, then advance every position by the
    /// just-updated velocity.
    fn step_symplectic_euler(&mut self, dt: i128)
        requires
            old(self).wf(),
            s_ok(dt as int),
        ensures
            final(self).wf(),
            final(self).scheme_spec() == old(self).scheme_spec(),
            final(self).bodies_spec().len() == old(self).bodies_spec().len(),
            final(self).time_spec() == fadd_s(old(self).time_spec(), dt as int),
            forall|k: int| 0 <= k < old(self).bodies_spec().len() ==> {
                let b1 = #[trigger] final(self).bodies_spec()[k];
                b1.position@ == tick_pos(
                    Scheme::SymplecticEuler,
                    old(self).bodies_spec(),
                    dt as int,
                    k,
                ) && b1.velocity@ == tick_vel(
                    Scheme::SymplecticEuler,
                    old(self).bodies_spec(),
                    dt as int,
                    k,
                ) && b1.mass == old(self).bodies_spec()[k].mass
            },
    {
        let ghost bs0 = self.bodies@;
        let ghost s0 = self.scheme;
        let ghost t0 = self.time;
        let n = self.bodies.len();
        let mut k: usize = 0;
        while k < n
            invariant
                0 <= k <= n,
                n == self.bodies@.len(),
                self.bodies@.len() == bs0.len(),
                self.scheme == s0,
                self.time == t0,
                s_ok(dt as int),
                forall|j: int| 0 <= j < n ==> (#[trigger] bs0[j]).wf(),
                forall|j: int| 0 <= j < n ==> {
                    let b = #[trigger] self.bodies@[j];
                    b.position == bs0[j].position && b.mass == bs0[j].mass
                },
                forall|j: int| k <= j < n ==> (#[trigger] self.bodies@[j]) == bs0[j],
                forall|j: int| 0 <= j < k ==> {
                    let b = #[trigger] self.bodies@[j];
                    b.velocity@ == tick_vel(Scheme::SymplecticEuler, bs0, dt as int, j)
                        && b.next_velocity == b.velocity
                },
            decreases n - k,
        {
            proof {
                assert(pm_of(self.bodies@) =~= pm_of(bs0));
            }
            let a = total_accel(&self.bodies, k);
            let adt = a.scale(dt);
            let b = self.bodies[k];
            let v = b.velocity.add(&adt);
            self.bodies[k] =
                Body { position: b.position, velocity: v, mass: b.mass, next_velocity: v };
            k += 1;
        }
        k = 0;
        while k < n
            invariant
                0 <= k <= n,
                n == self.bodies@.len(),
                self.bodies@.len() == bs0.len(),
                self.scheme == s0,
                self.time == t0,
                s_ok(dt as int),
                forall|j: int| 0 <= j < n ==> (#[trigger] bs0[j]).wf(),
                forall|j: int| 0 <= j < n ==> {
                    let b = #[trigger] self.bodies@[j];
                    b.velocity@ == tick_vel(Scheme::SymplecticEuler, bs0, dt as int, j)
                        && b.next_velocity == b.velocity && b.mass == bs0[j].mass
                },
                forall|j: int| k <= j < n ==> (#[trigger] self.bodies@[j]).position
                    == bs0[j].position,
                forall|j: int| 0 <= j < k ==> (#[trigger] self.bodies@[j]).position@ == tick_pos(
                    Scheme::SymplecticEuler,
                    bs0,
                    dt as int,
                    j,
                ),
            decreases n - k,
        {
            let b = self.bodies[k];
            let vdt = b.velocity.scale(dt);
            let pos = b.position.add(&vdt);
            self.bodies[k] = Body { position: pos, ..b };
            k += 1;
        }
        self.time = fadd(self.time, dt);
    }

    /// Leapfrog: advance every position by the half-step-offset
    /// velocity, advance the time, then advance every velocity by the
    /// acceleration from the *new* positions.
    fn step_leapfrog(&mut self, dt: i128)
        requires
            old(self).wf(),
            s_ok(dt as int),
        ensures
            final(self).wf(),
            final(self).scheme_spec() == old(self).scheme_spec(),
            final(self).bodies_spec().len() == old(self).bodies_spec().len(),
            final(self).time_spec() == fadd_s(old(self).time_spec(), dt as int),
            forall|k: int| 0 <= k < old(self).bodies_spec().len() ==> {
                let b1 = #[trigger] final(self).bodies_spec()[k];
                b1.position@ == tick_pos(Scheme::Leapfrog, old(self).bodies_spec(), dt as int, k)
                    && b1.velocity@ == tick_vel(
                    Scheme::Leapfrog,
                    old(self).bodies_spec(),
                    dt as int,
                    k,
                ) && b1.mass == old(self).bodies_spec()[k].mass
            },
    {
        let ghost bs0 = self.bodies@;
        let ghost s0 = self.scheme;
        let ghost t0 = self.time;
        let n = self.bodies.len();
        let mut k: usize = 0;
        while k < n
            invariant
                0 <= k <= n,
                n == self.bodies@.len(),
                self.bodies@.len() == bs0.len(),
                self.scheme == s0,
                self.time == t0,
                s_ok(dt as int),
                forall|j: int| 0 <= j < n ==> (#[trigger] bs0[j]).wf(),
                forall|j: int| 0 <= j < n ==> {
                    let b = #[trigger] self.bodies@[j];
                    b.velocity == bs0[j].velocity && b.next_velocity == bs0[j].next_velocity
                        && b.mass == bs0[j].mass
                },
                forall|j: int| k <= j < n ==> (#[trigger] self.bodies@[j]).position
                    == bs0[j].position,
                forall|j: int| 0 <= j < k ==> (#[trigger] self.bodies@[j]).position@ == vadd_s(
                    bs0[j].position@,
                    vscale_s(bs0[j].velocity@, dt as int),
                ),
            decreases n - k,
        {
            let b = self.bodies[k];
            let vdt = b.velocity.scale(dt);
            let pos = b.position.add(&vdt);
            self.bodies[k] = Body { position: pos, ..b };
            k += 1;
        }
        self.time = fadd(self.time, dt);
        let ghost t1 = self.time;
        k = 0;
        while k < n
            invariant
                0 <= k <= n,
                n == self.bodies@.len(),
                self.bodies@.len() == bs0.len(),
                self.scheme == s0,
                self.time == t1,
                s_ok(dt as int),
                forall|j: int| 0 <= j < n ==> (#[trigger] bs0[j]).wf(),
                forall|j: int| 0 <= j < n ==> {
                    let b = #[trigger] self.bodies@[j];
                    b.position@ == vadd_s(bs0[j].position@, vscale_s(bs0[j].velocity@, dt as int))
                        && b.mass == bs0[j].mass
                },
                forall|j: int| k <= j < n ==> {
                    let b = #[trigger] self.bodies@[j];
                    b.velocity == bs0[j].velocity && b.next_velocity == bs0[j].next_velocity
                },
                forall|j: int| 0 <= j < k ==> {
                    let b = #[trigger] self.bodies@[j];
                    b.velocity@ == tick_vel(Scheme::Leapfrog, bs0, dt as int, j) && b.next_velocity
                        == b.velocity
                },
            decreases n - k,
        {
            proof {
                assert(pm_of(self.bodies@) =~= drift_pm(bs0, dt as int));
            }
            let a = total_accel(&self.bodies, k);
            let adt = a.scale(dt);
            let b = self.bodies[k];
            let v = b.velocity.add(&adt);
            self.bodies[k] =
                Body { position: b.position, velocity: v, mass: b.mass, next_velocity: v };
            k += 1;
        }
    }

    /// The leapfrog initialization: advance every velocity by *half* a
    /// step of the acceleration from the current positions, aligning the
    /// staggered position/velocity phase.  To be called exactly once,
    /// before the first [`World::tick`].
    pub fn half_tick_velocity(&mut self, dt: i128)
        requires
            old(self).wf(),
            s_ok(dt as int),
        ensures
            final(self).wf(),
            final(self).scheme_spec() == old(self).scheme_spec(),
            final(self).time_spec() == old(self).time_spec(),
            final(self).bodies_spec().len() == old(self).bodies_spec().len(),
            forall|k: int| 0 <= k < old(self).bodies_spec().len() ==> {
                let b1 = #[trigger] final(self).bodies_spec()[k];
                b1.position == old(self).bodies_spec()[k].position && b1.velocity@ == half_kick_vel(
                    old(self).bodies_spec(),
                    dt as int,
                    k,
                ) && b1.mass == old(self).bodies_spec()[k].mass
            },
    {
        let ghost bs0 = self.bodies@;
        let ghost s0 = self.scheme;
        let ghost t0 = self.time;
        let two: i128 = 2 * SCALE;
        let n = self.bodies.len();
        let mut k: usize = 0;
        while k < n
            invariant
                0 <= k <= n,
                n == self.bodies@.len(),
                self.bodies@.len() == bs0.len(),
                self.scheme == s0,
                self.time == t0,
                s_ok(dt as int),
                two == 2 * SCALE,
                forall|j: int| 0 <= j < n ==> (#[trigger] bs0[j]).wf(),
                forall|j: int| 0 <= j < n ==> {
                    let b = #[trigger] self.bodies@[j];
                    b.position == bs0[j].position && b.mass == bs0[j].mass
                },
                forall|j: int| k <= j < n ==> (#[trigger] self.bodies@[j]) == bs0[j],
                forall|j: int| 0 <= j < k ==> {
                    let b = #[trigger] self.bodies@[j];
                    b.velocity@ == half_kick_vel(bs0, dt as int, j) && b.next_velocity == b.velocity
                },
            decreases n - k,
        {
            proof {
                assert(pm_of(self.bodies@) =~= pm_of(bs0));
            }
            let a = total_accel(&self.bodies, k);
            let adt = a.scale(dt);
            let half = adt.div_scale(two);
            let b = self.bodies[k];
            let v = b.velocity.add(&half);
            self.bodies[k] =
                Body { position: b.position, velocity: v, mass: b.mass, next_velocity: v };
            k += 1;
        }
    }
}

/// With at most one body there is no force (no self-force exists): one
/// tick leaves the velocity unchanged and advances the position by
/// exactly one step of the current velocity, under every scheme.
pub proof fn lemma_tick_alone(s: Scheme, bs: Seq<Body>, dt: int, k: int)
    requires
        bs.len() <= 1,
        0 <= k < bs.len(),
        bs[k].wf(),
    ensures
        tick_vel(s, bs, dt, k) == bs[k].velocity@,
        tick_pos(s, bs, dt, k) == vadd_s(bs[k].position@, vscale_s(bs[k].velocity@, dt)),
{
    crate::gravity::lemma_accel_alone(pm_of(bs), k);
    crate::gravity::lemma_accel_alone(drift_pm(bs, dt), k);
    assert(crate::fixed::abs_i(0) * crate::fixed::abs_i(dt) == 0) by (nonlinear_arith);
    assert(crate::fixed::mul_down(0, dt) == 0);
    assert(vscale_s(vzero_s(), dt) == vzero_s());
}

/// Newton's third law for a two-body world with equal masses: the two
/// acceleration sums a tick integrates are exact negations of each
/// other.  (With unequal masses this fails: a body of mass zero attracts
/// nothing yet is itself attracted.)
pub proof fn lemma_two_body_accels_opposite(bs: Seq<Body>)
    requires
        bs.len() == 2,
        bs[0].mass == bs[1].mass,
    ensures
        accel_s(pm_of(bs), 0) == crate::vec3::vneg_s(accel_s(pm_of(bs), 1)),
{
    assert(pm_of(bs)[0].1 == pm_of(bs)[1].1);
    crate::gravity::lemma_two_body_antisym(pm_of(bs));
}

/// Total acceleration on body `i`: contributions of every other body,
/// summed in body order.  Reads only positions and masses.
fn total_accel(bodies: &Vec<Body>, i: usize) -> (a: Vec3)
    requires
        forall|k: int| 0 <= k < bodies@.len() ==> v_ok(
            (#[trigger] bodies@[k]).position@,
        ) && s_ok(bodies@[k].mass as int),
        (i as int) < bodies@.len(),
    ensures
        a@ == accel_s(pm_of(bodies@), i as int),
        v_ok(a@),
{
    let mut acc = Vec3::zero();
    let mut j: usize = 0;
    while j < bodies.len()
        invariant
            0 <= j <= bodies@.len(),
            (i as int) < bodies@.len(),
            forall|k: int| 0 <= k < bodies@.len() ==> v_ok(
                (#[trigger] bodies@[k]).position@,
            ) && s_ok(bodies@[k].mass as int),
            acc@ == accel_upto(pm_of(bodies@), i as int, j as int),
            v_ok(acc@),
        decreases bodies@.len() - j,
    {
        if j != i {
            let c = accel_contrib(&bodies[i].position, &bodies[j].position, bodies[j].mass);
            acc = acc.add(&c);
        }
        j += 1;
    }
    acc
}

} // verus!
