//! Behaviour of the three integration schemes and the rest-frame
//! transform, on concrete worlds.

use nbody::fixed::{LIM, SCALE};
use nbody::vec3::Vec3;
use nbody::world::{Body, Scheme, World};

const DT: i128 = 10_000_000; // 0.01 in fixed-point units

fn schemes() -> [Scheme; 3] {
    [Scheme::ForwardEuler, Scheme::SymplecticEuler, Scheme::Leapfrog]
}

/// Two equal masses in exact circular mutual orbit at separation 1.0:
/// total pre-scaled mass 1.0, so the angular velocity is 1 and each body
/// moves at speed 0.5 around the barycenter.
fn circular_world(scheme: Scheme) -> World {
    let b0 = Body::new(
        Vec3::new(-500_000_000, 0, 0),
        Vec3::new(0, -500_000_000, 0),
        500_000_000,
    );
    let b1 = Body::new(
        Vec3::new(500_000_000, 0, 0),
        Vec3::new(0, 500_000_000, 0),
        500_000_000,
    );
    World::new(scheme, vec![b0, b1])
}

fn separation(w: &World) -> f64 {
    let bs = w.bodies();
    let dx = (bs[0].position.x() - bs[1].position.x()) as f64 / SCALE as f64;
    let dy = (bs[0].position.y() - bs[1].position.y()) as f64 / SCALE as f64;
    let dz = (bs[0].position.z() - bs[1].position.z()) as f64 / SCALE as f64;
    (dx * dx + dy * dy + dz * dz).sqrt()
}

#[test]
fn empty_world_ticks_without_error() {
    for scheme in schemes() {
        let mut w = World::new(scheme, Vec::new());
        w.tick(DT);
        w.tick(DT);
        assert_eq!(w.time(), 2 * DT);
        assert!(w.bodies().is_empty());
        assert!(w.wf_check());
    }
}

#[test]
fn single_body_feels_no_force() {
    for scheme in schemes() {
        let pos = Vec3::new(1_000_000_000, 2_000_000_000, 3_000_000_000);
        let vel = Vec3::new(500_000_000, 0, -1_000_000_000);
        let mut w = World::new(scheme, vec![Body::new(pos, vel, 700_000_000)]);
        w.tick(DT);
        let b = &w.bodies()[0];
        // position advances by exactly velocity times the tick duration;
        // velocity is unchanged (there is no self-force).
        assert_eq!(
            b.position,
            Vec3::new(1_005_000_000, 2_000_000_000, 2_990_000_000)
        );
        assert_eq!(b.velocity, vel);
        assert_eq!(w.time(), DT);
    }
}

#[test]
fn accelerations_are_opposite_for_equal_masses() {
    // One tick of duration 1.0 from rest turns each velocity into that
    // body's acceleration, exactly.
    for scheme in schemes() {
        let b0 = Body::new(Vec3::new(-500_000_000, 0, 0), Vec3::zero(), 500_000_000);
        let b1 = Body::new(Vec3::new(500_000_000, 0, 0), Vec3::zero(), 500_000_000);
        let mut w = World::new(scheme, vec![b0, b1]);
        w.tick(SCALE);
        let v0 = w.bodies()[0].velocity;
        let v1 = w.bodies()[1].velocity;
        assert_eq!(v0, Vec3::new(500_000_000, 0, 0));
        assert_eq!(v1, v0.neg());
    }
}

#[test]
fn coincident_bodies_feel_no_force() {
    // At zero separation the distance cube is zero and the quotient rule
    // makes the contribution zero: the tick completes and only the plain
    // position update happens.
    let p = Vec3::new(SCALE, SCALE, 0);
    let b0 = Body::new(p, Vec3::new(SCALE, 0, 0), SCALE);
    let b1 = Body::new(p, Vec3::zero(), SCALE);
    let mut w = World::new(Scheme::SymplecticEuler, vec![b0, b1]);
    w.tick(DT);
    assert_eq!(w.bodies()[0].velocity, Vec3::new(SCALE, 0, 0));
    assert_eq!(w.bodies()[1].velocity, Vec3::zero());
    assert_eq!(w.bodies()[0].position, Vec3::new(SCALE + DT, SCALE, 0));
    assert_eq!(w.bodies()[1].position, p);
}

#[test]
fn rest_frame_zeroes_the_reference_body() {
    for scheme in schemes() {
        let b0 = Body::new(
            Vec3::new(SCALE, 0, 0),
            Vec3::new(0, SCALE, 0),
            500_000_000,
        );
        let b1 = Body::new(
            Vec3::new(3 * SCALE, -SCALE, 0),
            Vec3::new(-SCALE, SCALE, SCALE),
            250_000_000,
        );
        let mut w = World::new(scheme, vec![b0, b1]);
        w.into_rest_frame(1);
        let bs = w.bodies();
        assert_eq!(bs[1].position, Vec3::zero());
        assert_eq!(bs[1].velocity, Vec3::zero());
        assert_eq!(bs[0].position, Vec3::new(-2 * SCALE, SCALE, 0));
        assert_eq!(bs[0].velocity, Vec3::new(SCALE, 0, -SCALE));
        assert!(w.wf_check());
    }
}

#[test]
fn rest_frame_out_of_range_is_a_no_op() {
    let b0 = Body::new(Vec3::new(SCALE, 0, 0), Vec3::new(0, SCALE, 0), SCALE);
    let b1 = Body::new(Vec3::new(0, SCALE, 0), Vec3::new(SCALE, 0, 0), SCALE);
    let mut w = World::new(Scheme::Leapfrog, vec![b0, b1]);
    w.into_rest_frame(2);
    assert_eq!(w.bodies()[0].position, Vec3::new(SCALE, 0, 0));
    assert_eq!(w.bodies()[0].velocity, Vec3::new(0, SCALE, 0));
    assert_eq!(w.bodies()[1].position, Vec3::new(0, SCALE, 0));
    assert_eq!(w.bodies()[1].velocity, Vec3::new(SCALE, 0, 0));
    w.into_rest_frame(usize::MAX);
    assert_eq!(w.bodies()[0].position, Vec3::new(SCALE, 0, 0));
}

#[test]
fn rest_frame_keeps_the_staging_buffer_consistent() {
    let mut w = circular_world(Scheme::ForwardEuler);
    w.tick(DT);
    w.into_rest_frame(0);
    for b in w.bodies() {
        assert_eq!(b.next_velocity, b.velocity);
    }
    assert!(w.wf_check());
}

#[test]
fn leapfrog_half_kick_then_tick_concrete_scenario() {
    // Body A at the origin with pre-scaled mass 1.0 at rest; body B at
    // (1, 0, 0) with mass 0 and velocity (0, 1, 0).  The half-kick gives
    // B the inward velocity -0.5·dt; one tick then moves B by
    // (-0.5·dt², dt, 0) with dt = 0.01 — all exactly representable.
    let a = Body::new(Vec3::zero(), Vec3::zero(), SCALE);
    let b = Body::new(Vec3::new(SCALE, 0, 0), Vec3::new(0, SCALE, 0), 0);
    let mut w = World::new(Scheme::Leapfrog, vec![a, b]);
    w.half_tick_velocity(DT);
    assert_eq!(w.bodies()[1].velocity, Vec3::new(-5_000_000, SCALE, 0));
    assert_eq!(w.bodies()[0].velocity, Vec3::zero());
    w.tick(DT);
    assert_eq!(w.bodies()[1].position, Vec3::new(999_950_000, 10_000_000, 0));
    assert_eq!(w.bodies()[0].position, Vec3::zero());
    assert_eq!(w.bodies()[0].velocity, Vec3::zero());
    assert_eq!(w.time(), DT);
}

#[test]
fn omitting_the_half_kick_changes_the_trajectory() {
    let dt = 1_000_000;
    let mut kicked = circular_world(Scheme::Leapfrog);
    kicked.half_tick_velocity(dt);
    let mut unkicked = circular_world(Scheme::Leapfrog);
    for _ in 0..5 {
        kicked.tick(dt);
        unkicked.tick(dt);
    }
    assert_ne!(kicked.bodies()[0].position, unkicked.bodies()[0].position);
}

#[test]
fn kepler_orbit_distinguishes_the_schemes() {
    // Roughly one orbital period of the circular two-body setup per 6283
    // steps of 0.001.  Leapfrog keeps the separation within a small
    // bound of 1.0 over six periods; forward Euler's separation error
    // grows from period to period and ends an order of magnitude larger.
    let dt = 1_000_000;
    let steps_per_period = 6283;
    let mut lf = circular_world(Scheme::Leapfrog);
    lf.half_tick_velocity(dt);
    let mut fe = circular_world(Scheme::ForwardEuler);
    let mut fe_errors = Vec::new();
    for _period in 0..6 {
        for _ in 0..steps_per_period {
            lf.tick(dt);
            fe.tick(dt);
        }
        let lf_error = (separation(&lf) - 1.0).abs();
        assert!(lf_error < 0.008, "leapfrog drifted: {lf_error}");
        fe_errors.push((separation(&fe) - 1.0).abs());
    }
    for i in 1..fe_errors.len() {
        assert!(
            fe_errors[i] > fe_errors[i - 1],
            "forward Euler error should grow: {fe_errors:?}"
        );
    }
    assert!(fe_errors[5] > 0.012, "forward Euler error too small: {fe_errors:?}");
}

#[test]
fn time_accumulates_tick_by_tick() {
    let mut w = circular_world(Scheme::SymplecticEuler);
    w.tick(DT);
    w.tick(DT);
    w.tick(DT);
    assert_eq!(w.time(), 3 * DT);
}

#[test]
fn well_formedness_check_sees_bad_worlds() {
    let good = World::new(Scheme::Leapfrog, vec![Body::new(Vec3::zero(), Vec3::zero(), SCALE)]);
    assert!(good.wf_check());
    let oversized = World::new(
        Scheme::Leapfrog,
        vec![Body {
            position: Vec3::new(0, 0, 0),
            velocity: Vec3::new(0, 0, 0),
            mass: LIM + 1,
            next_velocity: Vec3::new(0, 0, 0),
        }],
    );
    assert!(!oversized.wf_check());
    let staged = World::new(
        Scheme::ForwardEuler,
        vec![Body {
            position: Vec3::new(0, 0, 0),
            velocity: Vec3::new(SCALE, 0, 0),
            mass: 0,
            next_velocity: Vec3::new(0, 0, 0),
        }],
    );
    assert!(!staged.wf_check());
}

#[test]
fn acceleration_contributions_obey_the_third_law_for_equal_masses() {
    let b0 = Body::new(
        Vec3::new(-500_000_000, 250_000_000, 0),
        Vec3::zero(),
        750_000_000,
    );
    let b1 = Body::new(
        Vec3::new(500_000_000, 0, -250_000_000),
        Vec3::zero(),
        750_000_000,
    );
    let a01 = b0.acceleration(&b1);
    let a10 = b1.acceleration(&b0);
    assert_eq!(a01, a10.neg());
    assert_ne!(a01, Vec3::zero());
    // With unequal masses the two accelerations are not opposite: a body
    // of mass zero attracts nothing yet is itself attracted.
    let c0 = Body::new(Vec3::new(-500_000_000, 0, 0), Vec3::zero(), SCALE);
    let c1 = Body::new(Vec3::new(500_000_000, 0, 0), Vec3::zero(), 0);
    assert_eq!(c0.acceleration(&c1), Vec3::zero());
    assert_ne!(c1.acceleration(&c0), Vec3::zero());
}
