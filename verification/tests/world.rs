//! Scenario tests for the simulation world: construction, collisions,
//! kinematics, snapshots, and plane geometry.

use relsim::fixed::Fx;
use relsim::fixed::SCALE;
use relsim::phys::C_RAW;
use relsim::phys::ConfigError;
use relsim::phys::Particle;
use relsim::phys::PhysicsWorld;
use relsim::phys::get_plane_verts;
use relsim::threading::PhysicsMessage;
use relsim::threading::step_frame;
use relsim::vect::V3;
use relsim::vect::V4;

fn fx(raw: i64) -> Fx {
    Fx { raw }
}

fn units(v: i64) -> Fx {
    fx(v * SCALE)
}

fn v3(x: Fx, y: Fx, z: Fx) -> V3 {
    V3 { x, y, z }
}

fn v3_units(x: i64, y: i64, z: i64) -> V3 {
    v3(units(x), units(y), units(z))
}

fn v4_units(t: i64, x: i64, y: i64, z: i64) -> V4 {
    V4 { t: units(t), x: units(x), y: units(y), z: units(z) }
}

fn white() -> V3 {
    v3_units(1, 1, 1)
}

fn particle(pos: V4, v: V3) -> Particle {
    Particle::new(pos, v, units(1), units(10), white(), fx(0)).unwrap()
}

#[test]
fn construction_rejects_nonpositive_mass() {
    let r = Particle::new(v4_units(0, 0, 0, 0), v3_units(0, 0, 0), fx(0), units(10), white(), fx(0));
    assert_eq!(r, Err(ConfigError::NonpositiveMass));
    let r = Particle::new(v4_units(0, 0, 0, 0), v3_units(0, 0, 0), units(-1), units(10), white(), fx(0));
    assert_eq!(r, Err(ConfigError::NonpositiveMass));
}

#[test]
fn construction_rejects_superluminal_velocity() {
    let r = Particle::new(
        v4_units(0, 0, 0, 0),
        v3(fx(C_RAW), fx(0), fx(0)),
        units(1),
        units(10),
        white(),
        fx(0),
    );
    assert_eq!(r, Err(ConfigError::SuperluminalVelocity));
}

#[test]
fn construction_derives_4velocity_at_rest() {
    let p = particle(v4_units(0, 1, 2, 3), v3_units(0, 0, 0));
    // at rest gamma is exactly 1: the temporal slot carries C
    assert_eq!(p.velocity, V4 { t: fx(C_RAW), x: fx(0), y: fx(0), z: fx(0) });
    assert_eq!(p.v, v3_units(0, 0, 0));
    assert_eq!(p.acceleration, V4 { t: fx(0), x: fx(0), y: fx(0), z: fx(0) });
    assert_eq!(p.tau, fx(0));
}

#[test]
fn construction_derives_4velocity_at_half_lightspeed() {
    let half_c = fx(C_RAW / 2);
    let p = Particle::new(
        v4_units(0, 0, 0, 0),
        v3(half_c, fx(0), fx(0)),
        units(1),
        units(10),
        white(),
        fx(0),
    )
    .unwrap();
    // gamma = 1/sqrt(1 - 1/4) ~ 1.1547, raw 75675 in this representation
    assert_eq!(p.velocity.t, fx(22686794259150));
    assert_eq!(p.velocity.x, fx(11343397129575));
    assert_eq!(p.velocity.y, fx(0));
}

#[test]
fn single_particle_at_rest_stays_put_and_ages_by_dt() {
    let mut world = PhysicsWorld::new();
    world.add_particle(particle(v4_units(0, 1, 2, 3), v3_units(0, 0, 0)));
    let dt = fx(65);
    world.update(dt);
    let p = world.particles[0];
    // spatial position unchanged exactly; gamma is exactly 1, so tau
    // advances by exactly dt
    assert_eq!(p.position.x, units(1));
    assert_eq!(p.position.y, units(2));
    assert_eq!(p.position.z, units(3));
    assert_eq!(p.position.t, fx(19486509770));
    assert_eq!(p.tau, fx(65));
    assert_eq!(p.v, v3_units(0, 0, 0));
    assert_eq!(p.velocity, V4 { t: fx(C_RAW), x: fx(0), y: fx(0), z: fx(0) });
    assert_eq!(world.t, fx(65));
}

#[test]
fn head_on_equal_mass_collision_exchanges_velocities() {
    let mut world = PhysicsWorld::new();
    // two particles of mass 1, radius 10, 15 units apart along x,
    // closing at +-50
    world.add_particle(particle(v4_units(0, 0, 0, 0), v3_units(50, 0, 0)));
    world.add_particle(particle(v4_units(0, 15, 0, 0), v3_units(-50, 0, 0)));
    let before_gap = world.particles[1].position.x.raw - world.particles[0].position.x.raw;
    let dt = fx(65);
    world.update(dt);
    // elastic head-on with equal masses: exact exchange
    assert_eq!(world.particles[0].v, v3_units(-50, 0, 0));
    assert_eq!(world.particles[1].v, v3_units(50, 0, 0));
    assert_eq!(world.particles[0].velocity.x, units(-50));
    assert_eq!(world.particles[1].velocity.x, units(50));
    // the separation no longer decreases
    let after_gap = world.particles[1].position.x.raw - world.particles[0].position.x.raw;
    assert!(after_gap >= before_gap);
    assert_eq!(world.particles[0].position.x, fx(-3250));
    assert_eq!(world.particles[1].position.x, fx(15 * SCALE + 3250));
    // both clocks advance by dt (gamma is exactly 1 at these speeds)
    assert_eq!(world.particles[0].tau, fx(65));
    assert_eq!(world.particles[1].tau, fx(65));
}

#[test]
fn separating_overlapping_pair_is_untouched() {
    let mut world = PhysicsWorld::new();
    // overlapping (15 apart, radii sum 20) but moving apart
    world.add_particle(particle(v4_units(0, 0, 0, 0), v3_units(-50, 0, 0)));
    world.add_particle(particle(v4_units(0, 15, 0, 0), v3_units(50, 0, 0)));
    world.update(fx(65));
    assert_eq!(world.particles[0].v, v3_units(-50, 0, 0));
    assert_eq!(world.particles[1].v, v3_units(50, 0, 0));
}

#[test]
fn separating_pair_among_other_particles_is_untouched() {
    // the separating overlapping pair keeps its velocities even with a
    // third, non-overlapping particle in the world
    let mut world = PhysicsWorld::new();
    world.add_particle(particle(v4_units(0, 0, 0, 0), v3_units(-50, 0, 0)));
    world.add_particle(particle(v4_units(0, 15, 0, 0), v3_units(50, 0, 0)));
    world.add_particle(particle(v4_units(0, 100, 0, 0), v3_units(7, 0, 0)));
    world.update(fx(65));
    assert_eq!(world.particles[0].v, v3_units(-50, 0, 0));
    assert_eq!(world.particles[1].v, v3_units(50, 0, 0));
    assert_eq!(world.particles[2].v, v3_units(7, 0, 0));
}

#[test]
fn off_axis_equal_mass_collision_conserves_momentum_exactly() {
    let mut world = PhysicsWorld::new();
    world.add_particle(particle(v4_units(0, 0, 0, 0), v3_units(50, 0, 0)));
    world.add_particle(particle(v4_units(0, 10, 10, 0), v3_units(-50, 0, 0)));
    world.update(fx(65));
    let v0 = world.particles[0].v;
    let v1 = world.particles[1].v;
    // equal masses: the velocity changes cancel exactly, component by
    // component, even though the normal itself is inexact
    assert_eq!(v0.x.raw + v1.x.raw, 0);
    assert_eq!(v0.y.raw + v1.y.raw, 0);
    assert_eq!(v0.z.raw + v1.z.raw, 0);
    assert_eq!(v0, v3(fx(135), fx(-3276665), fx(0)));
    assert_eq!(v1, v3(fx(-135), fx(3276665), fx(0)));
}

#[test]
fn superluminal_working_velocity_is_clamped() {
    // a particle given a superluminal working velocity directly (bypassing
    // the constructor's check) is clamped below C by the next step
    let p = Particle {
        position: v4_units(0, 0, 0, 0),
        velocity: V4 { t: fx(0), x: fx(0), y: fx(0), z: fx(0) },
        v: v3(fx(2 * C_RAW), fx(0), fx(0)),
        acceleration: V4 { t: fx(0), x: fx(0), y: fx(0), z: fx(0) },
        mass: units(1),
        radius: units(10),
        color: white(),
        tau: fx(0),
    };
    let mut world = PhysicsWorld::new();
    world.add_particle(p);
    world.update(fx(65));
    // scaled by (65535/65536) / 2
    assert_eq!(world.particles[0].v.x, fx(19646598942572));
    assert!(world.particles[0].v.x.raw < C_RAW);
}

#[test]
fn snapshot_extraction_is_idempotent() {
    let mut world = PhysicsWorld::new();
    world.add_particle(particle(v4_units(0, 0, 0, 0), v3_units(50, 0, 0)));
    world.add_particle(particle(v4_units(0, 15, 0, 0), v3_units(-50, 0, 0)));
    world.update(fx(65));
    let a = world.get_instance_data();
    let b = world.get_instance_data();
    assert_eq!(a, b);
}

#[test]
fn snapshot_contents_follow_particle_order() {
    let mut world = PhysicsWorld::new();
    let red = v3_units(1, 0, 0);
    let blue = v3_units(0, 0, 1);
    world.add_particle(
        Particle::new(v4_units(0, 1, 2, 3), v3_units(0, 0, 0), units(1), units(4), red, fx(0))
            .unwrap(),
    );
    world.add_particle(
        Particle::new(v4_units(0, 5, 6, 7), v3_units(0, 0, 0), units(2), units(8), blue, fx(0))
            .unwrap(),
    );
    let data = world.get_instance_data();
    assert_eq!(data.len(), 2);
    assert_eq!(data[0].i_pos, v3_units(1, 2, 3));
    assert_eq!(data[0].i_color, red);
    assert_eq!(data[0].i_radius, units(4));
    assert_eq!(data[1].i_pos, v3_units(5, 6, 7));
    assert_eq!(data[1].i_color, blue);
    assert_eq!(data[1].i_radius, units(8));
}

#[test]
fn new_world_is_empty_at_time_zero() {
    let world = PhysicsWorld::new();
    assert_eq!(world.particles.len(), 0);
    assert_eq!(world.planes.len(), 0);
    assert_eq!(world.t, fx(0));
    assert_eq!(world.get_instance_data().len(), 0);
}

#[test]
fn step_frame_advances_and_snapshots() {
    let mut world = PhysicsWorld::new();
    world.add_particle(particle(v4_units(0, 1, 2, 3), v3_units(0, 0, 0)));
    let msg = step_frame(&mut world, fx(65));
    assert_eq!(world.t, fx(65));
    let PhysicsMessage::InstanceData(data) = msg;
    assert_eq!(data, world.get_instance_data());
}

#[test]
fn plane_verts_flat() {
    // one zero length: 4 coplanar corners spanned by the other two axes
    let (verts, flat) =
        get_plane_verts(units(0), units(0), units(0), units(4), units(0), units(6));
    assert!(flat);
    assert_eq!(verts.len(), 4);
    assert_eq!(verts[0], v3_units(2, 0, 0));
    assert_eq!(verts[1], v3_units(0, 0, 3));
    assert_eq!(verts[2], v3_units(-2, 0, 0));
    assert_eq!(verts[3], v3_units(0, 0, -3));
}

#[test]
fn plane_verts_box() {
    // no zero length: the 8 corners center +- (xl/2, yl/2, zl/2)
    let (verts, flat) =
        get_plane_verts(units(1), units(1), units(1), units(2), units(2), units(2));
    assert!(!flat);
    assert_eq!(verts.len(), 8);
    assert_eq!(verts[0], v3_units(2, 2, 2));
    assert_eq!(verts[1], v3_units(0, 2, 2));
    assert_eq!(verts[2], v3_units(2, 0, 2));
    assert_eq!(verts[3], v3_units(0, 0, 2));
    assert_eq!(verts[4], v3_units(2, 2, 0));
    assert_eq!(verts[5], v3_units(0, 2, 0));
    assert_eq!(verts[6], v3_units(2, 0, 0));
    assert_eq!(verts[7], v3_units(0, 0, 0));
}

#[test]
fn plane_verts_degenerate() {
    // two zero lengths: no vertices
    let (verts, flat) =
        get_plane_verts(units(0), units(0), units(0), units(0), units(0), units(5));
    assert!(flat);
    assert_eq!(verts.len(), 0);
}

#[test]
fn sequential_impulses_pass_through_a_chain() {
    // three touching particles in a row: the pair (0,1) resolves first and
    // its result is visible to the pair (1,2) in the same step, so the
    // momentum travels down the whole chain in one update
    let mut world = PhysicsWorld::new();
    world.add_particle(particle(v4_units(0, 0, 0, 0), v3_units(50, 0, 0)));
    world.add_particle(particle(v4_units(0, 15, 0, 0), v3_units(0, 0, 0)));
    world.add_particle(particle(v4_units(0, 30, 0, 0), v3_units(0, 0, 0)));
    world.update(fx(65));
    assert_eq!(world.particles[0].v, v3_units(0, 0, 0));
    assert_eq!(world.particles[1].v, v3_units(0, 0, 0));
    assert_eq!(world.particles[2].v, v3_units(50, 0, 0));
}

#[test]
fn empty_world_update_advances_time_only() {
    let mut world = PhysicsWorld::new();
    world.update(fx(65));
    assert_eq!(world.t, fx(65));
    assert_eq!(world.particles.len(), 0);
    world.update(fx(35));
    assert_eq!(world.t, fx(100));
}

#[test]
fn coincident_particles_are_not_resolved() {
    // zero separation would give a degenerate collision normal; the guard
    // requires a strictly positive squared distance, so the pair is left
    // alone
    let mut world = PhysicsWorld::new();
    world.add_particle(particle(v4_units(0, 7, 7, 7), v3_units(50, 0, 0)));
    world.add_particle(particle(v4_units(0, 7, 7, 7), v3_units(-50, 0, 0)));
    world.update(fx(65));
    assert_eq!(world.particles[0].v, v3_units(50, 0, 0));
    assert_eq!(world.particles[1].v, v3_units(-50, 0, 0));
}

#[test]
fn four_velocity_is_normalized_after_collision() {
    // the normalization invariant on concrete post-collision values: at
    // these speeds gamma is exactly 1, so the 4-velocity carries the
    // post-collision 3-velocity and the temporal slot carries C
    let mut world = PhysicsWorld::new();
    world.add_particle(particle(v4_units(0, 0, 0, 0), v3_units(50, 0, 0)));
    world.add_particle(particle(v4_units(0, 10, 10, 0), v3_units(-50, 0, 0)));
    world.update(fx(65));
    let p = world.particles[0];
    assert_eq!(p.v, v3(fx(135), fx(-3276665), fx(0)));
    assert_eq!(p.velocity, V4 { t: fx(C_RAW), x: fx(135), y: fx(-3276665), z: fx(0) });
}

#[test]
fn tau_accumulates_across_steps() {
    let mut world = PhysicsWorld::new();
    world.add_particle(particle(v4_units(0, 1, 2, 3), v3_units(0, 0, 0)));
    world.update(fx(65));
    assert_eq!(world.particles[0].tau, fx(65));
    world.update(fx(35));
    assert_eq!(world.particles[0].tau, fx(100));
    world.update(fx(0));
    assert_eq!(world.particles[0].tau, fx(100));
}

#[test]
fn acceleration_hook_preintegrates_velocity() {
    // a particle with a non-zero acceleration gains v += a * dt before the
    // collision pass
    let mut p = particle(v4_units(0, 0, 0, 0), v3_units(0, 0, 0));
    p.acceleration = V4 { t: fx(0), x: units(100), y: fx(0), z: fx(0) };
    let mut world = PhysicsWorld::new();
    world.add_particle(p);
    world.update(units(1));
    assert_eq!(world.particles[0].v, v3_units(100, 0, 0));
}
