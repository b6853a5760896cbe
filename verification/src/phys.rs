//! Relativistic particle dynamics: particles, planes, and the mutable
//! world advanced in discrete time steps.
//!
//! Positions and velocities are spacetime 4-vectors whose temporal
//! component is scaled by the speed of light `C`; each particle also keeps
//! a raw 3-velocity accumulator `v` from which the 4-velocity is re-derived
//! by Lorentz normalization after every step.
//!
//! Numeric policy (a stated contract, not an accident of rounding): all
//! scalars are fixed-point ([`crate::fixed`]), every operation saturates
//! and truncates as specified there, and a working 3-velocity at or above
//! the speed of light is scaled back just below it before normalization
//! ([`clamp_subluminal_spec`]).  Construction rejects non-positive masses
//! and superluminal initial velocities.

use vstd::prelude::*;

use crate::fixed::Fx;
use crate::fixed::SCALE;
use crate::fixed::fx_add;
use crate::fixed::fx_div;
use crate::fixed::fx_mul;
use crate::fixed::fx_sqrt;
use crate::fixed::fx_sub;
use crate::vect::V3;
use crate::vect::V4;
use crate::vect::v3_add;
use crate::vect::v3_div_scalar;
use crate::vect::v3_scale;
use crate::vect::v3_sub;
use crate::vect::v3_dot;
use crate::vect::v4_spatial;

verus! {

/// The speed of light, in fixed-point raw units.
pub const C_RAW: i64 = 299792458 * 65536;

/// Raw value of the largest speed ratio installed by the clamp policy:
/// one fractional step below 1.
pub const MAX_RATIO_RAW: i64 = 65535;

/// The speed of light as a fixed-point scalar.
pub open spec fn c_fx() -> Fx {
    Fx { raw: C_RAW }
}

/// The scalar one.
pub open spec fn fx_one() -> Fx {
    Fx { raw: SCALE }
}

/// A point mass tracked relativistically.
#[derive(Clone, Copy, PartialEq, Eq, Structural, Debug)]
pub struct Particle {
    /// 4-position `(ct, x, y, z)`: the temporal component is the
    /// coordinate time scaled by the speed of light.
    pub position: V4,
    /// 4-velocity: always the Lorentz-normalized image of `v`, whose
    /// temporal component encodes the Lorentz factor as `gamma * C`.
    pub velocity: V4,
    /// Raw 3-velocity accumulator, the working value collisions act on.
    pub v: V3,
    /// 4-vector acceleration hook for a future force model; only the
    /// spatial components are meaningful, and nothing in this crate
    /// assigns it a non-zero value.
    pub acceleration: V4,
    pub mass: Fx,
    /// Radius, for visualization and simple collision.
    pub radius: Fx,
    /// Color, for visualization only.
    pub color: V3,
    /// Accumulated proper time.
    pub tau: Fx,
}

/// Why a particle configuration is rejected at construction.
#[derive(Clone, Copy, PartialEq, Eq, Structural, Debug)]
pub enum ConfigError {
    /// The mass was zero or negative: the collision impulse divides by it.
    NonpositiveMass,
    /// The initial 3-velocity was at or above the speed of light.
    SuperluminalVelocity,
}

/// Static geometry descriptor: a center with either 4 coplanar corner
/// points ("flat") or 8 box corners; carried for potential collision or
/// rendering use, never advanced by the simulation step.
#[derive(Clone, Debug)]
pub struct Plane {
    pub verts: Vec<V3>,
    pub flat: bool,
    pub color: V3,
}

/// The per-particle render payload: spatial position, color and radius.
#[derive(Clone, Copy, PartialEq, Eq, Structural, Debug)]
pub struct InstanceData {
    pub i_pos: V3,
    pub i_color: V3,
    pub i_radius: Fx,
}

/// The squared magnitude of a 3-velocity as a fraction of the speed of
/// light: `(x/C)^2 + (y/C)^2 + (z/C)^2`.  Computing the ratios first keeps
/// every intermediate inside the representable range.
pub open spec fn speed_ratio_sq(v: V3) -> Fx {
    let rx = fx_div(v.x, c_fx());
    let ry = fx_div(v.y, c_fx());
    let rz = fx_div(v.z, c_fx());
    fx_add(fx_add(fx_mul(rx, rx), fx_mul(ry, ry)), fx_mul(rz, rz))
}

/// Lorentz factor of a 3-velocity: `1 / sqrt(1 - (|v|/C)^2)`.  Total by
/// the fixed-point policy: at or above the speed of light the square root
/// is zero and the division by it yields zero.
pub open spec fn lorentz_gamma(v: V3) -> Fx {
    fx_div(fx_one(), fx_sqrt(fx_sub(fx_one(), speed_ratio_sq(v))))
}

/// The 4-velocity derived from a 3-velocity: `(C, x, y, z)` with all four
/// components scaled by the Lorentz factor, so the temporal slot carries
/// `gamma * C`.
pub open spec fn normalize_4v_spec(v: V3) -> V4 {
    let g = lorentz_gamma(v);
    V4 { t: fx_mul(c_fx(), g), x: fx_mul(v.x, g), y: fx_mul(v.y, g), z: fx_mul(v.z, g) }
}

/// Clamp policy for superluminal working velocities: when the squared
/// speed ratio reaches 1, the 3-velocity is scaled by
/// `(65535/65536) / (|v|/C)`, bringing its magnitude just below the speed
/// of light; otherwise the velocity passes through unchanged.
pub open spec fn clamp_subluminal_spec(v: V3) -> V3 {
    let r2 = speed_ratio_sq(v);
    if r2.raw >= SCALE {
        v3_scale(v, fx_div(Fx { raw: MAX_RATIO_RAW }, fx_sqrt(r2)))
    } else {
        v
    }
}

/// The particle a successful construction yields.
pub open spec fn particle_new_spec(
    position: V4,
    v: V3,
    mass: Fx,
    radius: Fx,
    color: V3,
    tau: Fx,
) -> Particle {
    Particle {
        position,
        velocity: normalize_4v_spec(v),
        v,
        acceleration: V4 { t: Fx { raw: 0 }, x: Fx { raw: 0 }, y: Fx { raw: 0 }, z: Fx { raw: 0 } },
        mass,
        radius,
        color,
        tau,
    }
}

/// Exec mirror of [`speed_ratio_sq`].
pub fn speed_ratio_sq_of(v: V3) -> (r: Fx)
    ensures
        r == speed_ratio_sq(v),
{
    let c = Fx { raw: C_RAW };
    let rx = v.x.sat_div(c);
    let ry = v.y.sat_div(c);
    let rz = v.z.sat_div(c);
    rx.sat_mul(rx).sat_add(ry.sat_mul(ry)).sat_add(rz.sat_mul(rz))
}

/// Lorentz normalization of a 3-velocity into a 4-velocity.
fn normalize_4v(v: V3) -> (r: V4)
    ensures
        r == normalize_4v_spec(v),
{
    let one = Fx { raw: SCALE };
    let c = Fx { raw: C_RAW };
    let g = one.sat_div(one.sat_sub(speed_ratio_sq_of(v)).sqrt());
    V4 { t: c.sat_mul(g), x: v.x.sat_mul(g), y: v.y.sat_mul(g), z: v.z.sat_mul(g) }
}

/// Apply the superluminal clamp policy to a working 3-velocity.
fn clamp_subluminal(v: V3) -> (r: V3)
    ensures
        r == clamp_subluminal_spec(v),
{
    let r2 = speed_ratio_sq_of(v);
    if r2.raw >= SCALE {
        v.scale(Fx { raw: MAX_RATIO_RAW }.sat_div(r2.sqrt()))
    } else {
        v
    }
}

impl Particle {
    /// Builds a particle from a 4-position, an initial 3-velocity, mass,
    /// radius, color and starting proper time.  The 4-velocity is derived
    /// from the 3-velocity by Lorentz normalization; the acceleration
    /// starts at zero.  Rejects a non-positive mass and a 3-velocity at or
    /// above the speed of light.
    pub fn new(position: V4, v: V3, mass: Fx, radius: Fx, color: V3, tau: Fx) -> (r: Result<
        Particle,
        ConfigError,
    >)
        ensures
            mass.raw <= 0 ==> r == Err::<Particle, ConfigError>(ConfigError::NonpositiveMass),
            mass.raw > 0 && speed_ratio_sq(v).raw >= SCALE ==> r == Err::<Particle, ConfigError>(
                ConfigError::SuperluminalVelocity,
            ),
            mass.raw > 0 && speed_ratio_sq(v).raw < SCALE ==> r == Ok::<Particle, ConfigError>(
                particle_new_spec(position, v, mass, radius, color, tau),
            ),
    {
        if mass.raw <= 0 {
            return Err(ConfigError::NonpositiveMass);
        }
        if speed_ratio_sq_of(v).raw >= SCALE {
            return Err(ConfigError::SuperluminalVelocity);
        }
        let u = normalize_4v(v);
        Ok(
            Particle {
                position,
                velocity: u,
                v,
                acceleration: V4::zero(),
                mass,
                radius,
                color,
                tau,
            },
        )
    }
}

/// The instance-data record extracted from one particle: spatial position
/// (the time coordinate is discarded), color and radius.
pub open spec fn instance_of(p: Particle) -> InstanceData {
    InstanceData { i_pos: v4_spatial(p.position), i_color: p.color, i_radius: p.radius }
}

/// Corner vertices of an axis-aligned plane or box, as the presentation
/// layer consumes them: a center `(x, y, z)` and side lengths
/// `(xl, yl, zl)`.  Exactly one zero length gives the 4 corner points of a
/// flat plane spanned by the other two axes; no zero length gives the 8
/// corners of a box; any other combination yields no vertices.
pub open spec fn plane_verts_spec(x: Fx, y: Fx, z: Fx, xl: Fx, yl: Fx, zl: Fx) -> (Seq<V3>, bool) {
    let center = V3 { x, y, z };
    let two = Fx { raw: 131072 };
    let ux = V3 { x: fx_one(), y: Fx { raw: 0 }, z: Fx { raw: 0 } };
    let uy = V3 { x: Fx { raw: 0 }, y: fx_one(), z: Fx { raw: 0 } };
    let uz = V3 { x: Fx { raw: 0 }, y: Fx { raw: 0 }, z: fx_one() };
    if xl.raw == 0 && !(yl.raw == 0) && !(zl.raw == 0) {
        (flat_verts(center, uy, yl, uz, zl, two), true)
    } else if !(xl.raw == 0) && yl.raw == 0 && !(zl.raw == 0) {
        (flat_verts(center, ux, xl, uz, zl, two), true)
    } else if !(xl.raw == 0) && !(yl.raw == 0) && zl.raw == 0 {
        (flat_verts(center, ux, xl, uy, yl, two), true)
    } else if !(xl.raw == 0) && !(yl.raw == 0) && !(zl.raw == 0) {
        (box_verts(center, ux, xl, uy, yl, uz, zl, two), false)
    } else {
        (Seq::<V3>::empty(), true)
    }
}

/// The 4 corner points of a flat plane: the center offset along each
/// spanning axis by half the corresponding side length, in both senses.
pub open spec fn flat_verts(center: V3, ax1: V3, l1: Fx, ax2: V3, l2: Fx, two: Fx) -> Seq<V3> {
    let h1 = v3_div_scalar(v3_scale(ax1, l1), two);
    let h2 = v3_div_scalar(v3_scale(ax2, l2), two);
    seq![
        v3_add(center, h1),
        v3_add(center, h2),
        v3_sub(center, h1),
        v3_sub(center, h2),
    ]
}

/// The 8 corners of a box: the center offset by half the side length
/// along every axis, in each combination of senses (x varying fastest,
/// then y, then z).
pub open spec fn box_verts(
    center: V3,
    ux: V3,
    xl: Fx,
    uy: V3,
    yl: Fx,
    uz: V3,
    zl: Fx,
    two: Fx,
) -> Seq<V3> {
    let hx = v3_div_scalar(v3_scale(ux, xl), two);
    let hy = v3_div_scalar(v3_scale(uy, yl), two);
    let hz = v3_div_scalar(v3_scale(uz, zl), two);
    seq![
        v3_add(v3_add(v3_add(center, hx), hy), hz),
        v3_add(v3_add(v3_sub(center, hx), hy), hz),
        v3_add(v3_sub(v3_add(center, hx), hy), hz),
        v3_add(v3_sub(v3_sub(center, hx), hy), hz),
        v3_sub(v3_add(v3_add(center, hx), hy), hz),
        v3_sub(v3_add(v3_sub(center, hx), hy), hz),
        v3_sub(v3_sub(v3_add(center, hx), hy), hz),
        v3_sub(v3_sub(v3_sub(center, hx), hy), hz),
    ]
}

/// Computes the corner vertices of an axis-aligned plane or box, and
/// whether the result is flat.  See [`plane_verts_spec`].
pub fn get_plane_verts(x: Fx, y: Fx, z: Fx, xl: Fx, yl: Fx, zl: Fx) -> (r: (Vec<V3>, bool))
    ensures
        r.0@ == plane_verts_spec(x, y, z, xl, yl, zl).0,
        r.1 == plane_verts_spec(x, y, z, xl, yl, zl).1,
{
    let center = V3 { x, y, z };
    let two = Fx { raw: 131072 };
    let one = Fx { raw: SCALE };
    let zero = Fx { raw: 0 };
    let ux = V3 { x: one, y: zero, z: zero };
    let uy = V3 { x: zero, y: one, z: zero };
    let uz = V3 { x: zero, y: zero, z: one };

    let mut verts: Vec<V3> = Vec::new();

    if xl.raw == 0 && !(yl.raw == 0) && !(zl.raw == 0) {
        push_flat(&mut verts, center, uy, yl, uz, zl, two);
        (verts, true)
    } else if !(xl.raw == 0) && yl.raw == 0 && !(zl.raw == 0) {
        push_flat(&mut verts, center, ux, xl, uz, zl, two);
        (verts, true)
    } else if !(xl.raw == 0) && !(yl.raw == 0) && zl.raw == 0 {
        push_flat(&mut verts, center, ux, xl, uy, yl, two);
        (verts, true)
    } else if !(xl.raw == 0) && !(yl.raw == 0) && !(zl.raw == 0) {
        let hx = ux.scale(xl).div_scalar(two);
        let hy = uy.scale(yl).div_scalar(two);
        let hz = uz.scale(zl).div_scalar(two);
        verts.push(center.sat_add(hx).sat_add(hy).sat_add(hz));
        verts.push(center.sat_sub(hx).sat_add(hy).sat_add(hz));
        verts.push(center.sat_add(hx).sat_sub(hy).sat_add(hz));
        verts.push(center.sat_sub(hx).sat_sub(hy).sat_add(hz));
        verts.push(center.sat_add(hx).sat_add(hy).sat_sub(hz));
        verts.push(center.sat_sub(hx).sat_add(hy).sat_sub(hz));
        verts.push(center.sat_add(hx).sat_sub(hy).sat_sub(hz));
        verts.push(center.sat_sub(hx).sat_sub(hy).sat_sub(hz));
        proof {
            assert(verts@ =~= box_verts(center, ux, xl, uy, yl, uz, zl, two));
        }
        (verts, false)
    } else {
        proof {
            assert(verts@ =~= Seq::<V3>::empty());
        }
        (verts, true)
    }
}

/// Phase 1 of a step, per particle: pre-integrate the 3-velocity from the
/// acceleration hook, `v += acceleration * dt`.  Absent an external force
/// system the acceleration is always zero and this is a no-op placeholder
/// for future force injection.
pub open spec fn integrate_v(p: Particle, dt: Fx) -> Particle {
    Particle { v: v3_add(p.v, v3_scale(v4_spatial(p.acceleration), dt)), ..p }
}

pub open spec fn phase1(ps: Seq<Particle>, dt: Fx) -> Seq<Particle> {
    ps.map_values(|p: Particle| integrate_v(p, dt))
}

/// The scratch buffer the collision pass works on: one working 3-velocity
/// per particle, seeded from phase 1's accumulators.
pub open spec fn seed_velocities(ps: Seq<Particle>) -> Seq<V3> {
    ps.map_values(|p: Particle| p.v)
}

/// One pairwise collision test and resolution on the scratch buffer, for
/// particle indices `i < j`.
///
/// A collision is detected when the squared spatial separation is at most
/// the squared radius sum and strictly positive (the guard against a
/// degenerate zero-distance normal).  The resolution is a perfectly
/// elastic impulse (restitution 1) along the unit normal from the second
/// particle toward the first, applied only to closing pairs; classical
/// two-body impulse mechanics on the 3-velocities, a documented
/// approximation, not a relativistic collision law.  Separating pairs are
/// left untouched even when they overlap: no positional correction is
/// applied.
pub open spec fn resolve_pair(ps: Seq<Particle>, vels: Seq<V3>, i: int, j: int) -> Seq<V3> {
    let d = v3_sub(v4_spatial(ps[i].position), v4_spatial(ps[j].position));
    let dist_sq = v3_dot(d, d);
    let radius_sum = fx_add(ps[i].radius, ps[j].radius);
    if dist_sq.raw <= fx_mul(radius_sum, radius_sum).raw && dist_sq.raw > 0 {
        let normal = v3_div_scalar(d, fx_sqrt(dist_sq));
        let van = v3_dot(v3_sub(vels[i], vels[j]), normal);
        if van.raw < 0 {
            let inv_mass_sum = fx_add(fx_div(fx_one(), ps[i].mass), fx_div(fx_one(), ps[j].mass));
            // -(1 + e) with restitution e = 1, as a fixed-point -2
            let imp = fx_div(fx_mul(Fx { raw: -131072i64 }, van), inv_mass_sum);
            let nv_i = v3_add(vels[i], v3_scale(normal, fx_div(imp, ps[i].mass)));
            let nv_j = v3_sub(vels[j], v3_scale(normal, fx_div(imp, ps[j].mass)));
            vels.update(i, nv_i).update(j, nv_j)
        } else {
            vels
        }
    } else {
        vels
    }
}

/// The collision pass from pair `(i, j)` onward: every unordered pair in
/// index order, each resolution seeing the scratch velocities left by the
/// pairs before it (sequential impulses, not simultaneous ones).
pub open spec fn collide_from(ps: Seq<Particle>, vels: Seq<V3>, i: int, j: int) -> Seq<V3>
    decreases ps.len() - i, ps.len() - j,
{
    if i < 0 || j <= i {
        vels
    } else if i + 1 >= ps.len() {
        vels
    } else if j >= ps.len() {
        collide_from(ps, vels, i + 1, i + 2)
    } else {
        collide_from(ps, resolve_pair(ps, vels, i, j), i, j + 1)
    }
}

/// Copy the scratch velocities back into the particles.
pub open spec fn commit_velocities(ps: Seq<Particle>, vels: Seq<V3>) -> Seq<Particle> {
    Seq::new(ps.len(), |i: int| Particle { v: vels[i], ..ps[i] })
}

/// Phase 2 of a step: the full pairwise collision pass over the scratch
/// buffer, committed back into the particles.
pub open spec fn collide_phase(ps: Seq<Particle>) -> Seq<Particle> {
    commit_velocities(ps, collide_from(ps, seed_velocities(ps), 0, 1))
}

/// Phase 3 of a step, per particle: clamp the working 3-velocity below
/// the speed of light, re-derive the 4-velocity by Lorentz normalization,
/// advance proper time by `dt / gamma`, advance the spatial position by
/// the 4-velocity times `dt`, and set the temporal position to
/// `(t + dt) * C`.
pub open spec fn integrate_particle(p: Particle, t: Fx, dt: Fx) -> Particle {
    let w = clamp_subluminal_spec(p.v);
    let u = normalize_4v_spec(w);
    let gamma = fx_div(u.t, c_fx());
    let dtau = fx_div(dt, gamma);
    Particle {
        position: V4 {
            t: fx_mul(fx_add(t, dt), c_fx()),
            x: fx_add(p.position.x, fx_mul(u.x, dt)),
            y: fx_add(p.position.y, fx_mul(u.y, dt)),
            z: fx_add(p.position.z, fx_mul(u.z, dt)),
        },
        velocity: u,
        v: w,
        tau: fx_add(p.tau, dtau),
        ..p
    }
}

pub open spec fn phase3(ps: Seq<Particle>, t: Fx, dt: Fx) -> Seq<Particle> {
    ps.map_values(|p: Particle| integrate_particle(p, t, dt))
}

/// One full simulation step on the particle list: velocity
/// pre-integration, then the pairwise collision pass, then the kinematic
/// commit, the phases strictly ordered.
pub open spec fn step_particles(ps: Seq<Particle>, t: Fx, dt: Fx) -> Seq<Particle> {
    phase3(collide_phase(phase1(ps, dt)), t, dt)
}

/// The snapshot of a particle list: one instance-data record per
/// particle, in particle-list order.
pub open spec fn instance_data_spec(ps: Seq<Particle>) -> Seq<InstanceData> {
    ps.map_values(|p: Particle| instance_of(p))
}

/// The mutable simulation world: the particle list (insertion order is
/// particle identity order and the collision tie-break order), static
/// plane geometry, a gravity hook, and the global simulation time.
pub struct PhysicsWorld {
    pub particles: Vec<Particle>,
    pub planes: Vec<Plane>,
    /// Force hook, kept zero by everything in this crate.
    pub gravity: V4,
    /// Global simulation time; advanced only by `update`.
    pub t: Fx,
}

impl PhysicsWorld {
    /// An empty world at time zero with zero gravity.
    pub fn new() -> (r: PhysicsWorld)
        ensures
            r.particles@ == Seq::<Particle>::empty(),
            r.planes@ == Seq::<Plane>::empty(),
            r.gravity == (V4 {
                t: Fx { raw: 0 },
                x: Fx { raw: 0 },
                y: Fx { raw: 0 },
                z: Fx { raw: 0 },
            }),
            r.t == (Fx { raw: 0 }),
    {
        let particles: Vec<Particle> = Vec::new();
        let planes: Vec<Plane> = Vec::new();
        proof {
            assert(particles@ =~= Seq::<Particle>::empty());
            assert(planes@ =~= Seq::<Plane>::empty());
        }
        PhysicsWorld { particles, planes, gravity: V4::zero(), t: Fx { raw: 0 } }
    }

    /// Append a particle; it takes the next identity index.
    pub fn add_particle(&mut self, particle: Particle)
        ensures
            final(self).particles@ == old(self).particles@.push(particle),
            final(self).planes@ == old(self).planes@,
            final(self).gravity == old(self).gravity,
            final(self).t == old(self).t,
    {
        self.particles.push(particle);
    }

    /// Extract the render snapshot: spatial position, color and radius of
    /// every particle, in particle-list order.  A pure read: the result is
    /// a function of the current world state alone.
    pub fn get_instance_data(&self) -> (r: Vec<InstanceData>)
        ensures
            r@ == instance_data_spec(self.particles@),
    {
        let mut out: Vec<InstanceData> = Vec::new();
        let n = self.particles.len();
        let mut k: usize = 0;
        while k < n
            invariant
                k <= n,
                n == self.particles@.len(),
                out@.len() == k,
                forall|m: int|
                    0 <= m < k ==> out@[m] == instance_of(#[trigger] self.particles@[m]),
            decreases n - k,
        {
            let p = self.particles[k];
            out.push(InstanceData { i_pos: p.position.spatial(), i_color: p.color, i_radius: p.radius });
            k += 1;
        }
        proof {
            assert(out@ =~= instance_data_spec(self.particles@));
        }
        out
    }

    /// Advance the world by `dt`: pre-integrate velocities, resolve
    /// pairwise collisions through a scratch buffer, recompute 4-velocity,
    /// proper time and position for every particle, and advance the global
    /// time.
    pub fn update(&mut self, dt: Fx)
        ensures
            final(self).particles@ == step_particles(old(self).particles@, old(self).t, dt),
            final(self).planes@ == old(self).planes@,
            final(self).gravity == old(self).gravity,
            final(self).t == fx_add(old(self).t, dt),
    {
        let n = self.particles.len();

        // Phase 1: pre-integrate the 3-velocities from the acceleration hook.
        let mut k: usize = 0;
        while k < n
            invariant
                k <= n,
                n == old(self).particles@.len(),
                self.particles@.len() == n,
                self.planes@ == old(self).planes@,
                self.gravity == old(self).gravity,
                self.t == old(self).t,
                forall|m: int|
                    0 <= m < k ==> self.particles@[m] == integrate_v(
                        #[trigger] old(self).particles@[m],
                        dt,
                    ),
                forall|m: int| k <= m < n ==> self.particles@[m] == old(self).particles@[m],
            decreases n - k,
        {
            let p = self.particles[k];
            self.particles[k] = Particle { v: p.v.sat_add(p.acceleration.spatial().scale(dt)), ..p };
            k += 1;
        }
        proof {
            assert(self.particles@ =~= phase1(old(self).particles@, dt));
        }
        let ghost ps2 = self.particles@;

        // Phase 2: resolve collisions on a scratch buffer seeded from the
        // phase-1 velocities, so earlier pairs' impulses are visible to
        // later pairs in the same step.
        let mut new_vs: Vec<V3> = Vec::new();
        let mut s: usize = 0;
        while s < n
            invariant
                s <= n,
                n == ps2.len(),
                self.particles@ == ps2,
                new_vs@.len() == s,
                forall|m: int| 0 <= m < s ==> new_vs@[m] == (#[trigger] ps2[m]).v,
            decreases n - s,
        {
            new_vs.push(self.particles[s].v);
            s += 1;
        }
        proof {
            assert(new_vs@ =~= seed_velocities(ps2));
        }
        let ghost vels0 = new_vs@;

        let mut i: usize = 0;
        while i < n
            invariant
                i <= n,
                n == ps2.len(),
                self.particles@ == ps2,
                self.planes@ == old(self).planes@,
                self.gravity == old(self).gravity,
                self.t == old(self).t,
                new_vs@.len() == n,
                collide_from(ps2, vels0, 0, 1) == collide_from(ps2, new_vs@, i as int, i + 1),
            decreases n - i,
        {
            let mut j: usize = i + 1;
            while j < n
                invariant
                    i < j <= n,
                    i < n,
                    n == ps2.len(),
                    self.particles@ == ps2,
                    new_vs@.len() == n,
                    collide_from(ps2, vels0, 0, 1) == collide_from(ps2, new_vs@, i as int, j as int),
                decreases n - j,
            {
                let ghost prev = new_vs@;
                let pi = self.particles[i];
                let pj = self.particles[j];
                let d = pi.position.spatial().sat_sub(pj.position.spatial());
                let dist_sq = d.dot(d);
                let radius_sum = pi.radius.sat_add(pj.radius);
                if dist_sq.raw <= radius_sum.sat_mul(radius_sum).raw && dist_sq.raw > 0 {
                    let normal = d.div_scalar(dist_sq.sqrt());
                    let van = new_vs[i].sat_sub(new_vs[j]).dot(normal);
                    if van.raw < 0 {
                        let one = Fx { raw: SCALE };
                        let inv_mass_sum = one.sat_div(pi.mass).sat_add(one.sat_div(pj.mass));
                        // -(1 + e) with restitution e = 1, as a fixed-point -2
                        let imp = Fx { raw: -131072i64 }.sat_mul(van).sat_div(inv_mass_sum);
                        let nv_i = new_vs[i].sat_add(normal.scale(imp.sat_div(pi.mass)));
                        let nv_j = new_vs[j].sat_sub(normal.scale(imp.sat_div(pj.mass)));
                        new_vs[i] = nv_i;
                        new_vs[j] = nv_j;
                    }
                }
                proof {
                    assert(new_vs@ == resolve_pair(ps2, prev, i as int, j as int));
                    assert(collide_from(ps2, prev, i as int, j as int) == collide_from(
                        ps2,
                        new_vs@,
                        i as int,
                        j + 1,
                    ));
                }
                j += 1;
            }
            proof {
                assert(collide_from(ps2, new_vs@, i as int, n as int) == collide_from(
                    ps2,
                    new_vs@,
                    i + 1,
                    i + 2,
                ));
            }
            i += 1;
        }
        proof {
            assert(collide_from(ps2, new_vs@, n as int, n as int + 1) == new_vs@);
        }
        let ghost vels = new_vs@;

        // Commit the scratch velocities back into the particles.
        let mut k: usize = 0;
        while k < n
            invariant
                k <= n,
                n == ps2.len(),
                self.particles@.len() == n,
                self.planes@ == old(self).planes@,
                self.gravity == old(self).gravity,
                self.t == old(self).t,
                new_vs@ == vels,
                vels.len() == n,
                forall|m: int|
                    0 <= m < k ==> self.particles@[m] == (Particle {
                        v: vels[m],
                        ..(#[trigger] ps2[m])
                    }),
                forall|m: int| k <= m < n ==> self.particles@[m] == ps2[m],
            decreases n - k,
        {
            let p = self.particles[k];
            self.particles[k] = Particle { v: new_vs[k], ..p };
            k += 1;
        }
        proof {
            assert(self.particles@ =~= commit_velocities(ps2, vels));
            assert(self.particles@ =~= collide_phase(ps2));
        }
        let ghost ps3 = self.particles@;

        // Phase 3: recompute 4-velocity, proper time and position from the
        // post-collision 3-velocities.
        let c = Fx { raw: C_RAW };
        let mut k: usize = 0;
        while k < n
            invariant
                k <= n,
                n == ps3.len(),
                self.particles@.len() == n,
                self.planes@ == old(self).planes@,
                self.gravity == old(self).gravity,
                self.t == old(self).t,
                c == (Fx { raw: C_RAW }),
                forall|m: int|
                    0 <= m < k ==> self.particles@[m] == integrate_particle(
                        #[trigger] ps3[m],
                        old(self).t,
                        dt,
                    ),
                forall|m: int| k <= m < n ==> self.particles@[m] == ps3[m],
            decreases n - k,
        {
            let p = self.particles[k];
            let w = clamp_subluminal(p.v);
            let u = normalize_4v(w);
            let gamma = u.t.sat_div(c);
            let dtau = dt.sat_div(gamma);
            let npos = V4 {
                t: self.t.sat_add(dt).sat_mul(c),
                x: p.position.x.sat_add(u.x.sat_mul(dt)),
                y: p.position.y.sat_add(u.y.sat_mul(dt)),
                z: p.position.z.sat_add(u.z.sat_mul(dt)),
            };
            self.particles[k] = Particle {
                position: npos,
                velocity: u,
                v: w,
                tau: p.tau.sat_add(dtau),
                ..p
            };
            k += 1;
        }
        proof {
            assert(self.particles@ =~= phase3(ps3, old(self).t, dt));
        }

        // Advance the global simulation time.
        self.t = self.t.sat_add(dt);
    }
}

/// Pushes the 4 corner points of a flat plane.
fn push_flat(verts: &mut Vec<V3>, center: V3, ax1: V3, l1: Fx, ax2: V3, l2: Fx, two: Fx)
    ensures
        final(verts)@ == old(verts)@ + flat_verts(center, ax1, l1, ax2, l2, two),
{
    let h1 = ax1.scale(l1).div_scalar(two);
    let h2 = ax2.scale(l2).div_scalar(two);
    verts.push(center.sat_add(h1));
    verts.push(center.sat_add(h2));
    verts.push(center.sat_sub(h1));
    verts.push(center.sat_sub(h2));
    proof {
        assert(verts@ =~= old(verts)@ + flat_verts(center, ax1, l1, ax2, l2, two));
    }
}

} // verus!
