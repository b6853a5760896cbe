//! Global properties of the simulation step, stated and proved over the
//! specification model that the executable contracts are pinned to.

use vstd::prelude::*;

use crate::fixed::Fx;
use crate::fixed::SCALE;
use crate::fixed::fx_add;
use crate::fixed::is_isqrt;
use crate::fixed::lemma_div_trunc_exact;
use crate::fixed::lemma_isqrt_unique;
use crate::fixed::fx_div;
use crate::fixed::fx_mul;
use crate::fixed::fx_sqrt;
use crate::fixed::fx_sub;
use crate::fixed::lemma_fx_add_mono;
use crate::fixed::lemma_fx_div_nonneg;
use crate::fixed::lemma_fx_mul_nonneg;
use crate::fixed::lemma_fx_sqrt_nonneg;
use crate::phys::InstanceData;
use crate::phys::Particle;
use crate::phys::c_fx;
use crate::phys::clamp_subluminal_spec;
use crate::phys::collide_from;
use crate::phys::collide_phase;
use crate::phys::fx_one;
use crate::phys::instance_data_spec;
use crate::phys::integrate_particle;
use crate::phys::integrate_v;
use crate::phys::lorentz_gamma;
use crate::phys::normalize_4v_spec;
use crate::phys::phase1;
use crate::phys::resolve_pair;
use crate::phys::seed_velocities;
use crate::phys::speed_ratio_sq;
use crate::phys::step_particles;
use crate::vect::V3;
use crate::vect::v3_add;
use crate::vect::v3_dot;
use crate::vect::v3_div_scalar;
use crate::vect::v3_sub;
use crate::vect::v4_spatial;

verus! {

/// The collision pass only redistributes scratch velocities: it never
/// changes how many there are.
pub proof fn lemma_collide_from_len(ps: Seq<Particle>, vels: Seq<V3>, i: int, j: int)
    requires
        vels.len() == ps.len(),
    ensures
        collide_from(ps, vels, i, j).len() == vels.len(),
    decreases ps.len() - i, ps.len() - j,
{
    if i < 0 || j <= i {
    } else if i + 1 >= ps.len() {
    } else if j >= ps.len() {
        lemma_collide_from_len(ps, vels, i + 1, i + 2);
    } else {
        assert(resolve_pair(ps, vels, i, j).len() == vels.len());
        lemma_collide_from_len(ps, resolve_pair(ps, vels, i, j), i, j + 1);
    }
}

/// A simulation step never adds or removes particles.
pub proof fn lemma_step_preserves_count(ps: Seq<Particle>, t: Fx, dt: Fx)
    ensures
        step_particles(ps, t, dt).len() == ps.len(),
{
    lemma_collide_from_len(phase1(ps, dt), seed_velocities(phase1(ps, dt)), 0, 1);
}

/// Normalization invariant: after any step, every particle's 4-velocity
/// is exactly the Lorentz-normalized image of its stored (post-collision,
/// post-clamp) 3-velocity — never a stale or partially updated value —
/// and its temporal component carries `gamma * C` for the computed
/// Lorentz factor.
pub proof fn lemma_normalization_invariant(ps: Seq<Particle>, t: Fx, dt: Fx, i: int)
    requires
        0 <= i < ps.len(),
    ensures
        step_particles(ps, t, dt).len() == ps.len(),
        step_particles(ps, t, dt)[i].velocity == normalize_4v_spec(
            step_particles(ps, t, dt)[i].v,
        ),
        step_particles(ps, t, dt)[i].velocity.t == fx_mul(
            c_fx(),
            lorentz_gamma(step_particles(ps, t, dt)[i].v),
        ),
{
    lemma_step_preserves_count(ps, t, dt);
    let mid = collide_phase(phase1(ps, dt));
    assert(step_particles(ps, t, dt)[i] == integrate_particle(mid[i], t, dt));
}

/// Proper-time monotonicity: across a step with non-negative `dt`, no
/// particle's accumulated proper time decreases.
pub proof fn lemma_tau_monotonic(ps: Seq<Particle>, t: Fx, dt: Fx, i: int)
    requires
        0 <= i < ps.len(),
        dt.raw >= 0,
    ensures
        step_particles(ps, t, dt).len() == ps.len(),
        step_particles(ps, t, dt)[i].tau.raw >= ps[i].tau.raw,
{
    lemma_step_preserves_count(ps, t, dt);
    let p1 = phase1(ps, dt);
    let mid = collide_phase(p1);
    assert(p1[i] == integrate_v(ps[i], dt));
    assert(mid[i].tau == ps[i].tau);
    assert(step_particles(ps, t, dt)[i] == integrate_particle(mid[i], t, dt));
    let w = clamp_subluminal_spec(mid[i].v);
    let denom = fx_sqrt(fx_sub(fx_one(), speed_ratio_sq(w)));
    lemma_fx_sqrt_nonneg(fx_sub(fx_one(), speed_ratio_sq(w)));
    lemma_fx_div_nonneg(fx_one(), denom);
    lemma_fx_mul_nonneg(c_fx(), lorentz_gamma(w));
    let u = normalize_4v_spec(w);
    let gamma = fx_div(u.t, c_fx());
    lemma_fx_div_nonneg(u.t, c_fx());
    lemma_fx_div_nonneg(dt, gamma);
    lemma_fx_add_mono(mid[i].tau, fx_div(dt, gamma));
}

/// The geometric collision test of the pass, for the ordered pair
/// `(i, j)`: squared spatial separation at most the squared radius sum
/// and strictly positive.
pub open spec fn pair_overlaps(ps: Seq<Particle>, i: int, j: int) -> bool {
    let d = v3_sub(v4_spatial(ps[i].position), v4_spatial(ps[j].position));
    let dist_sq = v3_dot(d, d);
    let radius_sum = fx_add(ps[i].radius, ps[j].radius);
    dist_sq.raw <= fx_mul(radius_sum, radius_sum).raw && dist_sq.raw > 0
}

/// The pair `(i, j)` with working velocities `vi`, `vj` is not closing:
/// the relative velocity along the collision normal is non-negative.
pub open spec fn pair_separating(ps: Seq<Particle>, vi: V3, vj: V3, i: int, j: int) -> bool {
    let d = v3_sub(v4_spatial(ps[i].position), v4_spatial(ps[j].position));
    let normal = v3_div_scalar(d, fx_sqrt(v3_dot(d, d)));
    v3_dot(v3_sub(vi, vj), normal).raw >= 0
}

/// Neither particle of the pair `(i, j)` passes the geometric collision
/// test with any third particle, in either orientation.
pub open spec fn pair_isolated(ps: Seq<Particle>, i: int, j: int) -> bool {
    forall|k: int|
        0 <= k < ps.len() && k != i && k != j ==> !(#[trigger] pair_overlaps(ps, i, k))
            && !pair_overlaps(ps, k, i) && !pair_overlaps(ps, j, k) && !pair_overlaps(ps, k, j)
}

/// Separating pairs are untouched: a pair that overlaps geometrically but
/// is not closing (relative velocity along the collision normal
/// non-negative) keeps both scratch velocities unchanged.
pub proof fn lemma_separating_pair_untouched(ps: Seq<Particle>, vels: Seq<V3>, i: int, j: int)
    requires
        pair_separating(ps, vels[i], vels[j], i, j),
    ensures
        resolve_pair(ps, vels, i, j) == vels,
{
}

/// The whole collision phase of a two-particle world leaves a separating
/// pair's velocities identical before and after.
pub proof fn lemma_separating_two_particles(ps: Seq<Particle>, vels: Seq<V3>)
    requires
        ps.len() == 2,
        vels.len() == 2,
        pair_separating(ps, vels[0], vels[1], 0, 1),
    ensures
        collide_from(ps, vels, 0, 1) == vels,
{
    lemma_separating_pair_untouched(ps, vels, 0, 1);
    assert(collide_from(ps, vels, 0, 1) == collide_from(ps, vels, 0, 2));
    assert(collide_from(ps, vels, 0, 2) == collide_from(ps, vels, 1, 2));
    assert(collide_from(ps, vels, 1, 2) == vels);
}

/// The collision pass from pair `(a, b)` onward never changes the
/// velocities of a separating pair whose particles overlap no third
/// particle: every other pair either fails the geometric test or touches
/// neither entry, and the pair's own resolution is skipped as separating.
proof fn collide_from_preserves_isolated(
    ps: Seq<Particle>,
    vels: Seq<V3>,
    i: int,
    j: int,
    vi: V3,
    vj: V3,
    a: int,
    b: int,
)
    requires
        0 <= i < ps.len(),
        0 <= j < ps.len(),
        i < j,
        vels.len() == ps.len(),
        vels[i] == vi,
        vels[j] == vj,
        pair_separating(ps, vi, vj, i, j),
        pair_isolated(ps, i, j),
    ensures
        collide_from(ps, vels, a, b)[i] == vi,
        collide_from(ps, vels, a, b)[j] == vj,
    decreases ps.len() - a, ps.len() - b,
{
    if a < 0 || b <= a {
    } else if a + 1 >= ps.len() {
    } else if b >= ps.len() {
        collide_from_preserves_isolated(ps, vels, i, j, vi, vj, a + 1, a + 2);
    } else {
        let nv = resolve_pair(ps, vels, a, b);
        if a == i && b == j {
            lemma_separating_pair_untouched(ps, vels, i, j);
            assert(nv == vels);
        } else if a == i || a == j || b == i || b == j {
            // one endpoint is a third particle, so the geometric test fails
            if a == i {
                assert(!pair_overlaps(ps, i, b) && !pair_overlaps(ps, b, i));
            } else if a == j {
                assert(!pair_overlaps(ps, i, b));
                assert(!pair_overlaps(ps, j, b) && !pair_overlaps(ps, b, j));
            } else if b == i {
                assert(!pair_overlaps(ps, i, a) && !pair_overlaps(ps, a, i));
            } else {
                assert(!pair_overlaps(ps, i, a));
                assert(!pair_overlaps(ps, j, a) && !pair_overlaps(ps, a, j));
            }
            assert(nv == vels);
        } else {
            // a resolution between two other particles writes only their
            // own entries
            assert(nv[i] == vi);
            assert(nv[j] == vj);
            assert(nv.len() == vels.len());
        }
        collide_from_preserves_isolated(ps, nv, i, j, vi, vj, a, b + 1);
    }
}

/// Separating pairs are untouched in a world of any size: a pair that is
/// not closing, and whose two particles pass the geometric collision test
/// with no third particle, comes out of the whole collision pass with
/// both velocities unchanged.
pub proof fn lemma_isolated_separating_pair_untouched(
    ps: Seq<Particle>,
    vels: Seq<V3>,
    i: int,
    j: int,
)
    requires
        0 <= i < ps.len(),
        0 <= j < ps.len(),
        i < j,
        vels.len() == ps.len(),
        pair_separating(ps, vels[i], vels[j], i, j),
        pair_isolated(ps, i, j),
    ensures
        collide_from(ps, vels, 0, 1).len() == vels.len(),
        collide_from(ps, vels, 0, 1)[i] == vels[i],
        collide_from(ps, vels, 0, 1)[j] == vels[j],
{
    lemma_collide_from_len(ps, vels, 0, 1);
    collide_from_preserves_isolated(ps, vels, i, j, vels[i], vels[j], 0, 1);
}

/// The velocity change the elastic resolution applies to the first
/// particle of a colliding pair (and, negated, to the second when the
/// masses are equal).
pub open spec fn impulse_delta(ps: Seq<Particle>, vels: Seq<V3>, i: int, j: int) -> V3 {
    let d = v3_sub(v4_spatial(ps[i].position), v4_spatial(ps[j].position));
    let normal = v3_div_scalar(d, fx_sqrt(v3_dot(d, d)));
    let van = v3_dot(v3_sub(vels[i], vels[j]), normal);
    let inv_mass_sum = fx_add(fx_div(fx_one(), ps[i].mass), fx_div(fx_one(), ps[j].mass));
    let imp = fx_div(fx_mul(Fx { raw: -131072i64 }, van), inv_mass_sum);
    crate::vect::v3_scale(normal, fx_div(imp, ps[i].mass))
}

/// Momentum conservation on an elastic pairwise collision of equal
/// masses: the resolution either leaves the pair alone or applies the
/// exact same velocity change to both particles with opposite signs, so
/// the summed momentum change vanishes in this arithmetic.
pub proof fn lemma_equal_mass_opposite_impulse(ps: Seq<Particle>, vels: Seq<V3>, i: int, j: int)
    requires
        ps[i].mass == ps[j].mass,
    ensures
        resolve_pair(ps, vels, i, j) == vels || resolve_pair(ps, vels, i, j) == vels.update(
            i,
            v3_add(vels[i], impulse_delta(ps, vels, i, j)),
        ).update(j, v3_sub(vels[j], impulse_delta(ps, vels, i, j))),
{
}

/// Exact exchange on a head-on elastic collision of equal unit masses.
///
/// For two overlapping, closing particles of mass one separated along the
/// x axis — with the separation such that the fixed-point square root of
/// the squared distance is exact, equal transverse velocities, and a
/// relative speed small enough that nothing saturates — the resolution is
/// the exact exchange of the two scratch velocities.
pub proof fn lemma_head_on_equal_mass_exchange(ps: Seq<Particle>, vels: Seq<V3>, i: int, j: int)
    requires
        0 <= i < ps.len(),
        0 <= j < ps.len(),
        i != j,
        vels.len() == ps.len(),
        ps[i].mass == fx_one(),
        ps[j].mass == fx_one(),
        ({
            let d = v3_sub(v4_spatial(ps[i].position), v4_spatial(ps[j].position));
            let dist_sq = v3_dot(d, d);
            let radius_sum = fx_add(ps[i].radius, ps[j].radius);
            &&& d.y.raw == 0
            &&& d.z.raw == 0
            &&& d.x.raw != 0
            &&& fx_sqrt(dist_sq).raw == vstd::math::abs(d.x.raw as int)
            &&& dist_sq.raw <= fx_mul(radius_sum, radius_sum).raw
            &&& dist_sq.raw > 0
            &&& ((d.x.raw > 0 && vels[i].x.raw < vels[j].x.raw) || (d.x.raw < 0
                && vels[i].x.raw > vels[j].x.raw))
        }),
        vels[i].y == vels[j].y,
        vels[i].z == vels[j].z,
        -0x2000000000000000 < vels[i].x.raw - vels[j].x.raw < 0x2000000000000000,
    ensures
        resolve_pair(ps, vels, i, j) == vels.update(i, vels[j]).update(j, vels[i]),
{
    let d = v3_sub(v4_spatial(ps[i].position), v4_spatial(ps[j].position));
    let dist_sq = v3_dot(d, d);
    let dist = fx_sqrt(dist_sq);
    let m = vstd::math::abs(d.x.raw as int) as int;
    assert(dist.raw == m);
    assert(m > 0);

    // The unit collision normal is exactly (+-1, 0, 0).
    let normal = v3_div_scalar(d, dist);
    let s: int = if d.x.raw > 0 {
        1int
    } else {
        -1int
    };
    assert(normal.x.raw == s * SCALE) by {
        assert(d.x.raw * SCALE == (s * SCALE) * m) by (nonlinear_arith)
            requires
                m == vstd::math::abs(d.x.raw as int),
                d.x.raw != 0,
                s == (if d.x.raw > 0 {
                    1int
                } else {
                    -1int
                }),
        ;
        lemma_div_trunc_exact(s * SCALE, m);
    }
    assert(normal.y.raw == 0);
    assert(normal.z.raw == 0);

    // The relative velocity is purely along x and nothing saturates.
    let rel = v3_sub(vels[i], vels[j]);
    let w = vels[i].x.raw - vels[j].x.raw;
    assert(rel.x.raw == w);
    assert(rel.y.raw == 0);
    assert(rel.z.raw == 0);

    // The closing speed along the normal is exactly s * w < 0.
    let van = v3_dot(rel, normal);
    assert(fx_mul(rel.x, normal.x).raw == s * w) by {
        assert(rel.x.raw * normal.x.raw == (s * w) * SCALE) by (nonlinear_arith)
            requires
                rel.x.raw == w,
                normal.x.raw == s * SCALE,
        ;
        lemma_div_trunc_exact(s * w, SCALE as int);
        assert(s * w < 0x4000000000000000int && s * w > -0x4000000000000000int)
            by (nonlinear_arith)
            requires
                s == 1int || s == -1int,
                -0x2000000000000000 < w < 0x2000000000000000,
        ;
    }
    assert(fx_mul(rel.y, normal.y).raw == 0);
    assert(fx_mul(rel.z, normal.z).raw == 0);
    assert(van.raw == s * w);
    assert(van.raw < 0) by (nonlinear_arith)
        requires
            van.raw == s * w,
            (s == 1int && w < 0) || (s == -1int && w > 0),
    ;

    // With unit masses the inverse-mass sum is exactly 2 and the impulse
    // magnitude is exactly -van.
    let inv_mass_sum = fx_add(fx_div(fx_one(), ps[i].mass), fx_div(fx_one(), ps[j].mass));
    assert(fx_div(fx_one(), fx_one()).raw == SCALE) by {
        lemma_div_trunc_exact(SCALE as int, SCALE as int);
    }
    assert(inv_mass_sum.raw == 2 * SCALE);
    let imp = fx_div(fx_mul(Fx { raw: -131072i64 }, van), inv_mass_sum);
    assert(fx_mul(Fx { raw: -131072i64 }, van).raw == -2 * van.raw) by {
        assert((-131072) * van.raw == (-2 * van.raw) * SCALE);
        lemma_div_trunc_exact(-2 * van.raw, SCALE as int);
    }
    assert(imp.raw == -van.raw) by {
        assert((-2 * van.raw) * SCALE == (-van.raw) * (2 * SCALE));
        lemma_div_trunc_exact(-van.raw, 2 * SCALE);
    }

    // The per-particle velocity change is exactly (-w, 0, 0).
    let dv = fx_div(imp, ps[i].mass);
    assert(dv.raw == imp.raw) by {
        lemma_div_trunc_exact(imp.raw as int, SCALE as int);
    }
    let delta = crate::vect::v3_scale(normal, dv);
    assert(delta.x.raw == -w) by {
        assert(normal.x.raw * dv.raw == (-w) * SCALE) by (nonlinear_arith)
            requires
                normal.x.raw == s * SCALE,
                dv.raw == -(s * w),
                s == 1int || s == -1int,
        ;
        lemma_div_trunc_exact(-w, SCALE as int);
    }
    assert(delta.y.raw == 0);
    assert(delta.z.raw == 0);

    // Applying it exchanges the velocities exactly.
    let nv_i = v3_add(vels[i], delta);
    let nv_j = v3_sub(vels[j], delta);
    assert(nv_i == vels[j]);
    assert(nv_j == vels[i]);
    assert(resolve_pair(ps, vels, i, j) == vels.update(i, nv_i).update(j, nv_j));
}

/// For a separation of a whole number of units, the fixed-point square
/// root of the squared separation is exact, which discharges the
/// exactness hypothesis of the head-on exchange law.
pub proof fn lemma_unit_separation_sqrt_exact(k: int)
    requires
        0 < k,
        k * k * SCALE <= i64::MAX,
    ensures
        fx_sqrt(Fx { raw: (k * k * SCALE) as i64 }).raw == k * SCALE,
{
    let x = k * k * SCALE * SCALE;
    assert((k * k * SCALE) as i64 > 0) by (nonlinear_arith)
        requires
            0 < k,
            k * k * SCALE <= i64::MAX,
    ;
    assert(is_isqrt(x, k * SCALE)) by (nonlinear_arith)
        requires
            0 < k,
            x == k * k * SCALE * SCALE,
    ;
    assert(((k * k * SCALE) as i64) * SCALE == x) by (nonlinear_arith)
        requires
            0 < k,
            k * k * SCALE <= i64::MAX,
            x == k * k * SCALE * SCALE,
    ;
    lemma_isqrt_unique(x, k * SCALE);
    assert(k * SCALE <= k * k * SCALE) by (nonlinear_arith)
        requires
            0 < k,
    ;
}

/// The whole collision phase of a two-particle world reduces to the one
/// pairwise resolution, so a head-on equal-mass collision exchanges the
/// two velocities exactly.
pub proof fn lemma_head_on_two_particles(ps: Seq<Particle>, vels: Seq<V3>)
    requires
        ps.len() == 2,
        vels.len() == 2,
        ps[0].mass == fx_one(),
        ps[1].mass == fx_one(),
        ({
            let d = v3_sub(v4_spatial(ps[0].position), v4_spatial(ps[1].position));
            let dist_sq = v3_dot(d, d);
            let radius_sum = fx_add(ps[0].radius, ps[1].radius);
            &&& d.y.raw == 0
            &&& d.z.raw == 0
            &&& d.x.raw != 0
            &&& fx_sqrt(dist_sq).raw == vstd::math::abs(d.x.raw as int)
            &&& dist_sq.raw <= fx_mul(radius_sum, radius_sum).raw
            &&& dist_sq.raw > 0
            &&& ((d.x.raw > 0 && vels[0].x.raw < vels[1].x.raw) || (d.x.raw < 0
                && vels[0].x.raw > vels[1].x.raw))
        }),
        vels[0].y == vels[1].y,
        vels[0].z == vels[1].z,
        -0x2000000000000000 < vels[0].x.raw - vels[1].x.raw < 0x2000000000000000,
    ensures
        collide_from(ps, vels, 0, 1) == vels.update(0, vels[1]).update(1, vels[0]),
{
    lemma_head_on_equal_mass_exchange(ps, vels, 0, 1);
    let after = resolve_pair(ps, vels, 0, 1);
    assert(collide_from(ps, vels, 0, 1) == collide_from(ps, after, 0, 2));
    assert(collide_from(ps, after, 0, 2) == collide_from(ps, after, 1, 2));
    assert(collide_from(ps, after, 1, 2) == after);
}

/// The head-on scenario in full, with every arithmetic hypothesis
/// discharged: in a two-particle world of equal unit masses, with the
/// second particle a whole number of units to the right along x,
/// transversally aligned, overlapping and closing, the collision phase
/// exchanges the two velocities exactly.
pub proof fn lemma_head_on_scenario(ps: Seq<Particle>, vels: Seq<V3>, k: int)
    requires
        ps.len() == 2,
        vels.len() == 2,
        ps[0].mass == fx_one(),
        ps[1].mass == fx_one(),
        0 < k,
        k * k * SCALE <= i64::MAX,
        ps[0].position.x.raw - ps[1].position.x.raw == -(k * SCALE),
        ps[0].position.y == ps[1].position.y,
        ps[0].position.z == ps[1].position.z,
        k * k * SCALE <= fx_mul(
            fx_add(ps[0].radius, ps[1].radius),
            fx_add(ps[0].radius, ps[1].radius),
        ).raw,
        vels[0].x.raw > vels[1].x.raw,
        vels[0].x.raw - vels[1].x.raw < 0x2000000000000000,
        vels[0].y == vels[1].y,
        vels[0].z == vels[1].z,
    ensures
        collide_from(ps, vels, 0, 1) == vels.update(0, vels[1]).update(1, vels[0]),
{
    assert(0 < k * SCALE <= k * k * SCALE) by (nonlinear_arith)
        requires
            0 < k,
    ;
    let d = v3_sub(v4_spatial(ps[0].position), v4_spatial(ps[1].position));
    assert(d.x.raw == -(k * SCALE));
    assert(d.y.raw == 0);
    assert(d.z.raw == 0);
    let dist_sq = v3_dot(d, d);
    assert(fx_mul(d.x, d.x).raw == k * k * SCALE) by {
        assert(d.x.raw * d.x.raw == (k * k * SCALE) * SCALE) by (nonlinear_arith)
            requires
                d.x.raw == -(k * SCALE),
        ;
        lemma_div_trunc_exact(k * k * SCALE, SCALE as int);
    }
    assert(fx_mul(d.y, d.y).raw == 0);
    assert(fx_mul(d.z, d.z).raw == 0);
    assert(dist_sq.raw == k * k * SCALE);
    assert(dist_sq == (Fx { raw: (k * k * SCALE) as i64 }));
    lemma_unit_separation_sqrt_exact(k);
    assert(fx_sqrt(dist_sq).raw == k * SCALE);
    assert(vstd::math::abs(d.x.raw as int) == k * SCALE);
    lemma_head_on_two_particles(ps, vels);
}

/// Idempotence of snapshot extraction: the snapshot is a pure function of
/// the particle list, so two extractions without an intervening step are
/// identical.
pub proof fn lemma_snapshot_idempotent(
    ps: Seq<Particle>,
    r1: Seq<InstanceData>,
    r2: Seq<InstanceData>,
)
    requires
        r1 == instance_data_spec(ps),
        r2 == instance_data_spec(ps),
    ensures
        r1 == r2,
{
}

} // verus!
