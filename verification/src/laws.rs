//! The algebraic laws of the tracer, stated and proved over the spec-level
//! models that the executable functions are pinned to.

use vstd::prelude::*;

use crate::fx::{
    abs_val, div_val, lemma_sqrt_floor, mul_val, neg_val, sqrt_val, sub_val, tdiv, FX_LIM,
    FX_SCALE,
};
use crate::point::{dot3, Raw3};
use crate::rendering::{plane_intersect_val, refract_val};
use crate::scene::{trace_val, DirectionalLight, Light, Scene};
use crate::tracing::{cast_ray_val, light_dir_val, light_term_val};
use crate::point::{add3, scale3};
use crate::SHADOW_BIAS;

verus! {

/// The exact (unrounded) dot product of raw triples.
pub open spec fn dot3_exact(a: Raw3, b: Raw3) -> int {
    a.0 * b.0 + a.1 * b.1 + a.2 * b.2
}

/// The exact mirror reflection of `d` about `n`, with every product carried
/// without rounding; the result is scaled up by `FX_SCALE^2` relative to `d`.
/// [`crate::rendering::reflect_dir_val`] is this formula with each step
/// rounded to fixed point.
pub open spec fn reflect_exact(d: Raw3, n: Raw3) -> Raw3 {
    let s2 = (FX_SCALE as int) * (FX_SCALE as int);
    let k = 2 * dot3_exact(d, n);
    (d.0 * s2 - k * n.0, d.1 * s2 - k * n.1, d.2 * s2 - k * n.2)
}

/// Reflecting a direction off the same unit normal twice restores the
/// original direction: over exact arithmetic, the double reflection equals
/// the original direction scaled by the bookkeeping factor `FX_SCALE^4` that
/// two unrounded reflections carry.
pub proof fn lemma_reflect_involution(d: Raw3, n: Raw3)
    requires
        dot3_exact(n, n) == (FX_SCALE as int) * (FX_SCALE as int),
    ensures
        ({
            let s4 = (FX_SCALE as int) * (FX_SCALE as int) * (FX_SCALE as int) * (
            FX_SCALE as int);
            reflect_exact(reflect_exact(d, n), n) == (d.0 * s4, d.1 * s4, d.2 * s4)
        }),
{
    let s2 = (FX_SCALE as int) * (FX_SCALE as int);
    let dn = dot3_exact(d, n);
    let r = reflect_exact(d, n);
    lemma_reflected_dot(d.0, d.1, d.2, n.0, n.1, n.2, s2, dn);
    let rn = dot3_exact(r, n);
    let rr = reflect_exact(r, n);
    lemma_reflect_component(d.0, n.0, s2, dn, rn);
    lemma_reflect_component(d.1, n.1, s2, dn, rn);
    lemma_reflect_component(d.2, n.2, s2, dn, rn);
    assert(s2 * s2 == (FX_SCALE as int) * (FX_SCALE as int) * (FX_SCALE as int) * (
    FX_SCALE as int)) by (nonlinear_arith)
        requires
            s2 == (FX_SCALE as int) * (FX_SCALE as int),
    ;
}

/// Expansion of one term of the reflected direction's dot product.
proof fn lemma_reflected_dot_term(di: int, ni: int, s2: int, dn: int) by (nonlinear_arith)
    ensures
        (di * s2 - 2 * dn * ni) * ni == di * ni * s2 - 2 * (dn * (ni * ni)),
{
}

/// The reflected direction's exact dot with a unit normal is the negated
/// incident dot, scaled.
proof fn lemma_reflected_dot(
    d0: int,
    d1: int,
    d2: int,
    n0: int,
    n1: int,
    n2: int,
    s2: int,
    dn: int,
)
    requires
        dn == d0 * n0 + d1 * n1 + d2 * n2,
        n0 * n0 + n1 * n1 + n2 * n2 == s2,
    ensures
        (d0 * s2 - 2 * dn * n0) * n0 + (d1 * s2 - 2 * dn * n1) * n1 + (d2 * s2 - 2 * dn * n2)
            * n2 == -(dn * s2),
{
    lemma_reflected_dot_term(d0, n0, s2, dn);
    lemma_reflected_dot_term(d1, n1, s2, dn);
    lemma_reflected_dot_term(d2, n2, s2, dn);
    assert(d0 * n0 * s2 + d1 * n1 * s2 + d2 * n2 * s2 == dn * s2) by (nonlinear_arith)
        requires
            dn == d0 * n0 + d1 * n1 + d2 * n2,
    ;
    assert(dn * (n0 * n0) + dn * (n1 * n1) + dn * (n2 * n2) == dn * s2) by (nonlinear_arith)
        requires
            n0 * n0 + n1 * n1 + n2 * n2 == s2,
    ;
}

/// One component of the double reflection, given the reflected dot.
proof fn lemma_reflect_component(di: int, ni: int, s2: int, dn: int, rn: int) by (nonlinear_arith)
    requires
        rn == -(dn * s2),
    ensures
        (di * s2 - 2 * dn * ni) * s2 - 2 * rn * ni == di * (s2 * s2),
{
}

/// Below or at the critical boundary the computed transmitted sine stays
/// within one: `n2 * sin_alpha <= n1 * 1` makes the fixed-point
/// `(n2 / n1) * sin_alpha` at most one, because truncation only shrinks
/// magnitudes.
proof fn lemma_sin_beta_below(n1: int, n2: int, sa: int)
    requires
        n1 >= FX_SCALE,
        0 < n2 <= FX_LIM,
        0 <= sa <= FX_SCALE,
        n2 * sa <= n1 * FX_SCALE,
    ensures
        0 <= mul_val(div_val(n2, n1), sa) <= FX_SCALE,
{
    let s = FX_SCALE as int;
    let q = tdiv(n2 * s, n1);
    assert(q == (n2 * s) / n1);
    assert(q >= 0 && q * n1 <= n2 * s) by (nonlinear_arith)
        requires
            q == (n2 * s) / n1,
            n2 * s >= 0,
            n1 > 0,
    ;
    assert(0 <= q <= FX_LIM) by (nonlinear_arith)
        requires
            q >= 0,
            q * n1 <= n2 * s,
            n1 >= s,
            s > 0,
            0 < n2 <= FX_LIM as int,
    ;
    assert(div_val(n2, n1) == q);
    assert(q * sa <= s * s) by (nonlinear_arith)
        requires
            q >= 0,
            sa >= 0,
            q * n1 <= n2 * s,
            n2 * sa <= n1 * s,
            n1 > 0,
            s > 0,
    ;
    let m = tdiv(q * sa, s);
    assert(m == (q * sa) / s);
    assert(0 <= m <= s) by (nonlinear_arith)
        requires
            m == (q * sa) / s,
            0 <= q * sa <= s * s,
            s > 0,
    ;
    assert(mul_val(q, sa) == m);
}

/// Past the critical boundary, with one raw unit of slack for each of the
/// two truncations, the computed transmitted sine exceeds one.
proof fn lemma_sin_beta_above(n1: int, n2: int, sa: int)
    requires
        n1 >= FX_SCALE,
        0 < n2 <= FX_LIM,
        0 <= sa <= FX_SCALE,
        n2 * sa >= n1 * (FX_SCALE + 2),
    ensures
        mul_val(div_val(n2, n1), sa) > FX_SCALE,
{
    let s = FX_SCALE as int;
    let q = tdiv(n2 * s, n1);
    assert(q == (n2 * s) / n1);
    assert(q >= 0 && q * n1 > n2 * s - n1 && q * n1 <= n2 * s) by (nonlinear_arith)
        requires
            q == (n2 * s) / n1,
            n2 * s >= 0,
            n1 > 0,
    ;
    assert(q * sa >= s * s + s) by (nonlinear_arith)
        requires
            q * n1 > n2 * s - n1,
            n2 * sa >= n1 * (s + 2),
            0 <= sa <= s,
            n1 > 0,
            s > 0,
            q >= 0,
    ;
    let m = tdiv(q * sa, s);
    assert(m == (q * sa) / s);
    assert(m > s) by (nonlinear_arith)
        requires
            m == (q * sa) / s,
            q * sa >= s * s + s,
            s > 0,
    ;
    assert(q <= FX_LIM) by (nonlinear_arith)
        requires
            q >= 0,
            q * n1 <= n2 * s,
            n1 >= s,
            s > 0,
            0 < n2 <= FX_LIM as int,
    ;
    assert(div_val(n2, n1) == q);
    assert(mul_val(q, sa) == if m > FX_LIM {
        FX_LIM as int
    } else {
        m
    });
}

/// The critical-angle boundary of refraction.  With `n1, n2` and the
/// incident cosine as [`refract_val`] derives them, a transmitted sine past
/// one (with one raw unit of slack per truncation) forces total internal
/// reflection — no ray is returned; a transmitted sine at most one always
/// yields a transmitted ray.
pub proof fn lemma_refract_critical_angle(d: Raw3, n0: Raw3, hp: Raw3, index: int)
    requires
        FX_SCALE <= index <= FX_LIM,
    ensures
        ({
            let c0 = neg_val(dot3(n0, d));
            let n1 = if c0 < 0 {
                index
            } else {
                FX_SCALE as int
            };
            let n2 = if c0 < 0 {
                FX_SCALE as int
            } else {
                index
            };
            let ca = if c0 < 0 {
                neg_val(c0)
            } else {
                c0
            };
            let sa = sqrt_val(sub_val(FX_SCALE as int, mul_val(ca, ca)));
            &&& (n2 * sa >= n1 * (FX_SCALE + 2) ==> refract_val(d, n0, hp, index) is None)
            &&& (n2 * sa <= n1 * FX_SCALE ==> refract_val(d, n0, hp, index) is Some)
        }),
{
    let s = FX_SCALE as int;
    let c0 = neg_val(dot3(n0, d));
    let n1 = if c0 < 0 {
        index
    } else {
        s
    };
    let n2 = if c0 < 0 {
        s
    } else {
        index
    };
    let ca = if c0 < 0 {
        neg_val(c0)
    } else {
        c0
    };
    let x = sub_val(s, mul_val(ca, ca));
    let sa = sqrt_val(x);
    assert(0 <= sa <= s) by {
        if x <= 0 {
            assert(sa == 0);
        } else {
            lemma_sqrt_floor(x * s);
            assert(x <= s);
            assert(sa * sa <= x * s);
            assert(sa >= 0);
            assert(sa <= s) by (nonlinear_arith)
                requires
                    sa >= 0,
                    sa * sa <= x * s,
                    0 < x <= s,
                    s > 0,
            ;
        }
    }
    let sb = mul_val(div_val(n2, n1), sa);
    if n2 * sa >= n1 * (s + 2) {
        lemma_sin_beta_above(n1, n2, sa);
        assert(sub_val(s, mul_val(sb, sb)) < 0) by {
            assert(sb > s);
            assert(sb <= FX_LIM);
            let p = tdiv(sb * sb, s);
            assert(p == (sb * sb) / s);
            assert(p > s + 1) by (nonlinear_arith)
                requires
                    p == (sb * sb) / s,
                    s < sb <= 0x4000_0000_0000_0000,
                    s == FX_SCALE as int,
            ;
            assert(mul_val(sb, sb) > s + 1);
        }
    }
    if n2 * sa <= n1 * s {
        lemma_sin_beta_below(n1, n2, sa);
        assert(sub_val(s, mul_val(sb, sb)) >= 0) by {
            assert(0 <= sb <= s);
            let p = tdiv(sb * sb, s);
            assert(p == (sb * sb) / s);
            assert(0 <= p <= s) by (nonlinear_arith)
                requires
                    p == (sb * sb) / s,
                    0 <= sb <= s,
                    s > 0,
            ;
            assert(mul_val(sb, sb) == p);
        }
    }
}

/// At the recursion-depth limit the engine returns exact black, for every
/// scene, every ray, and every depth limit.
pub proof fn lemma_cast_ray_depth_black(scene: Scene, orig: Raw3, dir: Raw3, depth: int)
    requires
        depth >= scene.max_recursion_depth,
    ensures
        cast_ray_val(scene, orig, dir, depth) == (0int, 0int, 0int),
{
}

/// A directional light whose shadow ray hits any occluder contributes
/// exactly nothing to the diffuse term.
pub proof fn lemma_shadowed_directional_dark(
    scene: Scene,
    l: DirectionalLight,
    oi: int,
    hp: Raw3,
    n: Raw3,
)
    requires
        trace_val(
            scene.objects@,
            add3(hp, scale3(n, SHADOW_BIAS as int)),
            light_dir_val(Light::Directional(l), hp),
        ) is Some,
    ensures
        light_term_val(scene, Light::Directional(l), oi, hp, n) == (0int, 0int, 0int),
{
    let light = Light::Directional(l);
    let dtl = light_dir_val(light, hp);
    assert(crate::tracing::light_intensity_val(scene, light, hp, n) == 0);
    assert(mul_val(dot3(n, dtl), 0) == 0);
}

/// The distance a plane reports solves the plane equation exactly, up to the
/// remainder of one fixed-point division: `distance * denom` falls within
/// `denom` raw units of the exact scaled solution `vn * FX_SCALE`, for
/// `vn = (plane origin - ray origin) . normal` and `denom = normal . dir` as
/// the intersection test computes them.
pub proof fn lemma_plane_distance_solves(vn: int, denom: int)
    requires
        denom > 0,
        vn >= 0,
        tdiv(vn * FX_SCALE, denom) <= FX_LIM,
    ensures
        ({
            let distance = div_val(vn, denom);
            0 <= vn * FX_SCALE - distance * denom < denom
        }),
{
    let s = FX_SCALE as int;
    let q = tdiv(vn * s, denom);
    assert(q == (vn * s) / denom);
    assert(0 <= vn * s - q * denom < denom) by (nonlinear_arith)
        requires
            q == (vn * s) / denom,
            vn * s >= 0,
            denom > 0,
    ;
    assert(div_val(vn, denom) == q);
}

/// Truncating division leaves a remainder smaller than the divisor.
proof fn lemma_trunc_rem(x: int, d: int)
    requires
        d > 0,
    ensures
        abs_val(x - d * tdiv(x, d)) < d,
{
    if x >= 0 {
        assert(tdiv(x, d) == x / d);
        vstd::arithmetic::div_mod::lemma_fundamental_div_mod(x, d);
        vstd::arithmetic::div_mod::lemma_mod_bound(x, d);
    } else {
        let y = -x;
        assert(tdiv(x, d) == -(y / d));
        vstd::arithmetic::div_mod::lemma_fundamental_div_mod(y, d);
        vstd::arithmetic::div_mod::lemma_mod_bound(y, d);
        assert(d * (-(y / d)) == -(d * (y / d))) by (nonlinear_arith);
    }
}

/// The magnitude of a product is bounded by the product of the bounds.
proof fn lemma_abs_mul_bound(a: int, b: int, ca: int, cb: int) by (nonlinear_arith)
    requires
        abs_val(a) <= ca,
        abs_val(b) <= cb,
    ensures
        abs_val(a * b) <= ca * cb,
{
}

/// A bounded fixed-point product does not saturate: it is the truncated
/// quotient, with its remainder and magnitude pinned.
proof fn lemma_mul_val_split(a: int, b: int, bound: int)
    requires
        abs_val(a * b) <= bound,
        bound <= 0x4000_0000_0000_0000_0000,
    ensures
        mul_val(a, b) == tdiv(a * b, FX_SCALE as int),
        abs_val(a * b - FX_SCALE * mul_val(a, b)) < FX_SCALE,
        abs_val(mul_val(a, b)) * FX_SCALE <= bound + FX_SCALE,
{
    let s = FX_SCALE as int;
    lemma_trunc_rem(a * b, s);
    let t = tdiv(a * b, s);
    assert(abs_val(s * t) <= abs_val(a * b) + s);
    assert(abs_val(t) * s == abs_val(s * t)) by (nonlinear_arith)
        requires
            s > 0,
    ;
    assert(abs_val(t) * s <= bound + s);
    assert(abs_val(t) < FX_LIM);
}

/// The hit point a plane reports lies on the plane within fixed-point
/// tolerance: recomputing `(hit - origin) . normal` through the same rounded
/// operations the tracer uses leaves a residue of a few raw units — bounded
/// by the truncation error of each step, growing only with the denominator
/// and, through the denominator's own rounding, the distance.
#[verifier::rlimit(100)]
#[verifier::spinoff_prover]
pub proof fn lemma_plane_hit_on_surface(orig: Raw3, porig: Raw3, dir: Raw3, pn: Raw3, dist: int)
    requires
        abs_val(orig.0) <= 0x40_0000_0000,
        abs_val(orig.1) <= 0x40_0000_0000,
        abs_val(orig.2) <= 0x40_0000_0000,
        abs_val(porig.0) <= 0x40_0000_0000,
        abs_val(porig.1) <= 0x40_0000_0000,
        abs_val(porig.2) <= 0x40_0000_0000,
        abs_val(dir.0) <= 0x20_0000,
        abs_val(dir.1) <= 0x20_0000,
        abs_val(dir.2) <= 0x20_0000,
        abs_val(pn.0) <= 0x20_0000,
        abs_val(pn.1) <= 0x20_0000,
        abs_val(pn.2) <= 0x20_0000,
        plane_intersect_val(porig, pn, orig, dir) == Some(dist),
        dist <= 0x200_0000_0000,
    ensures
        ({
            let hp = crate::point::add3(orig, crate::point::scale3(dir, dist));
            let e = dot3(crate::point::sub3(hp, porig), pn);
            abs_val(e) * FX_SCALE <= 6 * FX_SCALE + dot3(pn, dir) + 3 * dist + 3 * 0x20_0000
        }),
{
    let s = FX_SCALE as int;

    // the intersection mirror, unfolded: a front-facing denominator and a
    // nonnegative truncated distance
    let denom = dot3(pn, dir);
    let v = crate::point::sub3(porig, orig);
    let vn = dot3(v, pn);
    assert(denom > crate::rendering::PLANE_EPS);
    assert(dist == div_val(vn, denom));
    assert(dist >= 0);

    // the denominator: three rounded products and their remainders
    lemma_abs_mul_bound(pn.0, dir.0, 0x20_0000, 0x20_0000);
    lemma_abs_mul_bound(pn.1, dir.1, 0x20_0000, 0x20_0000);
    lemma_abs_mul_bound(pn.2, dir.2, 0x20_0000, 0x20_0000);
    lemma_mul_val_split(pn.0, dir.0, 0x400_0000_0000);
    lemma_mul_val_split(pn.1, dir.1, 0x400_0000_0000);
    lemma_mul_val_split(pn.2, dir.2, 0x400_0000_0000);
    let a0 = mul_val(pn.0, dir.0);
    let a1 = mul_val(pn.1, dir.1);
    let a2 = mul_val(pn.2, dir.2);
    let b0 = pn.0 * dir.0 - s * a0;
    let b1 = pn.1 * dir.1 - s * a1;
    let b2 = pn.2 * dir.2 - s * a2;
    let capb = b0 + b1 + b2;
    assert(abs_val(a0) <= 0x400_0001 && abs_val(a1) <= 0x400_0001 && abs_val(a2) <= 0x400_0001);
    assert(denom == a0 + a1 + a2);
    assert(s * denom == pn.0 * dir.0 + pn.1 * dir.1 + pn.2 * dir.2 - capb);
    assert(abs_val(capb) <= 3 * s);

    // the offset to the plane origin is exact, its dot product rounded
    assert(v.0 == porig.0 - orig.0 && v.1 == porig.1 - orig.1 && v.2 == porig.2 - orig.2);
    lemma_abs_mul_bound(v.0, pn.0, 0x80_0000_0000, 0x20_0000);
    lemma_abs_mul_bound(v.1, pn.1, 0x80_0000_0000, 0x20_0000);
    lemma_abs_mul_bound(v.2, pn.2, 0x80_0000_0000, 0x20_0000);
    lemma_mul_val_split(v.0, pn.0, 0x1000_0000_0000_0000);
    lemma_mul_val_split(v.1, pn.1, 0x1000_0000_0000_0000);
    lemma_mul_val_split(v.2, pn.2, 0x1000_0000_0000_0000);
    let t0 = mul_val(v.0, pn.0);
    let t1 = mul_val(v.1, pn.1);
    let t2 = mul_val(v.2, pn.2);
    let w0 = v.0 * pn.0 - s * t0;
    let w1 = v.1 * pn.1 - s * t1;
    let w2 = v.2 * pn.2 - s * t2;
    let capw = w0 + w1 + w2;
    assert(abs_val(t0) <= 0x100_0000_0001 && abs_val(t1) <= 0x100_0000_0001 && abs_val(t2)
        <= 0x100_0000_0001);
    assert(vn == t0 + t1 + t2);
    assert(abs_val(vn) <= 0x300_0000_0003);
    assert(abs_val(capw) <= 3 * s);

    // the division: its truncation remainder is below the denominator
    lemma_trunc_rem(vn * s, denom);
    let q = tdiv(vn * s, denom);
    let rho = vn * s - denom * q;
    assert(abs_val(rho) < denom);
    assert(abs_val(denom * q) <= abs_val(vn * s) + denom);
    assert(abs_val(vn * s) == abs_val(vn) * s) by (nonlinear_arith)
        requires
            s > 0,
    ;
    assert(abs_val(denom * q) == denom * abs_val(q)) by (nonlinear_arith)
        requires
            denom > 0,
    ;
    assert(2 * abs_val(q) <= denom * abs_val(q)) by (nonlinear_arith)
        requires
            denom >= 2,
            abs_val(q) >= 0,
    ;
    assert(abs_val(vn) * s <= 0x300_0000_0003 * s);
    assert(abs_val(q) <= FX_LIM);
    assert(dist == q);

    // the hit point: each component offset by a rounded product of the
    // direction with the distance
    lemma_abs_mul_bound(dir.0, dist, 0x20_0000, 0x200_0000_0000);
    lemma_abs_mul_bound(dir.1, dist, 0x20_0000, 0x200_0000_0000);
    lemma_abs_mul_bound(dir.2, dist, 0x20_0000, 0x200_0000_0000);
    lemma_mul_val_split(dir.0, dist, 0x4000_0000_0000_0000);
    lemma_mul_val_split(dir.1, dist, 0x4000_0000_0000_0000);
    lemma_mul_val_split(dir.2, dist, 0x4000_0000_0000_0000);
    let m0 = mul_val(dir.0, dist);
    let m1 = mul_val(dir.1, dist);
    let m2 = mul_val(dir.2, dist);
    let r0 = dir.0 * dist - s * m0;
    let r1 = dir.1 * dist - s * m1;
    let r2 = dir.2 * dist - s * m2;
    assert(abs_val(m0) <= 0x400_0000_0001 && abs_val(m1) <= 0x400_0000_0001 && abs_val(m2)
        <= 0x400_0000_0001);

    let hp = crate::point::add3(orig, crate::point::scale3(dir, dist));
    assert(hp.0 == orig.0 + m0 && hp.1 == orig.1 + m1 && hp.2 == orig.2 + m2);

    let qd = crate::point::sub3(hp, porig);
    assert(qd.0 == hp.0 - porig.0 && qd.1 == hp.1 - porig.1 && qd.2 == hp.2 - porig.2);
    assert(abs_val(qd.0) <= 0x480_0000_0001 && abs_val(qd.1) <= 0x480_0000_0001 && abs_val(qd.2)
        <= 0x480_0000_0001);

    // the residue: three more rounded products
    lemma_abs_mul_bound(qd.0, pn.0, 0x480_0000_0001, 0x20_0000);
    lemma_abs_mul_bound(qd.1, pn.1, 0x480_0000_0001, 0x20_0000);
    lemma_abs_mul_bound(qd.2, pn.2, 0x480_0000_0001, 0x20_0000);
    lemma_mul_val_split(qd.0, pn.0, 0x90_0000_0000_0020_0000);
    lemma_mul_val_split(qd.1, pn.1, 0x90_0000_0000_0020_0000);
    lemma_mul_val_split(qd.2, pn.2, 0x90_0000_0000_0020_0000);
    let u0 = mul_val(qd.0, pn.0);
    let u1 = mul_val(qd.1, pn.1);
    let u2 = mul_val(qd.2, pn.2);
    let s0 = qd.0 * pn.0 - s * u0;
    let s1 = qd.1 * pn.1 - s * u1;
    let s2 = qd.2 * pn.2 - s * u2;
    let e = dot3(qd, pn);
    assert(e == u0 + u1 + u2);

    // assemble: each residue term expands into the exact offset term, the
    // direction term, and the product remainders
    assert(s * (qd.0 * pn.0) == -(s * (v.0 * pn.0)) + dist * (pn.0 * dir.0) - r0 * pn.0)
        by (nonlinear_arith)
        requires
            qd.0 == orig.0 + m0 - porig.0,
            v.0 == porig.0 - orig.0,
            s * m0 == dir.0 * dist - r0,
    ;
    assert(s * (qd.1 * pn.1) == -(s * (v.1 * pn.1)) + dist * (pn.1 * dir.1) - r1 * pn.1)
        by (nonlinear_arith)
        requires
            qd.1 == orig.1 + m1 - porig.1,
            v.1 == porig.1 - orig.1,
            s * m1 == dir.1 * dist - r1,
    ;
    assert(s * (qd.2 * pn.2) == -(s * (v.2 * pn.2)) + dist * (pn.2 * dir.2) - r2 * pn.2)
        by (nonlinear_arith)
        requires
            qd.2 == orig.2 + m2 - porig.2,
            v.2 == porig.2 - orig.2,
            s * m2 == dir.2 * dist - r2,
    ;
    assert(dist * (pn.0 * dir.0) + dist * (pn.1 * dir.1) + dist * (pn.2 * dir.2) == s * (dist
        * denom) + dist * capb) by (nonlinear_arith)
        requires
            s * denom == pn.0 * dir.0 + pn.1 * dir.1 + pn.2 * dir.2 - capb,
    ;
    assert(dist * denom == vn * s - rho) by (nonlinear_arith)
        requires
            rho == vn * s - denom * dist,
    ;
    // sum of the three expansions, with the scaled dot products substituted
    assert(s * (s * e) == -(s * capw) - s * rho + dist * capb - (r0 * pn.0 + r1 * pn.1 + r2
        * pn.2) - s * (s0 + s1 + s2));

    // bound every remainder contribution
    lemma_abs_mul_bound(r0, pn.0, s, 0x20_0000);
    lemma_abs_mul_bound(r1, pn.1, s, 0x20_0000);
    lemma_abs_mul_bound(r2, pn.2, s, 0x20_0000);
    assert(abs_val(dist * capb) <= dist * (3 * s)) by (nonlinear_arith)
        requires
            dist >= 0,
            abs_val(capb) <= 3 * s,
    ;
    assert(abs_val(s * (s * e)) <= s * (3 * s) + s * denom + dist * (3 * s) + 3 * (s * 0x20_0000)
        + s * (3 * s));
    assert(abs_val(e) * s * s == abs_val(s * (s * e))) by (nonlinear_arith)
        requires
            s > 0,
    ;
    assert(abs_val(e) * s <= 6 * s + denom + 3 * dist + 3 * 0x20_0000);
}

/// The root offset a sphere reports is the floor square root of the radical:
/// `inside^2 <= (radius_sq - d_sq) * FX_SCALE < (inside + 1)^2` for
/// `inside = sqrt_val(radius_sq - d_sq)` whenever the radical is nonnegative.
pub proof fn lemma_sphere_root_bounds(radical: int)
    requires
        radical >= 0,
    ensures
        sqrt_val(radical) * sqrt_val(radical) <= radical * FX_SCALE,
        radical * FX_SCALE < (sqrt_val(radical) + 1) * (sqrt_val(radical) + 1),
{
    if radical == 0 {
        assert(sqrt_val(0) == 0);
    } else {
        lemma_sqrt_floor(radical * FX_SCALE);
    }
}

} // verus!
