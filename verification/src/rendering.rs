//! Rays, ray transforms, and the intersection protocol.
//!
//! Reflection, refraction (Snell's law with total internal reflection) and
//! Fresnel/Schlick reflectance are computed over fixed-point scalars; each
//! function's result is pinned down exactly by a spec-function mirror.  The
//! inverse trigonometric functions used only for sphere texture coordinates
//! are small fixed-point approximations, likewise mirrored exactly.
//!
//! Fresnel's full equations are the primary reflectance; Schlick's
//! approximation is provided as a documented alternative and is not silently
//! substituted anywhere.

use vstd::prelude::*;

use crate::fx::{
    abs_fx_val, add_val, clip, div_val, mul_val, neg_val, sqrt_val, sub_val, Fx, FX_SCALE,
};
use crate::point::{
    add3, cross3, dot3, mag3, neg3, norm3, scale3, sub3, Point, Raw3, Vector3,
};
use crate::scene::Scene;
use crate::SHADOW_BIAS;

verus! {

/// Threshold on a plane's `normal . direction`: smaller denominators count as
/// parallel or back-facing, making planes one-sided.  One raw unit is about
/// `9.5e-7`.
pub const PLANE_EPS: i64 = 1;

/// Pi, in raw fixed-point units (truncated).
pub const PI_FX: i64 = 3294198;

/// Pi / 2, in raw fixed-point units (truncated).
pub const HALF_PI_FX: i64 = 1647099;

/// Pi / 4, in raw fixed-point units (truncated).
pub const QUARTER_PI_FX: i64 = 823549;

/// 1 / pi, in raw fixed-point units (truncated).
pub const FRAC_1_PI_FX: i64 = 333772;

/// 4 * pi, in raw fixed-point units (truncated).
pub const FOUR_PI_FX: i64 = 13176794;

/// 1 / 2, in raw fixed-point units (exact).
pub const HALF_FX: i64 = 524288;

/// The quadratic correction coefficient of the arctangent approximation on
/// `[0, 1]`: `0.273` in raw fixed-point units.
pub const K_ATAN_FX: i64 = 286261;

/// A ray: an origin and a direction (nominally unit length).
#[derive(Clone, Copy, PartialEq, Eq, Structural, Debug)]
pub struct Ray {
    pub origin: Point,
    pub direction: Vector3,
}

/// Local surface coordinates of a hit point, used for texture lookup.
#[derive(Clone, Copy, PartialEq, Eq, Structural, Debug)]
pub struct TextureCoords {
    pub x: Fx,
    pub y: Fx,
}

/// Raw arctangent approximation on `[0, 1]`:
/// `(pi/4) z + 0.273 z (1 - z)`, exact at the endpoints of the octant.
pub open spec fn atan01_val(z: int) -> int {
    add_val(mul_val(z, QUARTER_PI_FX as int), mul_val(K_ATAN_FX as int, mul_val(z, sub_val(
    FX_SCALE as int, z))))
}

/// Raw two-argument arctangent: octant reduction onto [`atan01_val`], with
/// the principal-value signs; zero at the origin.
pub open spec fn atan2_val(y: int, x: int) -> int {
    if x == 0 && y == 0 {
        0
    } else {
        let ax = abs_fx_val(x);
        let ay = abs_fx_val(y);
        let base = if ax >= ay {
            atan01_val(div_val(ay, ax))
        } else {
            sub_val(HALF_PI_FX as int, atan01_val(div_val(ax, ay)))
        };
        if x >= 0 {
            if y >= 0 {
                base
            } else {
                neg_val(base)
            }
        } else {
            if y >= 0 {
                sub_val(PI_FX as int, base)
            } else {
                neg_val(sub_val(PI_FX as int, base))
            }
        }
    }
}

/// Raw arccosine, as `atan2(sqrt(1 - t^2), t)`.
pub open spec fn acos_val(t: int) -> int {
    atan2_val(sqrt_val(sub_val(FX_SCALE as int, mul_val(t, t))), t)
}

/// Arctangent approximation on `[0, 1]`.
fn atan01(z: Fx) -> (r: Fx)
    ensures
        r.raw as int == atan01_val(z.raw as int),
{
    z.times(Fx { raw: QUARTER_PI_FX }).plus(
        Fx { raw: K_ATAN_FX }.times(z.times(Fx::one().minus(z))),
    )
}

/// Two-argument arctangent over fixed-point scalars, by octant reduction.
pub fn atan2_fx(y: Fx, x: Fx) -> (r: Fx)
    ensures
        r.raw as int == atan2_val(y.raw as int, x.raw as int),
{
    if x.raw == 0 && y.raw == 0 {
        return Fx::zero();
    }
    let ax = x.abs();
    let ay = y.abs();
    let base = if ax.raw >= ay.raw {
        atan01(ay.divide(ax))
    } else {
        Fx { raw: HALF_PI_FX }.minus(atan01(ax.divide(ay)))
    };
    if x.raw >= 0 {
        if y.raw >= 0 {
            base
        } else {
            base.neg()
        }
    } else {
        if y.raw >= 0 {
            Fx { raw: PI_FX }.minus(base)
        } else {
            Fx { raw: PI_FX }.minus(base).neg()
        }
    }
}

/// Arccosine over fixed-point scalars.
pub fn acos_fx(t: Fx) -> (r: Fx)
    ensures
        r.raw as int == acos_val(t.raw as int),
{
    atan2_fx(Fx::one().minus(t.times(t)).sqrt(), t)
}

/// Raw origin of a bounce ray: the hit point offset along the normal.
pub open spec fn reflect_origin_val(hp: Raw3, n: Raw3) -> Raw3 {
    add3(hp, scale3(n, SHADOW_BIAS as int))
}

/// Raw direction of the mirror reflection: `d - 2 (d . n) n`.
pub open spec fn reflect_dir_val(d: Raw3, n: Raw3) -> Raw3 {
    sub3(d, scale3(scale3(n, 2 * FX_SCALE), dot3(d, n)))
}

/// Raw `(cos_alpha, n1, n2)` for a refractive boundary: the cosine made
/// nonnegative, the indices swapped when the ray leaves the medium.
pub open spec fn initial_data_val(d: Raw3, n: Raw3, index: int) -> (int, int, int) {
    let c = neg_val(dot3(d, n));
    if c < 0 {
        (neg_val(c), index, FX_SCALE as int)
    } else {
        (c, FX_SCALE as int, index)
    }
}

/// Raw refraction result: `Some((origin, direction))` of the transmitted ray,
/// or `None` on total internal reflection (the computed transmitted sine
/// exceeding one).
pub open spec fn refract_val(d: Raw3, n0: Raw3, hp: Raw3, index: int) -> Option<(Raw3, Raw3)> {
    let c0 = neg_val(dot3(n0, d));
    let n = if c0 < 0 {
        neg3(n0)
    } else {
        n0
    };
    let n1 = if c0 < 0 {
        index
    } else {
        FX_SCALE as int
    };
    let n2 = if c0 < 0 {
        FX_SCALE as int
    } else {
        index
    };
    let cos_alpha = if c0 < 0 {
        neg_val(c0)
    } else {
        c0
    };
    let sin_alpha = sqrt_val(sub_val(FX_SCALE as int, mul_val(cos_alpha, cos_alpha)));
    let sin_beta = mul_val(div_val(n2, n1), sin_alpha);
    if sub_val(FX_SCALE as int, mul_val(sin_beta, sin_beta)) < 0 {
        None
    } else {
        let cos_beta = sqrt_val(sub_val(FX_SCALE as int, mul_val(sin_beta, sin_beta)));
        let v1 = scale3(neg3(n), cos_alpha);
        let h1 = sub3(d, v1);
        let v2 = scale3(neg3(n), cos_beta);
        let h2 = scale3(norm3(h1), sin_beta);
        let r2 = add3(v2, h2);
        Some((sub3(hp, scale3(n, SHADOW_BIAS as int)), r2))
    }
}

/// Raw Fresnel reflectance: the mean of the squared s- and p-polarized
/// amplitude ratios; one past the critical angle.  A vanishing fixed-point
/// denominator (extreme grazing incidence) also yields one, keeping the
/// computation total.
pub open spec fn fresnel_val(d: Raw3, n: Raw3, index: int) -> int {
    let idat = initial_data_val(d, n, index);
    let cos_alpha = idat.0;
    let n1 = idat.1;
    let n2 = idat.2;
    let sin_alpha = sqrt_val(sub_val(FX_SCALE as int, mul_val(cos_alpha, cos_alpha)));
    let sin_beta = mul_val(div_val(n1, n2), sin_alpha);
    if abs_fx_val(sin_beta) > FX_SCALE {
        FX_SCALE as int
    } else {
        let cos_beta = sqrt_val(sub_val(FX_SCALE as int, mul_val(sin_beta, sin_beta)));
        let ds = add_val(mul_val(n1, cos_alpha), mul_val(n2, cos_beta));
        let dt = add_val(mul_val(n1, cos_beta), mul_val(n2, cos_alpha));
        if ds == 0 || dt == 0 {
            FX_SCALE as int
        } else {
            let r_s = div_val(sub_val(mul_val(n1, cos_alpha), mul_val(n2, cos_beta)), ds);
            let r_t = div_val(sub_val(mul_val(n1, cos_beta), mul_val(n2, cos_alpha)), dt);
            mul_val(HALF_FX as int, add_val(mul_val(r_s, r_s), mul_val(r_t, r_t)))
        }
    }
}

/// Raw Schlick reflectance: `r0 + (1 - r0)(1 - cos_alpha)^5` with
/// `r0 = ((n1 - n2) / (n1 + n2))^2`.
pub open spec fn schlicks_val(d: Raw3, n: Raw3, index: int) -> int {
    let idat = initial_data_val(d, n, index);
    let cos_alpha = idat.0;
    let n1 = idat.1;
    let n2 = idat.2;
    let p = div_val(sub_val(n1, n2), add_val(n1, n2));
    let r0 = mul_val(p, p);
    let t = sub_val(FX_SCALE as int, cos_alpha);
    let t2 = mul_val(t, t);
    let t5 = mul_val(mul_val(t2, t2), t);
    add_val(r0, mul_val(sub_val(FX_SCALE as int, r0), t5))
}

impl Ray {
    /// The primary ray through pixel `(x, y)`: the sensor point is mapped
    /// into `[-1, 1]` (aspect-corrected horizontally; the field of view is
    /// stored but not applied, a fixed framing), the camera fixed at the
    /// origin looking down `-z`.
    pub fn create_prime(x: u32, y: u32, scene: &Scene) -> (r: Ray)
        requires
            scene.width > 0,
            scene.height > 0,
        ensures
            r.origin.raw3() == (0int, 0int, 0int),
            r.direction.raw3() == prime_dir_val(
                x as int,
                y as int,
                scene.width as int,
                scene.height as int,
            ),
    {
        let w = Fx::from_int(scene.width as i64);
        let h = Fx::from_int(scene.height as i64);
        let aspect_ratio = w.divide(h);
        let half = Fx { raw: HALF_FX };
        let two = Fx::from_int(2);
        let sensor_x = two.times(Fx::from_int(x as i64).plus(half)).divide(w).minus(
            Fx::one(),
        ).times(aspect_ratio);
        let sensor_y = two.times(Fx::from_int(y as i64).plus(half)).divide(h).minus(Fx::one());
        Ray {
            origin: Point::zero(),
            direction: Vector3 { x: sensor_x, y: sensor_y, z: Fx::one().neg() }.normalize(),
        }
    }

    /// The mirror reflection of this ray at a hit point, its origin offset
    /// along the surface normal.
    pub fn reflect(&self, hit_point: Point, surface_normal: Vector3) -> (r: Ray)
        ensures
            r.origin.raw3() == reflect_origin_val(hit_point.raw3(), surface_normal.raw3()),
            r.direction.raw3() == reflect_dir_val(self.direction.raw3(), surface_normal.raw3()),
    {
        Ray {
            origin: hit_point.plus(surface_normal.scale(Fx { raw: SHADOW_BIAS }).to_point()),
            direction: self.direction.minus(
                surface_normal.scale(Fx::from_int(2)).scale(
                    self.direction.dot(&surface_normal),
                ),
            ),
        }
    }

    /// The `(cos_alpha, n1, n2)` triple for a refractive boundary.
    pub fn get_initial_data(&self, surface_normal: Vector3, index: Fx) -> (r: (Fx, Fx, Fx))
        ensures
            (r.0.raw as int, r.1.raw as int, r.2.raw as int) == initial_data_val(
                self.direction.raw3(),
                surface_normal.raw3(),
                index.raw as int,
            ),
    {
        let cos_alpha = self.direction.dot(&surface_normal).neg();
        if cos_alpha.raw < 0 {
            // the ray goes from inside to outside
            (cos_alpha.neg(), index, Fx::one())
        } else {
            // the ray goes from outside to inside
            (cos_alpha, Fx::one(), index)
        }
    }

    /// The transmitted ray at a refractive boundary, or `None` on total
    /// internal reflection.
    pub fn refract(&self, hit_point: Point, surface_normal: Vector3, index: Fx) -> (r: Option<
        Ray,
    >)
        requires
            index.raw > 0,
        ensures
            match r {
                Some(ray) => refract_val(
                    self.direction.raw3(),
                    surface_normal.raw3(),
                    hit_point.raw3(),
                    index.raw as int,
                ) == Some((ray.origin.raw3(), ray.direction.raw3())),
                None => refract_val(
                    self.direction.raw3(),
                    surface_normal.raw3(),
                    hit_point.raw3(),
                    index.raw as int,
                ) is None,
            },
    {
        let c0 = surface_normal.dot(&self.direction).neg();
        let (n, n1, n2, cos_alpha): (Vector3, Fx, Fx, Fx) = if c0.raw < 0 {
            // inside the surface
            (surface_normal.neg(), index, Fx::one(), c0.neg())
        } else {
            // outside the surface
            (surface_normal, Fx::one(), index, c0)
        };
        let sin_alpha = Fx::one().minus(cos_alpha.times(cos_alpha)).sqrt();
        let sin_beta = n2.divide(n1).times(sin_alpha);

        if Fx::one().minus(sin_beta.times(sin_beta)).raw < 0 {
            return None;
        }
        let cos_beta = Fx::one().minus(sin_beta.times(sin_beta)).sqrt();

        let v1 = n.neg().scale(cos_alpha);
        let h1 = self.direction.minus(v1);

        let v2 = n.neg().scale(cos_beta);
        let h2 = h1.normalize().scale(sin_beta);
        let r2 = v2.plus(h2);

        Some(
            Ray {
                origin: hit_point.minus(n.scale(Fx { raw: SHADOW_BIAS }).to_point()),
                direction: r2,
            },
        )
    }

    /// The total effective reflection coefficient by Fresnel's equations,
    /// the primary reflectance of the tracer.
    pub fn fresnel(&self, surface_normal: Vector3, index: Fx) -> (r: Fx)
        requires
            index.raw >= FX_SCALE,
        ensures
            r.raw as int == fresnel_val(
                self.direction.raw3(),
                surface_normal.raw3(),
                index.raw as int,
            ),
    {
        let (cos_alpha, n1, n2) = self.get_initial_data(surface_normal, index);
        let sin_alpha = Fx::one().minus(cos_alpha.times(cos_alpha)).sqrt();
        let sin_beta = n1.divide(n2).times(sin_alpha);

        if sin_beta.abs().raw > FX_SCALE {
            return Fx::one();
        }
        let cos_beta = Fx::one().minus(sin_beta.times(sin_beta)).sqrt();

        let ds = n1.times(cos_alpha).plus(n2.times(cos_beta));
        let dt = n1.times(cos_beta).plus(n2.times(cos_alpha));
        if ds.raw == 0 || dt.raw == 0 {
            return Fx::one();
        }

        let r_s = n1.times(cos_alpha).minus(n2.times(cos_beta)).divide(ds);
        let r_t = n1.times(cos_beta).minus(n2.times(cos_alpha)).divide(dt);

        Fx { raw: HALF_FX }.times(r_s.times(r_s).plus(r_t.times(r_t)))
    }

    /// The total effective reflection coefficient by Schlick's
    /// approximation: the documented alternative to [`Ray::fresnel`].
    pub fn schlicks(&self, surface_normal: Vector3, index: Fx) -> (r: Fx)
        requires
            index.raw >= FX_SCALE,
        ensures
            r.raw as int == schlicks_val(
                self.direction.raw3(),
                surface_normal.raw3(),
                index.raw as int,
            ),
    {
        let (cos_alpha, n1, n2) = self.get_initial_data(surface_normal, index);
        let p = n1.minus(n2).divide(n1.plus(n2));
        let r0 = p.times(p);
        let t = Fx::one().minus(cos_alpha);
        let t2 = t.times(t);
        let t5 = t2.times(t2).times(t);
        r0.plus(Fx::one().minus(r0).times(t5))
    }
}

/// Raw aspect ratio of the sensor.
pub open spec fn aspect_val(w: int, h: int) -> int {
    div_val(clip(w * FX_SCALE), clip(h * FX_SCALE))
}

/// Raw sensor coordinate of pixel index `p` along a dimension of size `dim`,
/// scaled by `a` (the aspect ratio horizontally, one vertically).
pub open spec fn sensor_val(p: int, dim: int, a: int) -> int {
    mul_val(sub_val(div_val(mul_val(2 * FX_SCALE, add_val(clip(p * FX_SCALE), HALF_FX as int)),
    clip(dim * FX_SCALE)), FX_SCALE as int), a)
}

/// Raw direction of the primary ray through pixel `(x, y)`.
pub open spec fn prime_dir_val(x: int, y: int, w: int, h: int) -> Raw3 {
    norm3(
        (
            sensor_val(x, w, aspect_val(w, h)),
            sensor_val(y, h, FX_SCALE as int),
            neg_val(FX_SCALE as int),
        ),
    )
}

/// The intersection protocol: nearest-positive-distance test and hit-point
/// texture-coordinate mapping.
pub trait Intersectable {
    /// The raw distance at which a ray from `orig` along `dir` first meets
    /// this primitive, if it does.
    spec fn intersect_val(&self, orig: Raw3, dir: Raw3) -> Option<int>;

    /// What the coordinate mapping needs of the shape (a sphere's radius is
    /// nonzero).
    spec fn shape_wf(&self) -> bool;

    /// The raw local surface coordinates of a hit point.
    spec fn texture_coords_val(&self, hp: Raw3) -> (int, int);

    /// Tests the ray against this primitive; a returned distance is
    /// nonnegative.
    fn intersect(&self, ray: &Ray) -> (r: Option<Fx>)
        ensures
            (r is Some) == (self.intersect_val(ray.origin.raw3(), ray.direction.raw3()) is Some),
            r matches Some(d) ==> self.intersect_val(ray.origin.raw3(), ray.direction.raw3())
                == Some(d.raw as int) && d.raw >= 0,
    ;

    /// Maps a hit point to local surface coordinates.
    fn texture_coords(&self, hit_point: &Point) -> (r: TextureCoords)
        requires
            self.shape_wf(),
        ensures
            (r.x.raw as int, r.y.raw as int) == self.texture_coords_val(hit_point.raw3()),
    ;
}

/// Raw nearest-intersection distance of a ray with a sphere: the smaller
/// positive root of the quadratic, or the positive one when the origin is
/// inside the sphere.
pub open spec fn sphere_intersect_val(center: Raw3, radius: int, orig: Raw3, dir: Raw3) -> Option<
    int,
> {
    let l = sub3(center, orig);
    let adj = dot3(l, dir);
    let d_sq = sub_val(dot3(l, l), mul_val(adj, adj));
    let radius_sq = mul_val(radius, radius);
    if d_sq > radius_sq {
        None
    } else {
        let inside = sqrt_val(sub_val(radius_sq, d_sq));
        let t0 = sub_val(adj, inside);
        let t1 = add_val(adj, inside);
        if t0 < 0 && t1 < 0 {
            None
        } else if t0 < 0 {
            Some(t1)
        } else if t1 < 0 {
            Some(t0)
        } else if t0 < t1 {
            Some(t0)
        } else {
            Some(t1)
        }
    }
}

/// Raw spherical texture coordinates: longitude by arctangent, colatitude by
/// arccosine, both mapped into `[0, 1]`.
pub open spec fn sphere_coords_val(center: Raw3, radius: int, hp: Raw3) -> (int, int) {
    let hv = sub3(hp, center);
    (
        mul_val(add_val(FX_SCALE as int, mul_val(atan2_val(hv.2, hv.0), FRAC_1_PI_FX as int)),
        HALF_FX as int),
        mul_val(acos_val(div_val(hv.1, radius)), FRAC_1_PI_FX as int),
    )
}

impl Intersectable for crate::object::Sphere {
    open spec fn intersect_val(&self, orig: Raw3, dir: Raw3) -> Option<int> {
        sphere_intersect_val(self.center.raw3(), self.radius.raw as int, orig, dir)
    }

    open spec fn shape_wf(&self) -> bool {
        self.radius.raw != 0
    }

    open spec fn texture_coords_val(&self, hp: Raw3) -> (int, int) {
        sphere_coords_val(self.center.raw3(), self.radius.raw as int, hp)
    }

    fn intersect(&self, ray: &Ray) -> (r: Option<Fx>) {
        let l: Vector3 = self.center.minus(ray.origin).to_vector();
        let adj = l.dot(&ray.direction);
        let d_sq = l.dot(&l).minus(adj.times(adj));

        let radius_sq = self.radius.times(self.radius);

        if d_sq.raw > radius_sq.raw {
            return None;
        }

        let inside = radius_sq.minus(d_sq).sqrt();

        let t0 = adj.minus(inside);
        let t1 = adj.plus(inside);

        if t0.raw < 0 && t1.raw < 0 {
            None
        } else if t0.raw < 0 {
            Some(t1)
        } else if t1.raw < 0 {
            Some(t0)
        } else {
            let distance = if t0.raw < t1.raw {
                t0
            } else {
                t1
            };
            Some(distance)
        }
    }

    fn texture_coords(&self, hit_point: &Point) -> (r: TextureCoords) {
        let hit_vec = hit_point.minus(self.center);
        TextureCoords {
            x: Fx::one().plus(atan2_fx(hit_vec.z, hit_vec.x).times(Fx { raw: FRAC_1_PI_FX }))
                .times(Fx { raw: HALF_FX }),
            y: acos_fx(hit_vec.y.divide(self.radius)).times(Fx { raw: FRAC_1_PI_FX }),
        }
    }
}

/// Raw intersection distance of a ray with a one-sided plane: rejected when
/// the denominator is at most the parallelism threshold or the distance is
/// negative.
pub open spec fn plane_intersect_val(porig: Raw3, pnormal: Raw3, orig: Raw3, dir: Raw3) -> Option<
    int,
> {
    let denom = dot3(pnormal, dir);
    if denom > PLANE_EPS {
        let v = sub3(porig, orig);
        let distance = div_val(dot3(v, pnormal), denom);
        if distance >= 0 {
            Some(distance)
        } else {
            None
        }
    } else {
        None
    }
}

/// Raw planar texture coordinates: the hit vector projected onto an
/// orthogonal in-plane basis built by crossing the normal with a fixed axis
/// (a fallback axis when degenerate).
pub open spec fn plane_coords_val(porig: Raw3, pnormal: Raw3, hp: Raw3) -> (int, int) {
    let za = (0int, 0int, FX_SCALE as int);
    let ya = (0int, FX_SCALE as int, 0int);
    let x_axis0 = cross3(pnormal, za);
    let x_axis = if mag3(x_axis0) == 0 {
        cross3(pnormal, ya)
    } else {
        x_axis0
    };
    let y_axis = cross3(pnormal, x_axis);
    let hit_vec = sub3(hp, porig);
    (dot3(hit_vec, x_axis), dot3(hit_vec, y_axis))
}

impl Intersectable for crate::object::Plane {
    open spec fn intersect_val(&self, orig: Raw3, dir: Raw3) -> Option<int> {
        plane_intersect_val(self.origin.raw3(), self.normal.raw3(), orig, dir)
    }

    open spec fn shape_wf(&self) -> bool {
        true
    }

    open spec fn texture_coords_val(&self, hp: Raw3) -> (int, int) {
        plane_coords_val(self.origin.raw3(), self.normal.raw3(), hp)
    }

    fn intersect(&self, ray: &Ray) -> (r: Option<Fx>) {
        let normal = self.normal;
        let denom = normal.dot(&ray.direction);
        if denom.raw > PLANE_EPS {
            let v = self.origin.minus(ray.origin).to_vector();
            let distance = v.dot(&normal).divide(denom);
            if distance.raw >= 0 {
                return Some(distance);
            }
        }
        None
    }

    fn texture_coords(&self, hit_point: &Point) -> (r: TextureCoords) {
        let mut x_axis = self.normal.cross(
            &Vector3 { x: Fx::zero(), y: Fx::zero(), z: Fx::one() },
        );
        if x_axis.magnitude().raw == 0 {
            x_axis = self.normal.cross(&Vector3 { x: Fx::zero(), y: Fx::one(), z: Fx::zero() });
        }
        let y_axis = self.normal.cross(&x_axis);

        let hit_vec = hit_point.minus(self.origin).to_vector();

        TextureCoords { x: hit_vec.dot(&x_axis), y: hit_vec.dot(&y_axis) }
    }
}

impl Intersectable for crate::object::Object {
    open spec fn intersect_val(&self, orig: Raw3, dir: Raw3) -> Option<int> {
        match self {
            crate::object::Object::Sphere(sphere) => sphere.intersect_val(orig, dir),
            crate::object::Object::Plane(plane) => plane.intersect_val(orig, dir),
        }
    }

    open spec fn shape_wf(&self) -> bool {
        match self {
            crate::object::Object::Sphere(sphere) => sphere.shape_wf(),
            crate::object::Object::Plane(plane) => plane.shape_wf(),
        }
    }

    open spec fn texture_coords_val(&self, hp: Raw3) -> (int, int) {
        match self {
            crate::object::Object::Sphere(sphere) => sphere.texture_coords_val(hp),
            crate::object::Object::Plane(plane) => plane.texture_coords_val(hp),
        }
    }

    fn intersect(&self, ray: &Ray) -> (r: Option<Fx>) {
        match self {
            crate::object::Object::Sphere(sphere) => sphere.intersect(ray),
            crate::object::Object::Plane(plane) => plane.intersect(ray),
        }
    }

    fn texture_coords(&self, hit_point: &Point) -> (r: TextureCoords) {
        match self {
            crate::object::Object::Plane(plane) => plane.texture_coords(hit_point),
            crate::object::Object::Sphere(sphere) => sphere.texture_coords(hit_point),
        }
    }
}

} // verus!
