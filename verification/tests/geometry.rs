//! Vector algebra, colors, and the ray transforms: reflection restores a
//! direction when applied twice, refraction respects the critical angle,
//! Fresnel and Schlick reflectance take their closed-form values head-on.

use raytracer::color::{Color, Rgba};
use raytracer::fx::Fx;
use raytracer::point::{Point, Vector3};
use raytracer::rendering::Ray;
use raytracer::SHADOW_BIAS;

const S: i64 = 1_048_576;

fn fxi(v: i64) -> Fx {
    Fx::from_int(v)
}

fn v3(x: i64, y: i64, z: i64) -> Vector3 {
    Vector3 { x: Fx { raw: x }, y: Fx { raw: y }, z: Fx { raw: z } }
}

fn p3(x: i64, y: i64, z: i64) -> Point {
    Point { x: Fx { raw: x }, y: Fx { raw: y }, z: Fx { raw: z } }
}

#[test]
fn dot_and_cross_products() {
    let a = v3(S, 2 * S, 3 * S);
    let b = v3(4 * S, -5 * S, 6 * S);
    // 1*4 - 2*5 + 3*6 = 12
    assert_eq!(a.dot(&b).raw, 12 * S);
    // (2*6 - 3*(-5), 3*4 - 1*6, 1*(-5) - 2*4) = (27, 6, -13)
    let c = a.cross(&b);
    assert_eq!((c.x.raw, c.y.raw, c.z.raw), (27 * S, 6 * S, -13 * S));
}

#[test]
fn normalize_three_four_five() {
    let v = v3(3 * S, 4 * S, 0);
    assert_eq!(v.magnitude().raw, 5 * S);
    let n = v.normalize();
    // 3/5 = 0.6 and 4/5 = 0.8, truncated in raw units
    assert_eq!(n.x.raw, 629145);
    assert_eq!(n.y.raw, 838860);
    assert_eq!(n.z.raw, 0);
}

#[test]
fn normalize_zero_vector_is_zero() {
    let n = v3(0, 0, 0).normalize();
    assert_eq!((n.x.raw, n.y.raw, n.z.raw), (0, 0, 0));
}

#[test]
fn point_arithmetic() {
    let p = p3(S, 2 * S, 3 * S);
    let q = p3(4 * S, 4 * S, 4 * S);
    let d = q.minus(p);
    assert_eq!((d.x.raw, d.y.raw, d.z.raw), (3 * S, 2 * S, S));
    let s = p.plus(q);
    assert_eq!((s.x.raw, s.y.raw, s.z.raw), (5 * S, 6 * S, 7 * S));
    assert_eq!(p.magnitude_sq().raw, 14 * S);
    assert_eq!(Point::zero().magnitude_sq().raw, 0);
}

#[test]
fn color_clamp_and_bytes() {
    let c = Color { red: Fx::from_ratio(-1, 2), green: Fx::from_ratio(3, 2), blue: Fx::from_ratio(1, 2) };
    let k = c.clamp();
    assert_eq!(k.red.raw, 0);
    assert_eq!(k.green.raw, S);
    assert_eq!(k.blue.raw, S / 2);
    let px = c.to_rgba();
    assert_eq!((px.r, px.g, px.b, px.a), (0, 255, 127, 255));
    let back = Color::from_rgba(Rgba { r: 255, g: 0, b: 51, a: 255 });
    assert_eq!(back.red.raw, S);
    assert_eq!(back.green.raw, 0);
    // 51/255 = 1/5 = 209715.2 raw, truncated
    assert_eq!(back.blue.raw, 209715);
}

#[test]
fn color_arithmetic() {
    let a = Color { red: Fx::from_ratio(1, 2), green: Fx::one(), blue: Fx::zero() };
    let b = Color { red: Fx::from_ratio(1, 2), green: Fx::from_ratio(1, 4), blue: Fx::one() };
    let m = a.times(b);
    assert_eq!((m.red.raw, m.green.raw, m.blue.raw), (S / 4, S / 4, 0));
    let s = a.plus(b);
    assert_eq!((s.red.raw, s.green.raw, s.blue.raw), (S, S + S / 4, S));
    let sc = a.scale(Fx::from_int(2));
    assert_eq!((sc.red.raw, sc.green.raw, sc.blue.raw), (S, 2 * S, 0));
}

#[test]
fn reflect_off_axis_normal() {
    let ray = Ray { origin: Point::zero(), direction: v3(0, 0, -S) };
    let n = v3(0, 0, S);
    let hit = p3(0, 0, -4 * S);
    let r = ray.reflect(hit, n);
    assert_eq!((r.direction.x.raw, r.direction.y.raw, r.direction.z.raw), (0, 0, S));
    // origin is the hit point, offset along the normal by the shadow bias
    assert_eq!(r.origin.z.raw, -4 * S + SHADOW_BIAS);
}

#[test]
fn reflect_twice_restores_direction() {
    // the involution law, on a normal whose fixed-point products are exact
    let ray = Ray { origin: Point::zero(), direction: v3(123456, -654321, -S) };
    let n = v3(0, 0, S);
    let hit = p3(0, 0, -4 * S);
    let once = ray.reflect(hit, n);
    let twice = once.reflect(hit, n);
    assert_eq!(twice.direction.x.raw, ray.direction.x.raw);
    assert_eq!(twice.direction.y.raw, ray.direction.y.raw);
    assert_eq!(twice.direction.z.raw, ray.direction.z.raw);
}

#[test]
fn refract_head_on_passes_straight_through() {
    let ray = Ray { origin: Point::zero(), direction: v3(0, 0, -S) };
    let n = v3(0, 0, S);
    let hit = p3(0, 0, -4 * S);
    let r = ray.refract(hit, n, Fx::from_ratio(3, 2)).expect("head-on refraction exists");
    assert_eq!((r.direction.x.raw, r.direction.y.raw, r.direction.z.raw), (0, 0, -S));
    // origin is biased against the normal, into the surface
    assert_eq!(r.origin.z.raw, -4 * S - SHADOW_BIAS);
}

#[test]
fn refract_past_critical_angle_returns_nothing() {
    // 45 degrees of incidence; the computed transmitted sine is 1.5 * sin(45°) > 1
    let dir = v3(S, 0, -S).normalize();
    let ray = Ray { origin: Point::zero(), direction: dir };
    let n = v3(0, 0, S);
    let hit = p3(0, 0, -4 * S);
    assert!(ray.refract(hit, n, Fx::from_ratio(3, 2)).is_none());
}

#[test]
fn refract_below_critical_angle_is_near_unit() {
    // shallow incidence: sin is about 0.24, well below the 2/3 boundary
    let dir = v3(S, 0, -4 * S).normalize();
    let ray = Ray { origin: Point::zero(), direction: dir };
    let n = v3(0, 0, S);
    let hit = p3(0, 0, -4 * S);
    let r = ray.refract(hit, n, Fx::from_ratio(3, 2)).expect("below the critical angle");
    let m = r.direction.magnitude().raw;
    assert!((m - S).abs() < 2048, "transmitted direction magnitude {} is not near one", m);
}

#[test]
fn fresnel_head_on_glass() {
    // ((n1 - n2) / (n1 + n2))^2 = 0.04 for n = 1.5, in raw units 41942 (truncated)
    let ray = Ray { origin: Point::zero(), direction: v3(0, 0, -S) };
    let n = v3(0, 0, S);
    let r = ray.fresnel(n, Fx::from_ratio(3, 2));
    assert_eq!(r.raw, 41942);
}

#[test]
fn schlicks_head_on_matches_fresnel() {
    let ray = Ray { origin: Point::zero(), direction: v3(0, 0, -S) };
    let n = v3(0, 0, S);
    let r = ray.schlicks(n, Fx::from_ratio(3, 2));
    assert_eq!(r.raw, 41942);
}

#[test]
fn fresnel_past_critical_angle_is_one() {
    // exiting the dense medium at 45 degrees: full reflection
    let dir = v3(S, 0, S).normalize();
    let ray = Ray { origin: Point::zero(), direction: dir };
    let n = v3(0, 0, S);
    let r = ray.fresnel(n, Fx::from_int(2));
    assert_eq!(r.raw, S);
}

#[test]
fn fresnel_stays_in_unit_interval() {
    let normals = [v3(0, 0, S), v3(0, S, 0), v3(3 * S, 4 * S, 0).normalize()];
    let dirs = [v3(0, 0, -S), v3(S, S, -S).normalize(), v3(-S, 2 * S, 5 * S).normalize()];
    for n in normals.iter() {
        for d in dirs.iter() {
            let ray = Ray { origin: Point::zero(), direction: *d };
            let r = ray.fresnel(*n, Fx::from_ratio(3, 2));
            assert!(0 <= r.raw && r.raw <= S, "fresnel {} out of [0, 1]", r.raw);
        }
    }
}

#[test]
fn get_initial_data_swaps_when_exiting() {
    let n = v3(0, 0, S);
    let entering = Ray { origin: Point::zero(), direction: v3(0, 0, -S) };
    let (ca, n1, n2) = entering.get_initial_data(n, fxi(2));
    assert_eq!((ca.raw, n1.raw, n2.raw), (S, S, 2 * S));
    let exiting = Ray { origin: Point::zero(), direction: v3(0, 0, S) };
    let (ca, n1, n2) = exiting.get_initial_data(n, fxi(2));
    assert_eq!((ca.raw, n1.raw, n2.raw), (S, 2 * S, S));
}

#[test]
fn prime_ray_through_image_center_is_straight_ahead() {
    let scene = raytracer::scene::Scene {
        width: 101,
        height: 101,
        fov: fxi(90),
        objects: vec![],
        lights: vec![],
        max_recursion_depth: 5,
    };
    let ray = Ray::create_prime(50, 50, &scene);
    assert_eq!((ray.origin.x.raw, ray.origin.y.raw, ray.origin.z.raw), (0, 0, 0));
    assert_eq!((ray.direction.x.raw, ray.direction.y.raw, ray.direction.z.raw), (0, 0, -S));
}

#[test]
fn prime_ray_directions_are_near_unit() {
    let scene = raytracer::scene::Scene {
        width: 64,
        height: 48,
        fov: fxi(90),
        objects: vec![],
        lights: vec![],
        max_recursion_depth: 5,
    };
    for (x, y) in [(0, 0), (63, 47), (10, 40), (32, 24)] {
        let ray = Ray::create_prime(x, y, &scene);
        let m = ray.direction.magnitude().raw;
        assert!((m - S).abs() <= 4, "pixel ({}, {}): magnitude {}", x, y, m);
    }
}
