//! The intersection protocol: sphere and plane distances are nonnegative and
//! take their exact fixed-point values; texture coordinates, wrapping, and
//! texture lookup resolve exact pixels.

use raytracer::color::Rgba;
use raytracer::fx::Fx;
use raytracer::object::{wrap, Coloration, Material, Object, Plane, Sphere, Surface, Texture};
use raytracer::point::{Point, Vector3};
use raytracer::rendering::{Intersectable, Ray};

const S: i64 = 1_048_576;

fn fxi(v: i64) -> Fx {
    Fx::from_int(v)
}

fn v3(x: i64, y: i64, z: i64) -> Vector3 {
    Vector3 { x: Fx { raw: x }, y: Fx { raw: y }, z: Fx { raw: z } }
}

fn p3(x: i64, y: i64, z: i64) -> Point {
    Point { x: Fx { raw: x }, y: Fx { raw: y }, z: Fx { raw: z } }
}

fn white_sphere(center: Point, radius: Fx) -> Sphere {
    Sphere {
        center,
        radius,
        material: Material::from_color(
            raytracer::color::Color::white(),
            Fx::one(),
            Surface::Diffusive,
        ),
    }
}

#[test]
fn sphere_intersect_head_on() {
    let s = white_sphere(p3(0, 0, -5 * S), fxi(1));
    let ray = Ray { origin: Point::zero(), direction: v3(0, 0, -S) };
    let d = s.intersect(&ray).expect("the ray points at the sphere");
    assert_eq!(d.raw, 4 * S);
}

#[test]
fn sphere_intersect_from_inside_returns_exit() {
    let s = white_sphere(p3(0, 0, -5 * S), fxi(1));
    let ray = Ray { origin: p3(0, 0, -5 * S), direction: v3(0, 0, -S) };
    let d = s.intersect(&ray).expect("a ray from the center exits");
    assert_eq!(d.raw, S);
}

#[test]
fn sphere_intersect_miss_and_behind() {
    let s = white_sphere(p3(0, 0, -5 * S), fxi(1));
    let side = Ray { origin: Point::zero(), direction: v3(0, S, 0) };
    assert!(s.intersect(&side).is_none());
    // the sphere lies behind the ray: both roots are negative
    let behind = Ray { origin: Point::zero(), direction: v3(0, 0, S) };
    assert!(s.intersect(&behind).is_none());
}

#[test]
fn sphere_distances_are_nonnegative() {
    let s = white_sphere(p3(0, 0, -3 * S), fxi(2));
    let rays = [
        Ray { origin: Point::zero(), direction: v3(0, 0, -S) },
        Ray { origin: p3(0, 0, -3 * S), direction: v3(0, 0, -S) },
        Ray { origin: p3(0, 0, -3 * S + S / 2), direction: v3(0, S, 0) },
        Ray { origin: p3(S / 3, -S / 7, 0), direction: v3(S / 5, S / 9, -S).normalize() },
    ];
    for ray in rays.iter() {
        if let Some(d) = s.intersect(ray) {
            assert!(d.raw >= 0, "negative distance {}", d.raw);
        }
    }
}

#[test]
fn plane_intersect_exact_distance() {
    // a floor 2.5 below the camera, its stored normal pointing down into it
    let plane = Plane {
        origin: p3(0, 5 * S / 2, 0),
        normal: v3(0, S, 0),
        material: Material::from_color(
            raytracer::color::Color::white(),
            Fx::one(),
            Surface::Diffusive,
        ),
    };
    let ray = Ray { origin: Point::zero(), direction: v3(0, S, 0) };
    let d = plane.intersect(&ray).expect("the ray points at the plane");
    assert_eq!(d.raw, 5 * S / 2);
}

#[test]
fn plane_is_one_sided() {
    let plane = Plane {
        origin: p3(0, 5 * S / 2, 0),
        normal: v3(0, S, 0),
        material: Material::from_color(
            raytracer::color::Color::white(),
            Fx::one(),
            Surface::Diffusive,
        ),
    };
    // back-facing: the denominator is negative
    let away = Ray { origin: Point::zero(), direction: v3(0, -S, 0) };
    assert!(plane.intersect(&away).is_none());
    // parallel: the denominator is zero
    let parallel = Ray { origin: Point::zero(), direction: v3(S, 0, 0) };
    assert!(plane.intersect(&parallel).is_none());
}

#[test]
fn wrap_tiles_negative_coordinates() {
    // -1/4 scaled by a bound of 4 is -1, wrapping to 3
    assert_eq!(wrap(Fx::from_ratio(-1, 4), 4), 3);
    // 5/4 scaled by 4 is 5, wrapping to 1
    assert_eq!(wrap(Fx::from_ratio(5, 4), 4), 1);
    assert_eq!(wrap(Fx::zero(), 4), 0);
    // exactly one full period wraps to 0
    assert_eq!(wrap(Fx::one(), 4), 0);
    assert_eq!(wrap(Fx::from_int(-1), 4), 0);
}

fn two_by_two_texture() -> Texture {
    Texture {
        width: 2,
        height: 2,
        pixels: vec![
            Rgba { r: 255, g: 0, b: 0, a: 255 },
            Rgba { r: 0, g: 255, b: 0, a: 255 },
            Rgba { r: 0, g: 0, b: 255, a: 255 },
            Rgba { r: 255, g: 255, b: 255, a: 255 },
        ],
    }
}

#[test]
fn texture_get_pixel_is_row_major() {
    let t = two_by_two_texture();
    assert_eq!(t.get_pixel(0, 0).r, 255);
    assert_eq!(t.get_pixel(1, 0).g, 255);
    assert_eq!(t.get_pixel(0, 1).b, 255);
    assert_eq!(t.get_pixel(1, 1), Rgba { r: 255, g: 255, b: 255, a: 255 });
}

#[test]
fn coloration_solid_color() {
    let c = Coloration::Color(raytracer::color::Color::white());
    let tc = raytracer::rendering::TextureCoords { x: Fx::from_int(7), y: Fx::from_int(-3) };
    let col = c.color(&tc);
    assert_eq!((col.red.raw, col.green.raw, col.blue.raw), (S, S, S));
}

#[test]
fn coloration_texture_lookup() {
    let c = Coloration::Texture { image: two_by_two_texture(), scaling: Fx::one(), offset: Fx::zero() };
    // (0.5, 0) lands on the second pixel of the first row: pure green
    let tc = raytracer::rendering::TextureCoords { x: Fx::from_ratio(1, 2), y: Fx::zero() };
    let col = c.color(&tc);
    assert_eq!((col.red.raw, col.green.raw, col.blue.raw), (0, S, 0));
}

#[test]
fn plane_texture_coords_project_onto_basis() {
    let plane = Plane {
        origin: Point::zero(),
        normal: v3(0, S, 0),
        material: Material::from_color(
            raytracer::color::Color::white(),
            Fx::one(),
            Surface::Diffusive,
        ),
    };
    // basis: normal x z-axis = (1, 0, 0); normal x that = (0, 0, -1)
    let tc = plane.texture_coords(&p3(S / 2, 0, 3 * S));
    assert_eq!(tc.x.raw, S / 2);
    assert_eq!(tc.y.raw, -3 * S);
}

#[test]
fn sphere_texture_coords_stay_in_unit_square() {
    let s = white_sphere(p3(0, 0, -5 * S), fxi(1));
    let hits = [
        p3(0, 0, -4 * S),
        p3(0, S, -5 * S),
        p3(0, -S, -5 * S),
        p3(S, 0, -5 * S),
        p3(-S, 0, -5 * S),
    ];
    for hp in hits.iter() {
        let tc = s.texture_coords(hp);
        assert!(0 <= tc.x.raw && tc.x.raw <= S, "u coordinate {} out of range", tc.x.raw);
        assert!(0 <= tc.y.raw && tc.y.raw <= S, "v coordinate {} out of range", tc.y.raw);
    }
}

#[test]
fn sphere_texture_coords_poles() {
    let s = white_sphere(p3(0, 0, -5 * S), fxi(1));
    // the pole the colatitude is measured from: v near zero
    let pole = s.texture_coords(&p3(0, S, -5 * S));
    assert!(pole.y.raw < S / 100, "pole colatitude {} should be near zero", pole.y.raw);
    // the opposite pole: colatitude pi, v near one
    let opposite = s.texture_coords(&p3(0, -S, -5 * S));
    assert!(
        opposite.y.raw > 99 * S / 100,
        "opposite-pole colatitude {} should be near one",
        opposite.y.raw
    );
}

#[test]
fn object_color_resolves_texture() {
    let plane = Plane {
        origin: Point::zero(),
        normal: v3(0, S, 0),
        material: Material::get_texture(two_by_two_texture(), Fx::one(), Fx::zero(), Surface::Diffusive),
    };
    let obj = Object::Plane(plane);
    // the hit maps to local coordinates (0.5, 0): pure green
    let col = obj.color(&p3(S / 2, 0, 0));
    assert_eq!((col.red.raw, col.green.raw, col.blue.raw), (0, S, 0));
    assert_eq!(obj.albedo().raw, raytracer::ALBEDO);
}

#[test]
fn object_surface_normals() {
    let sphere = Object::Sphere(white_sphere(p3(0, 0, -5 * S), fxi(1)));
    let n = sphere.surface_normal(&p3(0, 0, -4 * S));
    assert_eq!((n.x.raw, n.y.raw, n.z.raw), (0, 0, S));
    let plane = Object::Plane(Plane {
        origin: Point::zero(),
        normal: v3(0, S, 0),
        material: Material::from_color(
            raytracer::color::Color::white(),
            Fx::one(),
            Surface::Diffusive,
        ),
    });
    let n = plane.surface_normal(&p3(0, 0, 0));
    assert_eq!((n.x.raw, n.y.raw, n.z.raw), (0, -S, 0));
}

#[test]
fn surface_in_transparent() {
    assert!(Surface::Refractive { transparency: Fx::one(), index: fxi(2) }.in_transparent());
    assert!(!Surface::Diffusive.in_transparent());
    assert!(!Surface::Reflective { reflectivity: Fx::one() }.in_transparent());
}
