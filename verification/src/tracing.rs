//! The shading and tracing engine, and the render driver.
//!
//! Per hit: a Lambertian diffuse term accumulated over all lights with
//! shadow tests, then a surface-dependent blend — diffuse surfaces return the
//! diffuse term, reflective surfaces blend in a recursive reflection,
//! refractive surfaces blend reflection and refraction by the Fresnel
//! coefficient.  The recursion is bounded by the scene's depth limit; at the
//! limit the engine returns exact black, dropping the remaining energy.

use vstd::prelude::*;

use crate::color::{clamp01_val, to_byte_val, Color, Rgba};
use crate::fx::{add_val, div_val, mul_val, sqrt_val, sub_val, Fx, FX_SCALE};
use crate::object::Surface;
use crate::point::{add3, dot3, norm3, scale3, sub3, Point, Raw3, Vector3};
use crate::rendering::{
    prime_dir_val, reflect_dir_val, reflect_origin_val, refract_val, fresnel_val, Intersectable,
    Ray, FOUR_PI_FX, PI_FX,
};
use crate::scene::{trace_val, Intersection, Light, Scene};
use crate::SHADOW_BIAS;

verus! {

/// Raw component-wise sum of two colors.
pub open spec fn cadd3(a: (int, int, int), b: (int, int, int)) -> (int, int, int) {
    (add_val(a.0, b.0), add_val(a.1, b.1), add_val(a.2, b.2))
}

/// Raw component-wise product of two colors.
pub open spec fn cmul3(a: (int, int, int), b: (int, int, int)) -> (int, int, int) {
    (mul_val(a.0, b.0), mul_val(a.1, b.1), mul_val(a.2, b.2))
}

/// Raw color scaled by a scalar.
pub open spec fn cscale3(a: (int, int, int), k: int) -> (int, int, int) {
    (mul_val(a.0, k), mul_val(a.1, k), mul_val(a.2, k))
}

/// Raw color clamped into `[0, 1]` per channel.
pub open spec fn clamp3(a: (int, int, int)) -> (int, int, int) {
    (clamp01_val(a.0), clamp01_val(a.1), clamp01_val(a.2))
}

/// Raw direction from a hit point toward a light: the negated direction of a
/// directional light, the normalized offset to a spherical light's position.
pub open spec fn light_dir_val(light: Light, hp: Raw3) -> Raw3 {
    match light {
        Light::Directional(l) => sub3((0int, 0int, 0int), l.direction.raw3()),
        Light::Spherical(l) => norm3(sub3(l.position.raw3(), hp)),
    }
}

/// Raw intensity a light delivers to a hit point, after the shadow test:
/// a blocked directional light delivers zero; a spherical light is subject to
/// inverse-square falloff and is blocked only by occluders nearer than the
/// light itself.  A zero fixed-point falloff denominator (the light at the
/// hit point) delivers zero.
pub open spec fn light_intensity_val(scene: Scene, light: Light, hp: Raw3, n: Raw3) -> int {
    let dtl = light_dir_val(light, hp);
    let sorig = add3(hp, scale3(n, SHADOW_BIAS as int));
    match light {
        Light::Directional(l) => if trace_val(scene.objects@, sorig, dtl) is Some {
            0
        } else {
            l.intensity.raw as int
        },
        Light::Spherical(l) => {
            let off = sub3(hp, l.position.raw3());
            let d_sq = dot3(off, off);
            let d = sqrt_val(d_sq);
            let denom = mul_val(FOUR_PI_FX as int, d_sq);
            let base = if denom == 0 {
                0
            } else {
                div_val(l.intensity.raw as int, denom)
            };
            match trace_val(scene.objects@, sorig, dtl) {
                Some(p) => if p.1 < d {
                    0
                } else {
                    base
                },
                None => base,
            }
        },
    }
}

/// Raw diffuse contribution of one light at a hit of primitive `oi`:
/// surface color times light color, scaled by Lambert's cosine times the
/// delivered intensity, times `albedo / pi`.
pub open spec fn light_term_val(scene: Scene, light: Light, oi: int, hp: Raw3, n: Raw3) -> (
    int,
    int,
    int,
) {
    let dtl = light_dir_val(light, hp);
    let light_power = mul_val(dot3(n, dtl), light_intensity_val(scene, light, hp, n));
    let light_reflected = div_val(scene.objects@[oi].albedo_val(), PI_FX as int);
    cscale3(
        cscale3(cmul3(scene.objects@[oi].color_val(hp), light.color_val().rgb()), light_power),
        light_reflected,
    )
}

/// Raw sum of the diffuse contributions of the first `k` lights.
pub open spec fn shade_pref(scene: Scene, oi: int, hp: Raw3, n: Raw3, k: int) -> (int, int, int)
    decreases k,
{
    if k <= 0 {
        (0int, 0int, 0int)
    } else {
        cadd3(
            shade_pref(scene, oi, hp, n, k - 1),
            light_term_val(scene, scene.lights@[k - 1], oi, hp, n),
        )
    }
}

/// Raw diffuse term at a hit: the contributions of all lights, accumulated
/// and clamped into `[0, 1]`.
pub open spec fn shade_diffuse_val(scene: Scene, oi: int, hp: Raw3, n: Raw3) -> (int, int, int) {
    clamp3(shade_pref(scene, oi, hp, n, scene.lights@.len() as int))
}

/// The diffuse term at a hit: Lambertian shading with shadow tests over all
/// lights of the scene.
#[verifier::rlimit(100)]
pub fn shade_diffuse_color(
    scene: &Scene,
    intersection: &Intersection,
    hit_point: &Point,
    surface_normal: &Vector3,
) -> (r: Color)
    requires
        scene.wf(),
        (intersection.index as int) < scene.objects@.len(),
    ensures
        r.rgb() == shade_diffuse_val(
            *scene,
            intersection.index as int,
            hit_point.raw3(),
            surface_normal.raw3(),
        ),
{
    let ghost hp = hit_point.raw3();
    let ghost n = surface_normal.raw3();
    let mut color = Color::black();
    let mut i: usize = 0;
    while i < scene.lights.len()
        invariant
            scene.wf(),
            (intersection.index as int) < scene.objects@.len(),
            i <= scene.lights@.len(),
            hp == hit_point.raw3(),
            n == surface_normal.raw3(),
            color.rgb() == shade_pref(*scene, intersection.index as int, hp, n, i as int),
        decreases scene.lights@.len() - i as int,
    {
        let light_source = &scene.lights[i];
        let direction_to_light = match light_source {
            Light::Directional(light) => Vector3::zero().minus(light.direction),
            Light::Spherical(light) => light.position.minus(*hit_point).to_vector().normalize(),
        };

        let shadow_ray = Ray {
            origin: hit_point.plus(surface_normal.scale(Fx { raw: SHADOW_BIAS }).to_point()),
            direction: direction_to_light,
        };

        let light_intensity = match light_source {
            Light::Directional(light) => {
                if let Some(_intersection) = scene.trace(&shadow_ray) {
                    Fx::zero()
                } else {
                    light.intensity
                }
            },
            Light::Spherical(light) => {
                let d_sq = hit_point.minus(light.position).magnitude_sq();
                let d = d_sq.sqrt();
                let falloff = Fx { raw: FOUR_PI_FX }.times(d_sq);
                let base = if falloff.raw == 0 {
                    Fx::zero()
                } else {
                    light.intensity.divide(falloff)
                };
                if let Some(occluder) = scene.trace(&shadow_ray) {
                    if occluder.distance.raw < d.raw {
                        Fx::zero()
                    } else {
                        base
                    }
                } else {
                    base
                }
            },
        };

        // Lambert's cosine law; the cosine is deliberately not clamped below
        // at zero.
        let light_power = surface_normal.dot(&direction_to_light).times(light_intensity);
        let light_reflected = scene.objects[intersection.index].albedo().divide(
            Fx { raw: PI_FX },
        );
        let contribution = scene.objects[intersection.index].color(hit_point).times(
            light_source.color(),
        ).scale(light_power).scale(light_reflected);
        color = color.plus(contribution);
        i = i + 1;
    }

    color.clamp()
}

/// Raw color of a traced ray: black at or past the depth limit, black on a
/// miss, otherwise the shaded color of the nearest hit.
pub open spec fn cast_ray_val(scene: Scene, orig: Raw3, dir: Raw3, depth: int) -> (int, int, int)
    decreases scene.max_recursion_depth - depth, 1int,
{
    if depth >= scene.max_recursion_depth {
        (0int, 0int, 0int)
    } else {
        match trace_val(scene.objects@, orig, dir) {
            None => (0int, 0int, 0int),
            Some(p) => get_color_val(scene, p.0, p.1, orig, dir, depth),
        }
    }
}

/// Raw shaded color at a hit: the diffuse term, blended per surface type
/// with recursive reflection and refraction.
pub open spec fn get_color_val(
    scene: Scene,
    oi: int,
    dist: int,
    orig: Raw3,
    dir: Raw3,
    depth: int,
) -> (int, int, int)
    decreases scene.max_recursion_depth - depth, 0int,
{
    if depth >= scene.max_recursion_depth {
        (0int, 0int, 0int)
    } else {
        let hp = add3(orig, scale3(dir, dist));
        let n = norm3(scene.objects@[oi].surface_normal_val(hp));
        let diffuse = shade_diffuse_val(scene, oi, hp, n);
        match scene.objects@[oi].surface_type_val() {
            Surface::Diffusive => diffuse,
            Surface::Reflective { reflectivity } => cadd3(
                cscale3(diffuse, sub_val(FX_SCALE as int, reflectivity.raw as int)),
                cscale3(
                    cast_ray_val(scene, reflect_origin_val(hp, n), reflect_dir_val(dir, n), depth
                        + 1),
                    reflectivity.raw as int,
                ),
            ),
            Surface::Refractive { transparency, index } => {
                let reflection = cast_ray_val(
                    scene,
                    reflect_origin_val(hp, n),
                    reflect_dir_val(dir, n),
                    depth + 1,
                );
                let refraction = match refract_val(dir, n, hp, index.raw as int) {
                    Some(rr) => cast_ray_val(scene, rr.0, rr.1, depth + 1),
                    None => (0int, 0int, 0int),
                };
                let r_eff = fresnel_val(dir, n, index.raw as int);
                let transmission = cadd3(
                    cscale3(reflection, r_eff),
                    cscale3(refraction, sub_val(FX_SCALE as int, r_eff)),
                );
                cadd3(
                    cscale3(diffuse, sub_val(FX_SCALE as int, transparency.raw as int)),
                    cscale3(transmission, transparency.raw as int),
                )
            },
        }
    }
}

/// The shaded color of a hit of the primitive at `intersection.index`.
pub fn get_color(scene: &Scene, intersection: &Intersection, ray: &Ray, depth: u32) -> (r: Color)
    requires
        scene.wf(),
        depth < scene.max_recursion_depth,
        (intersection.index as int) < scene.objects@.len(),
    ensures
        r.rgb() == get_color_val(
            *scene,
            intersection.index as int,
            intersection.distance.raw as int,
            ray.origin.raw3(),
            ray.direction.raw3(),
            depth as int,
        ),
    decreases scene.max_recursion_depth - depth, 0int,
{
    let hit_point = ray.origin.plus(ray.direction.scale(intersection.distance).to_point());
    let surface_normal = scene.objects[intersection.index].surface_normal(
        &hit_point,
    ).normalize();

    let diffuse_color = shade_diffuse_color(scene, intersection, &hit_point, &surface_normal);

    match scene.objects[intersection.index].surface_type() {
        Surface::Diffusive => diffuse_color,
        Surface::Reflective { reflectivity } => {
            let color = diffuse_color.scale(Fx::one().minus(reflectivity)).plus(
                cast_ray(scene, &ray.reflect(hit_point, surface_normal), depth + 1).scale(
                    reflectivity,
                ),
            );
            color
        },
        Surface::Refractive { transparency, index } => {
            let reflection_ray = ray.reflect(hit_point, surface_normal);
            let option_refraction_ray = ray.refract(hit_point, surface_normal, index);

            let reflection_color = cast_ray(scene, &reflection_ray, depth + 1);
            let refraction_color = if let Some(refraction_ray) = option_refraction_ray {
                cast_ray(scene, &refraction_ray, depth + 1)
            } else {
                Color::black()
            };

            let r_eff = ray.fresnel(surface_normal, index);

            let transmission_color = reflection_color.scale(r_eff).plus(
                refraction_color.scale(Fx::one().minus(r_eff)),
            );

            let color = diffuse_color.scale(Fx::one().minus(transparency)).plus(
                transmission_color.scale(transparency),
            );
            color
        },
    }
}

/// Traces a ray into the scene and shades what it hits.  At the depth limit
/// the result is exact black, whatever the scene holds; a miss is black too.
pub fn cast_ray(scene: &Scene, ray: &Ray, depth: u32) -> (r: Color)
    requires
        scene.wf(),
        depth <= scene.max_recursion_depth,
    ensures
        r.rgb() == cast_ray_val(
            *scene,
            ray.origin.raw3(),
            ray.direction.raw3(),
            depth as int,
        ),
        depth == scene.max_recursion_depth ==> r.rgb() == (0int, 0int, 0int),
    decreases scene.max_recursion_depth - depth, 1int,
{
    if depth == scene.max_recursion_depth {
        return Color::black();
    }

    let intersection = scene.trace(ray);
    if let Some(found) = intersection {
        get_color(scene, &found, ray, depth)
    } else {
        Color::black()
    }
}

/// A rendered raster of opaque 8-bit pixels, row-major.
pub struct Image {
    pub width: u32,
    pub height: u32,
    pub pixels: Vec<Rgba>,
}

impl Image {
    /// A fully populated raster.
    pub open spec fn wf(&self) -> bool {
        self.pixels@.len() == self.width * self.height
    }

    /// The pixel stored at column `x` of row `y`.
    pub open spec fn pixel_at(&self, x: int, y: int) -> Rgba {
        self.pixels@[y * self.width + x]
    }

    /// Reads the pixel at column `x` of row `y`.
    pub fn get_pixel(&self, x: u32, y: u32) -> (r: Rgba)
        requires
            self.wf(),
            x < self.width,
            y < self.height,
        ensures
            r == self.pixel_at(x as int, y as int),
    {
        proof {
            let w = self.width as int;
            let h = self.height as int;
            assert((y as int) * w + (x as int) < w * h && w * h <= 0xffff_fffe_0000_0001)
                by (nonlinear_arith)
                requires
                    0 <= (x as int) && (x as int) < w,
                    0 <= (y as int) && (y as int) < h,
                    w <= 0xffff_ffff,
                    h <= 0xffff_ffff,
            ;
        }
        let idx: u64 = (y as u64) * (self.width as u64) + (x as u64);
        let n: usize = self.pixels.len();
        assert(idx < n as u64);
        self.pixels[idx as usize]
    }
}

/// The pixel the renderer writes at `(x, y)`: the primary ray's color,
/// converted to an opaque 8-bit pixel.
pub open spec fn render_pixel_val(scene: Scene, x: int, y: int) -> Rgba {
    let c = cast_ray_val(
        scene,
        (0int, 0int, 0int),
        prime_dir_val(x, y, scene.width as int, scene.height as int),
        0,
    );
    Rgba { r: to_byte_val(c.0) as u8, g: to_byte_val(c.1) as u8, b: to_byte_val(c.2) as u8, a: 255 }
}

/// Renders the scene: one primary ray per pixel, traced at depth zero.
pub fn render(scene: &Scene) -> (img: Image)
    requires
        scene.wf(),
    ensures
        img.width == scene.width,
        img.height == scene.height,
        img.wf(),
        forall|i: int|
            0 <= i < img.pixels@.len() ==> #[trigger] img.pixels@[i] == render_pixel_val(
                *scene,
                i % (scene.width as int),
                i / (scene.width as int),
            ),
        forall|xi: int, yi: int|
            0 <= xi < scene.width && 0 <= yi < scene.height ==> img.pixel_at(xi, yi)
                == #[trigger] render_pixel_val(*scene, xi, yi),
{
    let mut pixels: Vec<Rgba> = Vec::new();
    let mut y: u32 = 0;
    while y < scene.height
        invariant
            scene.wf(),
            y <= scene.height,
            pixels@.len() == (y as int) * (scene.width as int),
            forall|i: int|
                0 <= i < pixels@.len() ==> #[trigger] pixels@[i] == render_pixel_val(
                    *scene,
                    i % (scene.width as int),
                    i / (scene.width as int),
                ),
        decreases scene.height - y,
    {
        let mut x: u32 = 0;
        while x < scene.width
            invariant
                scene.wf(),
                y < scene.height,
                x <= scene.width,
                pixels@.len() == (y as int) * (scene.width as int) + (x as int),
                forall|i: int|
                    0 <= i < pixels@.len() ==> #[trigger] pixels@[i] == render_pixel_val(
                        *scene,
                        i % (scene.width as int),
                        i / (scene.width as int),
                    ),
            decreases scene.width - x,
        {
            let ray = Ray::create_prime(x, y, scene);
            let color = cast_ray(scene, &ray, 0);
            proof {
                vstd::arithmetic::div_mod::lemma_fundamental_div_mod_converse(
                    (y as int) * (scene.width as int) + (x as int),
                    scene.width as int,
                    y as int,
                    x as int,
                );
            }
            pixels.push(color.to_rgba());
            x = x + 1;
        }
        proof {
            assert(((y as int) + 1) * (scene.width as int) == (y as int) * (scene.width as int)
                + (scene.width as int)) by (nonlinear_arith);
        }
        y = y + 1;
    }
    proof {
        assert((scene.height as int) * (scene.width as int) == (scene.width as int) * (
        scene.height as int)) by (nonlinear_arith);
        let w = scene.width as int;
        let h = scene.height as int;
        assert forall|xi: int, yi: int|
            0 <= xi < w && 0 <= yi < h implies pixels@[yi * w + xi] == render_pixel_val(
            *scene,
            xi,
            yi,
        ) by {
            assert(0 <= yi * w + xi && yi * w + xi < h * w) by (nonlinear_arith)
                requires
                    0 <= xi < w,
                    0 <= yi < h,
            ;
            vstd::arithmetic::div_mod::lemma_fundamental_div_mod_converse(yi * w + xi, w, yi, xi);
        }
    }
    Image { width: scene.width, height: scene.height, pixels }
}

} // verus!
