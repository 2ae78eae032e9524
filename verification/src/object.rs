//! Renderable primitives and their materials.
//!
//! A primitive is a sphere or a plane; its material carries a coloration
//! (solid color or tiled texture), a diffuse albedo, and an optical surface
//! behavior.  Textures are pre-decoded rasters of 8-bit pixels; lookup wraps
//! coordinates with a sign-correct modulo so negative values tile correctly.

use vstd::prelude::*;

use crate::color::{from_byte_val, Color, Rgba};
use crate::fx::{add_val, clip, mul_val, trem, trunc_i32_val, Fx, FX_SCALE};
use crate::point::{neg3, norm3, sub3, Point, Raw3, Vector3};
use crate::rendering::{Intersectable, TextureCoords};
use crate::ALBEDO;

verus! {

/// A pre-decoded texture raster: `width * height` pixels, row-major.
pub struct Texture {
    pub width: u32,
    pub height: u32,
    pub pixels: Vec<Rgba>,
}

impl Texture {
    /// A usable raster: nonempty in both axes, fully populated.
    pub open spec fn wf(&self) -> bool {
        &&& self.width > 0
        &&& self.height > 0
        &&& self.pixels@.len() == self.width * self.height
    }

    /// The pixel stored at column `x` of row `y`.
    pub open spec fn pixel_at(&self, x: int, y: int) -> Rgba {
        self.pixels@[y * self.width + x]
    }

    /// Reads the pixel at column `x` of row `y`.
    pub fn get_pixel(&self, x: u32, y: u32) -> (r: Rgba)
        requires
            self.wf(),
            x < self.width,
            y < self.height,
        ensures
            r == self.pixel_at(x as int, y as int),
    {
        proof {
            let w = self.width as int;
            let h = self.height as int;
            assert((y as int) * w + (x as int) < w * h && w * h <= 0xffff_fffe_0000_0001) by (nonlinear_arith)
                requires
                    0 <= (x as int) && (x as int) < w,
                    0 <= (y as int) && (y as int) < h,
                    w <= 0xffff_ffff,
                    h <= 0xffff_ffff,
            ;
        }
        let idx: u64 = (y as u64) * (self.width as u64) + (x as u64);
        let n: usize = self.pixels.len();
        assert(idx < n as u64);
        self.pixels[idx as usize]
    }
}

/// Raw result of wrapping a texture coordinate into `[0, bound)` pixel
/// indices: scale by the bound, truncate toward zero, take the remainder, and
/// shift negative remainders up by one period.
pub open spec fn wrap_val(vraw: int, bound: int) -> int
    recommends
        bound > 0,
{
    let f = mul_val(vraw, clip(bound * FX_SCALE));
    let t = trunc_i32_val(f);
    let w = trem(t, bound);
    if w < 0 {
        w + bound
    } else {
        w
    }
}

/// Wraps a texture coordinate into `[0, bound)` pixel indices; negative
/// coordinates tile correctly.
pub fn wrap(val: Fx, bound: u32) -> (r: u32)
    requires
        bound > 0,
    ensures
        r as int == wrap_val(val.raw as int, bound as int),
        r < bound,
{
    let float_coord: Fx = val.times(Fx::from_int(bound as i64));
    let t: i32 = float_coord.trunc_i32();
    let tm: u64 = if t < 0 {
        (-(t as i64)) as u64
    } else {
        t as u64
    };
    let m: u64 = tm % (bound as u64);
    proof {
        vstd::arithmetic::div_mod::lemma_mod_bound(tm as int, bound as int);
    }
    if t < 0 {
        if m == 0 {
            0
        } else {
            bound - (m as u32)
        }
    } else {
        m as u32
    }
}

/// Surface appearance: a solid color, or a tiled texture with scale and
/// offset applied to the local coordinates before lookup.
pub enum Coloration {
    Color(Color),
    Texture { image: Texture, scaling: Fx, offset: Fx },
}

impl Coloration {
    /// Any texture present is usable.
    pub open spec fn wf(&self) -> bool {
        match self {
            Coloration::Color(_) => true,
            Coloration::Texture { image, .. } => image.wf(),
        }
    }

    /// The raw channels resolved at local coordinates `(tx, ty)`.
    pub open spec fn color_at(&self, tx: int, ty: int) -> (int, int, int) {
        match self {
            Coloration::Color(c) => c.rgb(),
            Coloration::Texture { image, scaling, offset } => {
                let u = wrap_val(add_val(mul_val(tx, scaling.raw as int), offset.raw as int),
                    image.width as int);
                let v = wrap_val(add_val(mul_val(ty, scaling.raw as int), offset.raw as int),
                    image.height as int);
                let p = image.pixel_at(u, v);
                (from_byte_val(p.r as int), from_byte_val(p.g as int), from_byte_val(p.b as int))
            },
        }
    }

    /// Resolves the color at the given local surface coordinates.
    pub fn color(&self, texture_coords: &TextureCoords) -> (r: Color)
        requires
            self.wf(),
        ensures
            r.rgb() == self.color_at(texture_coords.x.raw as int, texture_coords.y.raw as int),
    {
        match self {
            Coloration::Color(c) => *c,
            Coloration::Texture { image, scaling, offset } => {
                let tex_x = wrap(texture_coords.x.times(*scaling).plus(*offset), image.width);
                let tex_y = wrap(texture_coords.y.times(*scaling).plus(*offset), image.height);
                Color::from_rgba(image.get_pixel(tex_x, tex_y))
            },
        }
    }
}

/// Optical behavior of a surface.
#[derive(Clone, Copy, PartialEq, Eq, Structural, Debug)]
pub enum Surface {
    Diffusive,
    Reflective { reflectivity: Fx },
    Refractive { transparency: Fx, index: Fx },
}

impl Surface {
    /// Whether the surface transmits light (is refractive).
    pub fn in_transparent(&self) -> (r: bool)
        ensures
            r == (self is Refractive),
    {
        match self {
            Self::Refractive { transparency: _, index: _ } => true,
            _ => false,
        }
    }
}

/// Surface appearance plus optical behavior plus diffuse reflectance.
pub struct Material {
    pub color: Coloration,
    pub albedo: Fx,
    pub surface: Surface,
}

impl Material {
    /// Any texture present is usable, and a refractive index is at least one
    /// (the data model asks for an index above one).
    pub open spec fn wf(&self) -> bool {
        &&& self.color.wf()
        &&& match self.surface {
            Surface::Refractive { transparency: _, index } => index.raw >= FX_SCALE,
            _ => true,
        }
    }

    /// A solid-colored material.
    pub fn from_color(color: Color, albedo: Fx, surface: Surface) -> (r: Material)
        ensures
            r.color == Coloration::Color(color),
            r.albedo == albedo,
            r.surface == surface,
    {
        Material { color: Coloration::Color(color), albedo, surface }
    }

    /// A textured material over a pre-decoded raster, with the default
    /// albedo.
    pub fn get_texture(image: Texture, scaling: Fx, offset: Fx, surface: Surface) -> (r: Material)
        ensures
            r.color matches Coloration::Texture { image: i, scaling: s, offset: o } && i == image
                && s == scaling && o == offset,
            r.albedo.raw == ALBEDO,
            r.surface == surface,
    {
        Material {
            color: Coloration::Texture { image, scaling, offset },
            albedo: Fx { raw: ALBEDO },
            surface,
        }
    }
}

/// A sphere: center, radius, material.
pub struct Sphere {
    pub center: Point,
    pub radius: Fx,
    pub material: Material,
}

impl Sphere {
    /// A renderable sphere: positive radius, usable material.
    pub open spec fn wf(&self) -> bool {
        &&& self.radius.raw > 0
        &&& self.material.wf()
    }

    /// The outward unit normal at a point of the surface.
    pub fn surface_normal(&self, hit_point: &Point) -> (r: Vector3)
        ensures
            r.raw3() == norm3(sub3(hit_point.raw3(), self.center.raw3())),
    {
        hit_point.minus(self.center).to_vector().normalize()
    }
}

/// A plane: a point of it, its normal (pointing into the surface), material.
pub struct Plane {
    pub origin: Point,
    pub normal: Vector3,
    pub material: Material,
}

impl Plane {
    /// A renderable plane: usable material.
    pub open spec fn wf(&self) -> bool {
        self.material.wf()
    }

    /// The shading normal: the stored normal points into the surface, so the
    /// outward normal is its negation.
    pub fn surface_normal(&self, _hit_point: &Point) -> (r: Vector3)
        ensures
            r.raw3() == neg3(self.normal.raw3()),
    {
        Vector3::zero().minus(self.normal)
    }
}

/// A renderable primitive.
pub enum Object {
    Sphere(Sphere),
    Plane(Plane),
}

impl Object {
    /// A renderable primitive with a usable material.
    pub open spec fn wf(&self) -> bool {
        match self {
            Object::Sphere(sphere) => sphere.wf(),
            Object::Plane(plane) => plane.wf(),
        }
    }

    /// The material's coloration, for specs.
    pub open spec fn coloration(&self) -> Coloration {
        match self {
            Object::Sphere(sphere) => sphere.material.color,
            Object::Plane(plane) => plane.material.color,
        }
    }

    /// The raw diffuse reflectance, for specs.
    pub open spec fn albedo_val(&self) -> int {
        match self {
            Object::Sphere(sphere) => sphere.material.albedo.raw as int,
            Object::Plane(plane) => plane.material.albedo.raw as int,
        }
    }

    /// The raw outward unit normal at a surface point, for specs.
    pub open spec fn surface_normal_val(&self, hit_point: Raw3) -> Raw3 {
        match self {
            Object::Sphere(sphere) => norm3(sub3(hit_point, sphere.center.raw3())),
            Object::Plane(plane) => neg3(plane.normal.raw3()),
        }
    }

    /// The raw channels of the surface color at a hit point, for specs.
    pub open spec fn color_val(&self, hp: Raw3) -> (int, int, int) {
        let tc = self.texture_coords_val(hp);
        self.coloration().color_at(tc.0, tc.1)
    }

    /// Resolves the material's color at a hit point (solid color, or texture
    /// lookup through the local surface coordinates).
    pub fn color(&self, hit_point: &Point) -> (r: Color)
        requires
            self.wf(),
        ensures
            r.rgb() == self.color_val(hit_point.raw3()),
    {
        match self {
            Object::Plane(plane) => plane.material.color.color(&self.texture_coords(hit_point)),
            Object::Sphere(sphere) => sphere.material.color.color(
                &self.texture_coords(hit_point),
            ),
        }
    }

    /// The diffuse reflectance of the material.
    pub fn albedo(&self) -> (r: Fx)
        ensures
            r.raw as int == self.albedo_val(),
    {
        match self {
            Object::Plane(plane) => plane.material.albedo,
            Object::Sphere(sphere) => sphere.material.albedo,
        }
    }

    /// The outward unit normal at a point of the surface.
    pub fn surface_normal(&self, hit_point: &Point) -> (r: Vector3)
        ensures
            r.raw3() == self.surface_normal_val(hit_point.raw3()),
    {
        match self {
            Object::Plane(plane) => plane.surface_normal(hit_point),
            Object::Sphere(sphere) => sphere.surface_normal(hit_point),
        }
    }

    /// The optical behavior of the material, for specs.
    pub open spec fn surface_type_val(&self) -> Surface {
        match self {
            Object::Plane(plane) => plane.material.surface,
            Object::Sphere(sphere) => sphere.material.surface,
        }
    }

    /// The optical behavior of the material.
    pub fn surface_type(&self) -> (r: Surface)
        ensures
            r == self.surface_type_val(),
    {
        match self {
            Object::Plane(plane) => plane.material.surface,
            Object::Sphere(sphere) => sphere.material.surface,
        }
    }
}

} // verus!
