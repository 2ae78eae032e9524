//! The scene aggregate and its nearest-hit query.

use vstd::prelude::*;

use crate::color::Color;
use crate::fx::Fx;
use crate::object::Object;
use crate::point::{Point, Raw3, Vector3};
use crate::rendering::{Intersectable, Ray};

verus! {

/// A scene: raster size, field of view (stored, not applied), primitives,
/// lights, and the recursion-depth limit.  All of it is immutable for the
/// duration of a render.
pub struct Scene {
    pub width: u32,
    pub height: u32,
    pub fov: Fx,
    pub objects: Vec<Object>,
    pub lights: Vec<Light>,
    pub max_recursion_depth: u32,
}

/// A transient intersection: a nonnegative distance along the ray and the
/// index of the hit primitive in the scene's list.
#[derive(Clone, Copy)]
pub struct Intersection {
    pub distance: Fx,
    pub index: usize,
}

impl Intersection {
    /// Packages a distance with the index of the primitive that reported it.
    pub fn new(distance: Fx, index: usize) -> (r: Intersection)
        ensures
            r.distance == distance,
            r.index == index,
    {
        Intersection { distance, index }
    }
}

/// The nearest hit among the first `n` primitives: minimal raw distance,
/// first-seen under strict-less comparison winning ties.
pub open spec fn trace_pref(objects: Seq<Object>, orig: Raw3, dir: Raw3, n: int) -> Option<
    (int, int),
>
    decreases n,
{
    if n <= 0 {
        None
    } else {
        let prev = trace_pref(objects, orig, dir, n - 1);
        match objects[n - 1].intersect_val(orig, dir) {
            None => prev,
            Some(d) => match prev {
                None => Some((n - 1, d)),
                Some(p) => if d < p.1 {
                    Some((n - 1, d))
                } else {
                    prev
                },
            },
        }
    }
}

/// The nearest hit of a ray in the scene's primitive list, as
/// `(index, raw distance)`.
pub open spec fn trace_val(objects: Seq<Object>, orig: Raw3, dir: Raw3) -> Option<(int, int)> {
    trace_pref(objects, orig, dir, objects.len() as int)
}

/// What the nearest-hit fold returns is a hit of minimal distance among the
/// first `n` primitives, at the least index achieving it; when it returns
/// nothing, none of them is hit.
pub proof fn lemma_trace_pref_nearest(objects: Seq<Object>, orig: Raw3, dir: Raw3, n: int)
    requires
        0 <= n <= objects.len(),
    ensures
        match trace_pref(objects, orig, dir, n) {
            Some(p) => {
                &&& 0 <= p.0 < n
                &&& objects[p.0].intersect_val(orig, dir) == Some(p.1)
                &&& forall|j: int|
                    0 <= j < n ==> ((#[trigger] objects[j].intersect_val(orig, dir))
                        matches Some(dj) ==> dj >= p.1)
                &&& forall|j: int|
                    0 <= j < p.0 ==> ((#[trigger] objects[j].intersect_val(orig, dir))
                        matches Some(dj) ==> dj > p.1)
            },
            None => forall|j: int|
                0 <= j < n ==> (#[trigger] objects[j].intersect_val(orig, dir)) is None,
        },
    decreases n,
{
    if n > 0 {
        lemma_trace_pref_nearest(objects, orig, dir, n - 1);
    }
}

impl Scene {
    /// Every primitive of the scene is renderable and the raster is
    /// nonempty in both axes.
    pub open spec fn wf(&self) -> bool {
        &&& self.width > 0
        &&& self.height > 0
        &&& forall|i: int| 0 <= i < self.objects@.len() ==> self.objects@[i].wf()
    }

    /// Tests the ray against every primitive and returns the nearest hit:
    /// no primitive reports a strictly smaller distance than the one
    /// returned, and among equally near primitives the first-seen wins.
    pub fn trace(&self, ray: &Ray) -> (r: Option<Intersection>)
        ensures
            match r {
                Some(inter) => {
                    &&& (inter.index as int) < self.objects@.len()
                    &&& inter.distance.raw >= 0
                    &&& trace_val(self.objects@, ray.origin.raw3(), ray.direction.raw3())
                        == Some((inter.index as int, inter.distance.raw as int))
                    &&& forall|j: int|
                        0 <= j < self.objects@.len() ==> ((#[trigger] self.objects@[j].intersect_val(
                            ray.origin.raw3(),
                            ray.direction.raw3(),
                        )) matches Some(dj) ==> dj >= inter.distance.raw)
                    &&& forall|j: int|
                        0 <= j < inter.index ==> ((#[trigger] self.objects@[j].intersect_val(
                            ray.origin.raw3(),
                            ray.direction.raw3(),
                        )) matches Some(dj) ==> dj > inter.distance.raw)
                },
                None => {
                    &&& trace_val(self.objects@, ray.origin.raw3(), ray.direction.raw3())
                        is None
                    &&& forall|j: int|
                        0 <= j < self.objects@.len() ==> (#[trigger] self.objects@[
                        j].intersect_val(ray.origin.raw3(), ray.direction.raw3())) is None
                },
            },
    {
        let ghost orig = ray.origin.raw3();
        let ghost dir = ray.direction.raw3();
        let mut best: Option<Intersection> = None;
        let mut i: usize = 0;
        while i < self.objects.len()
            invariant
                i <= self.objects@.len(),
                match best {
                    None => trace_pref(self.objects@, orig, dir, i as int) is None,
                    Some(b) => {
                        &&& (b.index as int) < i as int
                        &&& b.distance.raw >= 0
                        &&& trace_pref(self.objects@, orig, dir, i as int) == Some(
                            (b.index as int, b.distance.raw as int),
                        )
                    },
                },
                orig == ray.origin.raw3(),
                dir == ray.direction.raw3(),
            decreases self.objects@.len() - i as int,
        {
            let obj = &self.objects[i];
            let hit = obj.intersect(ray);
            match hit {
                Some(d) => {
                    let replace = match best {
                        None => true,
                        Some(b) => d.raw < b.distance.raw,
                    };
                    if replace {
                        best = Some(Intersection::new(d, i));
                    }
                },
                None => {},
            }
            i = i + 1;
        }
        proof {
            lemma_trace_pref_nearest(self.objects@, orig, dir, self.objects@.len() as int);
        }
        best
    }
}

/// A light source: far-away parallel light, or a point source with
/// inverse-square falloff.
pub enum Light {
    Directional(DirectionalLight),
    Spherical(SphericalLight),
}

/// Far-away parallel light: a direction (unit, pointing from the light into
/// the scene), a color, an intensity without falloff.
pub struct DirectionalLight {
    pub direction: Vector3,
    pub color: Color,
    pub intensity: Fx,
}

/// A point light source: a position, a color, an intensity subject to
/// inverse-square falloff.
pub struct SphericalLight {
    pub position: Point,
    pub color: Color,
    pub intensity: Fx,
}

impl Light {
    /// The light's color, for specs.
    pub open spec fn color_val(&self) -> Color {
        match self {
            Light::Directional(light) => light.color,
            Light::Spherical(light) => light.color,
        }
    }

    /// The light's color.
    pub fn color(&self) -> (r: Color)
        ensures
            r == self.color_val(),
    {
        match self {
            Light::Directional(light) => light.color,
            Light::Spherical(light) => light.color,
        }
    }
}

} // verus!
