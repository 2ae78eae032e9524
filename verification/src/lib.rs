//! A small recursive CPU ray tracer, verified end to end over fixed-point
//! arithmetic.
//!
//! Every scalar quantity (coordinates, colors, coefficients) is a [`fx::Fx`]:
//! a signed binary fixed-point number with 20 fractional bits.  All geometric
//! and shading computations are executable functions whose results are pinned
//! down exactly, at the level of raw fixed-point integers, by spec-function
//! mirrors; the module `laws` states and proves the algebraic facts the
//! renderer relies on (nearest-hit selection, reflection involution, the
//! total-internal-reflection boundary, shadowed lights contributing nothing,
//! and depth-bounded recursion returning black).

use vstd::prelude::*;

pub mod color;
pub mod fx;
pub mod laws;
pub mod object;
pub mod point;
pub mod rendering;
pub mod scene;
pub mod tracing;

verus! {

/// Offset, in raw fixed-point units, applied along the surface normal to the
/// origin of secondary rays (shadow, reflection, refraction rays) so that they
/// do not immediately re-intersect the surface they start on.  At 20
/// fractional bits this is about `6.1e-5`, comfortably above the one-unit
/// rounding error of the fixed-point operations.
pub const SHADOW_BIAS: i64 = 64;

/// Default diffuse reflectance for textured materials: `0.8` in raw
/// fixed-point units (truncated).
pub const ALBEDO: i64 = 838860;

} // verus!
