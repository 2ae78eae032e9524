//! RGB colors over fixed-point scalars, and 8-bit pixel conversion.
//!
//! Intermediate colors may leave `[0, 1]` in either direction; `clamp` forces
//! each channel back into that range, and the 8-bit conversion scales by 255,
//! truncates toward zero and saturates.

use vstd::prelude::*;

use crate::fx::{add_val, clip, mul_val, tdiv, Fx, FX_SCALE};

verus! {

/// An 8-bit RGBA pixel, alpha always opaque in rendered output.
#[derive(Clone, Copy, PartialEq, Eq, Structural, Debug)]
pub struct Rgba {
    pub r: u8,
    pub g: u8,
    pub b: u8,
    pub a: u8,
}

/// Raw result of clamping one channel into `[0, 1]`.
pub open spec fn clamp01_val(a: int) -> int {
    if a < 0 {
        0
    } else if a > FX_SCALE {
        FX_SCALE as int
    } else {
        a
    }
}

/// The 8-bit value of one channel: scaled by 255, truncated, saturated.
pub open spec fn to_byte_val(a: int) -> int {
    let v = tdiv(255 * a, FX_SCALE as int);
    if v < 0 {
        0
    } else if v > 255 {
        255
    } else {
        v
    }
}

/// The channel value of one 8-bit sample: `b / 255` in fixed point.
pub open spec fn from_byte_val(b: int) -> int {
    clip(tdiv(b * FX_SCALE, 255))
}

/// An RGB color; channels are fixed-point scalars, nominally in `[0, 1]`.
#[derive(Clone, Copy, PartialEq, Eq, Structural, Debug)]
pub struct Color {
    pub red: Fx,
    pub green: Fx,
    pub blue: Fx,
}

/// One channel scaled by 255, truncated and saturated into a byte.
fn channel_to_byte(c: Fx) -> (r: u8)
    ensures
        r as int == to_byte_val(c.raw as int),
{
    if c.raw < 0 {
        0
    } else if c.raw > FX_SCALE {
        255
    } else {
        let v: u64 = (255 * (c.raw as u64)) / (FX_SCALE as u64);
        assert(v as int == tdiv(255 * c.raw, FX_SCALE as int));
        assert(v <= 255) by (nonlinear_arith)
            requires
                0 <= c.raw <= FX_SCALE,
                v == 255 * (c.raw as int) / (FX_SCALE as int),
                FX_SCALE == 1048576,
        ;
        v as u8
    }
}

impl Color {
    /// The raw channel values, for specs.
    pub open spec fn rgb(self) -> (int, int, int) {
        (self.red.raw as int, self.green.raw as int, self.blue.raw as int)
    }

    /// Exact black.
    pub fn black() -> (r: Color)
        ensures
            r.rgb() == (0int, 0int, 0int),
    {
        Color { red: Fx::zero(), green: Fx::zero(), blue: Fx::zero() }
    }

    /// Pure white.
    pub fn white() -> (r: Color)
        ensures
            r.rgb() == (FX_SCALE as int, FX_SCALE as int, FX_SCALE as int),
    {
        Color { red: Fx::one(), green: Fx::one(), blue: Fx::one() }
    }

    /// The opaque 8-bit pixel for this color.
    pub fn to_rgba(&self) -> (r: Rgba)
        ensures
            r.r as int == to_byte_val(self.red.raw as int),
            r.g as int == to_byte_val(self.green.raw as int),
            r.b as int == to_byte_val(self.blue.raw as int),
            r.a == 255,
    {
        Rgba {
            r: channel_to_byte(self.red),
            g: channel_to_byte(self.green),
            b: channel_to_byte(self.blue),
            a: 255,
        }
    }

    /// The color of an 8-bit pixel (alpha ignored).
    pub fn from_rgba(rgba: Rgba) -> (r: Color)
        ensures
            r.red.raw as int == from_byte_val(rgba.r as int),
            r.green.raw as int == from_byte_val(rgba.g as int),
            r.blue.raw as int == from_byte_val(rgba.b as int),
    {
        Color {
            red: Fx::from_ratio(rgba.r as i64, 255),
            green: Fx::from_ratio(rgba.g as i64, 255),
            blue: Fx::from_ratio(rgba.b as i64, 255),
        }
    }

    /// Each channel clamped into `[0, 1]`.
    pub fn clamp(&self) -> (r: Color)
        ensures
            r.red.raw as int == clamp01_val(self.red.raw as int),
            r.green.raw as int == clamp01_val(self.green.raw as int),
            r.blue.raw as int == clamp01_val(self.blue.raw as int),
    {
        Color {
            red: clamp_channel(self.red),
            green: clamp_channel(self.green),
            blue: clamp_channel(self.blue),
        }
    }

    /// Component-wise product of two colors.
    pub fn times(self, rhs: Color) -> (r: Color)
        ensures
            r.red.raw as int == mul_val(self.red.raw as int, rhs.red.raw as int),
            r.green.raw as int == mul_val(self.green.raw as int, rhs.green.raw as int),
            r.blue.raw as int == mul_val(self.blue.raw as int, rhs.blue.raw as int),
    {
        Color {
            red: self.red.times(rhs.red),
            green: self.green.times(rhs.green),
            blue: self.blue.times(rhs.blue),
        }
    }

    /// Each channel scaled by a scalar.
    pub fn scale(self, rhs: Fx) -> (r: Color)
        ensures
            r.red.raw as int == mul_val(self.red.raw as int, rhs.raw as int),
            r.green.raw as int == mul_val(self.green.raw as int, rhs.raw as int),
            r.blue.raw as int == mul_val(self.blue.raw as int, rhs.raw as int),
    {
        Color {
            red: self.red.times(rhs),
            green: self.green.times(rhs),
            blue: self.blue.times(rhs),
        }
    }

    /// Component-wise sum of two colors.
    pub fn plus(self, rhs: Color) -> (r: Color)
        ensures
            r.red.raw as int == add_val(self.red.raw as int, rhs.red.raw as int),
            r.green.raw as int == add_val(self.green.raw as int, rhs.green.raw as int),
            r.blue.raw as int == add_val(self.blue.raw as int, rhs.blue.raw as int),
    {
        Color {
            red: self.red.plus(rhs.red),
            green: self.green.plus(rhs.green),
            blue: self.blue.plus(rhs.blue),
        }
    }
}

/// One channel clamped into `[0, 1]`.
fn clamp_channel(c: Fx) -> (r: Fx)
    ensures
        r.raw as int == clamp01_val(c.raw as int),
{
    if c.raw < 0 {
        Fx { raw: 0 }
    } else if c.raw > FX_SCALE {
        Fx { raw: FX_SCALE }
    } else {
        c
    }
}

} // verus!
