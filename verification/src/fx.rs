//! Signed binary fixed-point scalars with 20 fractional bits.
//!
//! A value `v` is stored as the integer `v.raw`, standing for the real number
//! `v.raw / FX_SCALE`.  Multiplication and division truncate toward zero, and
//! every operation saturates at `±FX_LIM`, so all operations are total and no
//! overflow can occur anywhere in the tracer.  Each executable operation is pinned down
//! exactly by a spec-function mirror over the raw integers.

use vstd::prelude::*;

verus! {

/// The scale factor: one unit is `1 / 2^20`.
pub const FX_SCALE: i64 = 1048576;

/// Saturation bound on raw values: `2^62`.
pub const FX_LIM: i64 = 0x4000_0000_0000_0000;

/// Absolute value over mathematical integers.
pub open spec fn abs_val(v: int) -> int {
    if v < 0 {
        -v
    } else {
        v
    }
}

/// Saturation of a raw value into `[-FX_LIM, FX_LIM]`.
pub open spec fn clip(v: int) -> int {
    if v > FX_LIM {
        FX_LIM as int
    } else if v < -(FX_LIM as int) {
        -(FX_LIM as int)
    } else {
        v
    }
}

/// Integer division truncating toward zero (the rounding used by all
/// fixed-point multiplications and divisions).
pub open spec fn tdiv(n: int, d: int) -> int
    recommends
        d != 0,
{
    if (n < 0) == (d < 0) {
        abs_val(n) / abs_val(d)
    } else {
        -(abs_val(n) / abs_val(d))
    }
}

/// The integer square root, rounded down; zero for negative arguments.
pub open spec fn sqrt_floor(n: int) -> int
    decreases n,
{
    if n <= 0 {
        0
    } else if (sqrt_floor(n - 1) + 1) * (sqrt_floor(n - 1) + 1) <= n {
        sqrt_floor(n - 1) + 1
    } else {
        sqrt_floor(n - 1)
    }
}

/// `sqrt_floor(n)` is the unique `r >= 0` with `r * r <= n < (r + 1) * (r + 1)`.
pub proof fn lemma_sqrt_floor(n: int)
    requires
        n >= 0,
    ensures
        sqrt_floor(n) >= 0,
        sqrt_floor(n) * sqrt_floor(n) <= n,
        n < (sqrt_floor(n) + 1) * (sqrt_floor(n) + 1),
    decreases n,
{
    if n == 0 {
        assert(sqrt_floor(0) == 0);
    } else {
        lemma_sqrt_floor(n - 1);
        let r = sqrt_floor(n - 1);
        if (r + 1) * (r + 1) <= n {
            assert(sqrt_floor(n) == r + 1);
            // n - 1 < (r + 1) * (r + 1) <= n forces n == (r + 1) * (r + 1)
            assert(n < (r + 2) * (r + 2)) by (nonlinear_arith)
                requires
                    r >= 0,
                    n == (r + 1) * (r + 1),
            ;
        } else {
            assert(sqrt_floor(n) == r);
        }
    }
}

/// Any `r >= 0` with `r * r <= n < (r + 1) * (r + 1)` equals `sqrt_floor(n)`.
pub proof fn lemma_sqrt_floor_unique(n: int, r: int)
    requires
        n >= 0,
        r >= 0,
        r * r <= n,
        n < (r + 1) * (r + 1),
    ensures
        r == sqrt_floor(n),
{
    lemma_sqrt_floor(n);
    let s = sqrt_floor(n);
    if r < s {
        assert((r + 1) * (r + 1) <= s * s) by (nonlinear_arith)
            requires
                0 <= r,
                r + 1 <= s,
        ;
    }
    if s < r {
        assert((s + 1) * (s + 1) <= r * r) by (nonlinear_arith)
            requires
                0 <= s,
                s + 1 <= r,
        ;
    }
}

/// Raw result of fixed-point addition.
pub open spec fn add_val(a: int, b: int) -> int {
    clip(a + b)
}

/// Raw result of fixed-point subtraction.
pub open spec fn sub_val(a: int, b: int) -> int {
    clip(a - b)
}

/// Raw result of fixed-point negation.
pub open spec fn neg_val(a: int) -> int {
    clip(-a)
}

/// Raw result of fixed-point multiplication.
pub open spec fn mul_val(a: int, b: int) -> int {
    clip(tdiv(a * b, FX_SCALE as int))
}

/// Raw result of fixed-point division.
pub open spec fn div_val(a: int, b: int) -> int
    recommends
        b != 0,
{
    clip(tdiv(a * FX_SCALE, b))
}

/// Raw result of the fixed-point square root; negative inputs, which have no
/// real root, are taken to zero.
pub open spec fn sqrt_val(a: int) -> int {
    if a <= 0 {
        0
    } else {
        sqrt_floor(a * FX_SCALE)
    }
}

/// Remainder truncating toward zero (the sign follows the dividend), for a
/// positive divisor.
pub open spec fn trem(n: int, d: int) -> int
    recommends
        d > 0,
{
    if n < 0 {
        -((-n) % d)
    } else {
        n % d
    }
}

/// The integer part of a raw value, truncated toward zero and saturated into
/// the `i32` range.
pub open spec fn trunc_i32_val(a: int) -> int {
    let t = tdiv(a, FX_SCALE as int);
    if t > i32::MAX {
        i32::MAX as int
    } else if t < i32::MIN {
        i32::MIN as int
    } else {
        t
    }
}

/// Raw result of fixed-point absolute value.
pub open spec fn abs_fx_val(a: int) -> int {
    if a < 0 {
        neg_val(a)
    } else {
        a
    }
}

/// A fixed-point scalar: the real number `raw / FX_SCALE`.
#[derive(Clone, Copy, PartialEq, Eq, Structural, Debug)]
pub struct Fx {
    pub raw: i64,
}

/// Saturate an intermediate wide value into the raw range.
fn clip_i128(v: i128) -> (r: i64)
    ensures
        r as int == clip(v as int),
{
    if v > FX_LIM as i128 {
        FX_LIM
    } else if v < -(FX_LIM as i128) {
        -FX_LIM
    } else {
        v as i64
    }
}

/// The exact product of two raw values, in a wide intermediate.
fn wide_mul(a: i64, b: i64) -> (r: i128)
    ensures
        r as int == (a as int) * (b as int),
        i128::MIN < r,
{
    proof {
        assert(-0x4000_0000_0000_0000_0000_0000_0000_0000 <= (a as int) * (b as int)
            <= 0x4000_0000_0000_0000_0000_0000_0000_0000) by (nonlinear_arith)
            requires
                -0x8000_0000_0000_0000 <= a as int <= 0x7fff_ffff_ffff_ffff,
                -0x8000_0000_0000_0000 <= b as int <= 0x7fff_ffff_ffff_ffff,
        ;
    }
    (a as i128) * (b as i128)
}

/// Wide division truncating toward zero.
fn tdiv_i128(n: i128, d: i128) -> (q: i128)
    requires
        d != 0,
        n != i128::MIN,
        d != i128::MIN,
    ensures
        q as int == tdiv(n as int, d as int),
{
    let nn: u128 = if n < 0 {
        (-n) as u128
    } else {
        n as u128
    };
    let dd: u128 = if d < 0 {
        (-d) as u128
    } else {
        d as u128
    };
    let qq: u128 = nn / dd;
    assert(qq <= nn);
    if (n < 0) != (d < 0) {
        -(qq as i128)
    } else {
        qq as i128
    }
}

/// The integer square root of a wide unsigned value, by binary search.
fn isqrt_u128(n: u128) -> (r: u64)
    ensures
        r as int == sqrt_floor(n as int),
{
    let mut lo: u128 = 0;
    let mut hi: u128 = 0x1_0000_0000_0000_0000;
    assert(hi * hi > n as int);
    while hi - lo > 1
        invariant
            lo < hi,
            hi <= 0x1_0000_0000_0000_0000,
            lo * lo <= n as int,
            (n as int) < hi * hi,
        decreases hi - lo,
    {
        let mid: u128 = lo + (hi - lo) / 2;
        assert(lo < mid < hi);
        assert(mid * mid < 0x1_0000_0000_0000_0000_0000_0000_0000_0000) by (nonlinear_arith)
            requires
                0 <= mid < 0x1_0000_0000_0000_0000,
        ;
        if mid * mid <= n {
            lo = mid;
        } else {
            hi = mid;
        }
    }
    proof {
        assert(hi == lo + 1);
        lemma_sqrt_floor_unique(n as int, lo as int);
    }
    lo as u64
}

impl Fx {
    /// The zero scalar.
    pub fn zero() -> (r: Fx)
        ensures
            r.raw == 0,
    {
        Fx { raw: 0 }
    }

    /// The unit scalar.
    pub fn one() -> (r: Fx)
        ensures
            r.raw == FX_SCALE,
    {
        Fx { raw: FX_SCALE }
    }

    /// The scalar for the integer `v`, saturated into range.
    pub fn from_int(v: i64) -> (r: Fx)
        ensures
            r.raw as int == clip(v * FX_SCALE),
    {
        let w: i128 = wide_mul(v, FX_SCALE);
        Fx { raw: clip_i128(w) }
    }

    /// The scalar nearest `n / d` from below in magnitude (truncation).
    pub fn from_ratio(n: i64, d: i64) -> (r: Fx)
        requires
            d != 0,
        ensures
            r.raw as int == clip(tdiv(n * FX_SCALE, d as int)),
    {
        let w: i128 = wide_mul(n, FX_SCALE);
        let q = tdiv_i128(w, d as i128);
        Fx { raw: clip_i128(q) }
    }

    /// Saturating fixed-point addition.
    pub fn plus(self, o: Fx) -> (r: Fx)
        ensures
            r.raw as int == add_val(self.raw as int, o.raw as int),
    {
        let w: i128 = self.raw as i128 + o.raw as i128;
        Fx { raw: clip_i128(w) }
    }

    /// Saturating fixed-point subtraction.
    pub fn minus(self, o: Fx) -> (r: Fx)
        ensures
            r.raw as int == sub_val(self.raw as int, o.raw as int),
    {
        let w: i128 = self.raw as i128 - o.raw as i128;
        Fx { raw: clip_i128(w) }
    }

    /// Saturating fixed-point negation.
    pub fn neg(self) -> (r: Fx)
        ensures
            r.raw as int == neg_val(self.raw as int),
    {
        let w: i128 = -(self.raw as i128);
        Fx { raw: clip_i128(w) }
    }

    /// Saturating fixed-point multiplication, truncating toward zero.
    pub fn times(self, o: Fx) -> (r: Fx)
        ensures
            r.raw as int == mul_val(self.raw as int, o.raw as int),
    {
        let w: i128 = wide_mul(self.raw, o.raw);
        let q = tdiv_i128(w, FX_SCALE as i128);
        Fx { raw: clip_i128(q) }
    }

    /// Saturating fixed-point division, truncating toward zero.
    pub fn divide(self, o: Fx) -> (r: Fx)
        requires
            o.raw != 0,
        ensures
            r.raw as int == div_val(self.raw as int, o.raw as int),
    {
        let w: i128 = wide_mul(self.raw, FX_SCALE);
        let q = tdiv_i128(w, o.raw as i128);
        Fx { raw: clip_i128(q) }
    }

    /// Fixed-point square root, rounded down; zero on negative inputs.
    pub fn sqrt(self) -> (r: Fx)
        ensures
            r.raw as int == sqrt_val(self.raw as int),
    {
        if self.raw <= 0 {
            Fx { raw: 0 }
        } else {
            let n: u128 = (self.raw as u128) * (FX_SCALE as u128);
            let s: u64 = isqrt_u128(n);
            proof {
                lemma_sqrt_floor(n as int);
                assert(s as int * s as int <= n as int);
                assert((s as int) < 0x8000_0000_0000_0000) by (nonlinear_arith)
                    requires
                        s as int >= 0,
                        s as int * s as int <= n as int,
                        n as int <= 0x4000_0000_0000_0000 * 0x100000 * 2,
                ;
            }
            Fx { raw: s as i64 }
        }
    }

    /// The integer part, truncated toward zero and saturated into the `i32`
    /// range.
    pub fn trunc_i32(self) -> (r: i32)
        ensures
            r as int == trunc_i32_val(self.raw as int),
    {
        let t: i128 = tdiv_i128(self.raw as i128, FX_SCALE as i128);
        if t > i32::MAX as i128 {
            i32::MAX
        } else if t < i32::MIN as i128 {
            i32::MIN
        } else {
            t as i32
        }
    }

    /// Fixed-point absolute value (saturating on the most negative raw value).
    pub fn abs(self) -> (r: Fx)
        ensures
            r.raw as int == abs_fx_val(self.raw as int),
    {
        if self.raw < 0 {
            self.neg()
        } else {
            self
        }
    }
}

} // verus!
