//! Bit-pattern representation of the scene's numeric data.
//!
//! Every scalar is the raw IEEE-754 single-precision bit pattern of a 32-bit
//! float, held in a `u32`. The representation is exact: two values are the
//! same float exactly when the bit-level predicates below say so, and the
//! byte layout of a value is the little-endian layout of its bits.

use vstd::prelude::*;

verus! {

/// Sign bit of an IEEE-754 single-precision value.
pub const F32_SIGN_MASK: u32 = 0x8000_0000;

/// All bits but the sign.
pub const F32_ABS_MASK: u32 = 0x7FFF_FFFF;

/// Exponent field.
pub const F32_EXP_MASK: u32 = 0x7F80_0000;

/// Fraction (mantissa) field.
pub const F32_FRAC_MASK: u32 = 0x007F_FFFF;

/// Bit pattern of `1.0f32`.
pub const F32_ONE: u32 = 0x3F80_0000;

/// The bit pattern encodes a NaN: exponent all ones, fraction non-zero.
pub open spec fn is_nan_bits(b: u32) -> bool {
    b & F32_EXP_MASK == F32_EXP_MASK && b & F32_FRAC_MASK != 0
}

/// The bit pattern encodes a zero (either `0.0` or `-0.0`).
pub open spec fn is_zero_bits(b: u32) -> bool {
    b & F32_ABS_MASK == 0
}

/// IEEE-754 equality of the encoded floats: NaN equals nothing, the two
/// zeros equal each other, and any other pair is equal exactly when the bit
/// patterns coincide.
pub open spec fn float_eq_bits(a: u32, b: u32) -> bool {
    &&& !is_nan_bits(a)
    &&& !is_nan_bits(b)
    &&& (a == b || (is_zero_bits(a) && is_zero_bits(b)))
}

/// The encoded float is strictly below zero: sign bit set, not `-0.0`, and
/// not a NaN (a NaN compares below nothing).
pub open spec fn is_negative_bits(b: u32) -> bool {
    &&& b & F32_SIGN_MASK != 0
    &&& !is_zero_bits(b)
    &&& !is_nan_bits(b)
}

/// Decides [`is_nan_bits`].
pub fn nan_bits(b: u32) -> (r: bool)
    ensures
        r == is_nan_bits(b),
{
    b & F32_EXP_MASK == F32_EXP_MASK && b & F32_FRAC_MASK != 0
}

/// Decides [`is_zero_bits`].
pub fn zero_bits(b: u32) -> (r: bool)
    ensures
        r == is_zero_bits(b),
{
    b & F32_ABS_MASK == 0
}

/// Decides [`float_eq_bits`].
pub fn f32_eq(a: u32, b: u32) -> (r: bool)
    ensures
        r == float_eq_bits(a, b),
{
    !nan_bits(a) && !nan_bits(b) && (a == b || (zero_bits(a) && zero_bits(b)))
}

/// Decides [`is_negative_bits`].
pub fn f32_negative(b: u32) -> (r: bool)
    ensures
        r == is_negative_bits(b),
{
    b & F32_SIGN_MASK != 0 && !zero_bits(b) && !nan_bits(b)
}

/// A point or vector of three floats, stored as component bit patterns in
/// `x`, `y`, `z` order.
#[derive(Clone, Copy, PartialEq, Eq, Structural, Debug)]
pub struct Vec3 {
    /// Bit pattern of the `x` component.
    pub x: u32,
    /// Bit pattern of the `y` component.
    pub y: u32,
    /// Bit pattern of the `z` component.
    pub z: u32,
}

impl View for Vec3 {
    type V = (u32, u32, u32);

    open spec fn view(&self) -> (u32, u32, u32) {
        (self.x, self.y, self.z)
    }
}

impl Vec3 {
    /// Builds a value from its three component bit patterns.
    pub fn new(x: u32, y: u32, z: u32) -> (r: Vec3)
        ensures
            r@ == (x, y, z),
    {
        Vec3 { x, y, z }
    }
}

/// The encoded floats of `a` and `b` are componentwise equal.
pub open spec fn vec3_float_eq(a: (u32, u32, u32), b: (u32, u32, u32)) -> bool {
    float_eq_bits(a.0, b.0) && float_eq_bits(a.1, b.1) && float_eq_bits(a.2, b.2)
}

/// Some component of `v` encodes a NaN.
pub open spec fn vec3_has_nan(v: (u32, u32, u32)) -> bool {
    is_nan_bits(v.0) || is_nan_bits(v.1) || is_nan_bits(v.2)
}

/// Decides [`vec3_float_eq`].
pub fn vec3_eq(a: &Vec3, b: &Vec3) -> (r: bool)
    ensures
        r == vec3_float_eq(a@, b@),
{
    f32_eq(a.x, b.x) && f32_eq(a.y, b.y) && f32_eq(a.z, b.z)
}

/// Decides [`vec3_has_nan`].
pub fn vec3_nan(v: &Vec3) -> (r: bool)
    ensures
        r == vec3_has_nan(v@),
{
    nan_bits(v.x) || nan_bits(v.y) || nan_bits(v.z)
}

/// A 4x4 matrix of floats in column-major order, stored as 16 component bit
/// patterns: entry (row `r`, column `c`) lives at index `4 * c + r`.
#[derive(Clone, Copy, Debug)]
pub struct Mat4 {
    /// Column-major component bit patterns.
    pub m: [u32; 16],
}

impl View for Mat4 {
    type V = Seq<u32>;

    open spec fn view(&self) -> Seq<u32> {
        self.m@
    }
}

/// The identity matrix's words: the bit pattern of 1.0 on the diagonal,
/// zeros elsewhere.
pub open spec fn identity_spec() -> Seq<u32> {
    seq![
        F32_ONE, 0u32, 0u32, 0u32,
        0u32, F32_ONE, 0u32, 0u32,
        0u32, 0u32, F32_ONE, 0u32,
        0u32, 0u32, 0u32, F32_ONE,
    ]
}

/// The transpose of a column-major 4x4 matrix, as a pure permutation of its
/// 16 words: entry (r, c) of the result is entry (c, r) of the argument.
pub open spec fn transpose_spec(m: Seq<u32>) -> Seq<u32> {
    Seq::new(16, |i: int| m[4 * (i % 4) + i / 4])
}

impl Mat4 {
    /// The identity matrix.
    pub fn identity() -> (r: Mat4)
        ensures
            r@ == identity_spec(),
    {
        let r = Mat4 {
            m: [
                F32_ONE, 0, 0, 0,
                0, F32_ONE, 0, 0,
                0, 0, F32_ONE, 0,
                0, 0, 0, F32_ONE,
            ],
        };
        proof {
            assert(r@ =~= identity_spec());
        }
        r
    }

    /// Transposes the matrix. Transposition only permutes the stored words,
    /// so it is computed here rather than delegated.
    pub fn transpose(&self) -> (r: Mat4)
        ensures
            r@ == transpose_spec(self@),
    {
        let s = &self.m;
        let r = Mat4 {
            m: [
                s[0], s[4], s[8], s[12],
                s[1], s[5], s[9], s[13],
                s[2], s[6], s[10], s[14],
                s[3], s[7], s[11], s[15],
            ],
        };
        proof {
            assert(r@ =~= transpose_spec(self@));
        }
        r
    }
}

} // verus!
