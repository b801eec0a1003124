use vstd::prelude::*;
use crate::names::FieldName;

verus! {

/// The bit pattern of the binary32 number `0.0`.
pub const ZERO_BITS: u32 = 0;

/// The bit pattern of the binary32 number `1.0`.
pub const ONE_BITS: u32 = 0x3f80_0000;

/// A three-component vector; each component is the bit pattern of a binary32 number.
#[derive(Clone, Copy, Debug, PartialEq, Eq, Structural)]
pub struct Vec3 {
    pub x: u32,
    pub y: u32,
    pub z: u32,
}

/// A rotation quaternion; each component is the bit pattern of a binary32 number.
#[derive(Clone, Copy, Debug, PartialEq, Eq, Structural)]
pub struct Quat {
    pub x: u32,
    pub y: u32,
    pub z: u32,
    pub w: u32,
}

/// Position, rotation and scale of an element.
#[derive(Clone, Copy, Debug, PartialEq, Eq, Structural)]
pub struct Transform {
    pub translation: Vec3,
    pub rotation: Quat,
    pub scale: Vec3,
}

/// The vector whose components are all `c`.
pub open spec fn splat(c: u32) -> Vec3 {
    Vec3 { x: c, y: c, z: c }
}

/// The default vector: all zeros.
pub open spec fn default_vec3() -> Vec3 {
    splat(ZERO_BITS)
}

/// The default rotation: the identity `(0, 0, 0, 1)`.
pub open spec fn default_quat() -> Quat {
    Quat { x: ZERO_BITS, y: ZERO_BITS, z: ZERO_BITS, w: ONE_BITS }
}

/// The default transform: no translation, no rotation, unit scale.
pub open spec fn default_transform() -> Transform {
    Transform { translation: default_vec3(), rotation: default_quat(), scale: splat(ONE_BITS) }
}

impl Default for Vec3 {
    fn default() -> (r: Vec3)
        ensures
            r == default_vec3(),
    {
        Vec3 { x: ZERO_BITS, y: ZERO_BITS, z: ZERO_BITS }
    }
}

impl Default for Quat {
    fn default() -> (r: Quat)
        ensures
            r == default_quat(),
    {
        Quat { x: ZERO_BITS, y: ZERO_BITS, z: ZERO_BITS, w: ONE_BITS }
    }
}

impl Default for Transform {
    fn default() -> (r: Transform)
        ensures
            r == default_transform(),
    {
        Transform {
            translation: Vec3 { x: ZERO_BITS, y: ZERO_BITS, z: ZERO_BITS },
            rotation: Quat { x: ZERO_BITS, y: ZERO_BITS, z: ZERO_BITS, w: ONE_BITS },
            scale: Vec3 { x: ONE_BITS, y: ONE_BITS, z: ONE_BITS },
        }
    }
}

/// The bit pattern is a NaN: all exponent bits set and a nonzero fraction.
pub open spec fn is_nan_bits(b: u32) -> bool {
    b & 0x7f80_0000 == 0x7f80_0000 && b & 0x007f_ffff != 0
}

/// The bit pattern is a number below zero: sign bit set, not `-0.0`, not a NaN.
pub open spec fn is_negative_bits(b: u32) -> bool {
    b & 0x8000_0000 != 0 && b & 0x7fff_ffff != 0 && !is_nan_bits(b)
}

/// Whether the components of field `f` refuse numbers below zero. The scale is
/// a length and refuses them; a translation may point either way and takes
/// them. The rotation has no single components, so its answer is never used.
pub open spec fn negatives_rejected(f: FieldName) -> bool {
    match f {
        FieldName::Translation => false,
        FieldName::Rotation => false,
        FieldName::Scale => true,
    }
}

/// A single component of field `f` given by an attribute is kept only when it
/// is a number, and not below zero where the field refuses negatives.
pub open spec fn leaf_accepted(f: FieldName, b: u32) -> bool {
    !is_nan_bits(b) && !(negatives_rejected(f) && is_negative_bits(b))
}

/// Whether a single component of field `f` given by an attribute is kept.
pub fn accepts_leaf(f: FieldName, b: u32) -> (r: bool)
    ensures
        r == leaf_accepted(f, b),
{
    let rejects = match f {
        FieldName::Translation => false,
        FieldName::Rotation => false,
        FieldName::Scale => true,
    };
    let nan = b & 0x7f80_0000 == 0x7f80_0000 && b & 0x007f_ffff != 0;
    let negative = b & 0x8000_0000 != 0 && b & 0x7fff_ffff != 0 && !nan;
    !nan && !(rejects && negative)
}

} // verus!
