//! The surface of an opaque shape.

use vstd::prelude::*;

verus! {

/// What an opaque shape is made of.
#[derive(Debug, Clone, Copy, PartialEq, Eq, Structural)]
pub enum OpaqueMaterial {
    Plastic,
    Fabric,
    Rubber,
    Wood,
    Metal,
    Null,
}

/// The surface of an opaque shape. No rule about rays reads it.
#[derive(Debug, Clone, Copy)]
pub struct OpaqueTexture {
    /// Red, green, blue and alpha.
    color: (u8, u8, u8, u8),
    /// The share of light thrown back, as a binary64 bit pattern.
    reflectance: u64,
    material: OpaqueMaterial,
}

impl View for OpaqueTexture {
    type V = ((u8, u8, u8, u8), u64, OpaqueMaterial);

    /// The colour, the reflectance and the material.
    closed spec fn view(&self) -> ((u8, u8, u8, u8), u64, OpaqueMaterial) {
        (self.color, self.reflectance, self.material)
    }
}

impl OpaqueTexture {
    /// The surface of the given colour, reflectance and material.
    pub fn new_from(color_tuple: (u8, u8, u8, u8), reflectance: u64, material: OpaqueMaterial) -> (r:
        Self)
        ensures
            r@ == (color_tuple, reflectance, material),
    {
        Self { color: color_tuple, reflectance, material }
    }
}

} // verus!
