//! The light-marker material and the light animator's constants.
//!
//! Of the two material shapes the scene could use (with or without an
//! explicit light color), the canonical one here is the four-parameter
//! shape without a color field: the object pipeline takes its base color
//! from the texture, and the marker pipeline needs none.

use vstd::prelude::*;

use crate::repr::F32_ONE;

verus! {

/// Degrees of light rotation per millisecond of elapsed time: the bit
/// pattern of `0.002f32`. The host multiplies this by the tick duration in
/// seconds to obtain the tick's rotation angle in degrees.
pub const ANIMATION_SPEED_BITS: u32 = 0x3B03_126F;

/// Material-like parameters of the lit object pipeline, each an IEEE-754
/// bit pattern. Written once at initialization and immutable afterwards.
#[derive(Clone, Copy, Debug)]
pub struct Light {
    /// Specular color, four components with the alpha channel fixed at 1.0.
    pub specular_color: [u32; 4],
    /// Ambient reflection strength.
    pub ambient: u32,
    /// Diffuse reflection strength.
    pub diffuse: u32,
    /// Specular intensity.
    pub specular_intensity: u32,
    /// Specular shininess exponent.
    pub specular_shininess: u32,
}

/// Builds the material from a three-component specular color and the four
/// scalar parameters; the color's alpha channel is fixed at 1.0.
pub fn light(
    specular_color: [u32; 3],
    ambient: u32,
    diffuse: u32,
    specular_intensity: u32,
    specular_shininess: u32,
) -> (l: Light)
    ensures
        l.specular_color@ == seq![specular_color[0], specular_color[1], specular_color[2], F32_ONE],
        l.ambient == ambient,
        l.diffuse == diffuse,
        l.specular_intensity == specular_intensity,
        l.specular_shininess == specular_shininess,
{
    let l = Light {
        specular_color: [specular_color[0], specular_color[1], specular_color[2], F32_ONE],
        ambient,
        diffuse,
        specular_intensity,
        specular_shininess,
    };
    proof {
        assert(l.specular_color@ =~= seq![
            specular_color[0],
            specular_color[1],
            specular_color[2],
            F32_ONE,
        ]);
    }
    l
}

} // verus!
