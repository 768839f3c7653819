//! Light sources of the scene.
//!
//! Scalar components are IEEE 754 bit patterns, like everywhere else in the
//! data model.

use vstd::prelude::*;

use crate::figure::ONE_BITS;
use crate::figure::ZERO_BITS;

verus! {

/// Bit pattern of the 32-bit float `3.75`, the radius of the default light.
pub const DEFAULT_LIGHT_RADIUS_BITS: u32 = 0x4070_0000;

/// A light source; the only current variant is a point light.
#[derive(Clone, Copy, Debug, PartialEq, Eq)]
pub enum Light {
    Point(PointLight),
}

/// A point light: a world-space position, a color and a falloff radius.
#[derive(Clone, Copy, Debug, PartialEq, Eq)]
pub struct PointLight {
    pub position: [u32; 4],
    pub color: [u32; 3],
    pub radius: u32,
}

impl PointLight {
    pub fn new(position: [u32; 4], color: [u32; 3], radius: u32) -> (r: Self)
        ensures
            r == (PointLight { position, color, radius }),
    {
        PointLight { position, color, radius }
    }

    /// The default light set: one white point light one unit in front of the
    /// origin, with radius `3.75`.
    pub fn default_lights() -> (r: Vec<Light>)
        ensures
            r@ =~= seq![default_point_light()],
    {
        let a_light = PointLight::new(
            [ZERO_BITS, ZERO_BITS, ONE_BITS, ZERO_BITS],
            [ONE_BITS, ONE_BITS, ONE_BITS],
            DEFAULT_LIGHT_RADIUS_BITS,
        );
        let mut lights: Vec<Light> = Vec::new();
        lights.push(Light::Point(a_light));
        proof {
            assert(a_light.position =~= [ZERO_BITS, ZERO_BITS, ONE_BITS, ZERO_BITS]);
            assert(a_light.color =~= [ONE_BITS, ONE_BITS, ONE_BITS]);
        }
        lights
    }
}

/// The one light in the default light set.
pub open spec fn default_point_light() -> Light {
    Light::Point(
        PointLight {
            position: [ZERO_BITS, ZERO_BITS, ONE_BITS, ZERO_BITS],
            color: [ONE_BITS, ONE_BITS, ONE_BITS],
            radius: DEFAULT_LIGHT_RADIUS_BITS,
        },
    )
}

} // verus!
