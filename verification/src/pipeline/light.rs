//! Light-source parameters: a light is rendered as an instance of its own
//! and hands its values to the program through `light_*` uniforms.

use vstd::prelude::*;
use crate::pipeline::instance::InstanceParams;
use crate::values::{UniformList, UniformValue, Vec3};

verus! {

/// One light source: position, attenuation coefficients, color, and
/// whether this is the scene's main light.
#[derive(Clone, Copy, Debug, PartialEq, Eq, Structural)]
pub struct Light {
    pub position: Vec3,
    pub attenuation: Vec3,
    pub color: Vec3,
    pub is_main: bool,
}

impl Default for Light {
    /// A light at the origin with zero attenuation and zero color, not the
    /// main light.
    fn default() -> (r: Self)
        ensures
            r.position == Vec3::spec_zeros(),
            r.attenuation == Vec3::spec_zeros(),
            r.color == Vec3::spec_zeros(),
            !r.is_main,
    {
        Light {
            position: Vec3::zeros(),
            attenuation: Vec3::zeros(),
            color: Vec3::zeros(),
            is_main: false,
        }
    }
}

impl InstanceParams for Light {
    open spec fn spec_uniforms(&self) -> Seq<(Seq<char>, UniformValue)> {
        seq![
            ("light_position"@, UniformValue::Vec3(self.position)),
            ("light_attenuation"@, UniformValue::Vec3(self.attenuation)),
            ("light_color"@, UniformValue::Vec3(self.color)),
            ("light_is_main"@, UniformValue::Bool(self.is_main)),
        ]
    }

    fn uniforms(&self) -> (r: UniformList) {
        let mut r = UniformList::new();
        r.push("light_position".to_owned(), UniformValue::Vec3(self.position));
        r.push("light_attenuation".to_owned(), UniformValue::Vec3(self.attenuation));
        r.push("light_color".to_owned(), UniformValue::Vec3(self.color));
        r.push("light_is_main".to_owned(), UniformValue::Bool(self.is_main));
        proof {
            assert(r@ =~= self.spec_uniforms());
        }
        r
    }
}

} // verus!
