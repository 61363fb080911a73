use vstd::prelude::*;
use crate::arithmetic::{exact, powf_of, Arithmetic};
use crate::lights::{Light, LightProperties};
use crate::patterns::Pattern;
use crate::scalar::Scalar;
use crate::shapes::{HasMaterial, Shape};
use crate::tuples::{Color, Point, Vector};

verus! {

/// How a surface answers light.
#[derive(Debug, Clone, Copy)]
pub struct Material {
    pub color: Color,
    pub ambient: Scalar,
    pub diffuse: Scalar,
    pub specular: Scalar,
    pub shininess: Scalar,
    pub pattern: Option<Pattern>,
    pub reflective: Scalar,
    pub transparency: Scalar,
    pub refractive_index: Scalar,
}

impl Material {
    /// The material that a shape has until it is given another: white,
    /// ambient a tenth, diffuse and specular nine tenths, shininess 200,
    /// neither reflective nor transparent, with the refractive index of empty
    /// space.
    pub open spec fn standard() -> Material {
        Material {
            color: Color {
                r: Scalar { bits: 0x3f80_0000 },
                g: Scalar { bits: 0x3f80_0000 },
                b: Scalar { bits: 0x3f80_0000 },
            },
            ambient: Scalar { bits: 0x3dcc_cccd },
            diffuse: Scalar { bits: 0x3f66_6666 },
            specular: Scalar { bits: 0x3f66_6666 },
            shininess: Scalar { bits: 0x4348_0000 },
            pattern: None,
            reflective: Scalar { bits: 0 },
            transparency: Scalar { bits: 0 },
            refractive_index: Scalar { bits: 0x3f80_0000 },
        }
    }

    /// Glass: white, every coefficient one, shininess 300, reflective nine
    /// tenths, fully transparent, refractive index one and a half.
    pub open spec fn pane() -> Material {
        Material {
            color: Color {
                r: Scalar { bits: 0x3f80_0000 },
                g: Scalar { bits: 0x3f80_0000 },
                b: Scalar { bits: 0x3f80_0000 },
            },
            ambient: Scalar { bits: 0x3f80_0000 },
            diffuse: Scalar { bits: 0x3f80_0000 },
            specular: Scalar { bits: 0x3f80_0000 },
            shininess: Scalar { bits: 0x4396_0000 },
            pattern: None,
            reflective: Scalar { bits: 0x3f66_6666 },
            transparency: Scalar { bits: 0x3f80_0000 },
            refractive_index: Scalar { bits: 0x3fc0_0000 },
        }
    }

    /// A material without a pattern.
    pub fn new(
        color: Color,
        ambient: Scalar,
        diffuse: Scalar,
        specular: Scalar,
        shininess: Scalar,
        reflective: Scalar,
        transparency: Scalar,
        refractive_index: Scalar,
    ) -> (m: Self)
        ensures
            m == (Material {
                color,
                ambient,
                diffuse,
                specular,
                shininess,
                pattern: None,
                reflective,
                transparency,
                refractive_index,
            }),
    {
        Material {
            color,
            ambient,
            diffuse,
            specular,
            shininess,
            pattern: None,
            reflective,
            transparency,
            refractive_index,
        }
    }

    pub fn default() -> (m: Self)
        ensures
            m == Material::standard(),
    {
        Material::new(
            Color::white(),
            Scalar::from_bits(0x3dcc_cccd),
            Scalar::from_bits(0x3f66_6666),
            Scalar::from_bits(0x3f66_6666),
            Scalar::from_bits(0x4348_0000),
            Scalar::zero(),
            Scalar::zero(),
            Scalar::one(),
        )
    }

    pub fn glass() -> (m: Self)
        ensures
            m == Material::pane(),
    {
        Material {
            color: Color::white(),
            ambient: Scalar::one(),
            diffuse: Scalar::one(),
            specular: Scalar::one(),
            shininess: Scalar::from_bits(0x4396_0000),
            pattern: None,
            reflective: Scalar::from_bits(0x3f66_6666),
            transparency: Scalar::one(),
            refractive_index: Scalar::from_bits(0x3fc0_0000),
        }
    }

    pub fn set_color(&mut self, color: Color)
        ensures
            *final(self) == (Material { color, ..*old(self) }),
    {
        self.color = color
    }

    pub fn set_ambient(&mut self, ambient: Scalar)
        ensures
            *final(self) == (Material { ambient, ..*old(self) }),
    {
        self.ambient = ambient
    }

    pub fn set_diffuse(&mut self, diffuse: Scalar)
        ensures
            *final(self) == (Material { diffuse, ..*old(self) }),
    {
        self.diffuse = diffuse
    }

    pub fn set_specular(&mut self, specular: Scalar)
        ensures
            *final(self) == (Material { specular, ..*old(self) }),
    {
        self.specular = specular
    }

    pub fn set_shininess(&mut self, shininess: Scalar)
        ensures
            *final(self) == (Material { shininess, ..*old(self) }),
    {
        self.shininess = shininess
    }

    pub fn set_pattern(&mut self, pattern: Pattern)
        ensures
            *final(self) == (Material { pattern: Some(pattern), ..*old(self) }),
    {
        self.pattern = Some(pattern)
    }

    pub fn set_reflective(&mut self, reflective: Scalar)
        ensures
            *final(self) == (Material { reflective, ..*old(self) }),
    {
        self.reflective = reflective
    }

    pub fn set_transparency(&mut self, transparency: Scalar)
        ensures
            *final(self) == (Material { transparency, ..*old(self) }),
    {
        self.transparency = transparency
    }

    pub fn set_refractive_index(&mut self, refractive_index: Scalar)
        ensures
            *final(self) == (Material { refractive_index, ..*old(self) }),
    {
        self.refractive_index = refractive_index
    }
}

/// The light that the surface of `object` sends from `point` to an eye in
/// the direction `eyev`, after Phong.
///
/// The surface's colour, from its pattern where it has one, times the
/// light's intensity is the effective colour. Ambient light is the effective
/// colour times the ambient coefficient, and is all there is in shadow.
/// Diffuse light is the effective colour times the diffuse coefficient times
/// the cosine between the light and `normalv`; specular light is the light's
/// intensity times the specular coefficient times the cosine between the
/// mirrored light and the eye, raised to the shininess. Neither is there
/// where the light stands behind the surface, nor the specular where the
/// mirrored light points away from the eye. No channel is cut off at one.
pub open spec fn lightning_of<A: Arithmetic>(
    object: Shape,
    light: Light,
    point: Point,
    eyev: Vector,
    normalv: Vector,
    in_shadow: bool,
    ar: &A,
) -> Color {
    let material = object.surface();
    let color = match material.pattern {
        None => material.color,
        Some(pattern) => pattern.pattern_on(object, point, ar),
    };
    let effective_color = color.blend_of(light.strength(), ar);
    let lightv = light.place().minus_of(point, ar).normalize_of(ar);
    let ambient = effective_color.times_of(material.ambient, ar);
    if in_shadow {
        ambient
    } else {
        let light_dot_normal = lightv.dot_of(normalv, ar);
        let lit = (Scalar { bits: 0 }).at_most(light_dot_normal);
        let reflect_dot_eye = lightv.negated().reflect_of(normalv, ar).dot_of(eyev, ar);
        let diffuse = if lit {
            effective_color.times_of(material.diffuse, ar).times_of(light_dot_normal, ar)
        } else {
            Color::dark()
        };
        let specular = if lit && reflect_dot_eye.positive() {
            light.strength().times_of(material.specular, ar).times_of(
                powf_of(ar, reflect_dot_eye, material.shininess),
                ar,
            )
        } else {
            Color::dark()
        };
        ambient.plus_of(diffuse, ar).plus_of(specular, ar)
    }
}

/// The light that the surface of `object` sends from `point` to the eye.
pub fn lightning<A: Arithmetic>(
    object: &Shape,
    light: Light,
    point: Point,
    eyev: Vector,
    normalv: Vector,
    in_shadow: bool,
    ar: &A,
) -> (c: Color)
    ensures
        exact(ar) ==> c == lightning_of(*object, light, point, eyev, normalv, in_shadow, ar),
{
    let material = object.get_material();
    let color = match material.pattern {
        None => material.color,
        Some(ref pattern) => pattern.pattern_at_shape(object, point, ar),
    };
    let effective_color = color.blend(light.intensity(), ar);
    let lightv = light.position().minus(point, ar).normalize(ar);
    let ambient = effective_color.times(material.ambient, ar);

    if in_shadow {
        return ambient;
    }
    let light_dot_normal = lightv.dot(&normalv, ar);
    let mut diffuse = Color::black();
    let mut specular = Color::black();
    if light_dot_normal.ge(Scalar::zero()) {
        diffuse = effective_color.times(material.diffuse, ar).times(light_dot_normal, ar);
        let reflectv = lightv.neg().reflect(&normalv, ar);
        let reflect_dot_eye = reflectv.dot(&eyev, ar);
        if reflect_dot_eye.is_positive() {
            let factor = ar.powf(reflect_dot_eye, material.shininess);
            specular = light.intensity().times(material.specular, ar).times(factor, ar);
        }
    }
    ambient.plus(diffuse, ar).plus(specular, ar)
}

} // verus!
