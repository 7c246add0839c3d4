use crate::geometry::hit_record::HitRecord;
use crate::geometry::ray::Ray;
use crate::utils::color::Color;
use crate::utils::scalar::{Scalar, ONE_BITS};
use crate::utils::vec3::Vec3;
use vstd::prelude::*;

verus! {

/// The arithmetic of one refraction ratio at a hit.
#[derive(Clone, Copy, Debug)]
pub struct Refraction {
    /// The ratio times the sine of the angle of incidence; above one, Snell's
    /// law has no solution.
    pub bend: Scalar,
    /// Schlick's approximation of the reflectance at that angle and ratio.
    pub reflectance: Scalar,
    /// The unit incoming direction, refracted by that ratio.
    pub refracted: Vec3,
}

impl Refraction {
    /// Whether the ray is reflected rather than refracted, for a draw from
    /// the unit interval: it is where it cannot refract, or where the
    /// reflectance is above the draw.
    pub open spec fn reflects(self, draw: Scalar) -> bool {
        self.bend.spec_gt(Scalar { bits: ONE_BITS }) || self.reflectance.spec_gt(draw)
    }
}

/// A clear surface such as glass or water, known by its index of refraction.
#[derive(Clone, Copy, Debug)]
pub struct Dielectric {
    pub ir: Scalar,
}

/// White: the attenuation of a surface that absorbs nothing.
pub open spec fn white() -> Color {
    let one = Scalar { bits: ONE_BITS };
    Vec3 { x: one, y: one, z: one }
}

impl Dielectric {
    /// What [`Dielectric::scatter_with`] returns. A ray that meets the front
    /// face goes by `entering`, one that meets the back face by `leaving`.
    /// The attenuation is white and a ray always leaves the hit point.
    pub open spec fn spec_scatter(
        rec: HitRecord,
        reflected: Vec3,
        entering: Refraction,
        leaving: Refraction,
        draw: Scalar,
    ) -> Option<(Color, Ray)> {
        let active = if rec.front_face {
            entering
        } else {
            leaving
        };
        let direction = if active.reflects(draw) {
            reflected
        } else {
            active.refracted
        };
        Some((white(), Ray { origin: rec.p, direction }))
    }

    /// The dielectric of the given index of refraction.
    pub fn new(ir: Scalar) -> (r: Dielectric)
        ensures
            r.ir == ir,
    {
        Dielectric { ir }
    }

    /// Scatters at `rec` for a given draw from the unit interval.
    ///
    /// `reflected` is the mirror image of the unit incoming direction;
    /// `entering` holds the arithmetic for the ratio `1 / ir` and `leaving`
    /// that for the ratio `ir`.
    pub fn scatter_with(
        &self,
        rec: &HitRecord,
        reflected: &Vec3,
        entering: &Refraction,
        leaving: &Refraction,
        draw: Scalar,
    ) -> (r: Option<(Color, Ray)>)
        ensures
            r == Dielectric::spec_scatter(*rec, *reflected, *entering, *leaving, draw),
    {
        let active = if rec.front_face {
            entering
        } else {
            leaving
        };
        let direction = if active.bend.gt(Scalar::one()) || active.reflectance.gt(draw) {
            *reflected
        } else {
            active.refracted
        };
        let one = Scalar::one();
        Some((Vec3::new(one, one, one), Ray::new(&rec.p, &direction)))
    }

    /// Scatters at `rec`, drawing from the unit interval only where the ray
    /// can refract. A dielectric never absorbs.
    pub fn scatter(
        &self,
        rec: &HitRecord,
        reflected: &Vec3,
        entering: &Refraction,
        leaving: &Refraction,
    ) -> (r: Option<(Color, Ray)>)
        ensures
            r is Some,
            exists|draw: Scalar|
                draw.is_unit_draw() && r == #[trigger] Dielectric::spec_scatter(
                    *rec,
                    *reflected,
                    *entering,
                    *leaving,
                    draw,
                ),
    {
        let active = if rec.front_face {
            entering
        } else {
            leaving
        };
        let draw = if active.bend.gt(Scalar::one()) {
            Scalar::unit_fraction(0)
        } else {
            Scalar::random()
        };
        self.scatter_with(rec, reflected, entering, leaving, draw)
    }
}

} // verus!
