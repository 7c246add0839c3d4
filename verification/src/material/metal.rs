use crate::geometry::hit_record::HitRecord;
use crate::geometry::ray::Ray;
use crate::utils::color::Color;
use crate::utils::scalar::Scalar;
use crate::utils::vec3::Vec3;
use vstd::prelude::*;

verus! {

/// A mirror-like surface whose reflections are blurred by `fuzz`, the radius
/// of the ball from which the reflected direction is perturbed.
#[derive(Clone, Copy, Debug)]
pub struct Metal {
    pub albedo: Color,
    pub fuzz: Scalar,
}

impl Metal {
    /// What [`Metal::scatter`] returns: the albedo and a ray from the hit
    /// point along `fuzzed` where `facing` is above zero, and nothing where it
    /// is zero, below zero or a NaN.
    pub open spec fn spec_scatter(self, rec: HitRecord, fuzzed: Vec3, facing: Scalar) -> Option<
        (Color, Ray),
    > {
        if facing.spec_gt(Scalar { bits: 0 }) {
            Some((self.albedo, Ray { origin: rec.p, direction: fuzzed }))
        } else {
            None
        }
    }

    /// The metal of the given albedo and fuzz.
    pub fn new(albedo: Color, fuzz: Scalar) -> (r: Metal)
        ensures
            r.albedo == albedo,
            r.fuzz == fuzz,
    {
        Metal { albedo, fuzz }
    }

    /// Scatters at `rec`; `fuzzed` is the mirror image of the unit incoming
    /// direction plus `fuzz` times a random point of the unit ball, and
    /// `facing` its dot product with the normal. A fuzzed direction that
    /// points into the surface is absorbed.
    pub fn scatter(&self, rec: &HitRecord, fuzzed: &Vec3, facing: Scalar) -> (r: Option<
        (Color, Ray),
    >)
        ensures
            r == self.spec_scatter(*rec, *fuzzed, facing),
            r is None <==> !facing.spec_gt(Scalar { bits: 0 }),
    {
        if facing.gt(Scalar::zero()) {
            Some((self.albedo, Ray::new(&rec.p, fuzzed)))
        } else {
            None
        }
    }
}

} // verus!
