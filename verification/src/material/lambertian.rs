use crate::geometry::hit_record::HitRecord;
use crate::geometry::ray::Ray;
use crate::utils::color::Color;
use crate::utils::vec3::Vec3;
use vstd::prelude::*;

verus! {

/// A diffuse surface: it scatters every ray and tints it by its albedo.
#[derive(Clone, Copy, Debug)]
pub struct Lambertian {
    pub albedo: Color,
}

impl Lambertian {
    /// What [`Lambertian::scatter`] returns: the albedo, and a ray from the
    /// hit point along `diffuse`, or along the normal where `diffuse` is too
    /// short to give a direction.
    pub open spec fn spec_scatter(self, rec: HitRecord, diffuse: Vec3) -> Option<(Color, Ray)> {
        let direction = if diffuse.spec_near_zero() {
            rec.normal
        } else {
            diffuse
        };
        Some((self.albedo, Ray { origin: rec.p, direction }))
    }

    /// The diffuse material of the given albedo.
    pub fn new(albedo: Color) -> (r: Lambertian)
        ensures
            r.albedo == albedo,
    {
        Lambertian { albedo }
    }

    /// Scatters at `rec`; `diffuse` is the normal plus a random unit vector.
    /// A diffuse surface never absorbs.
    pub fn scatter(&self, rec: &HitRecord, diffuse: &Vec3) -> (r: Option<(Color, Ray)>)
        ensures
            r == self.spec_scatter(*rec, *diffuse),
    {
        let direction = if diffuse.near_zero() {
            rec.normal
        } else {
            *diffuse
        };
        Some((self.albedo, Ray::new(&rec.p, &direction)))
    }
}

} // verus!
