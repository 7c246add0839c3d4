use crate::geometry::hit_record::HitRecord;
use crate::geometry::hittable::Hittable;
use crate::material::material::Material;
use crate::utils::scalar::Scalar;
use crate::utils::vec3::Vec3;
use vstd::prelude::*;

verus! {

/// One root of a ray's quadratic against a sphere, with the arithmetic that
/// belongs to it.
#[derive(Clone, Copy, Debug)]
pub struct Crossing {
    /// The ray parameter of the root.
    pub t: Scalar,
    /// The point of the ray at `t`.
    pub p: Vec3,
    /// The outward normal at `p`: `(p - center) / radius`.
    pub outward_normal: Vec3,
    /// The dot product of the ray's direction with `outward_normal`.
    pub facing: Scalar,
}

/// The arithmetic of one ray against one sphere.
///
/// With `oc = origin - center`, `a = |direction|^2`, `half_b = oc . direction`
/// and `c = |oc|^2 - radius^2`, the discriminant is `half_b^2 - a * c`, the
/// near root `(-half_b - sqrt(discriminant)) / a` and the far root
/// `(-half_b + sqrt(discriminant)) / a`. Where the discriminant is below zero
/// the two crossings are never read.
#[derive(Clone, Copy, Debug)]
pub struct Probe {
    pub discriminant: Scalar,
    pub near: Crossing,
    pub far: Crossing,
}

/// Whether `t` is accepted for the interval from `t_min` to `t_max`: it is
/// neither below `t_min` nor above `t_max`. A NaN is neither.
pub open spec fn within(t: Scalar, t_min: Scalar, t_max: Scalar) -> bool {
    !t.spec_lt(t_min) && !t_max.spec_lt(t)
}

impl Probe {
    /// The crossing at which the ray is taken to hit: none where the
    /// discriminant is below zero; else the near one if its root is accepted;
    /// else the far one if its root is accepted; else none.
    pub open spec fn crossing(self, t_min: Scalar, t_max: Scalar) -> Option<Crossing> {
        if self.discriminant.spec_lt(Scalar { bits: 0 }) {
            None
        } else if within(self.near.t, t_min, t_max) {
            Some(self.near)
        } else if within(self.far.t, t_min, t_max) {
            Some(self.far)
        } else {
            None
        }
    }

    /// Whether the discriminant and both roots are numbers.
    pub open spec fn numeric(self) -> bool {
        !self.discriminant.spec_is_nan() && !self.near.t.spec_is_nan() && !self.far.t.spec_is_nan()
    }
}

/// A sphere and what it is made of.
#[derive(Clone, Copy, Debug)]
pub struct Sphere {
    pub center: Vec3,
    pub radius: Scalar,
    pub mat: Material,
}

impl Sphere {
    /// The sphere of the given centre, radius and material.
    pub fn new(center: Vec3, radius: Scalar, mat: &Material) -> (r: Sphere)
        ensures
            r == (Sphere { center, radius, mat: *mat }),
    {
        Sphere { center, radius, mat: *mat }
    }
}

impl Hittable for Sphere {
    type Probe = Probe;

    /// Every probe fits a sphere.
    open spec fn fits(&self, probe: &Probe) -> bool {
        true
    }

    /// The oriented record of the crossing that the probe selects, made of
    /// the sphere's material.
    open spec fn spec_hit(&self, probe: &Probe, t_min: Scalar, t_max: Scalar) -> Option<
        HitRecord,
    > {
        match probe.crossing(t_min, t_max) {
            None => None,
            Some(c) => Some(HitRecord::oriented(c.p, c.t, c.facing, c.outward_normal, self.mat)),
        }
    }

    /// The hit of a ray on the sphere within `t_min ..= t_max`, given the
    /// probe of that ray against this sphere.
    ///
    /// The smaller root is preferred; the larger one is tried only where the
    /// smaller is not accepted.
    fn hit(&self, probe: &Probe, t_min: Scalar, t_max: Scalar) -> (r: Option<HitRecord>) {
        if probe.discriminant.lt(Scalar::zero()) {
            return None;
        }
        let mut chosen = &probe.near;
        if chosen.t.lt(t_min) || t_max.lt(chosen.t) {
            chosen = &probe.far;
            if chosen.t.lt(t_min) || t_max.lt(chosen.t) {
                return None;
            }
        }
        Some(HitRecord::new(chosen.p, chosen.t, chosen.facing, &chosen.outward_normal, &self.mat))
    }
}

} // verus!
