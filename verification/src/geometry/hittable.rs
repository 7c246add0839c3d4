use crate::geometry::hit_record::HitRecord;
use crate::utils::scalar::Scalar;
use vstd::prelude::*;

verus! {

/// What a ray can hit.
///
/// The host works out the arithmetic of the ray against the surface, the
/// probe, and the surface decides from it whether the ray hits within the
/// interval asked for, and where.
pub trait Hittable {
    /// The arithmetic of one ray against this surface.
    type Probe;

    /// Whether `probe` has the shape of this surface.
    spec fn fits(&self, probe: &Self::Probe) -> bool;

    /// The hit that [`Hittable::hit`] returns.
    spec fn spec_hit(&self, probe: &Self::Probe, t_min: Scalar, t_max: Scalar) -> Option<
        HitRecord,
    >;

    /// The hit of the probed ray within `t_min ..= t_max`, if there is one.
    fn hit(&self, probe: &Self::Probe, t_min: Scalar, t_max: Scalar) -> (r: Option<HitRecord>)
        requires
            self.fits(probe),
        ensures
            r == self.spec_hit(probe, t_min, t_max),
    ;
}

} // verus!
