use crate::material::material::Material;
use crate::utils::scalar::Scalar;
use crate::utils::vec3::Vec3;
use vstd::prelude::*;

verus! {

/// Where and how a ray met a surface.
///
/// `normal` is the surface normal turned against the incoming ray, and
/// `front_face` tells whether the ray came from outside the surface.
#[derive(Clone, Copy, Debug)]
pub struct HitRecord {
    pub p: Vec3,
    pub normal: Vec3,
    pub t: Scalar,
    pub front_face: bool,
    pub mat: Material,
}

impl HitRecord {
    /// The record that [`HitRecord::new`] builds.
    ///
    /// `facing` is the dot product of the ray's direction with the outward
    /// normal. The ray meets the front face when that product is below zero;
    /// otherwise (a product of zero or a NaN included) it meets the back face
    /// and the stored normal is the outward normal reversed.
    pub open spec fn oriented(
        p: Vec3,
        t: Scalar,
        facing: Scalar,
        outward_normal: Vec3,
        mat: Material,
    ) -> HitRecord {
        let front_face = facing.spec_lt(Scalar { bits: 0 });
        HitRecord {
            p,
            normal: if front_face {
                outward_normal
            } else {
                outward_normal.spec_neg()
            },
            t,
            front_face,
            mat,
        }
    }

    /// The record of a hit at point `p` and ray parameter `t`, on a surface of
    /// material `mat` whose outward normal there is `outward_normal`; `facing`
    /// is the dot product of the ray's direction with that normal.
    pub fn new(p: Vec3, t: Scalar, facing: Scalar, outward_normal: &Vec3, mat: &Material) -> (r:
        HitRecord)
        ensures
            r == HitRecord::oriented(p, t, facing, *outward_normal, *mat),
    {
        let front_face = facing.lt(Scalar::zero());
        let normal = if front_face {
            *outward_normal
        } else {
            outward_normal.negated()
        };
        HitRecord { p, normal, t, front_face, mat: *mat }
    }
}

} // verus!
