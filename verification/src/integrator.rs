use crate::geometry::ray::Ray;
use crate::utils::color::Color;
use crate::utils::scalar::{Scalar, INFINITY_BITS};
use crate::utils::vec3::Vec3;
use vstd::prelude::*;

verus! {

/// The pattern of 0.001, the smallest ray parameter at which a hit counts.
/// Starting above zero keeps a scattered ray from hitting the surface that it
/// leaves.
pub const SHADOW_BIAS_BITS: u64 = 0x3f50_624d_d2f1_a9fc;

/// How a path came to its end.
#[derive(Clone, Copy, Debug)]
pub enum Ending {
    /// The bounce budget ran out: the path gathers no light.
    Exhausted,
    /// A surface absorbed the ray: the path gathers no light.
    Absorbed,
    /// The ray left the scene: the path gathers the background along it.
    Escaped,
}

/// A light path under construction.
///
/// The host casts `ray` into the scene and reports what became of it with
/// [`Path::advance`], until the path has an ending. The colour of the path is
/// then the colour of its ending (black, or the background along `ray`)
/// multiplied by the filters from the last to the first.
pub struct Path {
    /// The ray to cast next; once the path has ended, the ray at which it
    /// ended.
    pub ray: Ray,
    /// The casts that are left, the one of `ray` included.
    pub depth: i32,
    /// The attenuations of the scatterings so far, the first one first.
    pub filters: Vec<Color>,
    /// How the path ended; none while it goes on.
    pub ending: Option<Ending>,
}

/// Black: all three channels plus zero.
pub open spec fn black() -> Color {
    let zero = Scalar { bits: 0 };
    Vec3 { x: zero, y: zero, z: zero }
}

impl Path {
    /// A path that goes on has casts left.
    pub open spec fn wf(self) -> bool {
        self.ending is None ==> self.depth > 0
    }

    /// Whether the path gathers no light: it has ended, and not by escaping.
    pub open spec fn spec_is_black(&self) -> bool {
        self.ending == Some(Ending::Exhausted) || self.ending == Some(Ending::Absorbed)
    }

    /// The interval of ray parameters in which the scene is asked for a hit:
    /// from 0.001 to infinity.
    pub fn hit_interval() -> (r: (Scalar, Scalar))
        ensures
            r.0.bits == SHADOW_BIAS_BITS,
            r.1.bits == INFINITY_BITS,
    {
        (Scalar::from_bits(SHADOW_BIAS_BITS), Scalar::infinity())
    }

    /// The path that starts with `ray` and may cast `depth` rays. With no
    /// cast allowed it has ended at once, exhausted and without a filter.
    pub fn new(ray: Ray, depth: i32) -> (r: Path)
        ensures
            r.wf(),
            r.ray == ray,
            r.depth == depth,
            r.filters@ == Seq::<Color>::empty(),
            r.ending == if depth <= 0 {
                Some(Ending::Exhausted)
            } else {
                None::<Ending>
            },
            depth <= 0 ==> r.spec_is_black() && r.filters@.len() == 0,
    {
        let ending = if depth <= 0 {
            Some(Ending::Exhausted)
        } else {
            None
        };
        Path { ray, depth, filters: Vec::new(), ending }
    }

    /// Takes in what became of the cast of `ray`: `None` where it hit
    /// nothing, `Some(None)` where the surface that it hit absorbed it, and
    /// the attenuation and the scattered ray where that surface scattered it.
    ///
    /// A miss ends the path as escaped and an absorption as absorbed. A
    /// scattering adds its attenuation to the filters, uses up one cast and
    /// goes on with the scattered ray, or ends the path as exhausted where
    /// that was the last cast. A path that has ended stays as it is.
    pub fn advance(&mut self, event: Option<Option<(Color, Ray)>>)
        requires
            old(self).wf(),
        ensures
            final(self).wf(),
            old(self).ending is Some ==> {
                &&& final(self).ray == old(self).ray
                &&& final(self).depth == old(self).depth
                &&& final(self).filters@ == old(self).filters@
                &&& final(self).ending == old(self).ending
            },
            old(self).ending is None ==> match event {
                None => {
                    &&& final(self).ray == old(self).ray
                    &&& final(self).depth == old(self).depth
                    &&& final(self).filters@ == old(self).filters@
                    &&& final(self).ending == Some(Ending::Escaped)
                },
                Some(None) => {
                    &&& final(self).ray == old(self).ray
                    &&& final(self).depth == old(self).depth
                    &&& final(self).filters@ == old(self).filters@
                    &&& final(self).ending == Some(Ending::Absorbed)
                },
                Some(Some((attenuation, scattered))) => {
                    &&& final(self).ray == scattered
                    &&& final(self).depth == old(self).depth - 1
                    &&& final(self).filters@ == old(self).filters@.push(attenuation)
                    &&& final(self).ending == if old(self).depth <= 1 {
                        Some(Ending::Exhausted)
                    } else {
                        None::<Ending>
                    }
                },
            },
    {
        if self.ending.is_some() {
            return ;
        }
        match event {
            None => {
                self.ending = Some(Ending::Escaped);
            },
            Some(None) => {
                self.ending = Some(Ending::Absorbed);
            },
            Some(Some((attenuation, scattered))) => {
                self.filters.push(attenuation);
                self.ray = scattered;
                self.depth = self.depth - 1;
                if self.depth <= 0 {
                    self.ending = Some(Ending::Exhausted);
                }
            },
        }
    }

    /// The colour of the path before its filters are applied, where it is
    /// known without arithmetic: black for a path that gathers no light. For
    /// a path that escaped it is the background along `ray`, which the host
    /// evaluates; a path that goes on has none yet.
    pub fn unfiltered(&self) -> (r: Option<Color>)
        ensures
            r == if self.spec_is_black() {
                Some(black())
            } else {
                None::<Color>
            },
    {
        if self.is_black() {
            let zero = Scalar::zero();
            Some(Vec3::new(zero, zero, zero))
        } else {
            None
        }
    }

    /// Whether the path gathers no light.
    #[verifier::when_used_as_spec(spec_is_black)]
    pub fn is_black(&self) -> (r: bool)
        ensures
            r == self.spec_is_black(),
    {
        match self.ending {
            Some(Ending::Exhausted) => true,
            Some(Ending::Absorbed) => true,
            _ => false,
        }
    }
}

} // verus!
