use crate::geometry::hit_record::HitRecord;
use crate::geometry::hittable::Hittable;
use crate::geometry::sphere::{within, Probe, Sphere};
use crate::utils::scalar::Scalar;
use vstd::prelude::*;

verus! {

/// The hit that a scan of the first `n` surfaces ends with.
///
/// The scan keeps the closest hit so far and offers each surface only the
/// interval from `t_min` to that hit (to `t_max` while there is none), so a
/// surface replaces the hit only with one that is not farther.
pub open spec fn scan(
    objects: Seq<Sphere>,
    probes: Seq<Probe>,
    n: int,
    t_min: Scalar,
    t_max: Scalar,
) -> Option<HitRecord>
    decreases n,
{
    if n <= 0 {
        None
    } else {
        let earlier = scan(objects, probes, n - 1, t_min, t_max);
        let closest = match earlier {
            Some(rec) => rec.t,
            None => t_max,
        };
        match objects[n - 1].spec_hit(&probes[n - 1], t_min, closest) {
            Some(rec) => Some(rec),
            None => earlier,
        }
    }
}

/// Whether every root of every probe is a number.
pub open spec fn numeric_roots(probes: Seq<Probe>) -> bool {
    forall|i: int|
        0 <= i < probes.len() ==> !(#[trigger] probes[i]).near.t.spec_is_nan()
            && !probes[i].far.t.spec_is_nan()
}

/// Whether `rec` records one of the two crossings of `probe` on `object`.
pub open spec fn records(rec: HitRecord, object: Sphere, probe: Probe) -> bool {
    let near = probe.near;
    let far = probe.far;
    ||| rec == HitRecord::oriented(near.p, near.t, near.facing, near.outward_normal, object.mat)
    ||| rec == HitRecord::oriented(far.p, far.t, far.facing, far.outward_normal, object.mat)
}

/// What a scan of the first `n` surfaces has found, provided every root is a
/// number.
///
/// A hit that it returns lies in the interval asked for, records a crossing
/// of one of those surfaces, and is not farther than the hit that any of them
/// has on its own in that interval. It returns none only where none of them
/// has a hit of its own.
pub open spec fn nearest_of(
    found: Option<HitRecord>,
    objects: Seq<Sphere>,
    probes: Seq<Probe>,
    n: int,
    t_min: Scalar,
    t_max: Scalar,
) -> bool {
    match found {
        Some(rec) => {
            &&& !rec.t.spec_is_nan()
            &&& within(rec.t, t_min, t_max)
            &&& exists|i: int| 0 <= i < n && #[trigger] records(rec, objects[i], probes[i])
            &&& forall|i: int|
                0 <= i < n ==> match (#[trigger] objects[i]).spec_hit(&probes[i], t_min, t_max) {
                    Some(own) => rec.t.numerator() <= own.t.numerator(),
                    None => true,
                }
        },
        None => forall|i: int|
            0 <= i < n ==> (#[trigger] objects[i]).spec_hit(&probes[i], t_min, t_max) is None,
    }
}

/// The scan of a collection returns the nearest hit: one inside the interval
/// asked for and not farther than any surface's own hit there, and none only
/// where no surface has one. This holds where no root is a NaN; a root that
/// is one is accepted by every interval and hides what lies behind it.
pub proof fn lemma_scan_finds_nearest(
    objects: Seq<Sphere>,
    probes: Seq<Probe>,
    n: int,
    t_min: Scalar,
    t_max: Scalar,
)
    requires
        0 <= n <= objects.len(),
        probes.len() == objects.len(),
        numeric_roots(probes),
    ensures
        nearest_of(scan(objects, probes, n, t_min, t_max), objects, probes, n, t_min, t_max),
    decreases n,
{
    if n > 0 {
        lemma_scan_finds_nearest(objects, probes, n - 1, t_min, t_max);
        let earlier = scan(objects, probes, n - 1, t_min, t_max);
        let closest = match earlier {
            Some(rec) => rec.t,
            None => t_max,
        };
        let probe = probes[n - 1];
        assert(!probe.near.t.spec_is_nan() && !probe.far.t.spec_is_nan());
        let last = objects[n - 1].spec_hit(&probe, t_min, closest);
        match last {
            Some(rec) => {
                assert(records(rec, objects[n - 1], probes[n - 1]));
            },
            None => {
                if let Some(rec) = earlier {
                    let i = choose|i: int|
                        0 <= i < n - 1 && #[trigger] records(rec, objects[i], probes[i]);
                    assert(records(rec, objects[i], probes[i]));
                }
            },
        }
    }
}

/// An ordered collection of surfaces, filled once and then only read.
pub struct HittableList {
    pub objects: Vec<Sphere>,
}

impl HittableList {
    /// The empty collection.
    pub fn new() -> (r: HittableList)
        ensures
            r.objects@ == Seq::<Sphere>::empty(),
    {
        HittableList { objects: Vec::new() }
    }

    /// Appends a surface; the ones already there keep their places.
    pub fn add(&mut self, object: Sphere)
        ensures
            final(self).objects@ == old(self).objects@.push(object),
    {
        self.objects.push(object);
    }

    /// The number of surfaces.
    pub fn len(&self) -> (r: usize)
        ensures
            r == self.objects@.len(),
    {
        self.objects.len()
    }
}

impl Hittable for HittableList {
    type Probe = Vec<Probe>;

    /// There is one probe for each surface, in the order of the surfaces.
    open spec fn fits(&self, probes: &Vec<Probe>) -> bool {
        probes@.len() == self.objects@.len()
    }

    /// The end of the scan of all surfaces.
    open spec fn spec_hit(&self, probes: &Vec<Probe>, t_min: Scalar, t_max: Scalar) -> Option<
        HitRecord,
    > {
        scan(self.objects@, probes@, self.objects@.len() as int, t_min, t_max)
    }

    /// The nearest hit of a ray on the collection within `t_min ..= t_max`,
    /// given the probe of that ray against each surface.
    ///
    /// Among hits at the same distance the surface added last wins.
    fn hit(&self, probes: &Vec<Probe>, t_min: Scalar, t_max: Scalar) -> (r: Option<HitRecord>)
        ensures
            numeric_roots(probes@) ==> nearest_of(
                r,
                self.objects@,
                probes@,
                self.objects@.len() as int,
                t_min,
                t_max,
            ),
    {
        proof {
            if numeric_roots(probes@) {
                lemma_scan_finds_nearest(
                    self.objects@,
                    probes@,
                    self.objects@.len() as int,
                    t_min,
                    t_max,
                );
            }
        }
        let mut found: Option<HitRecord> = None;
        let mut closest = t_max;
        let mut i: usize = 0;
        while i < self.objects.len()
            invariant
                i <= self.objects@.len(),
                probes@.len() == self.objects@.len(),
                found == scan(self.objects@, probes@, i as int, t_min, t_max),
                closest == match found {
                    Some(rec) => rec.t,
                    None => t_max,
                },
            decreases self.objects@.len() - i,
        {
            match self.objects[i].hit(&probes[i], t_min, closest) {
                Some(rec) => {
                    closest = rec.t;
                    found = Some(rec);
                },
                None => {},
            }
            i += 1;
        }
        found
    }
}

} // verus!
