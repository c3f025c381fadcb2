//! What a ray hits: the record of one intersection, the surfaces that can be
//! asked for one, and the scene that asks them all.

use crate::material::Material;
use crate::point::Point3d;
use crate::ray::Ray;
use crate::scalar::{Scalar, ZERO};
use crate::vec::Vec3d;
use std::ops::Neg;
use vstd::prelude::*;

verus! {

/// One intersection of a ray with a surface.
#[derive(Debug)]
pub struct Hit<M> {
    /// Where the ray meets the surface.
    pub point: Point3d,
    /// The surface normal there, turned against the ray.
    pub normal: Vec3d,
    /// The ray's parameter at `point`.
    pub time: Scalar,
    /// The ray came from outside the surface.
    pub front_face: bool,
    /// What the surface is made of.
    pub material: M,
}

impl<M> Hit<M> {
    /// The record of a hit at `point`, reached at `time`, on a surface of
    /// `material` whose outward normal there is `normal`. `facing` is the dot
    /// product of the ray's direction with `normal`. The ray meets the front
    /// face exactly when `facing < 0`; it then keeps the outward normal, and
    /// otherwise gets its negation.
    pub open spec fn oriented(
        point: Point3d,
        time: Scalar,
        normal: Vec3d,
        facing: Scalar,
        material: M,
    ) -> Hit<M> {
        let front_face = facing.below(Scalar(ZERO));
        Hit {
            point,
            normal: if front_face {
                normal
            } else {
                normal.negated()
            },
            time,
            front_face,
            material,
        }
    }

    /// Builds the record of a hit; see [`Hit::oriented`]. The caller computes
    /// `point` as the ray's position at `time`, and `facing` as the dot
    /// product of the ray's direction with the outward normal.
    pub fn new(point: Point3d, time: Scalar, normal: &Vec3d, facing: Scalar, material: M) -> (hit:
        Hit<M>)
        ensures
            hit == Hit::oriented(point, time, *normal, facing, material),
            hit.front_face <==> facing.below(Scalar(ZERO)),
    {
        let mut hit = Hit { time, point, normal: *normal, front_face: false, material };
        hit.set_face_normal(facing);
        hit
    }

    fn set_face_normal(&mut self, facing: Scalar)
        ensures
            *final(self) == Hit::oriented(
                old(self).point,
                old(self).time,
                old(self).normal,
                facing,
                old(self).material,
            ),
    {
        self.front_face = facing.lt(&Scalar(ZERO));
        if !self.front_face {
            self.normal = self.normal.neg();
        }
    }
}

/// The dot product of a ray's direction with the normal that a hit stores,
/// where the product with the outward normal is `facing`: the same where the
/// outward normal was kept, and its negation where the normal was negated.
pub open spec fn turned(facing: Scalar) -> Scalar {
    if facing.below(Scalar(ZERO)) {
        facing
    } else {
        facing.negated()
    }
}

/// The stored normal never points along the ray: the product of the ray's
/// direction with it is at most zero, provided that the product with the
/// outward normal is a number.
pub proof fn lemma_normal_against_ray(facing: Scalar)
    requires
        !facing.nan(),
    ensures
        turned(facing).at_most(Scalar(ZERO)),
{
}

/// A surface that can be asked where a ray crosses it.
pub trait Hittable {
    /// What the surface's hits are made of.
    type Mat: Material;

    /// The hit of `ray` on this surface whose parameter lies in
    /// `[time_min, time_max]`, if the surface reports one.
    fn hit(&self, ray: &Ray, time_min: Scalar, time_max: Scalar) -> Option<Hit<Self::Mat>>;
}

/// A surface that can also be printed.
pub trait PrintableHittable: Hittable + std::fmt::Debug {}

/// The last of the outcomes that is a hit.
pub open spec fn last_hit<H>(outcomes: Seq<Option<H>>) -> Option<H>
    decreases outcomes.len(),
{
    if outcomes.len() == 0 {
        None
    } else if outcomes.last() is Some {
        outcomes.last()
    } else {
        last_hit(outcomes.drop_last())
    }
}

/// A scene: surfaces in the order in which they were added.
#[derive(Debug)]
pub struct HitList<T> {
    hittable_objects: Vec<T>,
}

impl<T: PrintableHittable> HitList<T> {
    /// The surfaces, oldest first.
    pub closed spec fn view(&self) -> Seq<T> {
        self.hittable_objects@
    }

    /// What `hit` may return for a ray and a window: each surface is asked
    /// with the same window, and the answer of the last one that reports a
    /// hit stands.
    pub open spec fn resolves(
        &self,
        ray: &Ray,
        time_min: Scalar,
        time_max: Scalar,
        found: Option<Hit<T::Mat>>,
    ) -> bool {
        exists|outcomes: Seq<Option<Hit<T::Mat>>>|
            {
                &&& outcomes.len() == self@.len()
                &&& forall|i: int|
                    0 <= i < self@.len() ==> call_ensures(
                        T::hit,
                        (&self@[i], ray, time_min, time_max),
                        #[trigger] outcomes[i],
                    )
                &&& found == last_hit(outcomes)
            }
    }

    /// The empty scene.
    pub fn new() -> (list: HitList<T>)
        ensures
            list@ == Seq::<T>::empty(),
    {
        HitList { hittable_objects: Vec::new() }
    }

    /// Adds a surface behind those already there.
    pub fn add(&mut self, new_obj: T)
        ensures
            final(self)@ == old(self)@.push(new_obj),
    {
        self.hittable_objects.push(new_obj);
    }
}

impl<T: PrintableHittable> Hittable for HitList<T> {
    type Mat = T::Mat;

    /// Asks every surface, each with the window as given, and returns what
    /// the last one that was hit reported. That is the nearest hit only where
    /// the surfaces were added far to near, or no two of them are hit by one
    /// ray.
    fn hit(&self, ray: &Ray, time_min: Scalar, time_max: Scalar) -> (found: Option<Hit<T::Mat>>)
        ensures
            self.resolves(ray, time_min, time_max, found),
            self@.len() == 0 ==> found is None,
    {
        let mut found: Option<Hit<T::Mat>> = None;
        let ghost mut outcomes: Seq<Option<Hit<T::Mat>>> = Seq::empty();
        let mut i: usize = 0;
        while i < self.hittable_objects.len()
            invariant
                i <= self.hittable_objects.len(),
                outcomes.len() == i,
                forall|k: int|
                    0 <= k < i ==> call_ensures(
                        T::hit,
                        (&self@[k], ray, time_min, time_max),
                        #[trigger] outcomes[k],
                    ),
                found == last_hit(outcomes),
            decreases self.hittable_objects.len() - i,
        {
            let this_hit = self.hittable_objects[i].hit(ray, time_min, time_max);
            proof {
                lemma_last_hit_push(outcomes, this_hit);
                outcomes = outcomes.push(this_hit);
            }
            if let Some(hit) = this_hit {
                found = Some(hit);
            }
            i += 1;
        }
        found
    }
}

/// Adding an outcome at the end: a hit replaces what stood, a miss changes
/// nothing.
pub proof fn lemma_last_hit_push<H>(outcomes: Seq<Option<H>>, next: Option<H>)
    ensures
        last_hit(outcomes.push(next)) == if next is Some {
            next
        } else {
            last_hit(outcomes)
        },
{
    assert(outcomes.push(next).drop_last() == outcomes);
}

/// No hit comes out exactly when no surface reported one.
pub proof fn lemma_last_hit_none<H>(outcomes: Seq<Option<H>>)
    ensures
        last_hit(outcomes) is None <==> forall|i: int|
            0 <= i < outcomes.len() ==> outcomes[i] is None,
    decreases outcomes.len(),
{
    if outcomes.len() > 0 {
        lemma_last_hit_none(outcomes.drop_last());
        if outcomes.last() is None {
            assert forall|i: int| 0 <= i < outcomes.len() - 1 implies (outcomes[i] is None)
                == (outcomes.drop_last()[i] is None) by {}
        }
    }
}

/// The hit that comes out is the report of one surface, and every surface
/// added after that one reported none.
pub proof fn lemma_last_hit_some<H>(outcomes: Seq<Option<H>>) -> (at: int)
    requires
        last_hit(outcomes) is Some,
    ensures
        0 <= at < outcomes.len(),
        outcomes[at] == last_hit(outcomes),
        forall|j: int| at < j < outcomes.len() ==> outcomes[j] is None,
    decreases outcomes.len(),
{
    if outcomes.last() is Some {
        outcomes.len() - 1
    } else {
        let at = lemma_last_hit_some(outcomes.drop_last());
        assert forall|j: int| at < j < outcomes.len() implies outcomes[j] is None by {
            if j < outcomes.len() - 1 {
                assert(outcomes.drop_last()[j] == outcomes[j]);
            }
        }
        at
    }
}

} // verus!
