use crate::engine::hittables::hittable::answers;
use crate::engine::hittables::hittable::parameter_of;
use crate::engine::hittables::hittable::nearest_within;
use crate::engine::hittables::hittable::HitRecord;
use crate::engine::hittables::hittable::Hittable;
use crate::engine::ray::Ray;
use crate::vectors::scalar::Scalar;
use vstd::prelude::*;

verus! {

/// An ordered sequence of hittable objects, itself hittable: a ray hits the
/// collection where it first hits one of its members.
pub struct HittableCollection<H> {
    hittable_list: Vec<H>,
}

impl<H> HittableCollection<H> {
    /// The members, in the order in which they were added.
    pub closed spec fn view(&self) -> Seq<H> {
        self.hittable_list@
    }

    pub fn new() -> (collection: HittableCollection<H>)
        ensures
            collection@ == Seq::<H>::empty(),
    {
        HittableCollection { hittable_list: Vec::new() }
    }

    pub fn add(&mut self, hittable: H)
        ensures
            final(self)@ == old(self)@.push(hittable),
    {
        self.hittable_list.push(hittable);
    }

    pub fn clear(&mut self)
        ensures
            final(self)@ == Seq::<H>::empty(),
    {
        self.hittable_list.clear();
    }
}

impl<H: Hittable> HittableCollection<H> {
    /// Whether the member at `index` is the first that `ray` crosses at the
    /// parameter `t`.
    pub open spec fn first_crossed_at(&self, ray: Ray, t: Scalar, index: int) -> bool {
        &&& 0 <= index < self@.len()
        &&& self@[index].crossings(ray).contains(t)
        &&& forall|j: int| 0 <= j < index ==> !(#[trigger] self@[j].crossings(ray).contains(t))
    }

    /// The crossings of `ray` with the first `count` members.
    pub open spec fn crossings_among(&self, ray: Ray, count: int) -> Set<Scalar> {
        Set::new(
            |c: Scalar|
                exists|i: int| 0 <= i < count && i < self@.len() && #[trigger] self@[i].crossings(ray).contains(c),
        )
    }
}

/// The step on which the search of a collection rests. `best` is the nearest
/// of the crossings `before` inside `(t_min, t_max)`, if there is one, and
/// `report` the nearest of the crossings `member` inside the interval that
/// ends at `best`, or at `t_max` where there is no `best`. Then the report,
/// or `best` where nothing is reported, is the nearest of both together.
proof fn lemma_report_keeps_nearest(
    before: Set<Scalar>,
    member: Set<Scalar>,
    after: Set<Scalar>,
    t_min: Scalar,
    t_max: Scalar,
    best: Option<Scalar>,
    report: Option<Scalar>,
)
    requires
        forall|c: Scalar| after.contains(c) <==> (before.contains(c) || member.contains(c)),
        answers(before, t_min, t_max, best),
        answers(member, t_min, if best is Some { best->0 } else { t_max }, report),
    ensures
        answers(after, t_min, t_max, if report is Some { report } else { best }),
{
    if report is Some {
        let found = report->0;
        assert(after.contains(found));
        assert forall|c: Scalar| #[trigger]
            after.contains(c) && c.strictly_between(t_min, t_max) implies !c.below(found) by {
            if !before.contains(c) {
                assert(member.contains(c));
            }
        }
    } else if best is Some {
        let kept = best->0;
        assert(after.contains(kept));
        assert forall|c: Scalar| #[trigger]
            after.contains(c) && c.strictly_between(t_min, t_max) implies !c.below(kept) by {
            if !before.contains(c) {
                assert(member.contains(c));
            }
        }
    } else {
        assert forall|c: Scalar| #[trigger] after.contains(c) implies !c.strictly_between(t_min, t_max) by {
            if !before.contains(c) {
                assert(member.contains(c));
            }
        }
    }
}

impl<H: Hittable> HittableCollection<H> {
    /// Taking one more member into account adds exactly its crossings.
    proof fn lemma_next_member(&self, ray: Ray, count: int)
        requires
            0 <= count < self@.len(),
        ensures
            forall|c: Scalar|
                self.crossings_among(ray, count + 1).contains(c) <==> (self.crossings_among(ray, count).contains(c)
                    || self@[count].crossings(ray).contains(c)),
    {
        assert forall|c: Scalar| self.crossings_among(ray, count + 1).contains(c) implies (
        self.crossings_among(ray, count).contains(c) || self@[count].crossings(ray).contains(c)) by {
            let i = choose|i: int|
                0 <= i < count + 1 && i < self@.len() && #[trigger] self@[i].crossings(ray).contains(c);
            if i < count {
                assert(self.crossings_among(ray, count).contains(c));
            }
        }
        assert forall|c: Scalar|
            (self.crossings_among(ray, count).contains(c) || self@[count].crossings(ray).contains(
                c,
            )) implies self.crossings_among(ray, count + 1).contains(c) by {
            if self.crossings_among(ray, count).contains(c) {
                let i = choose|i: int|
                    0 <= i < count && i < self@.len() && #[trigger] self@[i].crossings(ray).contains(c);
                assert(0 <= i < count + 1 && self@[i].crossings(ray).contains(c));
            } else {
                assert(0 <= count < count + 1 && self@[count].crossings(ray).contains(c));
            }
        }
    }
}

impl<H: Hittable> Hittable for HittableCollection<H> {
    type Material = H::Material;

    /// A ray crosses the collection wherever it crosses a member.
    open spec fn crossings(&self, ray: Ray) -> Set<Scalar> {
        self.crossings_among(ray, self@.len() as int)
    }

    /// Where several members are crossed at the same parameter, the one
    /// that was added first is the one that is hit.
    open spec fn record_at<'a>(&'a self, ray: Ray, t: Scalar) -> HitRecord<'a, H::Material> {
        let first = choose|index: int| self.first_crossed_at(ray, t, index);
        self@[first].record_at(ray, t)
    }

    fn hit<'a>(&'a self, ray: &Ray, t_min: Scalar, t_max: Scalar) -> (r: Option<
        HitRecord<'a, H::Material>,
    >)
    {
        let mut smallest_distance = t_max;
        let mut result: Option<HitRecord<'a, H::Material>> = None;
        let mut i: usize = 0;
        let ghost mut source: int = 0;
        while i < self.hittable_list.len()
            invariant
                i <= self.hittable_list.len(),
                smallest_distance == if result is Some {
                    result->0.t
                } else {
                    t_max
                },
                answers(self.crossings_among(*ray, i as int), t_min, t_max, parameter_of(result)),
                result matches Some(record) ==> source < i && self.first_crossed_at(*ray, record.t, source)
                    && record == self@[source].record_at(*ray, record.t),
            decreases self.hittable_list.len() - i,
        {
            let hit_result = self.hittable_list[i].hit(ray, t_min, smallest_distance);
            proof {
                if hit_result is Some {
                    let found = hit_result->0.t;
                    assert(!self.crossings_among(*ray, i as int).contains(found));
                    assert forall|j: int| 0 <= j < i implies !(#[trigger] self@[j].crossings(*ray).contains(
                        found,
                    )) by {
                        if self@[j].crossings(*ray).contains(found) {
                            assert(self.crossings_among(*ray, i as int).contains(found));
                        }
                    }
                    source = i as int;
                }
                self.lemma_next_member(*ray, i as int);
                lemma_report_keeps_nearest(
                    self.crossings_among(*ray, i as int),
                    self@[i as int].crossings(*ray),
                    self.crossings_among(*ray, i + 1),
                    t_min,
                    t_max,
                    parameter_of(result),
                    parameter_of(hit_result),
                );
            }
            match hit_result {
                Some(hit_record) => {
                    smallest_distance = hit_record.t;
                    result = Some(hit_record);
                },
                _ => {},
            };
            i += 1;
        }
        proof {
            if result is Some {
                let t = result->0.t;
                let first = choose|index: int| self.first_crossed_at(*ray, t, index);
                assert(self.first_crossed_at(*ray, t, source));
                assert(first == source) by {
                    if first < source {
                        assert(self@[first].crossings(*ray).contains(t));
                    } else if source < first {
                        assert(self@[source].crossings(*ray).contains(t));
                    }
                }
            }
        }
        result
    }
}

/// The order in which the members were added does not change how far away a
/// collection is hit: two collections with the same members are crossed at
/// the same parameters, so the nearest crossing of the one inside an interval
/// is as near as that of the other.
pub proof fn lemma_nearest_hit_ignores_order<H: Hittable>(
    first: &HittableCollection<H>,
    second: &HittableCollection<H>,
    ray: Ray,
    t_min: Scalar,
    t_max: Scalar,
)
    requires
        forall|member: H| first@.contains(member) <==> second@.contains(member),
    ensures
        first.crossings(ray) == second.crossings(ray),
        forall|answer: Option<Scalar>|
            answers(first.crossings(ray), t_min, t_max, answer) == answers(
                second.crossings(ray),
                t_min,
                t_max,
                answer,
            ),
        forall|t_first: Scalar, t_second: Scalar|
            nearest_within(first.crossings(ray), t_min, t_max, t_first) && nearest_within(
                second.crossings(ray),
                t_min,
                t_max,
                t_second,
            ) ==> t_first.rank() == t_second.rank(),
{
    assert forall|c: Scalar| first.crossings(ray).contains(c) implies second.crossings(ray).contains(c) by {
        let i = choose|i: int| 0 <= i < first@.len() && #[trigger] first@[i].crossings(ray).contains(c);
        assert(first@.contains(first@[i]));
        let j = choose|j: int| 0 <= j < second@.len() && second@[j] == first@[i];
        assert(second@[j].crossings(ray).contains(c));
    }
    assert forall|c: Scalar| second.crossings(ray).contains(c) implies first.crossings(ray).contains(c) by {
        let i = choose|i: int| 0 <= i < second@.len() && #[trigger] second@[i].crossings(ray).contains(c);
        assert(second@.contains(second@[i]));
        let j = choose|j: int| 0 <= j < first@.len() && first@[j] == second@[i];
        assert(first@[j].crossings(ray).contains(c));
    }
    assert(first.crossings(ray) =~= second.crossings(ray));
}

} // verus!
