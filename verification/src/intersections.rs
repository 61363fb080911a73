use vstd::prelude::*;
use crate::arithmetic::{
    difference_of,
    exact,
    powi_of,
    product_of,
    quotient_of,
    sqrt_of,
    sum_of,
    Arithmetic,
};
use crate::ledger::{
    lemma_sorted,
    lemma_sorted_members,
    ordered,
    sort,
    sorted,
};
use crate::rays::Ray;
use crate::scalar::Scalar;
use crate::shapes::HasMaterial;
use crate::tuples::{epsilon, Point, Vector, EPSILON};
use crate::worlds::World;

verus! {

/// A place where a ray meets an object: the distance `t` along the ray and
/// the index of the object in its world.
#[derive(Debug, Copy, Clone)]
pub struct Intersection {
    pub t: Scalar,
    pub object_id: usize,
}

impl Intersection {
    pub fn new(t: Scalar, object_id: usize) -> (i: Intersection)
        ensures
            i.t == t,
            i.object_id == object_id,
    {
        Intersection { t, object_id }
    }

    /// Whether `self` and `other` are the same meeting: equal distances, as
    /// numbers compare, on the same object.
    pub open spec fn matches(self, other: Intersection) -> bool {
        self.t.same(other.t) && self.object_id == other.object_id
    }

    /// Whether `self` and `other` are the same meeting.
    pub fn equals(&self, other: &Intersection) -> (b: bool)
        ensures
            b == self.matches(*other),
    {
        self.t.equals(other.t) && self.object_id == other.object_id
    }
}

impl PartialEq for Intersection {
    fn eq(&self, other: &Intersection) -> (b: bool) {
        self.equals(other)
    }
}

impl vstd::std_specs::cmp::PartialEqSpecImpl for Intersection {
    open spec fn obeys_eq_spec() -> bool {
        true
    }

    open spec fn eq_spec(&self, other: &Intersection) -> bool {
        self.matches(*other)
    }
}

/// Whether `s[k]` is the hit of `s`: the first of the entries with the
/// smallest distance among those in front of the origin.
pub open spec fn is_hit(s: Seq<Intersection>, k: int) -> bool {
    &&& 0 <= k < s.len()
    &&& s[k].t.positive()
    &&& forall|i: int| 0 <= i < s.len() && s[i].t.positive() ==> s[k].t.at_most(s[i].t)
    &&& forall|i: int| 0 <= i < k && s[i].t.positive() ==> s[k].t.below(s[i].t)
}

/// Whether some entry of `s` lies in front of the origin.
pub open spec fn has_hit(s: Seq<Intersection>) -> bool {
    exists|i: int| 0 <= i < s.len() && (#[trigger] s[i]).t.positive()
}

/// The hit of `s`, if it has one.
pub open spec fn hit_of(s: Seq<Intersection>) -> Option<Intersection> {
    if has_hit(s) {
        Some(s[choose|k: int| is_hit(s, k)])
    } else {
        None
    }
}

/// Appends the entries of `src` to `dst`.
fn copy_onto(dst: &mut Vec<Intersection>, src: &Vec<Intersection>)
    ensures
        final(dst)@ == old(dst)@ + src@,
{
    let mut i: usize = 0;
    while i < src.len()
        invariant
            i <= src.len(),
            dst@ == old(dst)@ + src@.subrange(0, i as int),
        decreases src.len() - i,
    {
        dst.push(src[i]);
        proof {
            assert(src@.subrange(0, i + 1) =~= src@.subrange(0, i as int).push(src@[i as int]));
            assert(dst@ =~= old(dst)@ + src@.subrange(0, i + 1));
        }
        i += 1;
    }
    proof {
        assert(src@.subrange(0, src.len() as int) =~= src@);
    }
}

/// All the places where one ray meets the objects of a world, in ascending
/// order of distance.
#[derive(Debug)]
pub struct Intersections {
    intersections: Vec<Intersection>,
}

impl View for Intersections {
    type V = Seq<Intersection>;

    closed spec fn view(&self) -> Seq<Intersection> {
        self.intersections@
    }
}

impl Intersections {
    #[verifier::type_invariant]
    spec fn in_order(&self) -> bool {
        ordered(self.intersections@)
    }

    /// The ledger of `xs`: the same entries in ascending order of `t`, entries
    /// of equal distance in the order in which `xs` gives them.
    pub fn new(xs: Vec<Intersection>) -> (out: Intersections)
        ensures
            out@ == sorted(xs@),
            out@.to_multiset() == xs@.to_multiset(),
            out@.len() == xs@.len(),
            ordered(out@),
    {
        proof {
            lemma_sorted(xs@);
        }
        Intersections { intersections: sort(xs) }
    }

    /// The hit: the entry with the smallest distance among those in front of
    /// the ray's origin, and of several such the first. Entries at or behind
    /// the origin, and entries whose distance is a NaN, are passed over.
    pub fn hit(&self) -> (result: Option<&Intersection>)
        ensures
            result.is_none() <==> !has_hit(self@),
            result matches Some(h) ==> exists|k: int| is_hit(self@, k) && self@[k] == *h,
            match result {
                Some(h) => hit_of(self@) == Some(*h),
                None => hit_of(self@).is_none(),
            },
    {
        let mut result: Option<&Intersection> = None;
        let ghost mut at: int = 0;
        let mut i: usize = 0;
        while i < self.intersections.len()
            invariant
                i <= self.intersections.len(),
                result.is_none() ==> forall|j: int| 0 <= j < i ==> !self@[j].t.positive(),
                result matches Some(h) ==> {
                    &&& 0 <= at < i
                    &&& self@[at] == *h
                    &&& h.t.positive()
                    &&& forall|j: int| 0 <= j < i && self@[j].t.positive() ==> h.t.at_most(self@[j].t)
                    &&& forall|j: int| 0 <= j < at && self@[j].t.positive() ==> h.t.below(self@[j].t)
                },
            decreases self.intersections.len() - i,
        {
            let intersection = &self.intersections[i];
            if intersection.t.is_positive() {
                match result {
                    None => {
                        result = Some(intersection);
                        proof {
                            at = i as int;
                        }
                    },
                    Some(intermediate_result) => {
                        if intermediate_result.t.gt(intersection.t) {
                            result = Some(intersection);
                            proof {
                                at = i as int;
                            }
                        }
                    },
                }
            }
            i += 1;
        }
        proof {
            if result.is_some() {
                assert(is_hit(self@, at));
                assert(self@[at].t.positive());
                let k = choose|k: int| is_hit(self@, k);
                assert(k == at);
            }
        }
        result
    }

    /// Takes the entries of `other` into this ledger and puts all in order
    /// again: entries of equal distance stay as they were, those of `self`
    /// before those of `other`.
    pub fn extend(&mut self, other: Intersections)
        ensures
            final(self)@ == sorted(old(self)@ + other@),
            final(self)@.to_multiset() == old(self)@.to_multiset().add(other@.to_multiset()),
            final(self)@.len() == old(self)@.len() + other@.len(),
            ordered(final(self)@),
            forall|i: int|
                0 <= i < final(self)@.len() ==> old(self)@.contains(#[trigger] final(self)@[i])
                    || other@.contains(final(self)@[i]),
    {
        broadcast use vstd::seq_lib::lemma_multiset_commutative;

        let mut all: Vec<Intersection> = Vec::new();
        copy_onto(&mut all, &self.intersections);
        copy_onto(&mut all, &other.intersections);
        proof {
            lemma_sorted(all@);
            lemma_sorted_members(all@);
            assert(all@ =~= old(self)@ + other@);
            assert forall|i: int| 0 <= i < sorted(all@).len() implies old(self)@.contains(
                #[trigger] sorted(all@)[i],
            ) || other@.contains(sorted(all@)[i]) by {
                let x = sorted(all@)[i];
                let j = choose|j: int| 0 <= j < all@.len() && all@[j] == x;
                if j < old(self)@.len() {
                    assert(old(self)@[j] == x);
                } else {
                    assert(other@[j - old(self)@.len()] == x);
                }
            }
        }
        self.intersections = sort(all);
    }

    /// How many entries the ledger holds. The entries are in order, whatever
    /// was done to the ledger.
    pub fn count(&self) -> (n: usize)
        ensures
            n == self@.len(),
            ordered(self@),
    {
        proof {
            use_type_invariant(self);
        }
        self.intersections.len()
    }

    /// The entry at `index`, counted from the nearest.
    pub fn get(&self, index: usize) -> (i: &Intersection)
        requires
            index < self@.len(),
        ensures
            *i == self@[index as int],
    {
        &self.intersections[index]
    }
}

impl core::ops::Index<usize> for Intersections {
    type Output = Intersection;

    /// The entry at `index`, counted from the nearest.
    fn index(&self, index: usize) -> (i: &Intersection)
        ensures
            *i == self@[index as int],
    {
        &self.intersections[index]
    }
}

impl vstd::std_specs::core::IndexSpecImpl<usize> for Intersections {
    open spec fn index_req(&self, index: &usize) -> bool {
        *index < self@.len()
    }
}

/// The place of the first `id` in `stack`, and the length of `stack` where
/// it holds none.
pub open spec fn position(stack: Seq<usize>, id: usize) -> int
    decreases stack.len(),
{
    if stack.len() == 0 {
        0
    } else if stack[0] == id {
        0
    } else {
        1 + position(stack.drop_first(), id)
    }
}

/// The objects that a ray is inside of, after it has met the surface of
/// `id` once more: `id` leaves the stack where it was on it, and is put on
/// top where it was not.
pub open spec fn toggled(stack: Seq<usize>, id: usize) -> Seq<usize> {
    if position(stack, id) < stack.len() {
        stack.remove(position(stack, id))
    } else {
        stack.push(id)
    }
}

/// The objects that a ray is inside of after the first `n` entries of `xs`,
/// the one entered last on top.
pub open spec fn containers(xs: Seq<Intersection>, n: int) -> Seq<usize>
    decreases n,
{
    if n <= 0 {
        Seq::empty()
    } else {
        toggled(containers(xs, n - 1), xs[n - 1].object_id)
    }
}

/// The place of the first entry of `xs` that is the meeting `hit`, and the
/// length of `xs` where none is.
pub open spec fn first_match(xs: Seq<Intersection>, hit: Intersection) -> int
    decreases xs.len(),
{
    if xs.len() == 0 {
        0
    } else if xs[0].matches(hit) {
        0
    } else {
        1 + first_match(xs.drop_first(), hit)
    }
}

/// What lies on top of `stack`.
pub open spec fn top(stack: Seq<usize>) -> Option<usize> {
    if stack.len() == 0 {
        None
    } else {
        Some(stack.last())
    }
}

/// The two media at a hit: the object that the ray was inside of last
/// before the hit, and the one it is inside of last behind it. `None` is
/// empty space.
#[derive(Debug, Clone, Copy, PartialEq, Eq, Structural)]
pub struct Boundary {
    pub leaving: Option<usize>,
    pub entering: Option<usize>,
}

/// The media at `hit` along the ray whose ledger is `xs`: the ledger is
/// gone through up to the first entry that is `hit`, each entry entering its
/// object or leaving it. Where no entry is `hit`, empty space lies on both
/// sides.
pub open spec fn boundary_of(xs: Seq<Intersection>, hit: Intersection) -> Boundary {
    let k = first_match(xs, hit);
    if k < xs.len() {
        Boundary { leaving: top(containers(xs, k)), entering: top(containers(xs, k + 1)) }
    } else {
        Boundary { leaving: None, entering: None }
    }
}

/// `position` finds the first `id`: it stands at `i` where `stack[i]` is
/// `id`, or `i` is the length, and no entry before `i` is `id`.
pub proof fn lemma_position(stack: Seq<usize>, id: usize, i: int)
    requires
        0 <= i <= stack.len(),
        forall|j: int| 0 <= j < i ==> stack[j] != id,
        i < stack.len() ==> stack[i] == id,
    ensures
        position(stack, id) == i,
    decreases i,
{
    if i > 0 {
        let rest = stack.drop_first();
        assert forall|j: int| 0 <= j < i - 1 implies rest[j] != id by {
            assert(rest[j] == stack[j + 1]);
        }
        assert(stack[0] != id);
        lemma_position(rest, id, i - 1);
    }
}

/// `position` stays inside `stack`, stands on an `id` where it stands on
/// an entry, and has no `id` before it.
pub proof fn lemma_position_found(stack: Seq<usize>, id: usize)
    ensures
        0 <= position(stack, id) <= stack.len(),
        position(stack, id) < stack.len() ==> stack[position(stack, id)] == id,
        forall|j: int| 0 <= j < position(stack, id) ==> stack[j] != id,
    decreases stack.len(),
{
    if stack.len() > 0 && stack[0] != id {
        let rest = stack.drop_first();
        lemma_position_found(rest, id);
        assert(position(rest, id) < rest.len() ==> rest[position(rest, id)] == stack[position(
            stack,
            id,
        )]);
        assert forall|j: int| 0 <= j < position(stack, id) implies stack[j] != id by {
            if j > 0 {
                assert(rest[j - 1] == stack[j]);
            }
        }
    }
}

/// `first_match` finds the first entry that is `hit`.
pub proof fn lemma_first_match(xs: Seq<Intersection>, hit: Intersection, i: int)
    requires
        0 <= i <= xs.len(),
        forall|j: int| 0 <= j < i ==> !xs[j].matches(hit),
        i < xs.len() ==> xs[i].matches(hit),
    ensures
        first_match(xs, hit) == i,
    decreases i,
{
    if i > 0 {
        let rest = xs.drop_first();
        assert forall|j: int| 0 <= j < i - 1 implies !rest[j].matches(hit) by {
            assert(rest[j] == xs[j + 1]);
        }
        assert(!xs[0].matches(hit));
        lemma_first_match(rest, hit, i - 1);
    }
}

/// Every object on the stack was met by one of the entries gone through.
pub proof fn lemma_containers_come_from_entries(xs: Seq<Intersection>, n: int)
    requires
        0 <= n <= xs.len(),
    ensures
        forall|e: int|
            0 <= e < containers(xs, n).len() ==> exists|j: int|
                0 <= j < n && xs[j].object_id == #[trigger] containers(xs, n)[e],
    decreases n,
{
    if n > 0 {
        lemma_containers_come_from_entries(xs, n - 1);
        let before = containers(xs, n - 1);
        let id = xs[n - 1].object_id;
        let after = containers(xs, n);
        assert forall|e: int| 0 <= e < after.len() implies exists|j: int|
            0 <= j < n && xs[j].object_id == #[trigger] after[e] by {
            lemma_position_found(before, id);
            if position(before, id) < before.len() {
                let p = position(before, id);
                assert(after == before.remove(p));
                if e < p {
                    assert(after[e] == before[e]);
                } else {
                    assert(after[e] == before[e + 1]);
                }
                let j = choose|j: int| 0 <= j < n - 1 && xs[j].object_id == after[e];
                assert(0 <= j < n && xs[j].object_id == after[e]);
            } else {
                if e < before.len() {
                    assert(after[e] == before[e]);
                    let j = choose|j: int| 0 <= j < n - 1 && xs[j].object_id == after[e];
                    assert(0 <= j < n && xs[j].object_id == after[e]);
                } else {
                    assert(after[e] == id);
                    assert(xs[n - 1].object_id == after[e]);
                }
            }
        }
    }
}

/// Enters the object `id`, or leaves it where the ray is inside of it.
pub fn toggle(stack: &mut Vec<usize>, id: usize)
    ensures
        final(stack)@ == toggled(old(stack)@, id),
{
    let mut i: usize = 0;
    while i < stack.len() && stack[i] != id
        invariant
            i <= stack.len(),
            stack@ == old(stack)@,
            forall|j: int| 0 <= j < i ==> stack@[j] != id,
        decreases stack.len() - i,
    {
        i += 1;
    }
    proof {
        lemma_position(stack@, id, i as int);
    }
    if i < stack.len() {
        stack.remove(i);
    } else {
        stack.push(id);
    }
}

/// What lies on top of `stack`.
pub fn last_of(stack: &Vec<usize>) -> (t: Option<usize>)
    ensures
        t == top(stack@),
{
    if stack.len() == 0 {
        None
    } else {
        Some(stack[stack.len() - 1])
    }
}

/// The media on the two sides of `hit` along the ray whose ledger is `xs`.
pub fn boundary(hit: &Intersection, xs: &Intersections) -> (b: Boundary)
    ensures
        b == boundary_of(xs@, *hit),
        b.leaving matches Some(id) ==> exists|j: int| 0 <= j < xs@.len() && xs@[j].object_id == id,
        b.entering matches Some(id) ==> exists|j: int| 0 <= j < xs@.len() && xs@[j].object_id == id,
{
    let mut stack: Vec<usize> = Vec::new();
    let n: usize = xs.count();
    let mut i: usize = 0;
    while i < n
        invariant
            n == xs@.len(),
            i <= n,
            stack@ == containers(xs@, i as int),
            forall|j: int| 0 <= j < i ==> !xs@[j].matches(*hit),
        decreases n - i,
    {
        let entry = xs.get(i);
        if entry.equals(hit) {
            let leaving = last_of(&stack);
            toggle(&mut stack, entry.object_id);
            let entering = last_of(&stack);
            proof {
                lemma_first_match(xs@, *hit, i as int);
                lemma_containers_come_from_entries(xs@, i as int);
                lemma_containers_come_from_entries(xs@, i + 1);
                assert(stack@ == containers(xs@, i + 1));
            }
            return Boundary { leaving, entering };
        }
        toggle(&mut stack, entry.object_id);
        i += 1;
    }
    proof {
        lemma_first_match(xs@, *hit, n as int);
    }
    Boundary { leaving: None, entering: None }
}

/// The side of a surface that an eye sees: whether the eye is inside, which
/// it is where `toward_eye`, the normal times the direction to the eye, is
/// below zero, and the normal, turned round where the eye is inside.
pub fn facing(normal: Vector, toward_eye: Scalar) -> (side: (bool, Vector))
    ensures
        side.0 == toward_eye.below(Scalar { bits: 0 }),
        side.1 == if side.0 {
            normal.negated()
        } else {
            normal
        },
{
    if toward_eye.is_negative() {
        (true, normal.neg())
    } else {
        (false, normal)
    }
}

/// What shading needs to know of a hit.
#[derive(Debug, Clone, Copy)]
pub struct Computations {
    /// The distance of the hit along the ray.
    pub t: Scalar,
    /// The object that was hit, by its index in the world.
    pub object_id: usize,
    /// Where the ray met the object.
    pub point: Point,
    /// The direction from the hit to the eye: the ray's, turned round.
    pub eyev: Vector,
    /// The direction that stands on the surface, on the side of the eye.
    pub normalv: Vector,
    /// Whether the eye is inside the object.
    pub inside: bool,
    /// The hit, moved off the surface to the side of the eye.
    pub over_point: Point,
    /// The ray's direction, mirrored at the surface.
    pub reflectv: Vector,
    /// The refractive index of what the ray leaves.
    pub n1: Scalar,
    /// The refractive index of what the ray enters.
    pub n2: Scalar,
    /// The hit, moved off the surface to the far side.
    pub under_point: Point,
}

/// `r0 + (1 - r0) * (1 - cos)^5` with `r0 = ((n1 - n2) / (n1 + n2))^2`.
pub open spec fn reflectance_of<A: Arithmetic>(n1: Scalar, n2: Scalar, cos: Scalar, ar: &A) -> Scalar {
    let one = Scalar { bits: 0x3f80_0000 };
    let r0 = powi_of(ar, quotient_of(ar, difference_of(ar, n1, n2), sum_of(ar, n1, n2)), 2);
    sum_of(ar, r0, product_of(ar, difference_of(ar, one, r0), powi_of(ar, difference_of(ar, one, cos), 5)))
}

/// The squared sine of the angle at which light goes on behind a surface
/// that it meets at the cosine `cos`, the refractive indices being in the
/// ratio `n_ratio`: `n_ratio^2 * (1 - cos^2)`. Above one there is no such
/// angle, and all light is mirrored.
pub open spec fn sin2_t_of<A: Arithmetic>(n_ratio: Scalar, cos: Scalar, ar: &A) -> Scalar {
    let one = Scalar { bits: 0x3f80_0000 };
    product_of(ar, powi_of(ar, n_ratio, 2), difference_of(ar, one, powi_of(ar, cos, 2)))
}

impl Computations {
    /// How much of the light is mirrored at the hit, after Schlick. `cos` is
    /// the cosine between the eye and the normal. Where `n1 > n2` the squared
    /// sine of the refracted angle decides: above one all light is mirrored
    /// and the result is one, and else the cosine of the refracted angle,
    /// the root of one less that squared sine, takes the place of `cos`.
    pub open spec fn schlick_of<A: Arithmetic>(&self, ar: &A) -> Scalar {
        let one = Scalar { bits: 0x3f80_0000 };
        let cos = self.eyev.dot_of(self.normalv, ar);
        if self.n2.below(self.n1) {
            let sin2_t = sin2_t_of(quotient_of(ar, self.n1, self.n2), cos, ar);
            if one.below(sin2_t) {
                one
            } else {
                reflectance_of(self.n1, self.n2, sqrt_of(ar, difference_of(ar, one, sin2_t)), ar)
            }
        } else {
            reflectance_of(self.n1, self.n2, cos, ar)
        }
    }

    /// How much of the light is mirrored at the hit.
    pub fn schlick<A: Arithmetic>(&self, ar: &A) -> (r: Scalar)
        ensures
            exact(ar) ==> r == self.schlick_of(ar),
    {
        let one = Scalar::one();
        let mut cos = self.eyev.dot(&self.normalv, ar);
        if self.n1.gt(self.n2) {
            let n = ar.quotient(self.n1, self.n2);
            let sin2_t = ar.product(ar.powi(n, 2), ar.difference(one, ar.powi(cos, 2)));
            if sin2_t.gt(one) {
                return one;
            }
            let cos_t = ar.sqrt(ar.difference(one, sin2_t));
            cos = cos_t;
        }
        let r0 = ar.powi(
            ar.quotient(ar.difference(self.n1, self.n2), ar.sum(self.n1, self.n2)),
            2,
        );
        ar.sum(r0, ar.product(ar.difference(one, r0), ar.powi(ar.difference(one, cos), 5)))
    }
}

impl Intersection {
    /// What shading needs to know of the hit `self` of `ray`, whose ledger is
    /// `xs`.
    ///
    /// The refractive indices are those of the media that `boundary_of`
    /// finds, one for empty space. The eye looks back along the ray. The
    /// normal is that of the object at the hit, turned to the side of the
    /// eye. The two points off the surface lie `EPSILON` along the normal
    /// and against it.
    pub open spec fn computations_of<A: Arithmetic>(
        self,
        ray: Ray,
        world: World,
        xs: Seq<Intersection>,
        ar: &A,
    ) -> Computations {
        let sides = boundary_of(xs, self);
        let point = ray.position_of(self.t, ar);
        let eyev = ray.direction.negated();
        let normal = world.objects@[self.object_id as int].normal_of(point, ar);
        let inside = normal.dot_of(eyev, ar).below(Scalar { bits: 0 });
        let normalv = if inside {
            normal.negated()
        } else {
            normal
        };
        let offset = normalv.times_of(Scalar { bits: EPSILON }, ar);
        Computations {
            t: self.t,
            object_id: self.object_id,
            point: point,
            eyev: eyev,
            normalv: normalv,
            inside: inside,
            over_point: point.plus_of(offset, ar),
            reflectv: ray.direction.reflect_of(normalv, ar),
            n1: world.refractive_index_of(sides.leaving),
            n2: world.refractive_index_of(sides.entering),
            under_point: point.minus_vector_of(offset, ar),
        }
    }

    /// What shading needs to know of the hit `self` of `ray`, whose ledger is
    /// `xs`.
    pub fn prepare_computations<A: Arithmetic>(
        &self,
        ray: &Ray,
        world: &World,
        xs: &Intersections,
        ar: &A,
    ) -> (comps: Computations)
        requires
            self.object_id < world.objects@.len(),
            forall|i: int| 0 <= i < xs@.len() ==> (#[trigger] xs@[i]).object_id < world.objects@.len(),
        ensures
            comps.t == self.t,
            comps.object_id == self.object_id,
            comps.eyev == ray.direction.negated(),
            comps.n1 == world.refractive_index_of(boundary_of(xs@, *self).leaving),
            comps.n2 == world.refractive_index_of(boundary_of(xs@, *self).entering),
            exact(ar) ==> comps == self.computations_of(*ray, *world, xs@, ar),
    {
        let sides = boundary(self, xs);
        let n1 = match sides.leaving {
            None => Scalar::one(),
            Some(object_id) => world.objects[object_id].get_material().refractive_index,
        };
        let n2 = match sides.entering {
            None => Scalar::one(),
            Some(object_id) => world.objects[object_id].get_material().refractive_index,
        };
        let point = ray.position(self.t, ar);
        let object = &world.objects[self.object_id];
        let eyev = ray.direction.neg();
        let normal = object.normal_at(&point, ar);
        let (inside, normalv) = facing(normal, normal.dot(&eyev, ar));
        let over_point = point.plus(normalv.times(epsilon(), ar), ar);
        let under_point = point.minus_vector(normalv.times(epsilon(), ar), ar);
        let reflectv = ray.direction.reflect(&normalv, ar);
        Computations {
            t: self.t,
            object_id: self.object_id,
            point: point,
            eyev: eyev,
            normalv: normalv,
            inside: inside,
            over_point: over_point,
            reflectv: reflectv,
            n1: n1,
            n2: n2,
            under_point,
        }
    }
}

} // verus!
