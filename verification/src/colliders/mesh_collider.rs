//! Meshes of triangles.

use crate::colliders::aabb::AABoundingBox;
use crate::colliders::triangle_collider::TriangleCollider;
use crate::colliders::triangle_collider::TriangleProbe;
use crate::colliders::RayHitInfo;
use crate::scalar::Scalar;
use crate::sorting::ascending;
use crate::sorting::keys_are_numbers;
use crate::sorting::quicksort;
use crate::sorting::sorted_by_key;
use crate::vectors::vector_three::Vector3;
use vstd::prelude::*;
use vstd::std_specs::cmp::PartialEqSpecImpl;

verus! {

/// A set of triangles with the box around their corners.
#[derive(Clone, Debug)]
pub struct MeshCollider {
    pub tris: Vec<TriangleCollider>,
    pub bounds: AABoundingBox,
}

/// Every index names a vertex.
pub open spec fn indices_in_range(vertices: Seq<Vector3>, indices: Seq<u32>) -> bool {
    forall|i: int| 0 <= i < indices.len() ==> (#[trigger] indices[i]) < vertices.len()
}

/// The triangle that the `k`-th triple of indices names.
pub open spec fn triangle_of(vertices: Seq<Vector3>, indices: Seq<u32>, k: int) -> TriangleCollider
    recommends
        0 <= k,
        3 * k + 2 < indices.len(),
        indices_in_range(vertices, indices),
{
    TriangleCollider {
        a: vertices[indices[3 * k] as int],
        b: vertices[indices[3 * k + 1] as int],
        c: vertices[indices[3 * k + 2] as int],
    }
}

/// How a ray sees one triangle of a mesh: how far the middle of the triangle
/// lies from the origin of the ray, and what the ray does at the plane of the
/// triangle.
#[derive(Clone, Copy, Debug)]
pub struct TriangleSight {
    pub distance: Scalar,
    pub probe: TriangleProbe,
}

impl TriangleSight {
    pub fn new(distance: Scalar, probe: TriangleProbe) -> (sight: TriangleSight)
        ensures
            sight == (TriangleSight { distance, probe }),
    {
        TriangleSight { distance, probe }
    }
}

/// The distances of the sights, in their order.
pub open spec fn distances_of(sights: Seq<TriangleSight>) -> Seq<Scalar> {
    Seq::new(sights.len(), |i: int| sights[i].distance)
}

/// Each distance with its place in the list.
pub open spec fn numbered(distances: Seq<Scalar>) -> Seq<(Scalar, usize)> {
    Seq::new(distances.len(), |i: int| (distances[i], i as usize))
}

/// The order in which the triangles of a mesh are tried: by ascending
/// distance, triangles at equal distances in the order of the mesh.
pub open spec fn spec_search_order(distances: Seq<Scalar>) -> Seq<usize> {
    sorted_by_key(numbered(distances)).map_values(|entry: (Scalar, usize)| entry.1)
}

/// The first hit among `hits` in the order `order`, from place `from` on.
/// Places of the order that name no entry of `hits` are passed over.
pub open spec fn first_hit_from(order: Seq<usize>, hits: Seq<Option<RayHitInfo>>, from: int) -> Option<
    RayHitInfo,
>
    decreases order.len() - from,
{
    if from < 0 || from >= order.len() {
        None
    } else if order[from] < hits.len() && hits[order[from] as int] is Some {
        hits[order[from] as int]
    } else {
        first_hit_from(order, hits, from + 1)
    }
}

/// The place `k` of the order names a triangle that the ray hits.
pub open spec fn hits_at(order: Seq<usize>, hits: Seq<Option<RayHitInfo>>, k: int) -> bool {
    0 <= k < order.len() && order[k] < hits.len() && hits[order[k] as int] is Some
}

/// The first hit from a place on is the hit of the first triangle from that
/// place on that the ray hits, and there is none exactly where the ray hits
/// no triangle from that place on.
pub proof fn lemma_first_hit_from(order: Seq<usize>, hits: Seq<Option<RayHitInfo>>, from: int)
    requires
        0 <= from,
    ensures
        first_hit_from(order, hits, from) is None <==> forall|k: int|
            from <= k < order.len() ==> !#[trigger] hits_at(order, hits, k),
        first_hit_from(order, hits, from) is Some ==> exists|k: int|
            {
                &&& from <= k
                &&& #[trigger] hits_at(order, hits, k)
                &&& first_hit_from(order, hits, from) == hits[order[k] as int]
                &&& forall|j: int| from <= j < k ==> !#[trigger] hits_at(order, hits, j)
            },
    decreases order.len() - from,
{
    if from < order.len() {
        if hits_at(order, hits, from) {
            assert(first_hit_from(order, hits, from) == hits[order[from] as int]);
        } else {
            lemma_first_hit_from(order, hits, from + 1);
            if first_hit_from(order, hits, from + 1) is Some {
                let k = choose|k: int|
                    {
                        &&& from + 1 <= k
                        &&& #[trigger] hits_at(order, hits, k)
                        &&& first_hit_from(order, hits, from + 1) == hits[order[k] as int]
                        &&& forall|j: int| from + 1 <= j < k ==> !#[trigger] hits_at(order, hits, j)
                    };
                assert(hits_at(order, hits, k));
                assert forall|j: int| from <= j < k implies !#[trigger] hits_at(order, hits, j) by {
                    if j > from {
                        assert(from + 1 <= j);
                    }
                }
            } else {
                assert forall|k: int| from <= k < order.len() implies !#[trigger] hits_at(
                    order,
                    hits,
                    k,
                ) by {
                    if k > from {
                        assert(from + 1 <= k);
                    }
                }
            }
        }
    }
}

/// The order in which the triangles are tried names every triangle and is as
/// long as the list of distances. Where all distances are numbers, it ascends
/// in distance, and of two triangles at equal distances the one that comes
/// first in the mesh is tried first.
pub proof fn lemma_search_order(distances: Seq<Scalar>)
    requires
        distances.len() <= usize::MAX,
    ensures
        spec_search_order(distances).len() == distances.len(),
        forall|k: int|
            0 <= k < distances.len() ==> (#[trigger] spec_search_order(distances)[k])
                < distances.len(),
        forall|i: usize|
            i < distances.len() ==> #[trigger] spec_search_order(distances).contains(i),
        (forall|i: int| 0 <= i < distances.len() ==> !(#[trigger] distances[i]).spec_is_nan())
            ==> forall|j: int, k: int|
            0 <= j < k < distances.len() ==> {
                let near = #[trigger] spec_search_order(distances)[j];
                let far = #[trigger] spec_search_order(distances)[k];
                &&& distances[near as int].spec_at_most(distances[far as int])
                &&& distances[near as int].spec_equals(distances[far as int]) ==> near < far
            },
{
    let entries = numbered(distances);
    let sorted = sorted_by_key(entries);
    let order = spec_search_order(distances);
    crate::sorting::lemma_sorted_is_permutation(entries);
    let faithful = |entry: (Scalar, usize)|
        entry.1 < distances.len() && entry.0 == distances[entry.1 as int];
    assert(crate::sorting::holds_of_all(entries, faithful));
    crate::sorting::lemma_sorted_keeps(entries, faithful);
    assert forall|k: int| 0 <= k < distances.len() implies (#[trigger] order[k])
        < distances.len() by {
        assert(faithful(sorted[k]));
    }
    assert forall|i: usize| i < distances.len() implies #[trigger] order.contains(i) by {
        let entry = (distances[i as int], i);
        assert(entries[i as int] == entry);
        entries.to_multiset_ensures();
        sorted.to_multiset_ensures();
        assert(entries.contains(entry));
        assert(sorted.to_multiset().count(entry) > 0);
        assert(sorted.contains(entry));
        let k = choose|k: int| 0 <= k < sorted.len() && sorted[k] == entry;
        assert(order[k] == i);
    }
    if forall|i: int| 0 <= i < distances.len() ==> !(#[trigger] distances[i]).spec_is_nan() {
        assert(keys_are_numbers(entries)) by {
            assert forall|i: int| 0 <= i < entries.len() implies !(#[trigger] entries[i]).0.spec_is_nan() by {
                assert(entries[i].0 == distances[i]);
            }
        }
        crate::sorting::lemma_sorted_ascends(entries);
        assert(ascending(sorted));
        let in_turn = |first: (Scalar, usize), second: (Scalar, usize)| first.1 < second.1;
        assert(crate::sorting::ties_hold(entries, in_turn));
        crate::sorting::lemma_sorted_keeps_ties(entries, in_turn);
        assert forall|j: int, k: int| 0 <= j < k < distances.len() implies {
            let near = #[trigger] order[j];
            let far = #[trigger] order[k];
            &&& distances[near as int].spec_at_most(distances[far as int])
            &&& distances[near as int].spec_equals(distances[far as int]) ==> near < far
        } by {
            assert(faithful(sorted[j]));
            assert(faithful(sorted[k]));
            assert(sorted[j].0.spec_at_most(sorted[k].0));
            assert(sorted[j].0.spec_equals(sorted[k].0) ==> in_turn(sorted[j], sorted[k]));
        }
    }
}

impl MeshCollider {
    /// Builds the mesh whose triangles are named by the triples of `indices`,
    /// each index naming one of `vertices`.
    pub fn new(vertices: Vec<Vector3>, indices: Vec<u32>) -> (mesh: MeshCollider)
        requires
            indices.len() % 3 == 0,
            indices_in_range(vertices@, indices@),
        ensures
            mesh.tris@.len() == indices.len() / 3,
            forall|k: int|
                0 <= k < mesh.tris@.len() ==> #[trigger] mesh.tris@[k] == triangle_of(
                    vertices@,
                    indices@,
                    k,
                ),
            mesh.bounds == AABoundingBox::spec_from_points(vertices@),
    {
        let mut tris: Vec<TriangleCollider> = Vec::new();
        let mut i: usize = 0;
        while i < indices.len()
            invariant
                i <= indices.len(),
                i % 3 == 0,
                indices.len() % 3 == 0,
                indices_in_range(vertices@, indices@),
                tris@.len() == i / 3,
                forall|k: int|
                    0 <= k < tris@.len() ==> #[trigger] tris@[k] == triangle_of(
                        vertices@,
                        indices@,
                        k,
                    ),
            decreases indices.len() - i,
        {
            let a = vertices[indices[i] as usize];
            let b = vertices[indices[i + 1] as usize];
            let c = vertices[indices[i + 2] as usize];
            tris.push(TriangleCollider::new(a, b, c));
            i += 3;
        }
        let bounds = AABoundingBox::from_points(vertices);
        MeshCollider { tris, bounds }
    }

    /// The order in which to try the triangles, given the distance of each
    /// from the origin of the ray.
    pub fn search_order(distances: Vec<Scalar>) -> (order: Vec<usize>)
        ensures
            order@ == spec_search_order(distances@),
            order@.len() == distances@.len(),
    {
        let mut entries: Vec<(Scalar, usize)> = Vec::new();
        let mut i: usize = 0;
        while i < distances.len()
            invariant
                i <= distances.len(),
                entries@ == numbered(distances@).take(i as int),
            decreases distances.len() - i,
        {
            entries.push((distances[i], i));
            proof {
                assert(numbered(distances@).take(i + 1) =~= numbered(distances@).take(
                    i as int,
                ).push((distances@[i as int], i)));
            }
            i += 1;
        }
        proof {
            assert(numbered(distances@).take(distances.len() as int) =~= numbered(distances@));
        }
        let sorted = quicksort(entries);
        let mut order: Vec<usize> = Vec::new();
        let mut k: usize = 0;
        while k < sorted.len()
            invariant
                k <= sorted.len(),
                sorted@ == sorted_by_key(numbered(distances@)),
                sorted@.len() == distances@.len(),
                order@ == spec_search_order(distances@).take(k as int),
            decreases sorted.len() - k,
        {
            order.push(sorted[k].1);
            proof {
                assert(spec_search_order(distances@).take(k + 1) =~= spec_search_order(
                    distances@,
                ).take(k as int).push(sorted@[k as int].1));
            }
            k += 1;
        }
        proof {
            assert(spec_search_order(distances@).take(sorted.len() as int) =~= spec_search_order(
                distances@,
            ));
        }
        order
    }

    /// The answers of the triangles to a ray, each to what the ray does at its
    /// own plane, in the order of the mesh.
    pub open spec fn answers(
        &self,
        sights: Seq<TriangleSight>,
        max_distance: Option<Scalar>,
    ) -> Seq<Option<RayHitInfo>> {
        Seq::new(
            self.tris@.len(),
            |i: int| self.tris@[i].spec_check_ray(sights[i].probe, max_distance),
        )
    }

    /// The answer to a ray query: none where the ray misses the box around the
    /// mesh; else the hit of the first triangle that the ray hits, the
    /// triangles taken in the order of their distances.
    pub open spec fn spec_check_ray(
        &self,
        bounds_hit: Option<RayHitInfo>,
        sights: Seq<TriangleSight>,
        max_distance: Option<Scalar>,
    ) -> Option<RayHitInfo> {
        if bounds_hit is None {
            None
        } else {
            first_hit_from(
                spec_search_order(distances_of(sights)),
                self.answers(sights, max_distance),
                0,
            )
        }
    }

    /// Decides a ray query. `bounds_hit` is the answer of the box around the
    /// mesh to the same ray; `sights` says, for each triangle in the order of
    /// the mesh, how the ray sees it. The triangles are asked in the order of
    /// their distances, and none is asked once one has been hit.
    pub fn check_ray(
        &self,
        bounds_hit: Option<RayHitInfo>,
        sights: Vec<TriangleSight>,
        max_distance: Option<Scalar>,
    ) -> (hit: Option<RayHitInfo>)
        requires
            sights@.len() == self.tris@.len(),
        ensures
            hit == self.spec_check_ray(bounds_hit, sights@, max_distance),
    {
        if bounds_hit.is_none() {
            return None;
        }
        let mut distances: Vec<Scalar> = Vec::new();
        let mut i: usize = 0;
        while i < sights.len()
            invariant
                i <= sights.len(),
                distances@ == distances_of(sights@).take(i as int),
            decreases sights.len() - i,
        {
            distances.push(sights[i].distance);
            proof {
                assert(distances_of(sights@).take(i + 1) =~= distances_of(sights@).take(
                    i as int,
                ).push(sights@[i as int].distance));
            }
            i += 1;
        }
        proof {
            assert(distances_of(sights@).take(sights.len() as int) =~= distances_of(sights@));
            lemma_search_order(distances_of(sights@));
        }
        let order = MeshCollider::search_order(distances);
        let ghost answers = self.answers(sights@, max_distance);
        let mut k: usize = 0;
        while k < order.len()
            invariant
                k <= order.len(),
                bounds_hit is Some,
                sights@.len() == self.tris@.len(),
                order@ == spec_search_order(distances_of(sights@)),
                order@.len() == sights@.len(),
                forall|p: int| 0 <= p < order@.len() ==> (#[trigger] order@[p]) < sights@.len(),
                answers == self.answers(sights@, max_distance),
                first_hit_from(order@, answers, 0) == first_hit_from(order@, answers, k as int),
            decreases order.len() - k,
        {
            let index = order[k];
            let check = self.tris[index].check_ray(sights[index].probe, max_distance);
            if check.is_some() {
                return check;
            }
            k += 1;
        }
        None
    }

    /// The hit that a query reports is the answer of one of the triangles,
    /// and no triangle whose distance is smaller is hit. A query on a mesh
    /// whose box is hit reports none only where no triangle is hit. This
    /// holds where every distance is a number.
    pub proof fn lemma_check_ray_hits_nearest_triangle(
        &self,
        bounds_hit: Option<RayHitInfo>,
        sights: Seq<TriangleSight>,
        max_distance: Option<Scalar>,
    )
        requires
            sights.len() == self.tris@.len(),
            sights.len() <= usize::MAX,
            forall|i: int| 0 <= i < sights.len() ==> !(#[trigger] sights[i]).distance.spec_is_nan(),
        ensures
            self.spec_check_ray(bounds_hit, sights, max_distance) matches Some(hit) ==> exists|
                k: int,
            |
                {
                    &&& 0 <= k < self.tris@.len()
                    &&& #[trigger] self.answers(sights, max_distance)[k] == Some(hit)
                    &&& forall|j: int|
                        0 <= j < self.tris@.len() && sights[j].distance.spec_less_than(
                            sights[k].distance,
                        ) ==> #[trigger] self.answers(sights, max_distance)[j] is None
                },
            bounds_hit is Some && self.spec_check_ray(bounds_hit, sights, max_distance) is None
                ==> forall|k: int|
                0 <= k < self.tris@.len() ==> #[trigger] self.answers(sights, max_distance)[k]
                    is None,
    {
        let distances = distances_of(sights);
        let order = spec_search_order(distances);
        let answers = self.answers(sights, max_distance);
        lemma_search_order(distances);
        lemma_first_hit_from(order, answers, 0);
        assert forall|i: int| 0 <= i < distances.len() implies !(#[trigger] distances[i]).spec_is_nan() by {
            assert(distances[i] == sights[i].distance);
        }
        if bounds_hit is Some {
            if first_hit_from(order, answers, 0) is Some {
                let place = choose|place: int|
                    {
                        &&& 0 <= place
                        &&& #[trigger] hits_at(order, answers, place)
                        &&& first_hit_from(order, answers, 0) == answers[order[place] as int]
                        &&& forall|q: int| 0 <= q < place ==> !#[trigger] hits_at(order, answers, q)
                    };
                let k = order[place] as int;
                assert(answers[k] == first_hit_from(order, answers, 0));
                assert forall|j: int|
                    0 <= j < self.tris@.len() && sights[j].distance.spec_less_than(
                        sights[k].distance,
                    ) implies #[trigger] answers[j] is None by {
                    assert(order.contains(j as usize));
                    let q = choose|q: int| 0 <= q < order.len() && order[q] == j as usize;
                    assert(distances[j] == sights[j].distance);
                    assert(distances[k] == sights[k].distance);
                    if q > place {
                        assert(distances[order[place] as int].spec_at_most(
                            distances[order[q] as int],
                        ));
                    }
                    assert(q < place);
                    assert(!hits_at(order, answers, q));
                }
            } else {
                assert forall|k: int| 0 <= k < self.tris@.len() implies #[trigger] answers[k]
                    is None by {
                    assert(order.contains(k as usize));
                    let q = choose|q: int| 0 <= q < order.len() && order[q] == k as usize;
                    assert(!hits_at(order, answers, q));
                }
            }
        }
    }
}

impl MeshCollider {
    /// Equal in their boxes and triangle by triangle, as numbers.
    pub open spec fn spec_equals(&self, other: &MeshCollider) -> bool {
        &&& self.bounds.spec_equals(other.bounds)
        &&& self.tris@.len() == other.tris@.len()
        &&& forall|k: int|
            0 <= k < self.tris@.len() ==> (#[trigger] self.tris@[k]).spec_equals(other.tris@[k])
    }

    #[verifier::when_used_as_spec(spec_equals)]
    pub fn equals(&self, other: &MeshCollider) -> (r: bool)
        ensures
            r == self.spec_equals(other),
    {
        if !(self.bounds == other.bounds) || self.tris.len() != other.tris.len() {
            return false;
        }
        let mut k: usize = 0;
        while k < self.tris.len()
            invariant
                k <= self.tris.len(),
                self.tris@.len() == other.tris@.len(),
                forall|j: int|
                    0 <= j < k ==> (#[trigger] self.tris@[j]).spec_equals(other.tris@[j]),
            decreases self.tris.len() - k,
        {
            if !self.tris[k].equals(other.tris[k]) {
                return false;
            }
            k += 1;
        }
        true
    }
}

impl Default for MeshCollider {
    fn default() -> (mesh: MeshCollider)
        ensures
            mesh.tris@.len() == 0,
            mesh.bounds == AABoundingBox::zero(),
    {
        MeshCollider { tris: Vec::new(), bounds: AABoundingBox::ZERO() }
    }
}

impl PartialEq for MeshCollider {
    fn eq(&self, other: &MeshCollider) -> (r: bool) {
        self.equals(other)
    }
}

impl PartialEqSpecImpl for MeshCollider {
    open spec fn obeys_eq_spec() -> bool {
        true
    }

    open spec fn eq_spec(&self, other: &MeshCollider) -> bool {
        self.spec_equals(other)
    }
}

} // verus!
