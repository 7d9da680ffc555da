use vstd::prelude::*;
use crate::geometry::{
    area_covers_point, copy_area, covers_point, difference_part_count, difference_size,
    intersection_part_count, intersection_size, is_valid_polygon, oriented, oriented_area,
    oriented_polygon, shapes, valid_polygon, Point, Polygon, PolygonView,
};
use crate::power::Role;

verus! {

broadcast use vstd::std_specs::vec::group_vec_axioms;

/// Why an operation on the territorial tree was refused. A refused operation
/// leaves every division and government it was handed as it found them.
#[derive(Clone, Copy, Debug, PartialEq, Eq, Structural)]
pub enum TerritoryError {
    /// A proposed subdivision polygon does not lie within the parent's
    /// unassigned area.
    OutOfBounds,
    /// A proposed subdivision would leave the parent no area of its own.
    NoResidualArea,
    /// A proposed polygon is degenerate or self-intersecting.
    MalformedGeometry,
    /// The division is not a territory of the government it is taken from.
    NotFound,
}

/// A node of the territorial tree.
///
/// A division owns its subdivisions; `parent` and `owner` are plain identifiers
/// (of the enclosing division and of the sovereign government), never owning
/// links, so the tree cannot form a cycle.
pub struct Division {
    pub id: u64,
    pub name: String,
    pub parent: Option<u64>,
    pub owner: Option<u64>,
    /// The division's own surface, the union of these polygons.
    pub area: Vec<Polygon>,
    pub subdivisions: Vec<Division>,
    pub required_positions: Vec<Role>,
}

/// The whole surface of a subtree: the division's own polygons followed by
/// those of each subdivision's subtree, in order.
pub open spec fn joined(d: Division) -> Seq<PolygonView>
    decreases d, 1int,
{
    shapes(d.area@) + joined_each(d.subdivisions@)
}

/// The surfaces of the subtrees in `s`, one after another.
pub open spec fn joined_each(s: Seq<Division>) -> Seq<PolygonView>
    decreases s, 0int,
{
    if s.len() == 0 {
        Seq::empty()
    } else {
        joined_each(s.drop_last()) + joined(s.last())
    }
}

/// The union of `polys` lies within the union of `area`: once both are
/// oriented, nothing of `polys` is left outside `area`.
pub open spec fn within(area: Seq<PolygonView>, polys: Seq<PolygonView>) -> bool {
    difference_part_count(oriented(polys), oriented(area)) == 0
}

/// Each polygon of `polys` lies within `area`.
pub open spec fn all_within(area: Seq<PolygonView>, polys: Seq<PolygonView>) -> bool {
    forall|i: int| 0 <= i < polys.len() ==> within(area, seq![#[trigger] polys[i]])
}

/// Each point of `points` lies in `area` or on its boundary.
pub open spec fn all_points_within(area: Seq<PolygonView>, points: Seq<Point>) -> bool {
    forall|i: int| 0 <= i < points.len() ==> area_covers_point(area, #[trigger] points[i])
}

/// Each polygon of `polys` is well formed.
pub open spec fn all_valid(polys: Seq<PolygonView>) -> bool {
    forall|i: int| 0 <= i < polys.len() ==> valid_polygon(#[trigger] polys[i])
}

/// The decision on a carving, from what the polygon algorithms found: whether
/// the proposed polygons are well formed, whether their union lies within the
/// parent's area, how many polygons their overlap with the surface already
/// handed out has, and how many the parent's remainder would have.
pub open spec fn decide(valid: bool, inside: bool, overlap_parts: nat, residual_parts: nat) -> Result<(), TerritoryError> {
    if !valid {
        Err(TerritoryError::MalformedGeometry)
    } else if !inside || overlap_parts != 0 {
        Err(TerritoryError::OutOfBounds)
    } else if residual_parts == 0 {
        Err(TerritoryError::NoResidualArea)
    } else {
        Ok(())
    }
}

/// What carving `polys` out of a division with area `area` whose subdivision
/// subtrees cover `held` yields: refused when a polygon is malformed, when the
/// polygons leave the area or share surface with `held`, or when nothing of the
/// area would remain outside `held` and the polygons.
pub open spec fn carve_outcome(
    area: Seq<PolygonView>,
    held: Seq<PolygonView>,
    polys: Seq<PolygonView>,
) -> Result<(), TerritoryError> {
    decide(
        all_valid(polys),
        within(area, polys),
        intersection_part_count(oriented(polys), oriented(held)),
        difference_part_count(oriented(area), oriented(held + polys)),
    )
}

/// `child` is a freshly carved subdivision of `parent` named `name` over `area`:
/// it has the parent's owner, points back to the parent and has no children.
pub open spec fn carved_child(parent: Division, child: Division, name: Seq<char>, area: Seq<PolygonView>) -> bool {
    &&& child.id == 0
    &&& child.name@ == name
    &&& child.parent == Some(parent.id)
    &&& child.owner == parent.owner
    &&& shapes(child.area@) == area
    &&& child.subdivisions@.len() == 0
    &&& child.required_positions@.len() == 0
}

/// `after` is `before` with one more subdivision, `child`, appended; nothing
/// else of `before` changed (its own area included).
pub open spec fn with_subdivision(before: Division, after: Division, child: Division) -> bool {
    &&& after.id == before.id
    &&& after.name == before.name
    &&& after.parent == before.parent
    &&& after.owner == before.owner
    &&& after.area == before.area
    &&& after.required_positions == before.required_positions
    &&& after.subdivisions@ == before.subdivisions@.push(child)
}

/// `after` is what a successful carving of `area` named `name` makes of `before`.
pub open spec fn subdivided(before: Division, after: Division, name: Seq<char>, area: Seq<PolygonView>) -> bool {
    &&& after.subdivisions@.len() == before.subdivisions@.len() + 1
    &&& with_subdivision(before, after, after.subdivisions@.last())
    &&& carved_child(before, after.subdivisions@.last(), name, area)
}

impl Division {
    pub fn new(
        id: u64,
        name: String,
        parent: Option<u64>,
        owner: Option<u64>,
        area: Vec<Polygon>,
    ) -> (r: Division)
        ensures
            r.id == id,
            r.name == name,
            r.parent == parent,
            r.owner == owner,
            r.area == area,
            r.subdivisions@.len() == 0,
            r.required_positions@.len() == 0,
    {
        Division {
            id,
            name,
            parent,
            owner,
            area,
            subdivisions: Vec::new(),
            required_positions: Vec::new(),
        }
    }

    /// The whole surface of this subtree: this division's polygons and, after
    /// them, those of every descendant, each visited once. The surface is the
    /// union of the polygons returned.
    pub fn join_all(&self) -> (r: Vec<Polygon>)
        ensures
            shapes(r@) == joined(*self),
        decreases *self, 1int,
    {
        let mut out = copy_area(&self.area);
        let mut rest = self.subdivided_area();
        let ghost own = out@;
        let ghost below = rest@;
        out.append(&mut rest);
        assert(shapes(out@) =~= shapes(own) + shapes(below));
        out
    }

    /// The surface of the subdivisions' subtrees, one subtree after another.
    pub fn subdivided_area(&self) -> (r: Vec<Polygon>)
        ensures
            shapes(r@) == joined_each(self.subdivisions@),
        decreases *self, 0int,
    {
        let mut out: Vec<Polygon> = Vec::new();
        let mut i: usize = 0;
        while i < self.subdivisions.len()
            invariant
                i <= self.subdivisions.len(),
                shapes(out@) == joined_each(self.subdivisions@.subrange(0, i as int)),
            decreases self.subdivisions.len() - i,
        {
            assert(decreases_to!(*self => self.subdivisions@[i as int]));
            let mut part = self.subdivisions[i].join_all();
            let ghost before = out@;
            let ghost added = part@;
            out.append(&mut part);
            proof {
                let s = self.subdivisions@.subrange(0, i + 1);
                assert(s.drop_last() =~= self.subdivisions@.subrange(0, i as int));
                assert(shapes(out@) =~= shapes(before) + shapes(added));
            }
            i += 1;
        }
        assert(self.subdivisions@.subrange(0, self.subdivisions@.len() as int) =~= self.subdivisions@);
        out
    }

    /// Appends `subdivision` as a child; it takes this division's owner.
    pub fn add_subdivision(&mut self, subdivision: Division)
        ensures
            with_subdivision(*old(self), *final(self), (Division { owner: old(self).owner, ..subdivision })),
    {
        let mut subdivision = subdivision;
        subdivision.owner = self.owner;
        self.subdivisions.push(subdivision);
    }

    /// Whether `point` lies in this division's own area or on its boundary.
    pub fn in_division(&self, point: &Point) -> (r: bool)
        ensures
            r == area_covers_point(shapes(self.area@), *point),
    {
        covers_point(&self.area, point)
    }

    /// Whether the union of `polys` lies within this division's own area.
    fn encloses(&self, polys: &Vec<Polygon>) -> (r: bool)
        ensures
            r == within(shapes(self.area@), shapes(polys@)),
    {
        let inner = oriented_area(polys);
        let outer = oriented_area(&self.area);
        difference_size(&inner, &outer) == 0
    }

    /// Whether `polygon` lies within this division's own area.
    pub fn in_division_poly(&self, polygon: &Polygon) -> (r: bool)
        ensures
            r == within(shapes(self.area@), seq![polygon@]),
    {
        let mut one: Vec<Polygon> = Vec::new();
        one.push(polygon.duplicate());
        assert(shapes(one@) =~= seq![polygon@]);
        self.encloses(&one)
    }

    /// The area made of `polys`, if each of them lies within this division.
    pub fn create_area(&self, polys: &Vec<Polygon>) -> (r: Result<Vec<Polygon>, TerritoryError>)
        ensures
            match r {
                Ok(a) => all_within(shapes(self.area@), shapes(polys@)) && shapes(a@) == shapes(polys@),
                Err(e) => !all_within(shapes(self.area@), shapes(polys@)) && e == TerritoryError::OutOfBounds,
            },
    {
        let mut i: usize = 0;
        while i < polys.len()
            invariant
                i <= polys.len(),
                forall|k: int| 0 <= k < i ==> within(shapes(self.area@), seq![#[trigger] shapes(polys@)[k]]),
            decreases polys.len() - i,
        {
            if !self.in_division_poly(&polys[i]) {
                assert(shapes(polys@)[i as int] == polys@[i as int]@);
                return Err(TerritoryError::OutOfBounds);
            }
            i += 1;
        }
        Ok(copy_area(polys))
    }

    /// The one-polygon area outlined by `points`, if each point and the polygon
    /// itself lie within this division (boundary included, as for polygons).
    pub fn create_area_with_points(&self, points: &Vec<Point>) -> (r: Result<Vec<Polygon>, TerritoryError>)
        ensures
            match r {
                Ok(a) => {
                    &&& all_points_within(shapes(self.area@), points@)
                    &&& a@.len() == 1
                    &&& a@[0]@.exterior == points@
                    &&& a@[0]@.interiors.len() == 0
                    &&& within(shapes(self.area@), seq![a@[0]@])
                },
                Err(e) => e == TerritoryError::OutOfBounds && (!all_points_within(shapes(self.area@), points@)
                    || !within(shapes(self.area@), seq![(PolygonView { exterior: points@, interiors: Seq::empty() })])),
            },
    {
        let mut i: usize = 0;
        while i < points.len()
            invariant
                i <= points.len(),
                forall|k: int| 0 <= k < i ==> area_covers_point(shapes(self.area@), #[trigger] points@[k]),
            decreases points.len() - i,
        {
            if !self.in_division(&points[i]) {
                return Err(TerritoryError::OutOfBounds);
            }
            i += 1;
        }
        let mut ring: Vec<Point> = Vec::new();
        let mut j: usize = 0;
        while j < points.len()
            invariant
                j <= points.len(),
                ring@ == points@.subrange(0, j as int),
            decreases points.len() - j,
        {
            ring.push(points[j]);
            j += 1;
        }
        assert(ring@ =~= points@);
        let polygon = Polygon::new(ring);
        assert(polygon@.interiors =~= Seq::<Seq<Point>>::empty());
        assert(polygon@ == PolygonView { exterior: points@, interiors: Seq::empty() });
        if !self.in_division_poly(&polygon) {
            return Err(TerritoryError::OutOfBounds);
        }
        let mut area: Vec<Polygon> = Vec::new();
        area.push(polygon);
        Ok(area)
    }

    /// Carves a new subdivision named `name` over `polys` out of the part of
    /// this division not yet handed to a subdivision.
    ///
    /// Each polygon must be well formed (else `MalformedGeometry`); the union
    /// of `polys` must lie within this division's area and share no surface
    /// with the subtrees of the existing subdivisions (else `OutOfBounds`); and
    /// some of the area must remain outside those subtrees and `polys` (else
    /// `NoResidualArea`). On success the child, with id 0, this division as
    /// parent and this division's owner, is appended to `subdivisions` and its
    /// index returned. This division's own `area` is left as it was: it keeps
    /// its whole allocation, and `join_all` gives the surface of the subtree.
    pub fn create_subdivision(&mut self, name: String, polys: Vec<Polygon>) -> (r: Result<usize, TerritoryError>)
        ensures
            r is Ok <==> carve_outcome(shapes(old(self).area@), joined_each(old(self).subdivisions@), shapes(polys@)) is Ok,
            match r {
                Ok(i) => i == old(self).subdivisions@.len()
                    && subdivided(*old(self), *final(self), name@, shapes(polys@)),
                Err(e) => *final(self) == *old(self)
                    && Err::<(), TerritoryError>(e) == carve_outcome(
                        shapes(old(self).area@),
                        joined_each(old(self).subdivisions@),
                        shapes(polys@),
                    ),
            },
            old(self).subdivisions@.len() == 0 && shapes(polys@) == shapes(old(self).area@)
                && all_valid(shapes(polys@))
                ==> r == Err::<usize, TerritoryError>(TerritoryError::NoResidualArea),
    {
        let mut k: usize = 0;
        while k < polys.len()
            invariant
                k <= polys.len(),
                forall|j: int| 0 <= j < k ==> valid_polygon(#[trigger] shapes(polys@)[j]),
            decreases polys.len() - k,
        {
            if !is_valid_polygon(&polys[k]) {
                assert(shapes(polys@)[k as int] == polys@[k as int]@);
                return Err(TerritoryError::MalformedGeometry);
            }
            k += 1;
        }
        let inside = self.encloses(&polys);
        let mut claimed = self.subdivided_area();
        let fresh = oriented_area(&polys);
        let held = oriented_area(&claimed);
        assert(shapes(claimed@).len() == claimed@.len());
        let overlap = intersection_size(&fresh, &held);
        let mut added = copy_area(&polys);
        let ghost taken = claimed@;
        let ghost extra = added@;
        claimed.append(&mut added);
        assert(shapes(claimed@) =~= shapes(taken) + shapes(extra));
        let outer = oriented_area(&self.area);
        let covered = oriented_area(&claimed);
        proof {
            if old(self).subdivisions@.len() == 0 {
                assert(shapes(held@).len() == held@.len());
                assert(shapes(taken) =~= Seq::<PolygonView>::empty());
                assert(shapes(claimed@) =~= shapes(polys@));
            }
        }
        let residual = difference_size(&outer, &covered);
        match carve_decision(true, inside, overlap, residual) {
            Err(e) => Err(e),
            Ok(()) => {
                let index = self.subdivisions.len();
                let child = Division::new(0, name, Some(self.id), self.owner, polys);
                self.add_subdivision(child);
                Ok(index)
            },
        }
    }
}

/// The decision on a carving from what the polygon algorithms found; see
/// `decide`.
pub fn carve_decision(valid: bool, inside: bool, overlap_parts: usize, residual_parts: usize) -> (r: Result<(), TerritoryError>)
    ensures
        r == decide(valid, inside, overlap_parts as nat, residual_parts as nat),
{
    if !valid {
        Err(TerritoryError::MalformedGeometry)
    } else if !inside || overlap_parts != 0 {
        Err(TerritoryError::OutOfBounds)
    } else if residual_parts == 0 {
        Err(TerritoryError::NoResidualArea)
    } else {
        Ok(())
    }
}

/// Carving conserves surface: after a successful `create_subdivision`, the
/// surface of the subtree is the surface before it followed by the new child's
/// polygons, whose union lay within the division's own area and shared no
/// surface with the existing subdivisions' subtrees. No surface is created that
/// the division did not already cover, and none is handed out twice.
pub proof fn lemma_subdivision_conserves_area(
    before: Division,
    after: Division,
    name: Seq<char>,
    polys: Seq<PolygonView>,
)
    requires
        carve_outcome(shapes(before.area@), joined_each(before.subdivisions@), polys) is Ok,
        subdivided(before, after, name, polys),
    ensures
        joined(after) == joined(before) + polys,
        within(shapes(before.area@), polys),
        intersection_part_count(oriented(polys), oriented(joined_each(before.subdivisions@))) == 0,
        shapes(before.area@) == joined(before).subrange(0, shapes(before.area@).len() as int),
{
    let c = after.subdivisions@.last();
    assert(after.subdivisions@.drop_last() =~= before.subdivisions@);
    assert(joined_each(c.subdivisions@) =~= Seq::empty());
    assert(joined(c) =~= polys);
    assert(joined(after) =~= joined(before) + polys);
    assert(shapes(before.area@) =~= joined(before).subrange(0, shapes(before.area@).len() as int));
}

} // verus!
