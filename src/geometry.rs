use vstd::prelude::*;
use geo::algorithm::bool_ops::FillRule;
use geo::{BooleanOps, Intersects, Validation, Winding};

verus! {

/// A position on the planar map, in integer grid units.
///
/// The caller picks the unit (for instance a ten-millionth of a degree); the
/// library only compares and hands coordinates to the polygon algorithms.
#[derive(Clone, Copy, Debug, PartialEq, Eq, Structural)]
pub struct Point {
    pub x: i32,
    pub y: i32,
}

/// A simple polygon: one outer ring and any number of holes.
///
/// Rings need not repeat their first point at the end; the polygon algorithms
/// close them.
pub struct Polygon {
    pub exterior: Vec<Point>,
    pub interiors: Vec<Vec<Point>>,
}

/// The mathematical content of a `Polygon`: its rings as sequences of points.
pub struct PolygonView {
    pub exterior: Seq<Point>,
    pub interiors: Seq<Seq<Point>>,
}

impl View for Polygon {
    type V = PolygonView;

    open spec fn view(&self) -> PolygonView {
        PolygonView {
            exterior: self.exterior@,
            interiors: self.interiors@.map_values(|r: Vec<Point>| r@),
        }
    }
}

/// An area is the union of its polygons, which may overlap; this is the
/// sequence of their views.
pub open spec fn shapes(area: Seq<Polygon>) -> Seq<PolygonView> {
    area.map_values(|p: Polygon| p@)
}

/// Whether the polygon algorithms find the closed ring `r` wound counter-clockwise.
pub uninterp spec fn ccw_ring(r: Seq<Point>) -> bool;

/// Whether the polygon algorithms judge `poly` well formed (closed, simple,
/// non-degenerate rings, holes inside the outer ring).
pub uninterp spec fn valid_polygon(poly: PolygonView) -> bool;

/// Whether `p` lies in `area` or on its boundary, as the polygon algorithms judge it.
pub uninterp spec fn area_covers_point(area: Seq<PolygonView>, p: Point) -> bool;

/// How many polygons the intersection of `a` and `b` consists of.
pub uninterp spec fn intersection_part_count(a: Seq<PolygonView>, b: Seq<PolygonView>) -> nat;

/// How many polygons the set difference `a` minus `b` consists of.
pub uninterp spec fn difference_part_count(a: Seq<PolygonView>, b: Seq<PolygonView>) -> nat;

/// `r` wound counter-clockwise when `ccw`, clockwise otherwise (a ring with no
/// winding is only reversed, which leaves its surface empty).
pub open spec fn orient_ring(r: Seq<Point>, ccw: bool) -> Seq<Point> {
    if ccw_ring(r) == ccw {
        r
    } else {
        r.reverse()
    }
}

/// `p` with its outer ring counter-clockwise and its holes clockwise, so that
/// a non-zero winding count marks exactly the surface of a union of polygons.
pub open spec fn orient_polygon(p: PolygonView) -> PolygonView {
    PolygonView {
        exterior: orient_ring(p.exterior, true),
        interiors: p.interiors.map_values(|r: Seq<Point>| orient_ring(r, false)),
    }
}

/// Every polygon of `area` oriented.
pub open spec fn oriented(area: Seq<PolygonView>) -> Seq<PolygonView> {
    area.map_values(|p: PolygonView| orient_polygon(p))
}

fn copy_ring(r: &Vec<Point>) -> (out: Vec<Point>)
    ensures
        out@ == r@,
{
    let mut out: Vec<Point> = Vec::new();
    let mut i: usize = 0;
    while i < r.len()
        invariant
            i <= r.len(),
            out@ == r@.subrange(0, i as int),
        decreases r.len() - i,
    {
        out.push(r[i]);
        i += 1;
    }
    assert(out@ =~= r@);
    out
}

impl Polygon {
    /// A polygon without holes.
    pub fn new(exterior: Vec<Point>) -> (r: Polygon)
        ensures
            r@.exterior == exterior@,
            r@.interiors.len() == 0,
    {
        let r = Polygon { exterior, interiors: Vec::new() };
        assert(r@.interiors =~= Seq::<Seq<Point>>::empty());
        r
    }

    /// An independent copy with the same rings.
    pub fn duplicate(&self) -> (r: Polygon)
        ensures
            r@ == self@,
    {
        let mut interiors: Vec<Vec<Point>> = Vec::new();
        let mut i: usize = 0;
        while i < self.interiors.len()
            invariant
                i <= self.interiors.len(),
                interiors@.len() == i,
                forall|k: int| 0 <= k < i ==> #[trigger] interiors@[k]@ == self.interiors@[k]@,
            decreases self.interiors.len() - i,
        {
            interiors.push(copy_ring(&self.interiors[i]));
            i += 1;
        }
        let r = Polygon { exterior: copy_ring(&self.exterior), interiors };
        assert(r@.interiors =~= self@.interiors);
        r
    }
}

/// An independent copy of an area, polygon by polygon.
pub fn copy_area(area: &Vec<Polygon>) -> (out: Vec<Polygon>)
    ensures
        shapes(out@) == shapes(area@),
{
    let mut out: Vec<Polygon> = Vec::new();
    let mut i: usize = 0;
    while i < area.len()
        invariant
            i <= area.len(),
            out@.len() == i,
            forall|k: int| 0 <= k < i ==> #[trigger] out@[k]@ == area@[k]@,
        decreases area.len() - i,
    {
        out.push(area[i].duplicate());
        i += 1;
    }
    assert(shapes(out@) =~= shapes(area@));
    out
}

fn reversed_ring(r: &Vec<Point>) -> (out: Vec<Point>)
    ensures
        out@ == r@.reverse(),
{
    let mut out: Vec<Point> = Vec::new();
    let mut i: usize = r.len();
    while i > 0
        invariant
            i <= r.len(),
            out@.len() == r.len() - i,
            forall|k: int| 0 <= k < out@.len() ==> #[trigger] out@[k] == r@[r.len() - 1 - k],
        decreases i,
    {
        i -= 1;
        out.push(r[i]);
    }
    assert(out@ =~= r@.reverse());
    out
}

fn oriented_ring(r: &Vec<Point>, ccw: bool) -> (out: Vec<Point>)
    ensures
        out@ == orient_ring(r@, ccw),
{
    if is_ccw(r) == ccw {
        copy_ring(r)
    } else {
        reversed_ring(r)
    }
}

/// A copy of `p` with its outer ring counter-clockwise and its holes clockwise.
pub fn oriented_polygon(p: &Polygon) -> (r: Polygon)
    ensures
        r@ == orient_polygon(p@),
{
    let mut interiors: Vec<Vec<Point>> = Vec::new();
    let mut i: usize = 0;
    while i < p.interiors.len()
        invariant
            i <= p.interiors.len(),
            interiors@.len() == i,
            forall|k: int| 0 <= k < i ==> #[trigger] interiors@[k]@ == orient_ring(p.interiors@[k]@, false),
        decreases p.interiors.len() - i,
    {
        interiors.push(oriented_ring(&p.interiors[i], false));
        i += 1;
    }
    let r = Polygon { exterior: oriented_ring(&p.exterior, true), interiors };
    assert(r@.interiors =~= orient_polygon(p@).interiors);
    r
}

/// A copy of `area` with every polygon oriented.
pub fn oriented_area(area: &Vec<Polygon>) -> (out: Vec<Polygon>)
    ensures
        shapes(out@) == oriented(shapes(area@)),
{
    let mut out: Vec<Polygon> = Vec::new();
    let mut i: usize = 0;
    while i < area.len()
        invariant
            i <= area.len(),
            out@.len() == i,
            forall|k: int| 0 <= k < i ==> #[trigger] out@[k]@ == orient_polygon(area@[k]@),
        decreases area.len() - i,
    {
        out.push(oriented_polygon(&area[i]));
        i += 1;
    }
    assert(shapes(out@) =~= oriented(shapes(area@)));
    out
}

/// Relies on geo's `Winding::is_ccw` on the closed ring: whether `r` is wound
/// counter-clockwise.
#[verifier::external_body]
fn is_ccw(r: &Vec<Point>) -> (b: bool)
    ensures
        b == ccw_ring(r@),
{
    let coords = r.iter().map(|p| geo::Coord { x: p.x.into(), y: p.y.into() }).collect();
    let shape: geo::Polygon = geo::Polygon::new(geo::LineString::new(coords), vec![]);
    shape.exterior().is_ccw()
}

/// Relies on geo's `Validation::is_valid` for `Polygon`: whether `poly` is
/// well formed.
#[verifier::external_body]
pub(crate) fn is_valid_polygon(poly: &Polygon) -> (r: bool)
    ensures
        r == valid_polygon(poly@),
{
    let ring = |r: &Vec<Point>| -> geo::LineString {
        geo::LineString::new(r.iter().map(|p| geo::Coord { x: p.x.into(), y: p.y.into() }).collect())
    };
    let shape = geo::Polygon::new(ring(&poly.exterior), poly.interiors.iter().map(ring).collect());
    shape.is_valid()
}

/// Relies on geo's `Intersects<Coord>` for `MultiPolygon`: whether some
/// polygon of `area` holds `p` inside or on its boundary (so never for an
/// empty area).
#[verifier::external_body]
pub(crate) fn covers_point(area: &Vec<Polygon>, p: &Point) -> (r: bool)
    ensures
        r == area_covers_point(shapes(area@), *p),
        area@.len() == 0 ==> !r,
{
    let ring = |r: &Vec<Point>| -> geo::LineString {
        geo::LineString::new(r.iter().map(|p| geo::Coord { x: p.x.into(), y: p.y.into() }).collect())
    };
    let shape = |p: &Polygon| geo::Polygon::new(ring(&p.exterior), p.interiors.iter().map(ring).collect());
    let set: geo::MultiPolygon = area.iter().map(shape).collect();
    set.intersects(&geo::Coord { x: p.x.into(), y: p.y.into() })
}

/// Relies on geo's `BooleanOps::difference_with_fill_rule` under the non-zero
/// rule: the number of polygons in the regions of `a` that are not in `b`
/// (none when `b` is `a` itself).
#[verifier::external_body]
pub(crate) fn difference_size(a: &Vec<Polygon>, b: &Vec<Polygon>) -> (r: usize)
    ensures
        r == difference_part_count(shapes(a@), shapes(b@)),
        shapes(a@) == shapes(b@) ==> r == 0,
{
    let ring = |r: &Vec<Point>| -> geo::LineString {
        geo::LineString::new(r.iter().map(|p| geo::Coord { x: p.x.into(), y: p.y.into() }).collect())
    };
    let shape = |p: &Polygon| geo::Polygon::new(ring(&p.exterior), p.interiors.iter().map(ring).collect());
    let left: geo::MultiPolygon = a.iter().map(shape).collect();
    let right: geo::MultiPolygon = b.iter().map(shape).collect();
    left.difference_with_fill_rule(&right, FillRule::NonZero).0.len()
}

/// Relies on geo's `BooleanOps::intersection_with_fill_rule` under the
/// non-zero rule: the number of polygons in the regions shared by `a` and `b`
/// (none when `b` is empty).
#[verifier::external_body]
pub(crate) fn intersection_size(a: &Vec<Polygon>, b: &Vec<Polygon>) -> (r: usize)
    ensures
        r == intersection_part_count(shapes(a@), shapes(b@)),
        b@.len() == 0 ==> r == 0,
{
    let ring = |r: &Vec<Point>| -> geo::LineString {
        geo::LineString::new(r.iter().map(|p| geo::Coord { x: p.x.into(), y: p.y.into() }).collect())
    };
    let shape = |p: &Polygon| geo::Polygon::new(ring(&p.exterior), p.interiors.iter().map(ring).collect());
    let left: geo::MultiPolygon = a.iter().map(shape).collect();
    let right: geo::MultiPolygon = b.iter().map(shape).collect();
    left.intersection_with_fill_rule(&right, FillRule::NonZero).0.len()
}

} // verus!
