use vstd::prelude::*;
use crate::geometry::{area_covers_point, covers_point, shapes, Point, Polygon};
use crate::government::Government;

verus! {

/// The planet: its water mask and the governments that share its land.
pub struct World {
    /// Seas and other uninhabitable surface; land is everything outside it.
    pub water: Vec<Polygon>,
    pub governments: Vec<Government>,
}

/// Whether `p` is on land under the water mask `water`: neither in it nor on its shore.
pub open spec fn is_land(water: Seq<Polygon>, p: Point) -> bool {
    !area_covers_point(shapes(water), p)
}

impl World {
    /// A world with no water and no governments.
    pub fn new() -> (r: World)
        ensures
            r.water@.len() == 0,
            r.governments@.len() == 0,
    {
        World { water: Vec::new(), governments: Vec::new() }
    }

    /// Replaces the water mask.
    pub fn add_water_layer(&mut self, water: Vec<Polygon>)
        ensures
            final(self).water == water,
            final(self).governments == old(self).governments,
    {
        self.water = water;
    }

    /// Whether `point` is on land: outside the water mask and off its shore.
    pub fn on_land(&self, point: &Point) -> (r: bool)
        ensures
            r == is_land(self.water@, *point),
            self.water@.len() == 0 ==> r,
    {
        !covers_point(&self.water, point)
    }

    /// `on_land` for each point, in order.
    pub fn on_land_bulk(&self, points: &Vec<Point>) -> (r: Vec<bool>)
        ensures
            r@.len() == points@.len(),
            forall|i: int| 0 <= i < points@.len() ==> r@[i] == is_land(self.water@, #[trigger] points@[i]),
    {
        let mut results: Vec<bool> = Vec::new();
        let mut i: usize = 0;
        while i < points.len()
            invariant
                i <= points.len(),
                results@.len() == i,
                forall|k: int| 0 <= k < i ==> results@[k] == is_land(self.water@, #[trigger] points@[k]),
            decreases points.len() - i,
        {
            results.push(self.on_land(&points[i]));
            i += 1;
        }
        results
    }
}

} // verus!
