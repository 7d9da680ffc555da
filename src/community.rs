use vstd::prelude::*;
use crate::division::Division;
use crate::geometry::Point;

verus! {

/// A group of people living in one place, possibly within a division.
pub struct Community {
    name: String,
    division: Option<Box<Division>>,
    centerpoint: Point,
    /// Outline for display only.
    boundaries: Vec<Point>,
    population: u32,
}

impl Community {
    /// A community with no population yet.
    pub fn new(name: String, division: Option<Box<Division>>, centerpoint: Point, boundaries: Vec<Point>) -> (r: Community)
        ensures
            r.spec_name() == name,
            r.spec_division() == division,
            r.spec_centerpoint() == centerpoint,
            r.spec_boundaries() == boundaries,
            r.spec_population() == 0,
    {
        Community { name, division, centerpoint, boundaries, population: 0 }
    }

    pub closed spec fn spec_name(&self) -> String {
        self.name
    }

    pub closed spec fn spec_division(&self) -> Option<Box<Division>> {
        self.division
    }

    pub closed spec fn spec_centerpoint(&self) -> Point {
        self.centerpoint
    }

    pub closed spec fn spec_boundaries(&self) -> Vec<Point> {
        self.boundaries
    }

    pub closed spec fn spec_population(&self) -> u32 {
        self.population
    }

    pub fn get_name(&self) -> (r: &String)
        ensures
            *r == self.spec_name(),
    {
        &self.name
    }

    pub fn get_division(&self) -> (r: &Option<Box<Division>>)
        ensures
            *r == self.spec_division(),
    {
        &self.division
    }

    pub fn get_centerpoint(&self) -> (r: &Point)
        ensures
            *r == self.spec_centerpoint(),
    {
        &self.centerpoint
    }

    pub fn get_boundaries(&self) -> (r: &Vec<Point>)
        ensures
            *r == self.spec_boundaries(),
    {
        &self.boundaries
    }

    pub fn get_population(&self) -> (r: &u32)
        ensures
            *r == self.spec_population(),
    {
        &self.population
    }
}

} // verus!
