use dominion::division::{carve_decision, Division, TerritoryError};
use dominion::geometry::{Point, Polygon};
use dominion::government::Government;
use dominion::world::World;
use geo::{Area, BooleanOps};

fn rect(x0: i32, y0: i32, x1: i32, y1: i32) -> Polygon {
    Polygon::new(vec![
        Point { x: x0, y: y0 },
        Point { x: x1, y: y0 },
        Point { x: x1, y: y1 },
        Point { x: x0, y: y1 },
    ])
}

fn to_geo(area: &[Polygon]) -> geo::MultiPolygon<f64> {
    let ring = |r: &Vec<Point>| {
        geo::LineString::new(r.iter().map(|p| geo::Coord { x: p.x as f64, y: p.y as f64 }).collect())
    };
    geo::MultiPolygon::new(
        area.iter().map(|p| geo::Polygon::new(ring(&p.exterior), p.interiors.iter().map(ring).collect())).collect(),
    )
}

/// Surface of the union of the polygons, overlaps counted once.
fn union_area(area: &[Polygon]) -> f64 {
    let mut acc = geo::MultiPolygon::<f64>::new(vec![]);
    for p in area {
        acc = acc.union(&to_geo(std::slice::from_ref(p)));
    }
    acc.unsigned_area()
}

fn outline(area: &[Polygon]) -> Vec<Vec<(i32, i32)>> {
    area.iter().map(|p| p.exterior.iter().map(|q| (q.x, q.y)).collect()).collect()
}

fn square_root(id: u64, owner: u64) -> Division {
    Division::new(id, "R".to_string(), None, Some(owner), vec![rect(0, 0, 10, 10)])
}

#[test]
fn concrete_scenario_two_north_halves() {
    let mut world = World::new();
    world.add_water_layer(vec![rect(0, 0, 10, 10)]);
    let mut gov_a = Government::new(1);
    gov_a.add_territory(square_root(1, 1));
    world.governments.push(gov_a);

    let root = world.governments[0].territories.get_mut(&1).unwrap();
    let first = root.create_subdivision("North".to_string(), vec![rect(0, 5, 10, 10)]);
    assert_eq!(first, Ok(0));
    assert_eq!(outline(&root.subdivisions[0].area), outline(&[rect(0, 5, 10, 10)]));
    assert_eq!(root.subdivisions[0].name, "North");
    assert_eq!(root.subdivisions[0].owner, Some(1));
    assert_eq!(root.subdivisions[0].parent, Some(1));
    assert!((union_area(&root.join_all()) - 100.0).abs() < 1e-9);

    let second = root.create_subdivision("North2".to_string(), vec![rect(0, 5, 10, 10)]);
    assert_eq!(second, Err(TerritoryError::OutOfBounds));
    assert_eq!(root.subdivisions.len(), 1);
    assert_eq!(outline(&root.area), outline(&[rect(0, 0, 10, 10)]));
}

#[test]
fn area_conservation_across_carvings() {
    let mut root = square_root(1, 1);
    let before = union_area(&root.join_all());
    assert_eq!(root.create_subdivision("West".to_string(), vec![rect(0, 0, 4, 10)]), Ok(0));
    let after_one = root.join_all();
    assert!((union_area(&after_one) - before).abs() < 1e-9 * before);
    assert_eq!(outline(&after_one), outline(&[rect(0, 0, 10, 10), rect(0, 0, 4, 10)]));
    assert_eq!(root.create_subdivision("East".to_string(), vec![rect(6, 0, 10, 10)]), Ok(1));
    assert!((union_area(&root.join_all()) - before).abs() < 1e-9 * before);
    assert!((before - 100.0).abs() < 1e-9);
}

#[test]
fn nested_carving_keeps_whole_surface() {
    let mut root = square_root(1, 7);
    assert_eq!(root.create_subdivision("South".to_string(), vec![rect(0, 0, 10, 5)]), Ok(0));
    let county = root.subdivisions[0].create_subdivision("County".to_string(), vec![rect(0, 0, 5, 5)]);
    assert_eq!(county, Ok(0));
    assert_eq!(root.subdivisions[0].subdivisions[0].owner, Some(7));
    let joined = root.join_all();
    assert_eq!(joined.len(), 3);
    assert_eq!(outline(&joined), outline(&[rect(0, 0, 10, 10), rect(0, 0, 10, 5), rect(0, 0, 5, 5)]));
    assert!((union_area(&joined) - 100.0).abs() < 1e-9);
}

#[test]
fn containment_rejection_leaves_parent_unchanged() {
    let mut root = square_root(1, 1);
    let r = root.create_subdivision("Beyond".to_string(), vec![rect(5, 5, 15, 15)]);
    assert_eq!(r, Err(TerritoryError::OutOfBounds));
    assert!(root.subdivisions.is_empty());
    let r = root.create_subdivision("Mixed".to_string(), vec![rect(1, 1, 2, 2), rect(-3, 0, -1, 2)]);
    assert_eq!(r, Err(TerritoryError::OutOfBounds));
    assert!(root.subdivisions.is_empty());
}

#[test]
fn overlap_with_existing_subdivision_is_out_of_bounds() {
    let mut root = square_root(1, 1);
    assert_eq!(root.create_subdivision("West".to_string(), vec![rect(0, 0, 5, 10)]), Ok(0));
    let r = root.create_subdivision("Middle".to_string(), vec![rect(4, 0, 6, 10)]);
    assert_eq!(r, Err(TerritoryError::OutOfBounds));
    assert_eq!(root.subdivisions.len(), 1);
}

#[test]
fn no_residual_rejection_whole_area() {
    let mut root = square_root(1, 1);
    let r = root.create_subdivision("All".to_string(), vec![rect(0, 0, 10, 10)]);
    assert_eq!(r, Err(TerritoryError::NoResidualArea));
    assert!(root.subdivisions.is_empty());
}

#[test]
fn no_residual_rejection_last_remainder() {
    let mut root = square_root(1, 1);
    assert_eq!(root.create_subdivision("North".to_string(), vec![rect(0, 5, 10, 10)]), Ok(0));
    let r = root.create_subdivision("South".to_string(), vec![rect(0, 0, 10, 5)]);
    assert_eq!(r, Err(TerritoryError::NoResidualArea));
    assert_eq!(root.subdivisions.len(), 1);
}

#[test]
fn empty_carving_is_accepted_with_empty_child() {
    let mut root = square_root(1, 1);
    assert_eq!(root.create_subdivision("Nothing".to_string(), vec![]), Ok(0));
    assert!(root.subdivisions[0].area.is_empty());
}

#[test]
fn transfer_exclusivity_on_integration() {
    let mut gov_a = Government::new(1);
    let mut gov_b = Government::new(2);
    let mut root = square_root(1, 1);
    root.create_subdivision("North".to_string(), vec![rect(0, 5, 10, 10)]).unwrap();
    root.subdivisions[0].create_subdivision("Town".to_string(), vec![rect(1, 6, 2, 7)]).unwrap();
    gov_a.add_territory(root);

    assert_eq!(gov_b.integrate_territory(1, &mut gov_a), Ok(()));
    assert!(!gov_a.territories.contains_key(&1));
    let moved = &gov_b.territories[&1];
    assert_eq!(moved.owner, Some(2));
    assert_eq!(moved.name, "R");
    assert_eq!(moved.subdivisions.len(), 1);
    assert_eq!(moved.subdivisions[0].name, "North");
    assert_eq!(moved.subdivisions[0].owner, Some(1));
    assert_eq!(moved.subdivisions[0].subdivisions.len(), 1);
    assert_eq!(moved.subdivisions[0].subdivisions[0].name, "Town");
}

#[test]
fn integration_of_absent_territory_is_not_found() {
    let mut gov_a = Government::new(1);
    let mut gov_b = Government::new(2);
    gov_b.add_territory(square_root(5, 2));
    assert_eq!(gov_b.integrate_territory(9, &mut gov_a), Err(TerritoryError::NotFound));
    assert!(gov_a.territories.is_empty());
    assert_eq!(gov_b.territories.len(), 1);
}

#[test]
fn annex_collapse_to_single_area() {
    let mut gov_a = Government::new(1);
    let mut gov_b = Government::new(2);
    let mut root = square_root(3, 1);
    root.create_subdivision("West".to_string(), vec![rect(0, 0, 4, 10)]).unwrap();
    root.subdivisions[0].create_subdivision("Hamlet".to_string(), vec![rect(1, 1, 2, 2)]).unwrap();
    let before = root.join_all();
    gov_a.add_territory(root);

    assert_eq!(gov_b.annex_territory(3, &mut gov_a), Ok(()));
    assert!(!gov_a.territories.contains_key(&3));
    let annexed = &gov_b.territories[&3];
    assert!(annexed.subdivisions.is_empty());
    assert_eq!(annexed.id, 3);
    assert_eq!(annexed.name, "R Territory");
    assert_eq!(annexed.owner, Some(2));
    assert_eq!(annexed.parent, None);
    assert_eq!(outline(&annexed.area), outline(&before));
    assert_eq!(annexed.area.len(), 3);
    assert!((union_area(&annexed.area) - 100.0).abs() < 1e-9);
}

#[test]
fn annex_of_absent_territory_is_not_found() {
    let mut gov_a = Government::new(1);
    let mut gov_b = Government::new(2);
    gov_a.add_territory(square_root(4, 1));
    assert_eq!(gov_b.annex_territory(8, &mut gov_a), Err(TerritoryError::NotFound));
    assert_eq!(gov_a.territories.len(), 1);
    assert!(gov_b.territories.is_empty());
}

#[test]
fn add_territory_replaces_same_id() {
    let mut gov = Government::new(1);
    gov.add_territory(square_root(4, 1));
    gov.add_territory(Division::new(4, "Other".to_string(), None, None, vec![]));
    assert_eq!(gov.territories.len(), 1);
    assert_eq!(gov.territories[&4].name, "Other");
}

#[test]
fn remove_territory_leaves_id_absent() {
    let mut gov = Government::new(1);
    gov.add_territory(square_root(4, 1));
    assert!(gov.remove_territory(4));
    assert!(gov.territories.is_empty());
    assert!(gov.remove_territory(4));
}

#[test]
fn add_subdivision_takes_parent_owner() {
    let mut root = square_root(1, 5);
    root.add_subdivision(Division::new(2, "Child".to_string(), Some(1), Some(9), vec![]));
    assert_eq!(root.subdivisions.len(), 1);
    assert_eq!(root.subdivisions[0].owner, Some(5));
    assert_eq!(root.subdivisions[0].id, 2);
}

#[test]
fn in_division_point_and_polygon() {
    let root = square_root(1, 1);
    assert!(root.in_division(&Point { x: 3, y: 3 }));
    assert!(!root.in_division(&Point { x: 11, y: 3 }));
    assert!(root.in_division_poly(&rect(1, 1, 3, 3)));
    assert!(!root.in_division_poly(&rect(8, 8, 12, 12)));
}

#[test]
fn create_area_checks_every_polygon() {
    let root = square_root(1, 1);
    let ok = root.create_area(&vec![rect(1, 1, 2, 2), rect(3, 3, 4, 4)]).unwrap();
    assert_eq!(outline(&ok), outline(&[rect(1, 1, 2, 2), rect(3, 3, 4, 4)]));
    assert_eq!(root.create_area(&vec![rect(1, 1, 2, 2), rect(9, 9, 12, 12)]).err(), Some(TerritoryError::OutOfBounds));
}

#[test]
fn create_area_with_points_builds_one_polygon() {
    let root = square_root(1, 1);
    let pts = vec![Point { x: 1, y: 1 }, Point { x: 4, y: 1 }, Point { x: 4, y: 4 }];
    let area = root.create_area_with_points(&pts).unwrap();
    assert_eq!(area.len(), 1);
    assert_eq!(area[0].exterior, pts);
    let outside = vec![Point { x: 1, y: 1 }, Point { x: 14, y: 1 }, Point { x: 4, y: 4 }];
    assert_eq!(root.create_area_with_points(&outside).err(), Some(TerritoryError::OutOfBounds));
}

#[test]
fn on_land_is_outside_water() {
    let mut world = World::new();
    assert!(world.on_land(&Point { x: 5, y: 5 }));
    world.add_water_layer(vec![rect(0, 0, 10, 10)]);
    assert!(!world.on_land(&Point { x: 5, y: 5 }));
    assert!(world.on_land(&Point { x: 15, y: 5 }));
}

#[test]
fn on_land_bulk_keeps_order() {
    let mut world = World::new();
    world.add_water_layer(vec![rect(0, 0, 10, 10)]);
    let pts = vec![Point { x: 20, y: 20 }, Point { x: 1, y: 1 }, Point { x: -1, y: 1 }, Point { x: 9, y: 9 }];
    assert_eq!(world.on_land_bulk(&pts), vec![true, false, true, false]);
    assert_eq!(world.on_land_bulk(&vec![]), Vec::<bool>::new());
}

#[test]
fn polygon_with_hole_excludes_the_hole() {
    let mut ring = rect(0, 0, 10, 10);
    ring.interiors.push(vec![Point { x: 4, y: 4 }, Point { x: 6, y: 4 }, Point { x: 6, y: 6 }, Point { x: 4, y: 6 }]);
    let root = Division::new(1, "Ring".to_string(), None, None, vec![ring.duplicate()]);
    assert!(!root.in_division(&Point { x: 5, y: 5 }));
    assert!(root.in_division(&Point { x: 1, y: 1 }));
    assert_eq!(ring.duplicate().interiors, ring.interiors);
}

fn cw_rect(x0: i32, y0: i32, x1: i32, y1: i32) -> Polygon {
    Polygon::new(vec![
        Point { x: x0, y: y0 },
        Point { x: x0, y: y1 },
        Point { x: x1, y: y1 },
        Point { x: x1, y: y0 },
    ])
}

#[test]
fn polygon_listed_twice_cannot_be_carved_again() {
    let mut root = square_root(1, 1);
    assert_eq!(root.create_subdivision("West".to_string(), vec![rect(0, 0, 5, 10)]), Ok(0));
    let r = root.create_subdivision("X".to_string(), vec![rect(0, 0, 5, 10), rect(0, 0, 5, 10)]);
    assert_eq!(r, Err(TerritoryError::OutOfBounds));
    assert_eq!(root.subdivisions.len(), 1);
}

#[test]
fn overlap_with_a_subtree_below_an_empty_child_is_out_of_bounds() {
    let mut root = square_root(1, 1);
    let mut hollow = Division::new(2, "Hollow".to_string(), Some(1), None, vec![]);
    hollow.add_subdivision(Division::new(3, "Core".to_string(), Some(2), None, vec![rect(2, 2, 4, 4)]));
    root.add_subdivision(hollow);
    let r = root.create_subdivision("Over".to_string(), vec![rect(3, 3, 5, 5)]);
    assert_eq!(r, Err(TerritoryError::OutOfBounds));
    assert_eq!(root.create_subdivision("Beside".to_string(), vec![rect(6, 6, 8, 8)]), Ok(1));
}

#[test]
fn annexed_area_still_reads_as_union() {
    let mut gov_a = Government::new(1);
    let mut gov_b = Government::new(2);
    let mut root = square_root(3, 1);
    root.create_subdivision("North".to_string(), vec![rect(0, 5, 10, 10)]).unwrap();
    gov_a.add_territory(root);
    gov_b.annex_territory(3, &mut gov_a).unwrap();
    let annexed = gov_b.territories.get_mut(&3).unwrap();
    assert!(annexed.in_division(&Point { x: 5, y: 7 }));
    assert!(annexed.in_division_poly(&rect(1, 6, 3, 8)));
    assert_eq!(annexed.create_subdivision("South".to_string(), vec![rect(0, 0, 10, 5)]), Ok(0));
}

#[test]
fn clockwise_rings_read_like_counter_clockwise_ones() {
    let mut root = Division::new(1, "Mixed".to_string(), None, None, vec![cw_rect(0, 0, 10, 10), rect(0, 5, 10, 10)]);
    assert!(root.in_division_poly(&cw_rect(1, 6, 3, 8)));
    assert_eq!(root.create_subdivision("South".to_string(), vec![cw_rect(0, 0, 10, 5)]), Ok(0));
    assert_eq!(root.create_subdivision("North".to_string(), vec![rect(0, 5, 10, 10)]), Err(TerritoryError::NoResidualArea));
}

#[test]
fn self_intersecting_polygon_is_malformed() {
    let mut root = square_root(1, 1);
    let bow_tie = Polygon::new(vec![
        Point { x: 0, y: 0 },
        Point { x: 2, y: 2 },
        Point { x: 2, y: 0 },
        Point { x: 0, y: 2 },
    ]);
    assert_eq!(root.create_subdivision("Bow".to_string(), vec![bow_tie]), Err(TerritoryError::MalformedGeometry));
    let sliver = Polygon::new(vec![Point { x: 1, y: 1 }, Point { x: 2, y: 2 }]);
    assert_eq!(root.create_subdivision("Sliver".to_string(), vec![sliver]), Err(TerritoryError::MalformedGeometry));
    assert!(root.subdivisions.is_empty());
}

#[test]
fn boundary_points_count_as_inside() {
    let root = square_root(1, 1);
    assert!(root.in_division(&Point { x: 0, y: 5 }));
    assert!(root.in_division(&Point { x: 10, y: 10 }));
    let mut world = World::new();
    world.add_water_layer(vec![rect(0, 0, 10, 10)]);
    assert!(!world.on_land(&Point { x: 10, y: 3 }));
}

#[test]
fn carve_decision_orders_the_checks() {
    assert_eq!(carve_decision(false, false, 3, 0), Err(TerritoryError::MalformedGeometry));
    assert_eq!(carve_decision(true, false, 0, 2), Err(TerritoryError::OutOfBounds));
    assert_eq!(carve_decision(true, true, 1, 2), Err(TerritoryError::OutOfBounds));
    assert_eq!(carve_decision(true, true, 0, 0), Err(TerritoryError::NoResidualArea));
    assert_eq!(carve_decision(true, true, 0, 1), Ok(()));
}
