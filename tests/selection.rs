use tile_placer::{BuildingModel, CatalogError, FloorModel, ModelCursor, Orientation, PointType};

#[test]
fn advance_from_last_floor_entry_wraps_to_first() {
    let mut c = ModelCursor::Floor(9);
    c.advance(1);
    assert_eq!(c, ModelCursor::Floor(0));
}

#[test]
fn retreat_from_first_floor_entry_wraps_to_last() {
    let mut c = ModelCursor::Floor(0);
    c.retreat(1);
    assert_eq!(c, ModelCursor::Floor(9));
}

#[test]
fn advance_then_retreat_returns_inside_catalog() {
    for i in 0..10usize {
        for step in 0..(10 - i) {
            let mut c = ModelCursor::Floor(i);
            c.advance(step);
            c.retreat(step);
            assert_eq!(c, ModelCursor::Floor(i));
        }
    }
}

#[test]
fn advance_then_retreat_across_boundary_lands_on_last() {
    let mut c = ModelCursor::Floor(8);
    c.advance(5);
    assert_eq!(c, ModelCursor::Floor(0));
    c.retreat(5);
    assert_eq!(c, ModelCursor::Floor(9));

    let mut b = ModelCursor::Buildings(1);
    b.advance(1);
    assert_eq!(b, ModelCursor::Buildings(0));
    b.retreat(1);
    assert_eq!(b, ModelCursor::Buildings(1));
}

#[test]
fn retreat_then_advance_across_boundary_lands_on_first() {
    let mut c = ModelCursor::Floor(2);
    c.retreat(3);
    assert_eq!(c, ModelCursor::Floor(9));
    c.advance(3);
    assert_eq!(c, ModelCursor::Floor(0));
}

#[test]
fn large_step_resets_rather_than_taking_a_modulo() {
    let mut c = ModelCursor::Floor(5);
    c.advance(7);
    assert_eq!(c, ModelCursor::Floor(0));
    let mut d = ModelCursor::Floor(2);
    d.retreat(5);
    assert_eq!(d, ModelCursor::Floor(9));
}

#[test]
fn cursor_catalog_queries() {
    let f = ModelCursor::Floor(3);
    let b = ModelCursor::Buildings(1);
    assert!(f.is(ModelCursor::Floor(7)));
    assert!(!f.is(b));
    assert!(b.is(ModelCursor::Buildings(0)));
    assert_eq!(f.max(), 10);
    assert_eq!(b.max(), 2);
    assert_eq!(f.index(), 3);
    assert_eq!(b.index(), 1);
    assert_eq!(ModelCursor::default(), ModelCursor::Floor(0));
}

#[test]
fn cursor_set_keeps_catalog() {
    let mut b = ModelCursor::Buildings(0);
    b.set(1);
    assert_eq!(b, ModelCursor::Buildings(1));
}

#[test]
fn cursor_plus_and_minus_shift_without_wrapping() {
    assert_eq!(ModelCursor::Floor(2) + 3, ModelCursor::Floor(5));
    assert_eq!(ModelCursor::Buildings(1) - 1, ModelCursor::Buildings(0));
}

#[test]
fn cursor_resolves_reference_and_asset() {
    assert_eq!(ModelCursor::Floor(0).current_reference(), PointType::Concrete);
    assert_eq!(ModelCursor::Floor(9).current_reference(), PointType::RoadIntersectionWalkable);
    assert_eq!(ModelCursor::Buildings(1).current_reference(), PointType::Blgd02_01);
    assert_eq!(ModelCursor::Floor(1).meta().path, "./models/grass_flat.glb#Scene0");
    assert_eq!(ModelCursor::Buildings(0).meta().path, "./models/bldg/bldg_01_01.glb#Scene0");
}

#[test]
fn catalog_lengths_and_indices() {
    assert_eq!(FloorModel::len(), 10);
    assert_eq!(BuildingModel::len(), 2);
    assert_eq!(FloorModel::index(0), FloorModel::Concrete);
    assert_eq!(FloorModel::index(5), FloorModel::RoadEnd);
    assert_eq!(BuildingModel::index(1), BuildingModel::Blgd02_01);
    assert_eq!(FloorModel::RoadCorner.get_index(), 6);
    assert_eq!(BuildingModel::Blgd01_01.get_index(), 0);
}

#[test]
fn catalog_entry_out_of_range() {
    assert_eq!(FloorModel::entry(4), Ok(FloorModel::RoadStraightSideOpen));
    assert_eq!(FloorModel::entry(10), Err(CatalogError::IndexOutOfRange));
    assert_eq!(BuildingModel::entry(0), Ok(BuildingModel::Blgd01_01));
    assert_eq!(BuildingModel::entry(2), Err(CatalogError::IndexOutOfRange));
}

#[test]
fn catalog_references_convert_both_ways() {
    assert_eq!(PointType::from(FloorModel::Grass), PointType::Grass);
    assert_eq!(PointType::from(BuildingModel::Blgd01_01), PointType::Blgd01_01);
    assert_eq!(FloorModel::try_from(PointType::RoadEnd), Ok(FloorModel::RoadEnd));
    assert_eq!(
        FloorModel::try_from(PointType::Blgd02_01),
        Err(CatalogError::UnresolvedCatalogReference)
    );
    assert_eq!(BuildingModel::try_from(PointType::Blgd02_01), Ok(BuildingModel::Blgd02_01));
    assert_eq!(
        BuildingModel::try_from(PointType::Grass),
        Err(CatalogError::UnresolvedCatalogReference)
    );
}

#[test]
fn catalog_assets() {
    assert_eq!(FloorModel::Concrete.get_meta().path, "./models/roads/road_prop_tile_dark.glb#Scene0");
    assert_eq!(BuildingModel::Blgd02_01.get_meta().path, "./models/bldg/bldg_02_01.glb#Scene0");
    assert_eq!(PointType::RoadCornerWalkable.meta().path, "./models/roads/road_corner_walkable.glb#Scene0");
    assert_eq!(PointType::Blgd01_01.meta().path, "./models/bldg/bldg_01_01.glb#Scene0");
}

#[test]
fn orientation_next_four_times_is_identity() {
    for i in 0..4usize {
        let start = Orientation::index(i);
        let mut o = start;
        for _ in 0..4 {
            o.next();
        }
        assert_eq!(o, start);
    }
    let mut n = Orientation::North;
    n.next();
    assert_eq!(n, Orientation::East);
    let mut w = Orientation::West;
    w.next();
    assert_eq!(w, Orientation::North);
}

#[test]
fn orientation_previous_wraps() {
    let mut n = Orientation::North;
    n.previous();
    assert_eq!(n, Orientation::West);
    n.previous();
    assert_eq!(n, Orientation::South);
}

#[test]
fn orientation_indices_and_degrees() {
    assert_eq!(Orientation::len(), 4);
    assert_eq!(Orientation::default(), Orientation::South);
    assert_eq!(Orientation::index(2), Orientation::South);
    assert_eq!(Orientation::West.get_index(), 3);
    assert_eq!(Orientation::East.degrees(), 90);
    assert_eq!(Orientation::get_degrees(3), 270);
    assert_eq!(Orientation::North.degrees(), 0);
}
