use tile_placer::{
    click_action, control_cursor, place_model, preview_visible, remove_model, ClickAction,
    ControlInput, ModelCursor, Orientation, PersistenceError, PlaceDelta, Point, PointType,
    Position, World,
};

fn point(has: PointType, x: i32, y: i32, o: Orientation) -> Point {
    Point::new(has, Position::new(x, y), o)
}

#[test]
fn lookup_finds_placed_object() {
    let mut w = World::new();
    assert!(w.get_point(&Position::new(0, 0)).is_none());
    w.set_point(point(PointType::Grass, 2, -1, Orientation::East));
    let found = w.get_point(&Position::new(2, -1)).copied();
    assert_eq!(found, Some(point(PointType::Grass, 2, -1, Orientation::East)));
    assert!(w.get_point(&Position::new(-1, 2)).is_none());
}

#[test]
fn second_insert_in_taken_cell_is_ignored() {
    let mut w = World::default();
    w.set_point(point(PointType::Concrete, 1, 1, Orientation::North));
    w.set_point(point(PointType::Blgd01_01, 1, 1, Orientation::West));
    assert_eq!(w.points.len(), 1);
    assert_eq!(w.points[0], point(PointType::Concrete, 1, 1, Orientation::North));
    w.set_point(point(PointType::Blgd01_01, 1, 2, Orientation::West));
    assert_eq!(w.points.len(), 2);
}

#[test]
fn remove_deletes_only_that_cell() {
    let mut w = World::new();
    w.set_point(point(PointType::Grass, 0, 0, Orientation::South));
    w.set_point(point(PointType::RoadEnd, 3, 4, Orientation::South));
    w.remove_point(&Position::new(0, 0));
    assert_eq!(w.points, vec![point(PointType::RoadEnd, 3, 4, Orientation::South)]);
    w.remove_point(&Position::new(7, 7));
    assert_eq!(w.points.len(), 1);
}

#[test]
fn replace_all_discards_previous_contents() {
    let mut w = World::new();
    w.set_point(point(PointType::Grass, 5, 5, Orientation::South));
    let fresh = vec![point(PointType::Blgd02_01, 1, 0, Orientation::East)];
    w.replace_all(fresh.clone());
    assert_eq!(w.points, fresh);
}

#[test]
fn save_then_load_gives_back_the_objects() {
    let mut saved = World::new();
    saved.set_point(point(PointType::Grass, 0, 0, Orientation::North));
    saved.set_point(point(PointType::RoadCorner, 1, 0, Orientation::East));
    saved.set_point(point(PointType::Blgd01_01, 0, 1, Orientation::South));
    saved.set_point(point(PointType::Blgd02_01, -2, 3, Orientation::West));
    let document = saved.snapshot();
    assert_eq!(document, saved.points);

    let mut other = World::new();
    other.set_point(point(PointType::Concrete, 9, 9, Orientation::North));
    assert_eq!(other.load(Ok(document)), Ok(()));
    assert_eq!(other.points, saved.points);
}

#[test]
fn failed_load_keeps_registry_and_reports() {
    let mut w = World::new();
    w.set_point(point(PointType::Concrete, 9, 9, Orientation::North));
    assert_eq!(w.load(Err(PersistenceError::NotFound)), Err(PersistenceError::NotFound));
    assert_eq!(w.load(Err(PersistenceError::ParseError)), Err(PersistenceError::ParseError));
    assert_eq!(w.points, vec![point(PointType::Concrete, 9, 9, Orientation::North)]);
}

#[test]
fn grid_cell_to_world_coordinates() {
    assert_eq!(Position::new(1, -3).world_coordinates(), (20, -60));
    assert_eq!(Position::new(0, 0).world_coordinates(), (0, 0));
}

#[test]
fn place_switch_catalog_place_remove_scenario() {
    let mut w = World::new();
    let mut cursor = ModelCursor::default();
    let mut orientation = Orientation::default();
    let mut delta = PlaceDelta::default();

    let first = place_model(&mut w, &cursor, &orientation, Position::new(0, 0));
    assert_eq!(first, Some(point(PointType::Concrete, 0, 0, Orientation::South)));

    let input = ControlInput {
        forward: false,
        back: false,
        rotate: false,
        select_floor: false,
        select_buildings: true,
    };
    control_cursor(&input, &mut cursor, &mut orientation, &mut delta);
    assert_eq!(cursor, ModelCursor::Buildings(0));
    assert!(delta.requested_update());

    place_model(&mut w, &cursor, &orientation, Position::new(1, 0));
    assert!(remove_model(&mut w, Position::new(0, 0)));
    assert_eq!(w.points, vec![point(PointType::Blgd01_01, 1, 0, Orientation::South)]);
}

#[test]
fn place_in_taken_cell_changes_nothing() {
    let mut w = World::new();
    let c = ModelCursor::Floor(1);
    assert!(place_model(&mut w, &c, &Orientation::North, Position::new(4, 4)).is_some());
    assert_eq!(place_model(&mut w, &ModelCursor::Buildings(1), &Orientation::West, Position::new(4, 4)), None);
    assert_eq!(w.points, vec![point(PointType::Grass, 4, 4, Orientation::North)]);
    assert!(!remove_model(&mut w, Position::new(5, 5)));
}

#[test]
fn controls_rotate_with_modifier_and_move_without() {
    let mut cursor = ModelCursor::Floor(9);
    let mut o = Orientation::South;
    let mut delta = PlaceDelta::Unchanged;
    let forward = ControlInput {
        forward: true,
        back: false,
        rotate: false,
        select_floor: false,
        select_buildings: false,
    };
    control_cursor(&forward, &mut cursor, &mut o, &mut delta);
    assert_eq!(cursor, ModelCursor::Floor(0));
    assert_eq!(o, Orientation::South);
    assert_eq!(delta, PlaceDelta::Update);

    let rotate_back = ControlInput { forward: false, back: true, rotate: true, ..forward };
    control_cursor(&rotate_back, &mut cursor, &mut o, &mut delta);
    assert_eq!(cursor, ModelCursor::Floor(0));
    assert_eq!(o, Orientation::East);

    let mut idle_delta = PlaceDelta::Unchanged;
    let idle = ControlInput { forward: false, ..forward };
    control_cursor(&idle, &mut cursor, &mut o, &mut idle_delta);
    assert_eq!(idle_delta, PlaceDelta::Unchanged);
    assert!(!idle_delta.requested_update());

    let both = ControlInput { select_floor: true, select_buildings: true, ..idle };
    let mut c2 = ModelCursor::Floor(4);
    control_cursor(&both, &mut c2, &mut o, &mut idle_delta);
    assert_eq!(c2, ModelCursor::Buildings(0));
}

#[test]
fn click_and_preview_rules() {
    assert_eq!(click_action(true, false), ClickAction::Place);
    assert_eq!(click_action(true, true), ClickAction::Remove);
    assert_eq!(click_action(false, true), ClickAction::Idle);
    assert!(!preview_visible(true, true, false));
    assert!(preview_visible(false, false, true));
    assert!(preview_visible(true, false, false));
    assert!(!preview_visible(false, false, false));
}
