use suzu::book::BookShelfInformation;
use suzu::map::{collision_tile_ids, CollisionMap, StageObjectMap, TileDraw, TileLayer, TileSet};
use suzu::map_event::{
    BookStoreEvent, BuiltinEvent, BuiltinEventSymbol, EventTrigger, MapEvent, MapEventElement,
    MapEventList, MapEventSceneSwitch, MapTextEvent,
};
use suzu::scene::SceneID;

fn adjacent(p: (i32, i32), q: (i32, i32)) -> bool {
    (p.0 - q.0).abs() + (p.1 - q.1).abs() == 1
}

#[test]
fn tileset_ids_and_locations() {
    let ts = TileSet::new((32, 32), (4, 2), 10, vec![1, 3]);
    assert_eq!(ts.get_first_gid(), 10);
    assert_eq!(ts.get_tile_size(), (32, 32));
    assert_eq!(ts.total_tile_count(), 8);
    assert!(ts.contains_gid(10));
    assert!(ts.contains_gid(17));
    assert!(!ts.contains_gid(18));
    assert!(!ts.contains_gid(9));
    assert_eq!(ts.gid_to_location_index(10), (0, 0));
    assert_eq!(ts.gid_to_location_index(15), (1, 1));
    assert!(ts.exist_collision_info(11));
    assert!(!ts.exist_collision_info(12));
}

#[test]
fn tileset_collision_needs_id_inside_the_set() {
    // The tile is looked up by the number it is given, which must itself be
    // one of the set's ids and be listed with collision shapes.
    let ts = TileSet::new((32, 32), (2, 2), 1, vec![0, 1, 2]);
    assert!(!ts.is_collisionable_tile(0));
    assert!(ts.is_collisionable_tile(1));
    assert!(ts.is_collisionable_tile(2));
    assert!(!ts.is_collisionable_tile(3));
}

#[test]
fn collision_map_moves() {
    let map = CollisionMap::new((3, 3), vec![(1, 0), (1, 1)]);
    assert!(!map.not_contains((-1, -1)));
    assert!(!map.not_contains((5, 5)));
    assert!(!map.is_movable_position(1, 0));
    assert!(map.is_movable_position(0, 0));
    assert!(map.get((0, 0)).is_none());
    let steps = map.successors((0, 0));
    // Up, down, left, right in that order; right is blocked.
    assert_eq!(steps, vec![((0, -1), 1), ((0, 1), 1), ((-1, 0), 1)]);
    let steps = map.successors((2, 1));
    assert_eq!(steps, vec![((2, 0), 1), ((2, 2), 1), ((3, 1), 1)]);
}

#[test]
fn find_path_is_a_shortest_route() {
    let map = CollisionMap::new((3, 3), vec![(1, 0), (1, 1)]);
    let path = map.find_path((0, 0), (2, 0)).expect("a route exists");
    assert_eq!(path.first(), Some(&(0, 0)));
    assert_eq!(path.last(), Some(&(2, 0)));
    // Squares outside the grid are not refused, so the route may pass above it.
    assert_eq!(path.len(), 5);
    for w in path.windows(2) {
        assert!(adjacent(w[0], w[1]));
        assert!(map.is_movable_position(w[1].0, w[1].1));
    }
}

#[test]
fn find_path_to_start_is_the_start() {
    let map = CollisionMap::new((3, 3), vec![]);
    assert_eq!(map.find_path((1, 1), (1, 1)), Some(vec![(1, 1)]));
    assert_eq!(map.find_path((0, 0), (0, 2)).map(|p| p.len()), Some(3));
}

fn stage() -> StageObjectMap {
    let ts = TileSet::new((32, 32), (2, 2), 1, vec![1]);
    let layers = vec![
        TileLayer { visible: true, gids: vec![vec![0, 2, 0], vec![0, 2, 0], vec![0, 0, 0]] },
        TileLayer { visible: false, gids: vec![vec![2, 2, 2], vec![2, 2, 2], vec![2, 2, 2]] },
    ];
    StageObjectMap::new(vec![ts], layers, (3, 3), (32, 32))
}

#[test]
fn stage_map_without_grid_finds_nothing() {
    let map = stage();
    assert_eq!(map.get_tile_size(), (32, 32));
    assert_eq!(map.find_shortest_route((0, 0), (2, 0)), None);
}

#[test]
fn stage_map_tileset_lookup() {
    let map = stage();
    assert_eq!(map.get_tileset_by_gid(2).map(|t| t.get_first_gid()), Some(1));
    assert!(map.get_tileset_by_gid(5).is_none());
    assert!(map.get_tileset_by_gid(0).is_none());
}

#[test]
fn stage_map_route_avoids_blocking_tiles() {
    let mut map = stage();
    map.build_collision_map();
    let route = map.find_shortest_route((0, 0), (2, 0)).expect("a route exists");
    assert_eq!(route.first(), Some(&(0, 0)));
    assert_eq!(route.last(), Some(&(2, 0)));
    assert_eq!(route.len(), 5);
    assert!(!route.contains(&(1, 0)));
    assert!(!route.contains(&(1, 1)));

    let straight = map.find_shortest_route((0, 2), (2, 2)).expect("a route exists");
    assert_eq!(straight, vec![(0, 2), (1, 2), (2, 2)]);
}

#[test]
fn map_events_by_position_and_trigger() {
    use_map_events();
}

fn use_map_events() {
    let mut events = MapEventList::new();
    assert!(events.check_event(EventTrigger::Action, (1, 2)).is_none());
    events
        .register_event((1, 2), MapEventElement::TextEvent(MapTextEvent::new(EventTrigger::Action, "本棚だ")))
        .register_event((3, 4), MapEventElement::SwitchScene(MapEventSceneSwitch::new(EventTrigger::Touch, SceneID::Save)));
    match events.check_event(EventTrigger::Action, (1, 2)) {
        Some(MapEventElement::TextEvent(t)) => assert_eq!(t.get_text(), "本棚だ"),
        _ => panic!("expected the text event"),
    }
    assert!(events.check_event(EventTrigger::Touch, (1, 2)).is_none());
    match events.check_event(EventTrigger::Touch, (3, 4)) {
        Some(MapEventElement::SwitchScene(s)) => assert_eq!(s.get_switch_scene_id(), SceneID::Save),
        _ => panic!("expected the scene switch"),
    }
    assert!(events.check_event(EventTrigger::Touch, (4, 3)).is_none());
    events.register_event(
        (1, 2),
        MapEventElement::BookStoreEvent(BookStoreEvent::new(EventTrigger::Action, BookShelfInformation::new(1, 9))),
    );
    match events.check_event(EventTrigger::Action, (1, 2)) {
        Some(MapEventElement::BookStoreEvent(b)) => assert!(b.get_book_shelf_info().contains_number(5)),
        _ => panic!("expected the book shelf"),
    }
    events.register_event(
        (i32::MIN, -1),
        MapEventElement::BuiltinEvent(BuiltinEvent::new(
            EventTrigger::Touch,
            BuiltinEventSymbol::from_str("select-shelving-book").unwrap(),
        )),
    );
    assert!(events.check_event(EventTrigger::Touch, (i32::MIN, -1)).is_some());
    assert!(events.check_event(EventTrigger::Touch, (i32::MAX, i32::MAX)).is_none());
}

#[test]
fn event_trigger_names() {
    assert_eq!(EventTrigger::from_str("action"), Ok(EventTrigger::Action));
    assert_eq!(EventTrigger::from_str("touch"), Ok(EventTrigger::Touch));
    let t = MapTextEvent::new(EventTrigger::Touch, "x");
    assert_eq!(t.get_trigger_method(), EventTrigger::Touch);
}

#[test]
fn tiles_to_draw_skip_empty_and_hidden() {
    let map = stage();
    let draws = map.tiles_to_draw();
    assert_eq!(
        draws,
        vec![
            TileDraw { x: 1, y: 0, gid: 2, first_gid: 1, column: 1, row: 0 },
            TileDraw { x: 1, y: 1, gid: 2, first_gid: 1, column: 1, row: 0 },
        ]
    );
}

#[test]
fn tiles_to_draw_use_first_tileset_holding_the_id() {
    let a = TileSet::new((16, 16), (2, 2), 1, vec![]);
    let b = TileSet::new((16, 16), (3, 1), 5, vec![]);
    let layers = vec![TileLayer { visible: true, gids: vec![vec![4, 5, 7]] }];
    let map = StageObjectMap::new(vec![a, b], layers, (3, 1), (16, 16));
    let draws = map.tiles_to_draw();
    assert_eq!(draws.len(), 3);
    assert_eq!((draws[0].first_gid, draws[0].column, draws[0].row), (1, 1, 1));
    assert_eq!((draws[1].first_gid, draws[1].column, draws[1].row), (5, 0, 0));
    assert_eq!((draws[2].first_gid, draws[2].column, draws[2].row), (5, 2, 0));
}

#[test]
fn tileset_from_image_counts_whole_tiles() {
    let ts = TileSet::from_image((32, 32), (100, 64), 1, vec![]);
    assert_eq!(ts.total_tile_count(), 6);
    assert_eq!(ts.gid_to_location_index(4), (0, 1));
}

#[test]
fn names_of_events() {
    assert_eq!(EventTrigger::named("touch"), Some(EventTrigger::Touch));
    assert_eq!(EventTrigger::named("Touch"), None);
    assert_eq!(BuiltinEventSymbol::named("select-shelving-book"), Some(BuiltinEventSymbol::SelectShelvingBook));
    assert_eq!(BuiltinEventSymbol::named("x"), None);
}

#[test]
fn checks_before_building_and_drawing() {
    let map = stage();
    assert!(map.can_build_collision_map());
    assert!(map.can_draw_tiles());

    let a = TileSet::new((16, 16), (2, 2), 1, vec![]);
    let b = TileSet::new((16, 16), (2, 2), 10, vec![]);
    let layers = vec![TileLayer { visible: true, gids: vec![vec![5]] }];
    let map = StageObjectMap::new(vec![a, b], layers, (1, 1), (16, 16));
    // Tile 5 lies in no tile set, and the second set starts above it.
    assert!(!map.can_draw_tiles());
    assert!(!map.can_build_collision_map());

    let a = TileSet::new((16, 16), (2, 2), 1, vec![]);
    let hidden = vec![TileLayer { visible: false, gids: vec![vec![99]] }];
    let map = StageObjectMap::new(vec![a], hidden, (1, 1), (16, 16));
    assert!(map.can_draw_tiles());
    assert!(map.can_build_collision_map());
}

#[test]
fn route_within_counts_steps() {
    let map = CollisionMap::new((3, 3), vec![(1, 0), (1, 1)]);
    // The shortest route from (0, 0) to (2, 0) takes four steps.
    assert!(!map.route_within((0, 0), (2, 0), 3));
    assert!(map.route_within((0, 0), (2, 0), 4));
    assert!(map.route_within((1, 2), (1, 2), 0));
    assert!(!map.route_within((0, 0), (0, 1), 0));
    // A goal walled in on every side is never reached.
    let walled = CollisionMap::new((3, 3), vec![(0, 1), (2, 1), (1, 0), (1, 2)]);
    assert!(!walled.route_within((0, 0), (1, 1), 8));
    // Near the ends of the i32 range no answer is promised, and none is given.
    assert!(!map.route_within((i32::MAX - 1, 0), (i32::MAX - 1, 0), 3));
}

#[test]
fn route_within_before_searching_a_stage() {
    let mut map = stage();
    assert!(!map.route_within((0, 0), (2, 0), 10));
    map.build_collision_map();
    assert!(map.route_within((0, 0), (2, 0), 4));
    assert!(!map.route_within((0, 0), (2, 0), 3));
    assert_eq!(map.find_shortest_route((0, 0), (2, 0)).map(|r| r.len()), Some(5));
}

#[test]
fn tiles_with_rectangles_block() {
    assert_eq!(collision_tile_ids(&[(0, 0), (1, 2), (2, 0), (3, 1)]), vec![1, 3]);
    assert!(collision_tile_ids(&[]).is_empty());
}

#[test]
fn find_path_from_a_walled_start_is_none() {
    let walled = CollisionMap::new((3, 3), vec![(0, 1), (2, 1), (1, 0), (1, 2)]);
    assert_eq!(walled.find_path((1, 1), (0, 0)), None);
    assert_eq!(walled.find_path((1, 1), (1, 1)), Some(vec![(1, 1)]));
}
