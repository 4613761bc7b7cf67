use zenvaformers::building::Building;
use zenvaformers::building::BuildingData;
use zenvaformers::building::BuildingType;
use zenvaformers::building::ResourceType;
use zenvaformers::game::GameManager;
use zenvaformers::map::TileMap;
use zenvaformers::tile::Position;
use zenvaformers::tile::Tile;

fn tile_at(x: i32, y: i32) -> Tile {
    Tile::new(Position::new(x, y))
}

#[test]
fn end_turn_applies_income_and_advances_turn() {
    let mut gm = GameManager::new();
    gm.current_food = 5;
    gm.income_food = 2;
    assert_eq!(gm.turn_number, 1);
    gm.end_turn();
    assert_eq!(gm.current_food, 7);
    assert_eq!(gm.turn_number, 2);
}

#[test]
fn end_turn_applies_each_income_to_its_own_total() {
    let mut gm = GameManager::new();
    gm.current_food = 10;
    gm.current_metal = 20;
    gm.current_oxygen = 30;
    gm.current_energy = 40;
    gm.income_food = 1;
    gm.income_metal = 2;
    gm.income_oxygen = 3;
    gm.income_energy = 4;
    gm.end_turn();
    assert_eq!(gm.current_food, 11);
    assert_eq!(gm.current_metal, 22);
    assert_eq!(gm.current_oxygen, 33);
    assert_eq!(gm.current_energy, 44);
    assert_eq!(gm.income_food, 1);
    assert_eq!(gm.income_metal, 2);
    assert_eq!(gm.income_oxygen, 3);
    assert_eq!(gm.income_energy, 4);
    assert_eq!(gm.turn_number, 2);
}

#[test]
fn end_turn_with_negative_income() {
    let mut gm = GameManager::new();
    gm.current_food = 3;
    gm.income_food = -5;
    gm.end_turn();
    assert_eq!(gm.current_food, -2);
}

#[test]
fn mine_placement_adds_metal_income_once_per_placement() {
    let catalog = BuildingData::new();
    let mut gm = GameManager::new();
    gm.building_to_place = BuildingType::Mine;
    gm.place_building(&catalog, Position::new(0, 0));
    assert_eq!(gm.income_metal, 1);
    assert_eq!(gm.income_food, 0);
    assert_eq!(gm.income_oxygen, 0);
    assert_eq!(gm.income_energy, 0);
    gm.place_building(&catalog, Position::new(64, 0));
    assert_eq!(gm.income_metal, 2);
}

#[test]
fn placement_of_each_template_feeds_its_resource() {
    let catalog = BuildingData::new();
    let mut gm = GameManager::new();
    gm.building_to_place = BuildingType::Greenhouse;
    gm.place_building(&catalog, Position::new(0, 0));
    assert_eq!(gm.income_food, 1);
    gm.building_to_place = BuildingType::SolarPanel;
    gm.place_building(&catalog, Position::new(0, 64));
    assert_eq!(gm.income_energy, 1);
    gm.building_to_place = BuildingType::Base;
    gm.place_building(&catalog, Position::new(64, 0));
    assert_eq!(gm.income_food, 1);
    assert_eq!(gm.income_metal, 0);
    assert_eq!(gm.income_oxygen, 0);
    assert_eq!(gm.income_energy, 1);
}

#[test]
fn catalog_lookup_is_total_over_the_four_types() {
    let catalog = BuildingData::new();
    let base = catalog.data(BuildingType::Base);
    assert_eq!(base.building_type, BuildingType::Base);
    assert_eq!(base.resource_type, ResourceType::Nothing);
    assert_eq!(base.resource_amount, 0);
    assert_eq!(base.upkeep_type, ResourceType::Nothing);
    assert_eq!(base.upkeep_amount, 0);
    let mine = catalog.data(BuildingType::Mine);
    assert_eq!(mine.building_type, BuildingType::Mine);
    assert_eq!(mine.resource_type, ResourceType::Metal);
    assert_eq!(mine.resource_amount, 1);
    assert_eq!(mine.upkeep_type, ResourceType::Energy);
    assert_eq!(mine.upkeep_amount, 1);
    let greenhouse = catalog.data(BuildingType::Greenhouse);
    assert_eq!(greenhouse.building_type, BuildingType::Greenhouse);
    assert_eq!(greenhouse.resource_type, ResourceType::Food);
    assert_eq!(greenhouse.resource_amount, 1);
    let solar = catalog.data(BuildingType::SolarPanel);
    assert_eq!(solar.building_type, BuildingType::SolarPanel);
    assert_eq!(solar.resource_type, ResourceType::Energy);
    assert_eq!(solar.resource_amount, 1);
}

#[test]
fn catalog_lookup_agrees_with_constructors() {
    let catalog = BuildingData::new();
    assert_eq!(catalog.data(BuildingType::Base), Building::base());
    assert_eq!(catalog.data(BuildingType::Mine), Building::mine());
    assert_eq!(catalog.data(BuildingType::Greenhouse), Building::greenhouse());
    assert_eq!(catalog.data(BuildingType::SolarPanel), Building::solar_panel());
    assert_eq!(Building::new(), Building::base());
}

#[test]
fn grid_lookup_finds_the_first_free_tile() {
    let mut map = TileMap::new(64);
    map.add_tile(tile_at(0, 0));
    map.add_tile(tile_at(64, 0));
    assert_eq!(map.get_tile_at_position(Position::new(64, 0)), Some(1));
}

#[test]
fn grid_lookup_returns_none_for_an_unknown_position() {
    let mut map = TileMap::new(64);
    map.add_tile(tile_at(0, 0));
    assert_eq!(map.get_tile_at_position(Position::new(5, 5)), None);
}

#[test]
fn grid_lookup_returns_none_for_an_occupied_tile() {
    let mut map = TileMap::new(64);
    let mut occupied = tile_at(0, 0);
    occupied.place_building(BuildingType::Base);
    map.add_tile(occupied);
    assert_eq!(map.get_tile_at_position(Position::new(0, 0)), None);
}

#[test]
fn grid_lookup_skips_an_occupied_tile_for_a_free_one_behind_it() {
    let mut map = TileMap::new(64);
    let mut occupied = tile_at(0, 0);
    occupied.place_building(BuildingType::Base);
    map.add_tile(occupied);
    map.add_tile(tile_at(0, 0));
    assert_eq!(map.get_tile_at_position(Position::new(0, 0)), Some(1));
}

#[test]
fn highlight_pass_marks_exactly_the_free_cardinal_neighbors() {
    let mut map = TileMap::new(64);
    let mut center = tile_at(0, 0);
    center.place_building(BuildingType::Base);
    map.add_tile(center); // 0: occupied center
    map.add_tile(tile_at(0, -64)); // 1: north, free
    map.add_tile(tile_at(0, 64)); // 2: south, free
    let mut east = tile_at(64, 0);
    east.place_building(BuildingType::Mine);
    map.add_tile(east); // 3: east, occupied
    map.add_tile(tile_at(-64, 0)); // 4: west, free
    map.add_tile(tile_at(-64, -64)); // 5: diagonal, free
    map.add_tile(tile_at(128, 0)); // 6: two steps east, free
    map.highlight_available_tiles();
    assert!(!map.tiles[0].can_place_building, "occupied center must stay excluded");
    assert!(map.tiles[1].can_place_building, "free north neighbor must be marked");
    assert!(map.tiles[2].can_place_building, "free south neighbor must be marked");
    assert!(!map.tiles[3].can_place_building, "occupied east neighbor must stay excluded");
    assert!(map.tiles[4].can_place_building, "free west neighbor must be marked");
    assert!(!map.tiles[5].can_place_building, "diagonal tile is no cardinal neighbor");
    // the occupied east tile marks its own free neighbors in turn
    assert!(map.tiles[6].can_place_building, "neighbor of the occupied east tile");
    // nothing but the highlight flag changes
    assert!(map.tiles[0].has_building);
    assert!(map.tiles[3].has_building);
    assert!(!map.tiles[1].has_building);
}

#[test]
fn highlight_pass_marks_only_the_first_free_tile_at_a_position() {
    let mut map = TileMap::new(64);
    let mut center = tile_at(0, 0);
    center.place_building(BuildingType::Base);
    map.add_tile(center); // 0: occupied center
    map.add_tile(tile_at(64, 0)); // 1: east, free
    map.add_tile(tile_at(64, 0)); // 2: east again, behind 1
    map.highlight_available_tiles();
    assert!(map.tiles[1].can_place_building);
    assert!(!map.tiles[2].can_place_building, "only the first match is marked");
}

#[test]
fn highlight_pass_keeps_highlights_it_did_not_set() {
    let mut map = TileMap::new(64);
    let mut far = tile_at(500, 500);
    far.toggle_highlight(true);
    map.add_tile(far);
    map.highlight_available_tiles();
    assert!(map.tiles[0].can_place_building);
}

#[test]
fn highlight_pass_on_an_empty_board_marks_nothing() {
    let mut map = TileMap::new(64);
    map.add_tile(tile_at(0, 0));
    map.add_tile(tile_at(64, 0));
    map.highlight_available_tiles();
    assert!(!map.tiles[0].can_place_building);
    assert!(!map.tiles[1].can_place_building);
}

#[test]
fn disable_tile_highlights_clears_every_flag() {
    let mut map = TileMap::new(64);
    let mut a = tile_at(0, 0);
    a.toggle_highlight(true);
    map.add_tile(a);
    let mut b = tile_at(64, 0);
    b.toggle_highlight(true);
    map.add_tile(b);
    map.disable_tile_highlights();
    assert!(!map.tiles[0].can_place_building);
    assert!(!map.tiles[1].can_place_building);
}

#[test]
fn map_place_building_clears_the_highlights() {
    let mut map = TileMap::new(64);
    let mut a = tile_at(0, 0);
    a.toggle_highlight(true);
    map.add_tile(a);
    map.place_building(Position::new(0, 0), BuildingType::Mine);
    assert!(!map.tiles[0].can_place_building);
}

#[test]
fn the_first_start_tile_receives_the_base() {
    let mut map = TileMap::new(64);
    map.add_tile(tile_at(0, 0));
    let mut start = tile_at(64, 0);
    start.start_tile = true;
    map.add_tile(start);
    let mut late_start = tile_at(128, 0);
    late_start.start_tile = true;
    map.add_tile(late_start);
    map.place_base_on_start_tile();
    assert!(!map.tiles[0].has_building);
    assert!(map.tiles[1].has_building, "the first start tile is founded on");
    assert!(!map.tiles[2].has_building, "only the first start tile is founded on");
}

#[test]
fn without_a_start_tile_nothing_is_founded() {
    let mut map = TileMap::new(64);
    map.add_tile(tile_at(0, 0));
    map.place_base_on_start_tile();
    assert!(!map.tiles[0].has_building);
}

#[test]
fn tile_flags_follow_their_operations() {
    let mut t = tile_at(3, 4);
    assert!(!t.is_start_tile());
    assert!(!t.has_building());
    assert!(!t.can_place_building);
    t.toggle_highlight(true);
    assert!(t.can_place_building);
    t.toggle_highlight(false);
    assert!(!t.can_place_building);
    t.place_building(BuildingType::Greenhouse);
    assert!(t.has_building());
    assert_eq!(t.position, Position::new(3, 4));
}

#[test]
fn a_press_places_the_selected_building() {
    let catalog = BuildingData::new();
    let mut gm = GameManager::new();
    gm.is_placing_building = true;
    gm.building_to_place = BuildingType::Mine;
    let mut t = tile_at(0, 64);
    t.toggle_highlight(true);
    let placed = t.on_pressed(&mut gm, &catalog);
    assert!(placed);
    assert!(t.has_building());
    assert_eq!(gm.income_metal, 1);
}

#[test]
fn a_press_outside_placement_mode_changes_nothing() {
    let catalog = BuildingData::new();
    let mut gm = GameManager::new();
    let mut t = tile_at(0, 64);
    t.toggle_highlight(true);
    let placed = t.on_pressed(&mut gm, &catalog);
    assert!(!placed);
    assert!(!t.has_building());
    assert_eq!(gm.income_metal, 0);
}

#[test]
fn a_press_on_an_unoffered_tile_changes_nothing() {
    let catalog = BuildingData::new();
    let mut gm = GameManager::new();
    gm.is_placing_building = true;
    gm.building_to_place = BuildingType::Mine;
    let mut t = tile_at(0, 64);
    let placed = t.on_pressed(&mut gm, &catalog);
    assert!(!placed);
    assert!(!t.has_building());
    assert_eq!(gm.income_metal, 0);
}

#[test]
fn selecting_a_building_enters_placement_mode_and_highlights() {
    let mut map = TileMap::new(64);
    let mut center = tile_at(0, 0);
    center.place_building(BuildingType::Base);
    map.add_tile(center);
    map.add_tile(tile_at(0, 64));
    let mut gm = GameManager::new();
    gm.on_select_building(&mut map, BuildingType::Greenhouse);
    assert!(gm.is_placing_building);
    assert_eq!(gm.building_to_place, BuildingType::Greenhouse);
    assert!(map.tiles[1].can_place_building);
    assert!(!map.tiles[0].can_place_building);
}

#[test]
fn add_to_resource_per_turn_hits_the_named_counter() {
    let mut gm = GameManager::new();
    gm.add_to_resource_per_turn(ResourceType::Oxygen, 5);
    assert_eq!(gm.income_oxygen, 5);
    gm.add_to_resource_per_turn(ResourceType::Oxygen, -2);
    assert_eq!(gm.income_oxygen, 3);
    gm.add_to_resource_per_turn(ResourceType::Nothing, 100);
    assert_eq!(gm.income_food, 0);
    assert_eq!(gm.income_metal, 0);
    assert_eq!(gm.income_oxygen, 3);
    assert_eq!(gm.income_energy, 0);
}

#[test]
fn state_returns_a_faithful_snapshot() {
    let mut gm = GameManager::new();
    gm.current_metal = 9;
    gm.turn_number = 4;
    let s = gm.state();
    assert_eq!(s, gm);
}

#[test]
fn building_type_codes_round_trip() {
    let types = [
        BuildingType::Base,
        BuildingType::Mine,
        BuildingType::Greenhouse,
        BuildingType::SolarPanel,
    ];
    for t in types {
        assert_eq!(BuildingType::from_code(t.to_code()), Some(t));
    }
    assert_eq!(BuildingType::from_code(4), None);
    assert_eq!(BuildingType::from_code(-1), None);
}

#[test]
fn resource_type_codes_round_trip() {
    let types = [
        ResourceType::Nothing,
        ResourceType::Food,
        ResourceType::Metal,
        ResourceType::Oxygen,
        ResourceType::Energy,
    ];
    for t in types {
        assert_eq!(ResourceType::from_code(t.to_code()), Some(t));
    }
    assert_eq!(ResourceType::from_code(5), None);
    assert_eq!(ResourceType::from_code(-1), None);
}

#[test]
fn texture_paths_name_each_sprite() {
    assert_eq!(BuildingType::Base.get_texture_path(), "res://Sprites/Base.png");
    assert_eq!(BuildingType::Mine.get_texture_path(), "res://Sprites/Mine.png");
    assert_eq!(BuildingType::Greenhouse.get_texture_path(), "res://Sprites/Greenhouse.png");
    assert_eq!(BuildingType::SolarPanel.get_texture_path(), "res://Sprites/SolarPanel.png");
}
