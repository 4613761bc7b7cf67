use zenvaformers::building::BuildingType;
use zenvaformers::game::GameManager;
use zenvaformers::map::TileMap;
use zenvaformers::text::i32_dec;
use zenvaformers::text::u32_dec;
use zenvaformers::tile::Position;
use zenvaformers::tile::Tile;
use zenvaformers::ui::UI;

#[test]
fn decimal_rendering_of_small_values() {
    assert_eq!(u32_dec(0), "0");
    assert_eq!(u32_dec(7), "7");
    assert_eq!(u32_dec(10), "10");
    assert_eq!(u32_dec(42), "42");
    assert_eq!(u32_dec(100), "100");
}

#[test]
fn decimal_rendering_of_extreme_values() {
    assert_eq!(u32_dec(u32::MAX), "4294967295");
    assert_eq!(i32_dec(i32::MAX), "2147483647");
    assert_eq!(i32_dec(i32::MIN), "-2147483648");
}

#[test]
fn decimal_rendering_of_signed_values() {
    assert_eq!(i32_dec(0), "0");
    assert_eq!(i32_dec(13), "13");
    assert_eq!(i32_dec(-1), "-1");
    assert_eq!(i32_dec(-305), "-305");
}

#[test]
fn turn_text_names_the_turn() {
    let ui = UI::new();
    let mut gm = GameManager::new();
    gm.turn_number = 3;
    let u = ui.on_end_turn(&gm);
    assert_eq!(u.turn_text, "Turn: 3");
    assert!(u.building_buttons_visible);
}

#[test]
fn resource_readouts_pair_totals_with_income() {
    let ui = UI::new();
    let mut gm = GameManager::new();
    gm.current_food = 5;
    gm.income_food = 2;
    gm.current_metal = 1;
    gm.income_metal = 0;
    gm.current_oxygen = 4;
    gm.income_oxygen = -1;
    gm.current_energy = 12;
    gm.income_energy = 3;
    let u = ui.on_end_turn(&gm);
    assert_eq!(u.food_metal_text, "5 (+2)\n1 (+0)");
    // a negative income shows its own minus sign beside the announcing one
    assert_eq!(u.oxygen_energy_text, "4 (--1)\n12 (+3)");
}

#[test]
fn the_end_turn_button_resolves_the_turn_and_reports_it() {
    let ui = UI::new();
    let mut gm = GameManager::new();
    gm.current_food = 5;
    gm.income_food = 2;
    let u = ui.on_end_turn_button_pressed(&mut gm);
    assert_eq!(gm.current_food, 7);
    assert_eq!(gm.turn_number, 2);
    assert_eq!(u.turn_text, "Turn: 2");
    assert_eq!(u.food_metal_text, "7 (+2)\n0 (+0)");
    assert!(u.building_buttons_visible);
}

#[test]
fn a_building_button_hides_the_buttons_and_enters_placement_mode() {
    let ui = UI::new();
    let mut gm = GameManager::new();
    let mut map = TileMap::new(64);
    let mut center = Tile::new(Position::new(0, 0));
    center.place_building(BuildingType::Base);
    map.add_tile(center);
    map.add_tile(Tile::new(Position::new(64, 0)));
    let visible = ui.on_building_button_pressed(&mut gm, &mut map, BuildingType::SolarPanel);
    assert!(!visible);
    assert!(gm.is_placing_building);
    assert_eq!(gm.building_to_place, BuildingType::SolarPanel);
    assert!(map.tiles[1].can_place_building);
}
