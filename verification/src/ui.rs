//! The interface text shown after a turn: the turn caption and the four
//! resource readouts, each with the per-turn change it announces.

use vstd::prelude::*;
use vstd::string::StringExecFns;
use crate::building::BuildingType;
use crate::game::GameManager;
use crate::game::spec_can_end_turn;
use crate::game::spec_end_turn;
use crate::map::TileMap;
use crate::map::newly_marked;
use crate::text::i32_dec;
use crate::text::spec_int_dec;
use crate::tile::Tile;

verus! {

/// The sign that announces a per-turn change: a plus for an income of zero
/// or more, a minus otherwise.
pub open spec fn spec_income_sign(income: int) -> char {
    if income >= 0 {
        '+'
    } else {
        '-'
    }
}

/// One readout line: the stocked amount, then the income in parentheses
/// behind its announcing sign. A negative income shows its own minus sign
/// beside the announcing one.
pub open spec fn spec_resource_line(current: int, income: int) -> Seq<char> {
    spec_int_dec(current) + seq![' ', '('] + seq![spec_income_sign(income)] + spec_int_dec(income)
        + seq![')']
}

/// Two readout lines, one above the other.
pub open spec fn spec_resource_pair(
    current_a: int,
    income_a: int,
    current_b: int,
    income_b: int,
) -> Seq<char> {
    spec_resource_line(current_a, income_a) + seq!['\n'] + spec_resource_line(current_b, income_b)
}

/// The caption over the turn counter.
pub open spec fn spec_turn_text(turn: int) -> Seq<char> {
    "Turn: "@ + spec_int_dec(turn)
}

/// Everything the interface shows once a turn has ended. The host copies
/// each string onto its label and shows the building buttons again.
pub struct UiText {
    pub turn_text: String,
    pub food_metal_text: String,
    pub oxygen_energy_text: String,
    pub building_buttons_visible: bool,
}

/// The interface layer. It holds no state of its own: everything it shows
/// is computed from a session snapshot.
pub struct UI {}

impl UI {
    pub fn new() -> (ui: UI)
        ensures
            ui == (UI {  }),
    {
        UI {  }
    }

    /// One readout line for a resource.
    fn resource_line(current: i32, income: i32) -> (r: String)
        ensures
            r@ == spec_resource_line(current as int, income as int),
    {
        let mut r = i32_dec(current);
        r.append(" (");
        if income >= 0 {
            r.append("+");
        } else {
            r.append("-");
        }
        let income_digits = i32_dec(income);
        r.append(income_digits.as_str());
        r.append(")");
        proof {
            reveal_strlit(" (");
            reveal_strlit("+");
            reveal_strlit("-");
            reveal_strlit(")");
            assert(" ("@ =~= seq![' ', '(']);
            assert("+"@ =~= seq!['+']);
            assert("-"@ =~= seq!['-']);
            assert(")"@ =~= seq![')']);
            assert(r@ =~= spec_resource_line(current as int, income as int));
        }
        r
    }

    /// Two readout lines, one above the other.
    fn resource_pair(current_a: i32, income_a: i32, current_b: i32, income_b: i32) -> (r: String)
        ensures
            r@ == spec_resource_pair(
                current_a as int,
                income_a as int,
                current_b as int,
                income_b as int,
            ),
    {
        let mut r = Self::resource_line(current_a, income_a);
        r.append("\n");
        let second = Self::resource_line(current_b, income_b);
        r.append(second.as_str());
        proof {
            reveal_strlit("\n");
            assert("\n"@ =~= seq!['\n']);
            assert(r@ =~= spec_resource_pair(
                current_a as int,
                income_a as int,
                current_b as int,
                income_b as int,
            ));
        }
        r
    }

    /// The text the interface shows once a turn has ended: the advanced turn
    /// counter, food over metal, and oxygen over energy, each with the
    /// income it will gain next turn; the building buttons come back.
    pub fn on_end_turn(&self, state: &GameManager) -> (u: UiText)
        ensures
            u.turn_text@ == spec_turn_text(state.turn_number as int),
            u.food_metal_text@ == spec_resource_pair(
                state.current_food as int,
                state.income_food as int,
                state.current_metal as int,
                state.income_metal as int,
            ),
            u.oxygen_energy_text@ == spec_resource_pair(
                state.current_oxygen as int,
                state.income_oxygen as int,
                state.current_energy as int,
                state.income_energy as int,
            ),
            u.building_buttons_visible,
    {
        let mut turn_text = "Turn: ".to_owned();
        let turn_digits = i32_dec(state.turn_number);
        turn_text.append(turn_digits.as_str());
        UiText {
            turn_text,
            food_metal_text: Self::resource_pair(
                state.current_food,
                state.income_food,
                state.current_metal,
                state.income_metal,
            ),
            oxygen_energy_text: Self::resource_pair(
                state.current_oxygen,
                state.income_oxygen,
                state.current_energy,
                state.income_energy,
            ),
            building_buttons_visible: true,
        }
    }

    /// A press of the end-turn button: the turn is resolved, and the text
    /// for the new state is computed from a fresh snapshot.
    pub fn on_end_turn_button_pressed(&self, game_manager: &mut GameManager) -> (u: UiText)
        requires
            spec_can_end_turn(*old(game_manager)),
        ensures
            *final(game_manager) == spec_end_turn(*old(game_manager)),
            u.turn_text@ == spec_turn_text(final(game_manager).turn_number as int),
            u.food_metal_text@ == spec_resource_pair(
                final(game_manager).current_food as int,
                final(game_manager).income_food as int,
                final(game_manager).current_metal as int,
                final(game_manager).income_metal as int,
            ),
            u.oxygen_energy_text@ == spec_resource_pair(
                final(game_manager).current_oxygen as int,
                final(game_manager).income_oxygen as int,
                final(game_manager).current_energy as int,
                final(game_manager).income_energy as int,
            ),
            u.building_buttons_visible,
    {
        game_manager.end_turn();
        let state = game_manager.state();
        self.on_end_turn(&state)
    }

    /// A press of a building button: the building buttons withdraw while the
    /// player picks a tile, and placement mode begins for `building_type`.
    pub fn on_building_button_pressed(
        &self,
        game_manager: &mut GameManager,
        map: &mut TileMap,
        building_type: BuildingType,
    ) -> (building_buttons_visible: bool)
        ensures
            !building_buttons_visible,
            *final(game_manager) == (GameManager {
                is_placing_building: true,
                building_to_place: building_type,
                ..*old(game_manager)
            }),
            final(map).tile_size == old(map).tile_size,
            final(map).tiles@.len() == old(map).tiles@.len(),
            forall|k: int|
                0 <= k < old(map).tiles@.len()
                    ==> final(map).tiles@[k] == (Tile {
                    can_place_building: old(map).tiles@[k].can_place_building
                        || newly_marked(old(map).tiles@, old(map).tile_size as int, k),
                    ..old(map).tiles@[k]
                }),
    {
        game_manager.on_select_building(map, building_type);
        false
    }
}

} // verus!
