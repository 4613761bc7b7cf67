//! The turn-based economy: resource totals, per-turn income, building
//! selection and placement, and turn resolution.

use vstd::prelude::*;
use crate::building::Building;
use crate::building::BuildingData;
use crate::building::BuildingType;
use crate::building::ResourceType;
use crate::building::building_template;
use crate::map::TileMap;
use crate::map::newly_marked;
use crate::tile::Position;
use crate::tile::Tile;

verus! {

/// The state of one game session: what the player holds of each resource,
/// what each turn brings in, the turn counter, and the pending placement.
#[derive(Clone, Copy, PartialEq, Eq, Structural, Debug)]
pub struct GameManager {
    pub current_food: i32,
    pub current_metal: i32,
    pub current_oxygen: i32,
    pub current_energy: i32,
    pub income_food: i32,
    pub income_metal: i32,
    pub income_oxygen: i32,
    pub income_energy: i32,
    pub turn_number: i32,
    pub is_placing_building: bool,
    pub building_to_place: BuildingType,
}

/// The per-turn income counter for a resource; `Nothing` has no counter and
/// counts as zero.
pub open spec fn spec_income_of(gm: GameManager, resource_type: ResourceType) -> int {
    match resource_type {
        ResourceType::Nothing => 0,
        ResourceType::Food => gm.income_food as int,
        ResourceType::Metal => gm.income_metal as int,
        ResourceType::Oxygen => gm.income_oxygen as int,
        ResourceType::Energy => gm.income_energy as int,
    }
}

/// The state after `amount` has been added to the income counter of
/// `resource_type`; adding to `Nothing` changes nothing.
pub open spec fn spec_add_income(
    gm: GameManager,
    resource_type: ResourceType,
    amount: int,
) -> GameManager {
    match resource_type {
        ResourceType::Nothing => gm,
        ResourceType::Food => GameManager {
            income_food: (gm.income_food + amount) as i32,
            ..gm
        },
        ResourceType::Metal => GameManager {
            income_metal: (gm.income_metal + amount) as i32,
            ..gm
        },
        ResourceType::Oxygen => GameManager {
            income_oxygen: (gm.income_oxygen + amount) as i32,
            ..gm
        },
        ResourceType::Energy => GameManager {
            income_energy: (gm.income_energy + amount) as i32,
            ..gm
        },
    }
}

/// Whether every resource total can take its income, and the turn counter
/// can advance, without leaving the counters' range.
pub open spec fn spec_can_end_turn(gm: GameManager) -> bool {
    &&& i32::MIN <= gm.current_food + gm.income_food <= i32::MAX
    &&& i32::MIN <= gm.current_metal + gm.income_metal <= i32::MAX
    &&& i32::MIN <= gm.current_oxygen + gm.income_oxygen <= i32::MAX
    &&& i32::MIN <= gm.current_energy + gm.income_energy <= i32::MAX
    &&& gm.turn_number < i32::MAX
}

/// The state after a turn has been resolved: each resource total has grown
/// by its per-turn income, and the turn counter by one.
pub open spec fn spec_end_turn(gm: GameManager) -> GameManager {
    GameManager {
        current_food: (gm.current_food + gm.income_food) as i32,
        current_metal: (gm.current_metal + gm.income_metal) as i32,
        current_oxygen: (gm.current_oxygen + gm.income_oxygen) as i32,
        current_energy: (gm.current_energy + gm.income_energy) as i32,
        turn_number: (gm.turn_number + 1) as i32,
        ..gm
    }
}

impl GameManager {
    /// A fresh session: nothing stocked, no income, turn one, no placement
    /// pending.
    pub fn new() -> (gm: GameManager)
        ensures
            gm == (GameManager {
                current_food: 0,
                current_metal: 0,
                current_oxygen: 0,
                current_energy: 0,
                income_food: 0,
                income_metal: 0,
                income_oxygen: 0,
                income_energy: 0,
                turn_number: 1,
                is_placing_building: false,
                building_to_place: BuildingType::Base,
            }),
    {
        GameManager {
            current_food: 0,
            current_metal: 0,
            current_oxygen: 0,
            current_energy: 0,
            income_food: 0,
            income_metal: 0,
            income_oxygen: 0,
            income_energy: 0,
            turn_number: 1,
            is_placing_building: false,
            building_to_place: BuildingType::Base,
        }
    }

    /// A snapshot of the session state.
    pub fn state(&self) -> (s: GameManager)
        ensures
            s == *self,
    {
        *self
    }

    /// Enter placement mode for a building type, and run the highlight pass
    /// on the grid so the player sees where it may stand.
    pub fn on_select_building(&mut self, map: &mut TileMap, building_type: BuildingType)
        ensures
            *final(self) == (GameManager {
                is_placing_building: true,
                building_to_place: building_type,
                ..*old(self)
            }),
            final(map).tile_size == old(map).tile_size,
            final(map).tiles@.len() == old(map).tiles@.len(),
            forall|k: int|
                0 <= k < old(map).tiles@.len()
                    ==> final(map).tiles@[k] == (Tile {
                    can_place_building: old(map).tiles@[k].can_place_building
                        || newly_marked(old(map).tiles@, old(map).tile_size as int, k),
                    ..old(map).tiles@[k]
                }),
    {
        self.is_placing_building = true;
        self.building_to_place = building_type;
        map.highlight_available_tiles();
    }

    /// Add `amount` to the per-turn income of `resource_type`.
    pub fn add_to_resource_per_turn(&mut self, resource_type: ResourceType, amount: i32)
        requires
            i32::MIN <= spec_income_of(*old(self), resource_type) + amount <= i32::MAX,
        ensures
            *final(self) == spec_add_income(*old(self), resource_type, amount as int),
    {
        match resource_type {
            ResourceType::Energy => {
                self.income_energy = self.income_energy + amount;
            },
            ResourceType::Food => {
                self.income_food = self.income_food + amount;
            },
            ResourceType::Metal => {
                self.income_metal = self.income_metal + amount;
            },
            ResourceType::Oxygen => {
                self.income_oxygen = self.income_oxygen + amount;
            },
            ResourceType::Nothing => {},
        }
    }

    /// Commit the pending placement: the selected building type's template
    /// is looked up in the catalog and its yield joins the per-turn income.
    /// The position the building went to does not bear on the economy.
    pub fn place_building(&mut self, catalog: &BuildingData, _tile_position: Position)
        requires
            i32::MIN <= spec_income_of(
                *old(self),
                building_template(old(self).building_to_place).resource_type,
            ) + building_template(old(self).building_to_place).resource_amount <= i32::MAX,
        ensures
            *final(self) == spec_add_income(
                *old(self),
                building_template(old(self).building_to_place).resource_type,
                building_template(old(self).building_to_place).resource_amount as int,
            ),
    {
        let b: Building = catalog.data(self.building_to_place);
        self.add_to_resource_per_turn(b.resource_type, b.resource_amount);
    }

    /// Resolve a turn: each resource total grows by its per-turn income and
    /// the turn counter advances by one.
    pub fn end_turn(&mut self)
        requires
            spec_can_end_turn(*old(self)),
        ensures
            *final(self) == spec_end_turn(*old(self)),
    {
        self.current_energy = self.current_energy + self.income_energy;
        self.current_food = self.current_food + self.income_food;
        self.current_metal = self.current_metal + self.income_metal;
        self.current_oxygen = self.current_oxygen + self.income_oxygen;
        self.turn_number = self.turn_number + 1;
    }
}

} // verus!
