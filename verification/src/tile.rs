//! A tile of the grid: its position and the flags that drive placement.

use vstd::prelude::*;
use crate::building::BuildingData;
use crate::building::BuildingType;
use crate::building::building_template;
use crate::game::GameManager;
use crate::game::spec_add_income;
use crate::game::spec_income_of;

verus! {

/// A grid position. Tiles sit on exact integer coordinates; neighbor
/// positions are reached by whole-tile offsets.
#[derive(Clone, Copy, PartialEq, Eq, Structural, Debug)]
pub struct Position {
    pub x: i32,
    pub y: i32,
}

impl Position {
    pub fn new(x: i32, y: i32) -> (p: Position)
        ensures
            p == (Position { x, y }),
    {
        Position { x, y }
    }
}

/// One grid cell. `start_tile` marks where the base is founded,
/// `has_building` marks an occupied cell, and `can_place_building` marks a
/// cell the highlight pass has offered as a placement target.
#[derive(Clone, Copy, PartialEq, Eq, Structural, Debug)]
pub struct Tile {
    pub position: Position,
    pub start_tile: bool,
    pub has_building: bool,
    pub can_place_building: bool,
}

impl Tile {
    /// A fresh, empty, unhighlighted tile at the given position.
    pub fn new(position: Position) -> (t: Tile)
        ensures
            t == (Tile {
                position,
                start_tile: false,
                has_building: false,
                can_place_building: false,
            }),
    {
        Tile { position, start_tile: false, has_building: false, can_place_building: false }
    }

    /// Whether the base is founded on this tile.
    pub fn is_start_tile(&self) -> (r: bool)
        ensures
            r == self.start_tile,
    {
        self.start_tile
    }

    /// Whether a building occupies this tile.
    pub fn has_building(&self) -> (r: bool)
        ensures
            r == self.has_building,
    {
        self.has_building
    }

    /// Show or hide the placement highlight; the flag follows the toggle.
    /// The host mirrors the flag on the tile's highlight sprite.
    pub fn toggle_highlight(&mut self, toggle: bool)
        ensures
            *final(self) == (Tile { can_place_building: toggle, ..*old(self) }),
    {
        self.can_place_building = toggle;
    }

    /// Occupy this tile with a building. The host draws the sprite found
    /// at the building type's texture path.
    pub fn place_building(&mut self, _building_type: BuildingType)
        ensures
            *final(self) == (Tile { has_building: true, ..*old(self) }),
    {
        self.has_building = true;
    }

    /// The decision behind a press on this tile, once the host has decoded
    /// the input event: when the tile is offered as a placement target and a
    /// placement is pending, the selected building occupies the tile and its
    /// yield joins the per-turn income; otherwise nothing changes.
    pub fn on_pressed(&mut self, state: &mut GameManager, catalog: &BuildingData) -> (placed: bool)
        requires
            old(self).can_place_building && old(state).is_placing_building ==> i32::MIN
                <= spec_income_of(
                *old(state),
                building_template(old(state).building_to_place).resource_type,
            ) + building_template(old(state).building_to_place).resource_amount <= i32::MAX,
        ensures
            placed == (old(self).can_place_building && old(state).is_placing_building),
            placed ==> *final(self) == (Tile { has_building: true, ..*old(self) }),
            placed ==> *final(state) == spec_add_income(
                *old(state),
                building_template(old(state).building_to_place).resource_type,
                building_template(old(state).building_to_place).resource_amount as int,
            ),
            !placed ==> *final(self) == *old(self) && *final(state) == *old(state),
    {
        if self.can_place_building && state.is_placing_building {
            let building_type = state.building_to_place;
            self.place_building(building_type);
            state.place_building(catalog, self.position);
            true
        } else {
            false
        }
    }
}

} // verus!
