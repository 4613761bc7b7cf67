//! A small tile-based base-building strategy game: a catalog of building
//! templates, tiles on a grid, a four-directional highlight pass that marks
//! valid placement targets, and a turn-based resource economy.
//!
//! Rendering, input decoding and scene management belong to a host front end;
//! this crate holds the game rules themselves, each stated as a contract.

pub mod building;
pub mod game;
pub mod map;
pub mod text;
pub mod tile;
pub mod ui;
