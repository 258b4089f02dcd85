//! Verified core logic of a hexagonal turn-based strategy game: axial hex
//! coordinates and their metric, the hex grid model, shortest-path search for
//! unit movement, item definitions, encyclopedia content, the scene and
//! game-state machines, the state and texts of the menus, dialogs and panels,
//! the bitmap font, and map files.

pub mod hexagon;
pub mod ids;
pub mod simple_hex;
pub mod movement;
pub mod item_properties;
pub mod item;
pub mod item_definitions;
pub mod guide;
pub mod scene_manager;
pub mod game_scene;
pub mod grid;
pub mod text;
pub mod encyclopedia;
pub mod encyclopedia_builder;
pub mod display;
pub mod panels;
pub mod font;
pub mod map_data;
pub mod main_menu;
pub mod textures;
pub mod search_order;
