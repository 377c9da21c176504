//! Game rules of a hex-map planetary colonisation strategy game: hex
//! geometry, terrain, factions and diplomacy, territory, resources, and the
//! keyboard and menu state machines of the user interface.
pub mod hex;
pub mod terrain;
pub mod map_settings;
pub mod faction;
pub mod input;
pub mod keys;
pub mod app_state;
pub mod settings;
pub mod settings_nav;
pub mod pause;
pub mod title;
pub mod text;
pub mod coord_map;
pub mod map_grid;
pub mod map_plan;
pub mod landing;
pub mod territory;
pub mod resources;
pub mod city;
pub mod diplomacy;
pub mod hud;
pub mod faction_select;
pub mod console_text;
pub mod console;
pub mod command;
pub mod console_input;
pub mod info_panel;
