//! Client-side core for talking to a StarCraft II engine: typed decoding of the
//! engine's data catalogs, map information and score, and batching of debug commands.

pub mod api;
pub mod debug;
pub mod float;
pub mod fx;
pub mod game_data;
pub mod game_info;
pub mod geometry;
pub mod ids;
pub mod naming;
pub mod parse;
pub mod player;
pub mod score;
pub mod wire;
