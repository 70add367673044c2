//! Decoders for the asset files of Pokémon Platinum and their projection into relational rows.

pub mod nds;
pub mod decimal;
mod text;

pub mod narc;

pub mod area_data;
pub mod area_light;
pub mod area_map_props;
pub mod bdhc;
pub mod land_data;
pub mod map_header;
pub mod map_matrix;
pub mod map_prop_animation_list;
pub mod map_prop_material_shapes;

pub mod loader;
pub mod tables;
pub mod laws;
