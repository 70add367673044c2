//! Metadata about a map, as the game binary holds it.

use vstd::prelude::*;

verus! {

/// Contains various metadata about a map.
#[derive(Debug, Clone, Copy, PartialEq, Eq, Structural)]
pub struct MapHeader {
    /// Index of the associated area data.
    pub area_data_archive_id: u8,
    /// Unknown.
    pub unk: u8,
    /// Index of the associated map matrix.
    pub map_matrix_id: u16,
    /// Index of the associated scripts.
    pub scripts_archive_id: u16,
    /// Index of the associated initialization scripts.
    pub init_scripts_archive_id: u16,
    /// Index of the associated message archive.
    pub msg_archive_id: u16,
    /// ID of the music played during daytime.
    pub day_music_id: u16,
    /// ID of the music played during nighttime.
    pub night_music_id: u16,
    /// Index of the associated wild encounters.
    pub wild_encounters_archive_id: u16,
    /// Index of the associated events.
    pub events_archive_id: u16,
    /// ID of the text of the location name.
    pub map_label_text_id: u16,
    /// ID of the graphics of the map name popup.
    pub map_label_window_id: u16,
    /// ID of the weather conditions.
    pub weather: u8,
    /// Type of camera.
    pub camera_type: u8,
    /// Type of map.
    pub map_type: u16,
    /// Default battle background.
    pub battle_bg: u16,
    /// Whether using the bicycle is allowed.
    pub is_bike_allowed: bool,
    /// Whether using the running shoes is allowed.
    pub is_running_allowed: bool,
    /// Whether using the escape rope is allowed.
    pub is_escape_rope_allowed: bool,
    /// Whether using Fly is allowed.
    pub is_fly_allowed: bool,
}

} // verus!
