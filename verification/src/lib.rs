//! Verified core of the herdr client-local models.

pub mod geometry;
pub mod text;
pub mod closed_agents;
pub mod rail;
pub mod locations_model;
pub mod sidebar;
pub mod locations;
pub mod popup_size;
pub mod bar_config;
pub mod bar_config_panel;
pub mod bar_apps;
pub mod bar_edit;
pub mod bar_labels;
pub mod bar_keys;
pub mod bar_geometry;
pub mod fm_io;
pub mod colleagues;
pub mod handoff;
pub mod dormancy;
pub mod paths;
pub mod locations_host;
pub mod api_schema;
pub mod pane_audio;
pub mod miller;
pub mod watcher;
pub mod creation;
pub mod config_edits;
