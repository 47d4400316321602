//! Decision logic of a status-bar daemon: message parsing, debounced workspace
//! refresh, focus deduplication, monitor correlation and the construction of
//! render instructions. Every function carries a machine-checked contract.

pub mod config;
pub mod daemon;
pub mod icon_map;
pub mod monitor_map;
pub mod providers;
pub mod sketchybar;
pub mod text;
pub mod workspace;
