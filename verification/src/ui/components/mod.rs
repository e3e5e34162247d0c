//! Component-level display rules.

pub mod album_card;
pub mod config;
pub mod cover_art;
pub mod dr_badge;
pub mod empty_state;
pub mod hifi_metadata;
pub mod navigation;
pub mod play_overlay;
pub mod player_bar;
pub mod refresh;
pub mod search_empty_state;
pub mod sort_list;
pub mod sorting;
