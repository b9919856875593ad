//! Verified logic of a companion overlay that draws usage-limit rings around
//! the Codex desktop pet.
pub mod geometry;
pub mod rate_limits;
pub mod json;
pub mod color;
pub mod timer;
pub mod tracker;
pub mod pet_state;
pub mod follow;
pub mod wide;
pub mod hover;
pub mod summary;
pub mod config;
pub mod menu;
pub mod label;
