//! A verified core for a 2D farming game: an animation clip engine
//! (named clips, per-entity playback state, event-driven activation,
//! frame advancement against elapsed time), together with the small
//! pieces of game logic that drive it (crop growth, gate opening,
//! player movement decisions, save-slot bookkeeping, camera clamping).
//!
//! Time is measured in whole milliseconds, world coordinates in
//! integer sub-pixel units; the surrounding game loop converts at its
//! edges.

pub mod clip;
pub mod crop;
pub mod driver;
pub mod game_state;
pub mod gate;
pub mod playback;
pub mod player;
pub mod registry;
pub mod save;
pub mod world;

mod random;
