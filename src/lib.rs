//! Game rules of a small tile dungeon: where the floor and wall sprites of the
//! level stand, how the arrow keys move the player, where the player sprite and
//! the camera follow it, when the player sprite is spawned, and whether the
//! background music is wanted.
//!
//! Everything here works on integers; the engine that draws the sprites turns
//! the positions into its own coordinates.

pub mod greeting;
pub mod layout;
pub mod movement;
pub mod settings;
