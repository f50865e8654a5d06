//! Constants that sort the game's resources and body parts into categories.

pub mod parts;
pub mod resources;
