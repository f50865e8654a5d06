//! Calculations on creep bodies, boosts and lab reactions.
//!
//! - [`body`] answers what a body can do, and what body a desired capability
//!   needs under a choice of boost tiers.
//! - [`boost`] relates boosts to the compounds that give them, and follows
//!   compounds through the lab reactions that produce them down to base
//!   minerals.
//! - [`constants`] sorts resources and parts into categories.
//! - [`game`] is where the library calls the `screeps` crate.
//! - [`helpers`] holds small helpers.

pub mod body;
pub mod boost;
pub mod constants;
pub mod game;
pub mod helpers;
