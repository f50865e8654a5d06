//! Boosts, lab reactions, and material calculations.

pub mod bom;
pub mod boost;
pub mod reaction;
pub mod reaction_chains;
