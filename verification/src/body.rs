//! Helper methods for interacting with creep bodies: calculating what a
//! body can do, and what body a desired capability needs.

pub mod body_calculation_helpers;
pub mod body_generation;
pub mod bodyspec;
pub mod boost_selection_config;
