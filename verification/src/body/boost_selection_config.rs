//! The criteria by which boosts are chosen for a creep body.

use vstd::prelude::*;

verus! {

/// Represents the choice of what boosts, if any, are desired when constructing a creep body.
#[derive(Debug, Hash, PartialEq, Eq, Copy, Clone, Structural)]
pub enum BoostTierChoice {
    /// No boosts should be chosen
    NoBoosts,
    /// Only Tier 1 boosts should be chosen
    T1Only,
    /// Only Tier 2 boosts should be chosen
    T2Only,
    /// Only Tier 3 boosts should be chosen
    T3Only,
    /// Any boosts up to Tier 1 (including no boosts) may be chosen
    UpToT1,
    /// Any boosts up to Tier 2 (including no boosts) may be chosen
    UpToT2,
    /// Any boosts up to Tier 3 (including no boosts) may be chosen
    UpToT3,
}

/// Contains criteria for selecting how to choose boosts when generating a creep body.
///
/// If boost tier choice is [NoBoosts](BoostTierChoice::NoBoosts), [T1Only](BoostTierChoice::T1Only),
/// [T2Only](BoostTierChoice::T2Only), or [T3Only](BoostTierChoice::T3Only), `allow_partial_boosts`
/// will be ignored and all parts will have their boosts set to the designated tier.
#[derive(Debug, Hash, PartialEq, Eq, Copy, Clone, Structural)]
pub struct BoostSelectionConfig {
    /// How to select the tier of any particular boost
    pub boost_tier_choice: BoostTierChoice,
    /// Whether parts of different tiers may be mixed in one body.
    pub allow_partial_boosts: bool,
}

impl BoostTierChoice {
    /// The highest tier that the choice allows.
    pub open spec fn max_tier(self) -> nat {
        match self {
            BoostTierChoice::NoBoosts => 0,
            BoostTierChoice::T1Only | BoostTierChoice::UpToT1 => 1,
            BoostTierChoice::T2Only | BoostTierChoice::UpToT2 => 2,
            BoostTierChoice::T3Only | BoostTierChoice::UpToT3 => 3,
        }
    }

    /// Whether the choice names one tier that every part must have.
    pub open spec fn is_exact(self) -> bool {
        match self {
            BoostTierChoice::UpToT1 | BoostTierChoice::UpToT2 | BoostTierChoice::UpToT3 => false,
            _ => true,
        }
    }
}

impl BoostSelectionConfig {
    /// Creates the criteria from a tier choice and whether tiers may be mixed.
    pub fn new(boost_tier_choice: BoostTierChoice, allow_partial_boosts: bool) -> (config:
        BoostSelectionConfig)
        ensures
            config == (BoostSelectionConfig { boost_tier_choice, allow_partial_boosts }),
    {
        BoostSelectionConfig { boost_tier_choice, allow_partial_boosts }
    }
}

impl Default for BoostSelectionConfig {
    /// No boosts, and no mixing of tiers.
    fn default() -> (config: BoostSelectionConfig)
        ensures
            config == (BoostSelectionConfig {
                boost_tier_choice: BoostTierChoice::NoBoosts,
                allow_partial_boosts: false,
            }),
    {
        BoostSelectionConfig::new(BoostTierChoice::NoBoosts, false)
    }
}

} // verus!
