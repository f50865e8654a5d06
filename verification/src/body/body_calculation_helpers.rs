//! Calculates the body needed for a desired level of creep capabilities.

use vstd::prelude::*;
use crate::body::bodyspec::{boost_factor, ranged_mass_attack_power_at_distance_spec, PartSpec};
use crate::body::boost_selection_config::{BoostSelectionConfig, BoostTierChoice};
use crate::boost::boost::{AbstractBoost, BoostCategory};
use crate::constants::parts::Part;
use crate::game::{
    attack_power_spec, carry_capacity_spec, dismantle_power_spec, harvest_deposit_power_spec,
    harvest_mineral_power_spec, harvest_power_spec, heal_power_spec, move_cost_plain,
    move_cost_plain_spec, move_cost_road, move_cost_road_spec, move_power_spec,
    ranged_attack_power_spec, ranged_heal_power_spec,
};
use crate::helpers::functions::{ceiling_quotient, lemma_ceiling_quotient_is_least};

verus! {

/// Errors that can occur when validating the input to construct a PartsSummary.
#[derive(Debug, PartialEq, Eq, Copy, Clone, Structural)]
pub enum PartsSummaryValidationError {
    /// The number of boosts cannot be more than the number of parts
    TooManyBoosts,
    /// The number of parts cannot be more than 50 (the limit for a creep body)
    TooManyParts,
}

/// Encapsulates a number of parts, as well as a number of boosts of each tier.
#[derive(Debug, PartialEq, Eq, Copy, Clone, Structural)]
pub struct PartsSummary {
    num_parts: usize,
    num_t1_boosts: usize,
    num_t2_boosts: usize,
    num_t3_boosts: usize,
}

/// The numbers that a parts summary holds.
pub struct PartsSummaryView {
    /// The number of parts in total.
    pub num_parts: nat,
    /// The number of parts with a Tier 1 boost.
    pub num_t1_boosts: nat,
    /// The number of parts with a Tier 2 boost.
    pub num_t2_boosts: nat,
    /// The number of parts with a Tier 3 boost.
    pub num_t3_boosts: nat,
}

impl PartsSummaryView {
    /// Whether the numbers describe a creep body: no more boosts than
    /// parts, and no more than 50 parts.
    pub open spec fn is_valid(self) -> bool {
        self.num_t1_boosts + self.num_t2_boosts + self.num_t3_boosts <= self.num_parts <= 50
    }

    /// The number of parts without a boost.
    pub open spec fn num_unboosted(self) -> int {
        self.num_parts - (self.num_t1_boosts + self.num_t2_boosts + self.num_t3_boosts)
    }
}

impl View for PartsSummary {
    type V = PartsSummaryView;

    closed spec fn view(&self) -> PartsSummaryView {
        PartsSummaryView {
            num_parts: self.num_parts as nat,
            num_t1_boosts: self.num_t1_boosts as nat,
            num_t2_boosts: self.num_t2_boosts as nat,
            num_t3_boosts: self.num_t3_boosts as nat,
        }
    }
}

impl PartsSummary {
    /// Create a new PartsSummary while validating the input.
    pub fn checked_new(
        num_parts: usize,
        num_t1_boosts: usize,
        num_t2_boosts: usize,
        num_t3_boosts: usize,
    ) -> (res: Result<PartsSummary, PartsSummaryValidationError>)
        ensures
            res matches Ok(summary) ==> summary@ == (PartsSummaryView {
                num_parts: num_parts as nat,
                num_t1_boosts: num_t1_boosts as nat,
                num_t2_boosts: num_t2_boosts as nat,
                num_t3_boosts: num_t3_boosts as nat,
            }) && summary@.is_valid(),
            res == Err::<PartsSummary, _>(PartsSummaryValidationError::TooManyParts) <==> num_parts
                > 50,
            res == Err::<PartsSummary, _>(PartsSummaryValidationError::TooManyBoosts)
                <==> num_parts <= 50 && num_t1_boosts + num_t2_boosts + num_t3_boosts > num_parts,
    {
        if num_parts > 50 {
            return Err(PartsSummaryValidationError::TooManyParts);
        }
        // Each partial sum is compared before the next boost count is added, so that
        // the total cannot overflow

        if num_t1_boosts > num_parts || num_t2_boosts > num_parts - num_t1_boosts || num_t3_boosts
            > num_parts - num_t1_boosts - num_t2_boosts {
            Err(PartsSummaryValidationError::TooManyBoosts)
        } else {
            Ok(PartsSummary { num_parts, num_t1_boosts, num_t2_boosts, num_t3_boosts })
        }
    }

    /// Create a new PartsSummary without validating the input.
    ///
    /// The number of unboosted parts can only be asked of a summary whose numbers describe a
    /// creep body.
    pub fn unchecked_new(
        num_parts: usize,
        num_t1_boosts: usize,
        num_t2_boosts: usize,
        num_t3_boosts: usize,
    ) -> (summary: PartsSummary)
        ensures
            summary@ == (PartsSummaryView {
                num_parts: num_parts as nat,
                num_t1_boosts: num_t1_boosts as nat,
                num_t2_boosts: num_t2_boosts as nat,
                num_t3_boosts: num_t3_boosts as nat,
            }),
    {
        PartsSummary { num_parts, num_t1_boosts, num_t2_boosts, num_t3_boosts }
    }

    /// Returns the number of parts total
    pub fn num_parts(&self) -> (count: usize)
        ensures
            count == self@.num_parts,
    {
        self.num_parts
    }

    /// Returns the number of unboosted parts
    pub fn num_unboosted_parts(&self) -> (count: usize)
        requires
            self@.is_valid(),
        ensures
            count == self@.num_unboosted(),
    {
        self.num_parts - (self.num_t1_boosts + self.num_t2_boosts + self.num_t3_boosts)
    }

    /// Returns the number of Tier 1 boosted parts
    pub fn num_t1_parts(&self) -> (count: usize)
        ensures
            count == self@.num_t1_boosts,
    {
        self.num_t1_boosts
    }

    /// Returns the number of Tier 2 boosted parts
    pub fn num_t2_parts(&self) -> (count: usize)
        ensures
            count == self@.num_t2_boosts,
    {
        self.num_t2_boosts
    }

    /// Returns the number of Tier 3 boosted parts
    pub fn num_t3_parts(&self) -> (count: usize)
        ensures
            count == self@.num_t3_boosts,
    {
        self.num_t3_boosts
    }
}

/// Errors resulting from part amount calculations.
#[derive(Debug, PartialEq, Eq, Copy, Clone, Structural)]
pub enum PartsNeededCalculationError {
    /// The target amount requires more parts than can be put onto a creep body
    TooManyNeededParts,
}

/// What a parts calculation is given: the amount to reach, and the amount
/// that one part gives without a boost and with a boost of each tier.
pub struct CalculationInput {
    /// The amount that the parts together must reach.
    pub target_amount: nat,
    /// The amount that one unboosted part gives.
    pub unboosted_power: nat,
    /// The amount that one part with a Tier 1 boost gives.
    pub t1_power: nat,
    /// The amount that one part with a Tier 2 boost gives.
    pub t2_power: nat,
    /// The amount that one part with a Tier 3 boost gives.
    pub t3_power: nat,
}

/// How many parts of a body have no boost and a boost of each tier.
pub struct PartCounts {
    /// The number of parts without a boost.
    pub unboosted: nat,
    /// The number of parts with a Tier 1 boost.
    pub t1: nat,
    /// The number of parts with a Tier 2 boost.
    pub t2: nat,
    /// The number of parts with a Tier 3 boost.
    pub t3: nat,
}

impl PartCounts {
    /// The number of parts in total.
    pub open spec fn total(self) -> nat {
        self.unboosted + self.t1 + self.t2 + self.t3
    }

    /// `count` parts that all have the same tier, 0 standing for no boost.
    pub open spec fn uniform(count: nat, tier: nat) -> PartCounts {
        PartCounts {
            unboosted: if tier == 0 {
                count
            } else {
                0
            },
            t1: if tier == 1 {
                count
            } else {
                0
            },
            t2: if tier == 2 {
                count
            } else {
                0
            },
            t3: if tier >= 3 {
                count
            } else {
                0
            },
        }
    }

    /// The highest tier that any part has, 0 if no part has a boost.
    pub open spec fn highest_tier(self) -> nat {
        if self.t3 > 0 {
            3
        } else if self.t2 > 0 {
            2
        } else if self.t1 > 0 {
            1
        } else {
            0
        }
    }

    /// The counts as a parts summary holds them.
    pub open spec fn summary(self) -> PartsSummaryView {
        PartsSummaryView {
            num_parts: self.total(),
            num_t1_boosts: self.t1,
            num_t2_boosts: self.t2,
            num_t3_boosts: self.t3,
        }
    }

    /// One step of the greedy policy: the lowest-tier part that is below
    /// `max_tier` is raised by one tier; if every part is at `max_tier`, one
    /// unboosted part is added.
    pub open spec fn upgraded_or_grown(self, max_tier: nat) -> PartCounts {
        if max_tier > 0 && self.unboosted > 0 {
            PartCounts { unboosted: (self.unboosted - 1) as nat, t1: self.t1 + 1, ..self }
        } else if max_tier > 1 && self.t1 > 0 {
            PartCounts { t1: (self.t1 - 1) as nat, t2: self.t2 + 1, ..self }
        } else if max_tier > 2 && self.t2 > 0 {
            PartCounts { t2: (self.t2 - 1) as nat, t3: self.t3 + 1, ..self }
        } else {
            PartCounts { unboosted: self.unboosted + 1, ..self }
        }
    }
}

/// The body of parts that all have the same tier, given the least number of
/// parts of each tier that reaches the target.
///
/// With a choice of one tier, every part has that tier. With a choice up to
/// a tier, the parts have the lowest tier, up to that one, of which 50 parts
/// or fewer reach the target. There is no such body if it would have more
/// than 50 parts.
pub open spec fn uniform_choice(
    choice: BoostTierChoice,
    unboosted_needed: nat,
    t1_needed: nat,
    t2_needed: nat,
    t3_needed: nat,
) -> Option<PartCounts> {
    let max_tier = choice.max_tier();
    let (count, tier) = if choice.is_exact() {
        (
            if max_tier == 0 {
                unboosted_needed
            } else if max_tier == 1 {
                t1_needed
            } else if max_tier == 2 {
                t2_needed
            } else {
                t3_needed
            },
            max_tier,
        )
    } else if unboosted_needed <= 50 {
        (unboosted_needed, 0nat)
    } else if t1_needed <= 50 || max_tier == 1 {
        (t1_needed, 1nat)
    } else if t2_needed <= 50 || max_tier == 2 {
        (t2_needed, 2nat)
    } else {
        (t3_needed, 3nat)
    };
    if count <= 50 {
        Some(PartCounts::uniform(count, tier))
    } else {
        None
    }
}

/// The counts that the greedy policy has reached after a number of steps
/// from an empty body.
pub open spec fn greedy_counts(steps: nat, max_tier: nat) -> PartCounts
    decreases steps,
{
    if steps == 0 {
        PartCounts { unboosted: 0, t1: 0, t2: 0, t3: 0 }
    } else {
        greedy_counts((steps - 1) as nat, max_tier).upgraded_or_grown(max_tier)
    }
}

impl CalculationInput {
    /// The amount that one part of a tier gives, 0 standing for no boost.
    pub open spec fn power_of_tier(self, tier: nat) -> nat {
        if tier == 0 {
            self.unboosted_power
        } else if tier == 1 {
            self.t1_power
        } else if tier == 2 {
            self.t2_power
        } else {
            self.t3_power
        }
    }

    /// Whether a part of any tier gives something.
    pub open spec fn has_positive_powers(self) -> bool {
        self.unboosted_power > 0 && self.t1_power > 0 && self.t2_power > 0 && self.t3_power > 0
    }

    /// Whether a part gives no less with a boost of a higher tier.
    pub open spec fn has_rising_powers(self) -> bool {
        self.unboosted_power <= self.t1_power <= self.t2_power <= self.t3_power
    }

    /// The amount that the parts of a body give together.
    pub open spec fn power_of(self, counts: PartCounts) -> nat {
        self.unboosted_power * counts.unboosted + self.t1_power * counts.t1 + self.t2_power
            * counts.t2 + self.t3_power * counts.t3
    }

    /// The least number of parts of one tier that together reach the target.
    pub open spec fn parts_needed_at(self, tier: nat) -> nat {
        ceiling_quotient(self.target_amount, self.power_of_tier(tier))
    }

    /// The body of parts that all have the same tier: with a choice of one
    /// tier, the least number of parts of that tier that reaches the
    /// target; with a choice up to a tier, the least number of parts of the
    /// lowest tier of which 50 parts or fewer reach it.
    pub open spec fn uniform_solution(self, choice: BoostTierChoice) -> Option<PartCounts> {
        uniform_choice(
            choice,
            self.parts_needed_at(0),
            self.parts_needed_at(1),
            self.parts_needed_at(2),
            self.parts_needed_at(3),
        )
    }

    /// Whether the greedy policy reaches the target after `steps` steps and
    /// not before.
    pub open spec fn is_first_sufficient_step(self, max_tier: nat, steps: nat) -> bool {
        &&& self.power_of(greedy_counts(steps, max_tier)) >= self.target_amount
        &&& forall|earlier: nat|
            earlier < steps ==> self.power_of(#[trigger] greedy_counts(earlier, max_tier))
                < self.target_amount
    }

    /// Whether the greedy policy first reaches the target after `steps`
    /// steps, with a body of no more than 50 parts.
    pub open spec fn is_greedy_answer(self, max_tier: nat, steps: nat) -> bool {
        self.is_first_sufficient_step(max_tier, steps) && greedy_counts(steps, max_tier).total()
            <= 50
    }

    /// The first body with which the greedy policy reaches the target, if
    /// that has no more than 50 parts.
    pub open spec fn greedy_solution(self, max_tier: nat) -> Option<PartCounts> {
        if exists|steps: nat| self.is_greedy_answer(max_tier, steps) {
            Some(greedy_counts(choose|steps: nat| self.is_greedy_answer(max_tier, steps), max_tier))
        } else {
            None
        }
    }

    /// The body that the selection criteria ask for.
    ///
    /// With a choice of one tier, every part has that tier. With a choice up
    /// to a tier, the parts all have the same tier unless partial boosts are
    /// allowed, and then the greedy policy decides.
    pub open spec fn solution(self, config: BoostSelectionConfig) -> Option<PartCounts> {
        if config.boost_tier_choice.is_exact() || !config.allow_partial_boosts {
            self.uniform_solution(config.boost_tier_choice)
        } else {
            self.greedy_solution(config.boost_tier_choice.max_tier())
        }
    }
}

/// Holds what a parts calculation works on: the target amount, the amounts
/// that one part gives at each tier, and the amount that the parts counted
/// so far give.
#[derive(Debug, PartialEq, Eq, Copy, Clone)]
pub struct IterativeCalculationParams {
    target_amount: u32,
    unboosted_power: u32,
    t1_power: u32,
    t2_power: u32,
    t3_power: u32,
    current_power: u64,
}

impl View for IterativeCalculationParams {
    type V = CalculationInput;

    closed spec fn view(&self) -> CalculationInput {
        CalculationInput {
            target_amount: self.target_amount as nat,
            unboosted_power: self.unboosted_power as nat,
            t1_power: self.t1_power as nat,
            t2_power: self.t2_power as nat,
            t3_power: self.t3_power as nat,
        }
    }
}

/// The amount that `count` parts give, each of which gives `power`.
fn power_of_parts(power: u32, count: usize) -> (total: u64)
    requires
        count <= 51,
    ensures
        total == power * count,
        total <= 51 * u32::MAX,
{
    assert(power * count <= 51 * u32::MAX) by (nonlinear_arith)
        requires
            power <= u32::MAX,
            count <= 51,
    ;
    (power as u64) * (count as u64)
}

impl IterativeCalculationParams {
    /// The amount that the parts counted so far give.
    pub closed spec fn current_power(&self) -> nat {
        self.current_power as nat
    }

    /// Creates the parameters for a target amount and the amounts that one part gives
    /// unboosted and with a boost of each tier. No part is counted yet.
    pub fn new_u32(
        target_amount: u32,
        unboosted_power: u32,
        t1_power: u32,
        t2_power: u32,
        t3_power: u32,
    ) -> (params: IterativeCalculationParams)
        ensures
            params@ == (CalculationInput {
                target_amount: target_amount as nat,
                unboosted_power: unboosted_power as nat,
                t1_power: t1_power as nat,
                t2_power: t2_power as nat,
                t3_power: t3_power as nat,
            }),
            params.current_power() == 0,
    {
        IterativeCalculationParams {
            target_amount,
            unboosted_power,
            t1_power,
            t2_power,
            t3_power,
            current_power: 0,
        }
    }

    fn current_power_less_than_target_amount(&self) -> (less: bool)
        ensures
            less == (self.current_power() < self@.target_amount),
    {
        self.current_power < self.target_amount as u64
    }

    fn update_current_power_from_boost_counts(
        &mut self,
        unboosted: usize,
        t1_boosts: usize,
        t2_boosts: usize,
        t3_boosts: usize,
    )
        requires
            unboosted <= 51,
            t1_boosts <= 51,
            t2_boosts <= 51,
            t3_boosts <= 51,
        ensures
            final(self)@ == old(self)@,
            final(self).current_power() == old(self)@.power_of(
                PartCounts {
                    unboosted: unboosted as nat,
                    t1: t1_boosts as nat,
                    t2: t2_boosts as nat,
                    t3: t3_boosts as nat,
                },
            ),
    {
        self.current_power = power_of_parts(self.unboosted_power, unboosted) + power_of_parts(
            self.t1_power,
            t1_boosts,
        ) + power_of_parts(self.t2_power, t2_boosts) + power_of_parts(self.t3_power, t3_boosts);
    }

    /// The least number of unboosted parts that reach the target amount.
    pub fn num_parts_needed_unboosted(&self) -> (count: usize)
        requires
            self@.unboosted_power > 0,
        ensures
            count == self@.parts_needed_at(0),
    {
        num_parts_needed_u32(self.target_amount, self.unboosted_power)
    }

    /// The least number of parts with a Tier 1 boost that reach the target amount.
    pub fn num_parts_needed_t1(&self) -> (count: usize)
        requires
            self@.t1_power > 0,
        ensures
            count == self@.parts_needed_at(1),
    {
        num_parts_needed_u32(self.target_amount, self.t1_power)
    }

    /// The least number of parts with a Tier 2 boost that reach the target amount.
    pub fn num_parts_needed_t2(&self) -> (count: usize)
        requires
            self@.t2_power > 0,
        ensures
            count == self@.parts_needed_at(2),
    {
        num_parts_needed_u32(self.target_amount, self.t2_power)
    }

    /// The least number of parts with a Tier 3 boost that reach the target amount.
    pub fn num_parts_needed_t3(&self) -> (count: usize)
        requires
            self@.t3_power > 0,
        ensures
            count == self@.parts_needed_at(3),
    {
        num_parts_needed_u32(self.target_amount, self.t3_power)
    }
}

/// Helper function that calculates the number of parts needed to have a power of at least the
/// specified amount.
pub fn num_parts_needed_u32(amount: u32, power: u32) -> (count: usize)
    requires
        power > 0,
    ensures
        count == ceiling_quotient(amount as nat, power as nat),
        count * power >= amount,
        count > 0 ==> (count - 1) * power < amount,
{
    proof {
        let least = ceiling_quotient(amount as nat, power as nat);
        lemma_ceiling_quotient_is_least(amount as nat, power as nat, least);
        if least > 0 {
            lemma_ceiling_quotient_is_least(amount as nat, power as nat, (least - 1) as nat);
        }
        assert(least <= amount) by {
            lemma_ceiling_quotient_is_least(amount as nat, power as nat, amount as nat);
            assert(amount * power >= amount) by (nonlinear_arith)
                requires
                    power >= 1,
            ;
        }
    }
    amount.div_ceil(power) as usize
}

/// What one unboosted part gives of a capability; `None` for the
/// capabilities that are measured in fractions: building, repairing,
/// upgrading a controller, and absorbing damage.
pub open spec fn unboosted_power_spec(category: BoostCategory) -> Option<nat> {
    match category {
        BoostCategory::HarvestEnergy => Some(harvest_power_spec() as nat),
        BoostCategory::HarvestMineral => Some(harvest_mineral_power_spec() as nat),
        BoostCategory::HarvestDeposit => Some(harvest_deposit_power_spec() as nat),
        BoostCategory::Dismantle => Some(dismantle_power_spec() as nat),
        BoostCategory::Attack => Some(attack_power_spec() as nat),
        BoostCategory::RangedAttack => Some(ranged_attack_power_spec() as nat),
        BoostCategory::RangedMassAttack => Some(ranged_mass_attack_power_at_distance_spec(1) as nat),
        BoostCategory::Heal => Some(heal_power_spec() as nat),
        BoostCategory::RangedHeal => Some(ranged_heal_power_spec() as nat),
        BoostCategory::Carry => Some(carry_capacity_spec() as nat),
        BoostCategory::Move => Some(move_power_spec() as nat),
        BoostCategory::Build
        | BoostCategory::Repair
        | BoostCategory::UpgradeController
        | BoostCategory::Tough => None,
    }
}

/// What one part gives of a capability with a boost of the given tier, 0
/// standing for no boost: what an unboosted part gives, times the factor of
/// the boost. Nothing for the capabilities that are measured in fractions.
pub open spec fn power_spec(category: BoostCategory, tier: nat) -> nat {
    match unboosted_power_spec(category) {
        None => 0,
        Some(unboosted) => if tier == 0 {
            unboosted
        } else {
            boost_factor(
                Some(category.abstract_boosts_spec()[tier - 1]),
                category.abstract_boosts_spec(),
            ) * unboosted
        },
    }
}

/// What a calculation for an amount of a capability is given.
pub open spec fn calculation_input(category: BoostCategory, amount: u32) -> CalculationInput {
    CalculationInput {
        target_amount: amount as nat,
        unboosted_power: power_spec(category, 0),
        t1_power: power_spec(category, 1),
        t2_power: power_spec(category, 2),
        t3_power: power_spec(category, 3),
    }
}

/// The number of parts of a body that are no move parts.
pub open spec fn non_move_parts(body: Seq<Part>) -> nat
    decreases body.len(),
{
    if body.len() == 0 {
        0
    } else {
        non_move_parts(body.drop_last()) + if body.last() == Part::Move {
            0nat
        } else {
            1nat
        }
    }
}

/// For every capability that is measured in whole numbers, a part of any
/// tier gives something, and no less with a boost of a higher tier.
pub proof fn lemma_category_powers_rise(category: BoostCategory, amount: u32)
    requires
        unboosted_power_spec(category) is Some,
    ensures
        calculation_input(category, amount).has_positive_powers(),
        calculation_input(category, amount).has_rising_powers(),
        calculation_input(category, amount).t3_power <= 350,
{
    let boosts = category.abstract_boosts_spec();
    assert(boosts@.contains(boosts[0]));
    assert(boosts@.contains(boosts[1]));
    assert(boosts@.contains(boosts[2]));
    let unboosted = unboosted_power_spec(category).unwrap();
    let t1_factor = boost_factor(Some(boosts[0]), boosts);
    let t2_factor = boost_factor(Some(boosts[1]), boosts);
    let t3_factor = boost_factor(Some(boosts[2]), boosts);
    assert(1 <= t1_factor <= t2_factor <= t3_factor <= 7);
    assert(1 <= unboosted <= 50);
    assert(unboosted <= t1_factor * unboosted <= t2_factor * unboosted <= t3_factor * unboosted
        <= 350) by (nonlinear_arith)
        requires
            1 <= t1_factor <= t2_factor <= t3_factor <= 7,
            1 <= unboosted <= 50,
    ;
}

/// Generates an array of single-part power amounts for each of the 4 boost tiers applied to
/// the harvest energy action.
///
/// Return array structure is [unboosted_power, t1_power, t2_power, t3_power].
fn power_array_for_harvest_energy_amount(part_specs: &[PartSpec; 4]) -> (power_array: [u32; 4])
    ensures
        forall|i: int|
            0 <= i < 4 ==> power_array[i] == part_specs[i].amount_of(Part::Work, harvest_power_spec() as nat, BoostCategory::HarvestEnergy.abstract_boosts_spec()),
{
    let mut power_array = [0;4];
    let mut i: usize = 0;
    while i < part_specs.len()
        invariant
            i <= 4,
            forall|j: int|
                0 <= j < i ==> power_array[j] == part_specs[j].amount_of(Part::Work, harvest_power_spec() as nat, BoostCategory::HarvestEnergy.abstract_boosts_spec()),
        decreases 4 - i,
    {
        power_array[i] = part_specs[i].get_harvest_energy_amount();
        i += 1;
    }
    power_array
}

/// Generates an array of single-part power amounts for each of the 4 boost tiers applied to
/// the harvest mineral action.
///
/// Return array structure is [unboosted_power, t1_power, t2_power, t3_power].
fn power_array_for_harvest_mineral_amount(part_specs: &[PartSpec; 4]) -> (power_array: [u32; 4])
    ensures
        forall|i: int|
            0 <= i < 4 ==> power_array[i] == part_specs[i].amount_of(Part::Work, harvest_mineral_power_spec() as nat, BoostCategory::HarvestMineral.abstract_boosts_spec()),
{
    let mut power_array = [0;4];
    let mut i: usize = 0;
    while i < part_specs.len()
        invariant
            i <= 4,
            forall|j: int|
                0 <= j < i ==> power_array[j] == part_specs[j].amount_of(Part::Work, harvest_mineral_power_spec() as nat, BoostCategory::HarvestMineral.abstract_boosts_spec()),
        decreases 4 - i,
    {
        power_array[i] = part_specs[i].get_harvest_mineral_amount();
        i += 1;
    }
    power_array
}

/// Generates an array of single-part power amounts for each of the 4 boost tiers applied to
/// the harvest deposit action.
///
/// Return array structure is [unboosted_power, t1_power, t2_power, t3_power].
fn power_array_for_harvest_deposit_amount(part_specs: &[PartSpec; 4]) -> (power_array: [u32; 4])
    ensures
        forall|i: int|
            0 <= i < 4 ==> power_array[i] == part_specs[i].amount_of(Part::Work, harvest_deposit_power_spec() as nat, BoostCategory::HarvestDeposit.abstract_boosts_spec()),
{
    let mut power_array = [0;4];
    let mut i: usize = 0;
    while i < part_specs.len()
        invariant
            i <= 4,
            forall|j: int|
                0 <= j < i ==> power_array[j] == part_specs[j].amount_of(Part::Work, harvest_deposit_power_spec() as nat, BoostCategory::HarvestDeposit.abstract_boosts_spec()),
        decreases 4 - i,
    {
        power_array[i] = part_specs[i].get_harvest_deposit_amount();
        i += 1;
    }
    power_array
}

/// Generates an array of single-part power amounts for each of the 4 boost tiers applied to
/// the dismantle action.
///
/// Return array structure is [unboosted_power, t1_power, t2_power, t3_power].
fn power_array_for_dismantle_damage(part_specs: &[PartSpec; 4]) -> (power_array: [u32; 4])
    ensures
        forall|i: int|
            0 <= i < 4 ==> power_array[i] == part_specs[i].amount_of(Part::Work, dismantle_power_spec() as nat, BoostCategory::Dismantle.abstract_boosts_spec()),
{
    let mut power_array = [0;4];
    let mut i: usize = 0;
    while i < part_specs.len()
        invariant
            i <= 4,
            forall|j: int|
                0 <= j < i ==> power_array[j] == part_specs[j].amount_of(Part::Work, dismantle_power_spec() as nat, BoostCategory::Dismantle.abstract_boosts_spec()),
        decreases 4 - i,
    {
        power_array[i] = part_specs[i].get_dismantle_damage();
        i += 1;
    }
    power_array
}

/// Generates an array of single-part power amounts for each of the 4 boost tiers applied to
/// the attack action.
///
/// Return array structure is [unboosted_power, t1_power, t2_power, t3_power].
fn power_array_for_attack_damage(part_specs: &[PartSpec; 4]) -> (power_array: [u32; 4])
    ensures
        forall|i: int|
            0 <= i < 4 ==> power_array[i] == part_specs[i].amount_of(Part::Attack, attack_power_spec() as nat, BoostCategory::Attack.abstract_boosts_spec()),
{
    let mut power_array = [0;4];
    let mut i: usize = 0;
    while i < part_specs.len()
        invariant
            i <= 4,
            forall|j: int|
                0 <= j < i ==> power_array[j] == part_specs[j].amount_of(Part::Attack, attack_power_spec() as nat, BoostCategory::Attack.abstract_boosts_spec()),
        decreases 4 - i,
    {
        power_array[i] = part_specs[i].get_attack_damage();
        i += 1;
    }
    power_array
}

/// Generates an array of single-part power amounts for each of the 4 boost tiers applied to
/// the ranged attack action.
///
/// Return array structure is [unboosted_power, t1_power, t2_power, t3_power].
fn power_array_for_ranged_attack_damage(part_specs: &[PartSpec; 4]) -> (power_array: [u32; 4])
    ensures
        forall|i: int|
            0 <= i < 4 ==> power_array[i] == part_specs[i].amount_of(Part::RangedAttack, ranged_attack_power_spec() as nat, BoostCategory::RangedAttack.abstract_boosts_spec()),
{
    let mut power_array = [0;4];
    let mut i: usize = 0;
    while i < part_specs.len()
        invariant
            i <= 4,
            forall|j: int|
                0 <= j < i ==> power_array[j] == part_specs[j].amount_of(Part::RangedAttack, ranged_attack_power_spec() as nat, BoostCategory::RangedAttack.abstract_boosts_spec()),
        decreases 4 - i,
    {
        power_array[i] = part_specs[i].get_ranged_attack_damage();
        i += 1;
    }
    power_array
}

/// Generates an array of single-part power amounts for each of the 4 boost tiers applied to
/// the ranged mass attack action at range 1 to a single target.
///
/// Return array structure is [unboosted_power, t1_power, t2_power, t3_power].
fn power_array_for_ranged_mass_attack_damage(part_specs: &[PartSpec; 4]) -> (power_array: [u32; 4])
    ensures
        forall|i: int|
            0 <= i < 4 ==> power_array[i] == part_specs[i].amount_of(Part::RangedAttack, ranged_mass_attack_power_at_distance_spec(1) as nat, BoostCategory::RangedMassAttack.abstract_boosts_spec()),
{
    let mut power_array = [0;4];
    let mut i: usize = 0;
    while i < part_specs.len()
        invariant
            i <= 4,
            forall|j: int|
                0 <= j < i ==> power_array[j] == part_specs[j].amount_of(Part::RangedAttack, ranged_mass_attack_power_at_distance_spec(1) as nat, BoostCategory::RangedMassAttack.abstract_boosts_spec()),
        decreases 4 - i,
    {
        power_array[i] = part_specs[i].get_ranged_mass_attack_damage_at_distance_single_target(1);
        i += 1;
    }
    power_array
}

/// Generates an array of single-part power amounts for each of the 4 boost tiers applied to
/// the heal action.
///
/// Return array structure is [unboosted_power, t1_power, t2_power, t3_power].
fn power_array_for_heal_amount(part_specs: &[PartSpec; 4]) -> (power_array: [u32; 4])
    ensures
        forall|i: int|
            0 <= i < 4 ==> power_array[i] == part_specs[i].amount_of(Part::Heal, heal_power_spec() as nat, BoostCategory::Heal.abstract_boosts_spec()),
{
    let mut power_array = [0;4];
    let mut i: usize = 0;
    while i < part_specs.len()
        invariant
            i <= 4,
            forall|j: int|
                0 <= j < i ==> power_array[j] == part_specs[j].amount_of(Part::Heal, heal_power_spec() as nat, BoostCategory::Heal.abstract_boosts_spec()),
        decreases 4 - i,
    {
        power_array[i] = part_specs[i].get_heal_amount();
        i += 1;
    }
    power_array
}

/// Generates an array of single-part power amounts for each of the 4 boost tiers applied to
/// the ranged heal action.
///
/// Return array structure is [unboosted_power, t1_power, t2_power, t3_power].
fn power_array_for_ranged_heal_amount(part_specs: &[PartSpec; 4]) -> (power_array: [u32; 4])
    ensures
        forall|i: int|
            0 <= i < 4 ==> power_array[i] == part_specs[i].amount_of(Part::Heal, ranged_heal_power_spec() as nat, BoostCategory::RangedHeal.abstract_boosts_spec()),
{
    let mut power_array = [0;4];
    let mut i: usize = 0;
    while i < part_specs.len()
        invariant
            i <= 4,
            forall|j: int|
                0 <= j < i ==> power_array[j] == part_specs[j].amount_of(Part::Heal, ranged_heal_power_spec() as nat, BoostCategory::RangedHeal.abstract_boosts_spec()),
        decreases 4 - i,
    {
        power_array[i] = part_specs[i].get_ranged_heal_amount();
        i += 1;
    }
    power_array
}

/// Generates an array of single-part power amounts for each of the 4 boost tiers applied to
/// carrying capacity.
///
/// Return array structure is [unboosted_power, t1_power, t2_power, t3_power].
fn power_array_for_carry_capacity(part_specs: &[PartSpec; 4]) -> (power_array: [u32; 4])
    ensures
        forall|i: int|
            0 <= i < 4 ==> power_array[i] == part_specs[i].amount_of(Part::Carry, carry_capacity_spec() as nat, BoostCategory::Carry.abstract_boosts_spec()),
{
    let mut power_array = [0;4];
    let mut i: usize = 0;
    while i < part_specs.len()
        invariant
            i <= 4,
            forall|j: int|
                0 <= j < i ==> power_array[j] == part_specs[j].amount_of(Part::Carry, carry_capacity_spec() as nat, BoostCategory::Carry.abstract_boosts_spec()),
        decreases 4 - i,
    {
        power_array[i] = part_specs[i].get_carry_capacity();
        i += 1;
    }
    power_array
}

/// Generates an array of single-part power amounts for each of the 4 boost tiers applied to
/// the fatigue reduction of move parts.
///
/// Return array structure is [unboosted_power, t1_power, t2_power, t3_power].
fn power_array_for_fatigue_reduction(part_specs: &[PartSpec; 4]) -> (power_array: [u32; 4])
    ensures
        forall|i: int|
            0 <= i < 4 ==> power_array[i] == part_specs[i].fatigue_reduction_spec(),
{
    let mut power_array = [0;4];
    let mut i: usize = 0;
    while i < part_specs.len()
        invariant
            i <= 4,
            forall|j: int|
                0 <= j < i ==> power_array[j] == part_specs[j].fatigue_reduction_spec(),
        decreases 4 - i,
    {
        power_array[i] = part_specs[i].get_fatigue_reduction();
        i += 1;
    }
    power_array
}

/// Returns an array of the powers of individual parts at each of the 4 boost levels.
///
/// Return array structure is [unboosted_power, t1_power, t2_power, t3_power];
///
/// Returns Some if the capability is measured in whole numbers, None otherwise;
pub fn u32_parts_power_for_boost_category(category: &BoostCategory) -> (powers: Option<[u32; 4]>)
    ensures
        powers is Some <==> unboosted_power_spec(*category) is Some,
        powers matches Some(power_array) ==> forall|tier: nat|
            tier < 4 ==> power_array[tier as int] == #[trigger] power_spec(*category, tier),
{
    let boosts_array = category.get_abstract_boosts();
    if AbstractBoost::has_f32_multiplier(&boosts_array[0]) {
        None
    } else {
        let part = category.get_associated_part();

        let unboosted_part = PartSpec::new_unboosted_part(part);
        let t1_part = PartSpec::new_boosted_part(part, boosts_array[0]);
        let t2_part = PartSpec::new_boosted_part(part, boosts_array[1]);
        let t3_part = PartSpec::new_boosted_part(part, boosts_array[2]);

        let parts_array = [unboosted_part, t1_part, t2_part, t3_part];

        let power_array = match category {
            BoostCategory::HarvestEnergy => power_array_for_harvest_energy_amount(&parts_array),
            BoostCategory::HarvestMineral => power_array_for_harvest_mineral_amount(&parts_array),
            BoostCategory::HarvestDeposit => power_array_for_harvest_deposit_amount(&parts_array),
            BoostCategory::Dismantle => power_array_for_dismantle_damage(&parts_array),
            BoostCategory::Attack => power_array_for_attack_damage(&parts_array),
            BoostCategory::RangedAttack => power_array_for_ranged_attack_damage(&parts_array),
            BoostCategory::RangedMassAttack => power_array_for_ranged_mass_attack_damage(&parts_array),
            BoostCategory::Heal => power_array_for_heal_amount(&parts_array),
            BoostCategory::RangedHeal => power_array_for_ranged_heal_amount(&parts_array),
            BoostCategory::Carry => power_array_for_carry_capacity(&parts_array),
            BoostCategory::Move => power_array_for_fatigue_reduction(&parts_array),
            _ => return None,
        };
        proof {
            assert forall|tier: nat| tier < 4 implies power_array[tier as int]
                == #[trigger] power_spec(*category, tier) by {
                assert(parts_array[tier as int].part == part);
            }
        }

        Some(power_array)
    }
}

/// Calculates the Work part configuration necessary to harvest a specified amount of energy per tick.
///
/// If the boost configuration mandates a specific tier of boost, every part has that tier and
/// the number of body parts is minimized.
///
/// If the boost configuration allows for dynamic tier selection, the parts all have the lowest
/// sufficient tier unless partial boosts are allowed, in which case the boost tier of each part
/// is maximized before an additional part is added.
///
/// The returned number of body parts will total to 50 or less.
pub fn parts_to_harvest_energy(amount: u32, boost_config: &BoostSelectionConfig) -> (res: Result<
    PartsSummary,
    PartsNeededCalculationError,
>)
    ensures
        res is Ok <==> calculation_input(BoostCategory::HarvestEnergy, amount).solution(*boost_config)
            is Some,
        res matches Ok(summary) ==> summary@ == calculation_input(
            BoostCategory::HarvestEnergy,
            amount,
        ).solution(*boost_config).unwrap().summary(),
        res matches Err(error) ==> error == PartsNeededCalculationError::TooManyNeededParts,
{
    parts_to_action_inner_wrapper_u32(BoostCategory::HarvestEnergy, amount, boost_config)
}

/// Calculates the Work part configuration necessary to harvest a specified amount of minerals per tick.
///
/// If the boost configuration mandates a specific tier of boost, every part has that tier and
/// the number of body parts is minimized.
///
/// If the boost configuration allows for dynamic tier selection, the parts all have the lowest
/// sufficient tier unless partial boosts are allowed, in which case the boost tier of each part
/// is maximized before an additional part is added.
///
/// The returned number of body parts will total to 50 or less.
pub fn parts_to_harvest_mineral(amount: u32, boost_config: &BoostSelectionConfig) -> (res: Result<
    PartsSummary,
    PartsNeededCalculationError,
>)
    ensures
        res is Ok <==> calculation_input(BoostCategory::HarvestMineral, amount).solution(*boost_config)
            is Some,
        res matches Ok(summary) ==> summary@ == calculation_input(
            BoostCategory::HarvestMineral,
            amount,
        ).solution(*boost_config).unwrap().summary(),
        res matches Err(error) ==> error == PartsNeededCalculationError::TooManyNeededParts,
{
    parts_to_action_inner_wrapper_u32(BoostCategory::HarvestMineral, amount, boost_config)
}

/// Calculates the Work part configuration necessary to harvest a specified amount of deposit resources per tick.
///
/// If the boost configuration mandates a specific tier of boost, every part has that tier and
/// the number of body parts is minimized.
///
/// If the boost configuration allows for dynamic tier selection, the parts all have the lowest
/// sufficient tier unless partial boosts are allowed, in which case the boost tier of each part
/// is maximized before an additional part is added.
///
/// The returned number of body parts will total to 50 or less.
pub fn parts_to_harvest_deposit(amount: u32, boost_config: &BoostSelectionConfig) -> (res: Result<
    PartsSummary,
    PartsNeededCalculationError,
>)
    ensures
        res is Ok <==> calculation_input(BoostCategory::HarvestDeposit, amount).solution(*boost_config)
            is Some,
        res matches Ok(summary) ==> summary@ == calculation_input(
            BoostCategory::HarvestDeposit,
            amount,
        ).solution(*boost_config).unwrap().summary(),
        res matches Err(error) ==> error == PartsNeededCalculationError::TooManyNeededParts,
{
    parts_to_action_inner_wrapper_u32(BoostCategory::HarvestDeposit, amount, boost_config)
}

/// Calculates the Attack part configuration necessary to deal a specified amount of melee damage per tick.
///
/// If the boost configuration mandates a specific tier of boost, every part has that tier and
/// the number of body parts is minimized.
///
/// If the boost configuration allows for dynamic tier selection, the parts all have the lowest
/// sufficient tier unless partial boosts are allowed, in which case the boost tier of each part
/// is maximized before an additional part is added.
///
/// The returned number of body parts will total to 50 or less.
pub fn parts_to_attack(amount: u32, boost_config: &BoostSelectionConfig) -> (res: Result<
    PartsSummary,
    PartsNeededCalculationError,
>)
    ensures
        res is Ok <==> calculation_input(BoostCategory::Attack, amount).solution(*boost_config)
            is Some,
        res matches Ok(summary) ==> summary@ == calculation_input(
            BoostCategory::Attack,
            amount,
        ).solution(*boost_config).unwrap().summary(),
        res matches Err(error) ==> error == PartsNeededCalculationError::TooManyNeededParts,
{
    parts_to_action_inner_wrapper_u32(BoostCategory::Attack, amount, boost_config)
}

/// Calculates the RangedAttack part configuration necessary to deal a specified amount of ranged damage per tick.
///
/// If the boost configuration mandates a specific tier of boost, every part has that tier and
/// the number of body parts is minimized.
///
/// If the boost configuration allows for dynamic tier selection, the parts all have the lowest
/// sufficient tier unless partial boosts are allowed, in which case the boost tier of each part
/// is maximized before an additional part is added.
///
/// The returned number of body parts will total to 50 or less.
pub fn parts_to_ranged_attack(amount: u32, boost_config: &BoostSelectionConfig) -> (res: Result<
    PartsSummary,
    PartsNeededCalculationError,
>)
    ensures
        res is Ok <==> calculation_input(BoostCategory::RangedAttack, amount).solution(*boost_config)
            is Some,
        res matches Ok(summary) ==> summary@ == calculation_input(
            BoostCategory::RangedAttack,
            amount,
        ).solution(*boost_config).unwrap().summary(),
        res matches Err(error) ==> error == PartsNeededCalculationError::TooManyNeededParts,
{
    parts_to_action_inner_wrapper_u32(BoostCategory::RangedAttack, amount, boost_config)
}

/// Calculates the RangedAttack part configuration necessary to deal a specified amount of ranged mass attack damage to a single target at range 1 per tick.
///
/// If the boost configuration mandates a specific tier of boost, every part has that tier and
/// the number of body parts is minimized.
///
/// If the boost configuration allows for dynamic tier selection, the parts all have the lowest
/// sufficient tier unless partial boosts are allowed, in which case the boost tier of each part
/// is maximized before an additional part is added.
///
/// The returned number of body parts will total to 50 or less.
pub fn parts_to_ranged_mass_attack(amount: u32, boost_config: &BoostSelectionConfig) -> (res: Result<
    PartsSummary,
    PartsNeededCalculationError,
>)
    ensures
        res is Ok <==> calculation_input(BoostCategory::RangedMassAttack, amount).solution(*boost_config)
            is Some,
        res matches Ok(summary) ==> summary@ == calculation_input(
            BoostCategory::RangedMassAttack,
            amount,
        ).solution(*boost_config).unwrap().summary(),
        res matches Err(error) ==> error == PartsNeededCalculationError::TooManyNeededParts,
{
    parts_to_action_inner_wrapper_u32(BoostCategory::RangedMassAttack, amount, boost_config)
}

/// Calculates the Heal part configuration necessary to heal a specified amount per tick.
///
/// If the boost configuration mandates a specific tier of boost, every part has that tier and
/// the number of body parts is minimized.
///
/// If the boost configuration allows for dynamic tier selection, the parts all have the lowest
/// sufficient tier unless partial boosts are allowed, in which case the boost tier of each part
/// is maximized before an additional part is added.
///
/// The returned number of body parts will total to 50 or less.
pub fn parts_to_heal(amount: u32, boost_config: &BoostSelectionConfig) -> (res: Result<
    PartsSummary,
    PartsNeededCalculationError,
>)
    ensures
        res is Ok <==> calculation_input(BoostCategory::Heal, amount).solution(*boost_config)
            is Some,
        res matches Ok(summary) ==> summary@ == calculation_input(
            BoostCategory::Heal,
            amount,
        ).solution(*boost_config).unwrap().summary(),
        res matches Err(error) ==> error == PartsNeededCalculationError::TooManyNeededParts,
{
    parts_to_action_inner_wrapper_u32(BoostCategory::Heal, amount, boost_config)
}

/// Calculates the Heal part configuration necessary to heal a specified amount at range > 1 per tick.
///
/// If the boost configuration mandates a specific tier of boost, every part has that tier and
/// the number of body parts is minimized.
///
/// If the boost configuration allows for dynamic tier selection, the parts all have the lowest
/// sufficient tier unless partial boosts are allowed, in which case the boost tier of each part
/// is maximized before an additional part is added.
///
/// The returned number of body parts will total to 50 or less.
pub fn parts_to_ranged_heal(amount: u32, boost_config: &BoostSelectionConfig) -> (res: Result<
    PartsSummary,
    PartsNeededCalculationError,
>)
    ensures
        res is Ok <==> calculation_input(BoostCategory::RangedHeal, amount).solution(*boost_config)
            is Some,
        res matches Ok(summary) ==> summary@ == calculation_input(
            BoostCategory::RangedHeal,
            amount,
        ).solution(*boost_config).unwrap().summary(),
        res matches Err(error) ==> error == PartsNeededCalculationError::TooManyNeededParts,
{
    parts_to_action_inner_wrapper_u32(BoostCategory::RangedHeal, amount, boost_config)
}

/// Calculates the Carry part configuration necessary to carry a specified amount of resources.
///
/// If the boost configuration mandates a specific tier of boost, every part has that tier and
/// the number of body parts is minimized.
///
/// If the boost configuration allows for dynamic tier selection, the parts all have the lowest
/// sufficient tier unless partial boosts are allowed, in which case the boost tier of each part
/// is maximized before an additional part is added.
///
/// The returned number of body parts will total to 50 or less.
pub fn parts_to_carry(amount: u32, boost_config: &BoostSelectionConfig) -> (res: Result<
    PartsSummary,
    PartsNeededCalculationError,
>)
    ensures
        res is Ok <==> calculation_input(BoostCategory::Carry, amount).solution(*boost_config)
            is Some,
        res matches Ok(summary) ==> summary@ == calculation_input(
            BoostCategory::Carry,
            amount,
        ).solution(*boost_config).unwrap().summary(),
        res matches Err(error) ==> error == PartsNeededCalculationError::TooManyNeededParts,
{
    parts_to_action_inner_wrapper_u32(BoostCategory::Carry, amount, boost_config)
}

/// Calculates the Move part configuration necessary to reduce fatigue a specified amount per tick.
///
/// If the boost configuration mandates a specific tier of boost, every part has that tier and
/// the number of body parts is minimized.
///
/// If the boost configuration allows for dynamic tier selection, the parts all have the lowest
/// sufficient tier unless partial boosts are allowed, in which case the boost tier of each part
/// is maximized before an additional part is added.
///
/// The returned number of body parts will total to 50 or less.
pub fn parts_to_reduce_fatigue(amount: u32, boost_config: &BoostSelectionConfig) -> (res: Result<
    PartsSummary,
    PartsNeededCalculationError,
>)
    ensures
        res is Ok <==> calculation_input(BoostCategory::Move, amount).solution(*boost_config)
            is Some,
        res matches Ok(summary) ==> summary@ == calculation_input(
            BoostCategory::Move,
            amount,
        ).solution(*boost_config).unwrap().summary(),
        res matches Err(error) ==> error == PartsNeededCalculationError::TooManyNeededParts,
{
    parts_to_action_inner_wrapper_u32(BoostCategory::Move, amount, boost_config)
}

/// Calculates the Move part configuration necessary to allow the provided body to move "off-road"
/// without generating fatigue every tick.
///
/// Off-road in this context means on plain tiles that do not have a road.
///
/// If the boost configuration mandates a specific tier of boost, every part has that tier and
/// the number of body parts is minimized.
///
/// If the boost configuration allows for dynamic tier selection, the parts all have the lowest
/// sufficient tier unless partial boosts are allowed, in which case the boost tier of each part
/// is maximized before an additional part is added.
///
/// The returned number of body parts will total to 50 or less.
pub fn parts_to_move_offroad(body: &[Part], boost_config: &BoostSelectionConfig) -> (res: Result<
    PartsSummary,
    PartsNeededCalculationError,
>)
    requires
        non_move_parts(body@) * move_cost_plain_spec() <= u32::MAX,
    ensures
        res is Ok <==> calculation_input(
            BoostCategory::Move,
            (non_move_parts(body@) * move_cost_plain_spec()) as u32,
        ).solution(*boost_config) is Some,
        res matches Ok(summary) ==> summary@ == calculation_input(
            BoostCategory::Move,
            (non_move_parts(body@) * move_cost_plain_spec()) as u32,
        ).solution(*boost_config).unwrap().summary(),
        res matches Err(error) ==> error == PartsNeededCalculationError::TooManyNeededParts,
{
    let mut non_move_parts_count: u32 = 0;
    let mut i: usize = 0;
    while i < body.len()
        invariant
            i <= body@.len(),
            non_move_parts_count == non_move_parts(body@.take(i as int)),
            non_move_parts(body@) <= u32::MAX,
        decreases body@.len() - i,
    {
        proof {
            assert(body@.take(i + 1).drop_last() =~= body@.take(i as int));
            lemma_non_move_parts_of_prefix(body@, i + 1);
        }
        match body[i] {
            Part::Move => {},  // Do nothing
            _ => non_move_parts_count += 1,
        };
        i += 1;
    }
    proof {
        assert(body@.take(i as int) =~= body@);
    }
    parts_to_move_offroad_by_parts_count(non_move_parts_count, boost_config)
}

/// Calculates the Move part configuration necessary to allow a particular number of non-Move
/// parts to move "off-road"
/// without generating fatigue every tick.
///
/// Off-road in this context means on plain tiles that do not have a road.
///
/// This method is useful for when you have a count of non-move parts, and don't need/want to
/// provide a slice of Parts.
///
/// If the boost configuration mandates a specific tier of boost, every part has that tier and
/// the number of body parts is minimized.
///
/// If the boost configuration allows for dynamic tier selection, the parts all have the lowest
/// sufficient tier unless partial boosts are allowed, in which case the boost tier of each part
/// is maximized before an additional part is added.
///
/// The returned number of body parts will total to 50 or less.
pub fn parts_to_move_offroad_by_parts_count(
    num_non_move_parts: u32,
    boost_config: &BoostSelectionConfig,
) -> (res: Result<PartsSummary, PartsNeededCalculationError>)
    requires
        num_non_move_parts * move_cost_plain_spec() <= u32::MAX,
    ensures
        res is Ok <==> calculation_input(
            BoostCategory::Move,
            (num_non_move_parts * move_cost_plain_spec()) as u32,
        ).solution(*boost_config) is Some,
        res matches Ok(summary) ==> summary@ == calculation_input(
            BoostCategory::Move,
            (num_non_move_parts * move_cost_plain_spec()) as u32,
        ).solution(*boost_config).unwrap().summary(),
        res matches Err(error) ==> error == PartsNeededCalculationError::TooManyNeededParts,
{
    let fatigue_generated = num_non_move_parts * move_cost_plain();
    parts_to_reduce_fatigue(fatigue_generated, boost_config)
}

/// Calculates the Move part configuration necessary to allow the provided body to move on-road
/// without generating fatigue every tick.
///
/// If the boost configuration mandates a specific tier of boost, every part has that tier and
/// the number of body parts is minimized.
///
/// If the boost configuration allows for dynamic tier selection, the parts all have the lowest
/// sufficient tier unless partial boosts are allowed, in which case the boost tier of each part
/// is maximized before an additional part is added.
///
/// The returned number of body parts will total to 50 or less.
pub fn parts_to_move_onroad(body: &[Part], boost_config: &BoostSelectionConfig) -> (res: Result<
    PartsSummary,
    PartsNeededCalculationError,
>)
    requires
        non_move_parts(body@) * move_cost_road_spec() <= u32::MAX,
    ensures
        res is Ok <==> calculation_input(
            BoostCategory::Move,
            (non_move_parts(body@) * move_cost_road_spec()) as u32,
        ).solution(*boost_config) is Some,
        res matches Ok(summary) ==> summary@ == calculation_input(
            BoostCategory::Move,
            (non_move_parts(body@) * move_cost_road_spec()) as u32,
        ).solution(*boost_config).unwrap().summary(),
        res matches Err(error) ==> error == PartsNeededCalculationError::TooManyNeededParts,
{
    let mut non_move_parts_count: u32 = 0;
    let mut i: usize = 0;
    while i < body.len()
        invariant
            i <= body@.len(),
            non_move_parts_count == non_move_parts(body@.take(i as int)),
            non_move_parts(body@) <= u32::MAX,
        decreases body@.len() - i,
    {
        proof {
            assert(body@.take(i + 1).drop_last() =~= body@.take(i as int));
            lemma_non_move_parts_of_prefix(body@, i + 1);
        }
        match body[i] {
            Part::Move => {},  // Do nothing
            _ => non_move_parts_count += 1,
        };
        i += 1;
    }
    proof {
        assert(body@.take(i as int) =~= body@);
    }
    parts_to_move_onroad_by_parts_count(non_move_parts_count, boost_config)
}

/// Calculates the Move part configuration necessary to allow a particular number of non-Move
/// parts to move on-road
/// without generating fatigue every tick.
///
/// This method is useful for when you have a count of non-move parts, and don't need/want to
/// provide a slice of Parts.
///
/// If the boost configuration mandates a specific tier of boost, every part has that tier and
/// the number of body parts is minimized.
///
/// If the boost configuration allows for dynamic tier selection, the parts all have the lowest
/// sufficient tier unless partial boosts are allowed, in which case the boost tier of each part
/// is maximized before an additional part is added.
///
/// The returned number of body parts will total to 50 or less.
pub fn parts_to_move_onroad_by_parts_count(
    num_non_move_parts: u32,
    boost_config: &BoostSelectionConfig,
) -> (res: Result<PartsSummary, PartsNeededCalculationError>)
    requires
        num_non_move_parts * move_cost_road_spec() <= u32::MAX,
    ensures
        res is Ok <==> calculation_input(
            BoostCategory::Move,
            (num_non_move_parts * move_cost_road_spec()) as u32,
        ).solution(*boost_config) is Some,
        res matches Ok(summary) ==> summary@ == calculation_input(
            BoostCategory::Move,
            (num_non_move_parts * move_cost_road_spec()) as u32,
        ).solution(*boost_config).unwrap().summary(),
        res matches Err(error) ==> error == PartsNeededCalculationError::TooManyNeededParts,
{
    let fatigue_generated = num_non_move_parts * move_cost_road();
    parts_to_reduce_fatigue(fatigue_generated, boost_config)
}

/// The first parts of a body hold no more parts that are no move parts than
/// the whole body.
proof fn lemma_non_move_parts_of_prefix(body: Seq<Part>, count: int)
    requires
        0 <= count <= body.len(),
    ensures
        non_move_parts(body.take(count)) <= non_move_parts(body),
    decreases body.len() - count,
{
    if count < body.len() {
        lemma_non_move_parts_of_prefix(body, count + 1);
        assert(body.take(count + 1).drop_last() =~= body.take(count));
    } else {
        assert(body.take(count) =~= body);
    }
}

/// Calculates the parts needed for an amount of a capability that is measured in whole
/// numbers.
pub fn parts_to_action_inner_wrapper_u32(
    category: BoostCategory,
    amount: u32,
    boost_config: &BoostSelectionConfig,
) -> (res: Result<PartsSummary, PartsNeededCalculationError>)
    requires
        unboosted_power_spec(category) is Some,
    ensures
        res is Ok <==> calculation_input(category, amount).solution(*boost_config) is Some,
        res matches Ok(summary) ==> summary@ == calculation_input(category, amount).solution(
            *boost_config,
        ).unwrap().summary(),
        res matches Err(error) ==> error == PartsNeededCalculationError::TooManyNeededParts,
{
    let powers = u32_parts_power_for_boost_category(&category).unwrap();
    proof {
        lemma_category_powers_rise(category, amount);
        assert(powers[0] == power_spec(category, 0));
        assert(powers[1] == power_spec(category, 1));
        assert(powers[2] == power_spec(category, 2));
        assert(powers[3] == power_spec(category, 3));
    }
    let params = IterativeCalculationParams::new_u32(
        amount,
        powers[0],
        powers[1],
        powers[2],
        powers[3],
    );
    generic_get_parts_needed(params, boost_config)
}

/// Chooses the body of parts that all have the same tier, from the least number of parts of
/// each tier that reaches the target.
///
/// With a choice of one tier, every part has that tier. With a choice up to a tier, the parts
/// have the lowest tier of which 50 parts or fewer reach the target. Fails if that takes more
/// than 50 parts.
pub fn uniform_parts_needed(
    boost_tier_choice: BoostTierChoice,
    unboosted_needed_parts: usize,
    t1_needed_parts: usize,
    t2_needed_parts: usize,
    t3_needed_parts: usize,
) -> (res: Result<PartsSummary, PartsNeededCalculationError>)
    ensures
        res is Ok <==> uniform_choice(
            boost_tier_choice,
            unboosted_needed_parts as nat,
            t1_needed_parts as nat,
            t2_needed_parts as nat,
            t3_needed_parts as nat,
        ) is Some,
        res matches Ok(summary) ==> summary@ == uniform_choice(
            boost_tier_choice,
            unboosted_needed_parts as nat,
            t1_needed_parts as nat,
            t2_needed_parts as nat,
            t3_needed_parts as nat,
        ).unwrap().summary(),
        res matches Err(error) ==> error == PartsNeededCalculationError::TooManyNeededParts,
{
    let (num_parts, num_t1_boosts, num_t2_boosts, num_t3_boosts) = match boost_tier_choice {
        // If the boost config mandates a certain tier of boost, the number of parts of that tier
        // is the number of parts necessary
        BoostTierChoice::NoBoosts => (unboosted_needed_parts, 0, 0, 0),
        BoostTierChoice::T1Only => (t1_needed_parts, t1_needed_parts, 0, 0),
        BoostTierChoice::T2Only => (t2_needed_parts, 0, t2_needed_parts, 0),
        BoostTierChoice::T3Only => (t3_needed_parts, 0, 0, t3_needed_parts),
        BoostTierChoice::UpToT1 | BoostTierChoice::UpToT2 | BoostTierChoice::UpToT3 => {
            let max_tier: u8 = match boost_tier_choice {
                BoostTierChoice::UpToT1 => 1,
                BoostTierChoice::UpToT2 => 2,
                _ => 3,
            };
            // Determine tier needed
            // - Assume 50 parts max; don't go over 50 parts unless already at the highest
            // allowed tier
            if unboosted_needed_parts <= 50 {
                (unboosted_needed_parts, 0, 0, 0)
            } else if t1_needed_parts <= 50 {
                (t1_needed_parts, t1_needed_parts, 0, 0)
            } else {
                if max_tier < 2 {
                    // If the max tier is 1, then we can't escalate from here and we
                    // need too many parts
                    return Err(PartsNeededCalculationError::TooManyNeededParts);
                }
                if t2_needed_parts <= 50 {
                    (t2_needed_parts, 0, t2_needed_parts, 0)
                } else {
                    if max_tier < 3 {
                        // If the max tier is 2 or 1, then we can't escalate from here and we
                        // need too many parts
                        return Err(PartsNeededCalculationError::TooManyNeededParts);
                    }
                    (t3_needed_parts, 0, 0, t3_needed_parts)
                }
            }
        },
    };

    if num_parts > 50 {
        return Err(PartsNeededCalculationError::TooManyNeededParts);
    }
    // We use unchecked new here because we know the number of boosts won't be over the number of
    // parts

    Ok(PartsSummary::unchecked_new(num_parts, num_t1_boosts, num_t2_boosts, num_t3_boosts))
}

/// Calculates the parts needed to meet or exceed a particular amount, whatever the capability:
/// the body that the selection criteria ask for.
///
/// Fails if that body would have more than 50 parts.
pub fn generic_get_parts_needed(
    params: IterativeCalculationParams,
    boost_config: &BoostSelectionConfig,
) -> (res: Result<PartsSummary, PartsNeededCalculationError>)
    requires
        params@.has_positive_powers(),
    ensures
        res is Ok <==> params@.solution(*boost_config) is Some,
        res matches Ok(summary) ==> summary@ == params@.solution(*boost_config).unwrap().summary(),
        res matches Err(error) ==> error == PartsNeededCalculationError::TooManyNeededParts,
{
    let max_tier: u8 = match boost_config.boost_tier_choice {
        BoostTierChoice::UpToT1 => 1,
        BoostTierChoice::UpToT2 => 2,
        BoostTierChoice::UpToT3 => 3,
        _ => 0,
    };
    if max_tier > 0 && boost_config.allow_partial_boosts {
        // If the boost config allows for partial boosts then we need to iteratively add parts and
        // modify boosts until we get an amount that works.
        match iteratively_calculate_boosted_parts(params, max_tier) {
            Some(arr) => Ok(PartsSummary::unchecked_new(arr[0], arr[1], arr[2], arr[3])),
            None => Err(PartsNeededCalculationError::TooManyNeededParts),
        }
    } else {
        // If the boost config mandates a certain tier of boost, or doesn't allow for partial
        // boosts, then we can do direct calculations to determine the tier and the part count
        uniform_parts_needed(
            boost_config.boost_tier_choice,
            params.num_parts_needed_unboosted(),
            params.num_parts_needed_t1(),
            params.num_parts_needed_t2(),
            params.num_parts_needed_t3(),
        )
    }
}

/// The number of parts never falls from one step of the greedy policy to a
/// later one.
pub proof fn lemma_greedy_total_grows(earlier: nat, later: nat, max_tier: nat)
    requires
        earlier <= later,
    ensures
        greedy_counts(earlier, max_tier).total() <= greedy_counts(later, max_tier).total(),
    decreases later,
{
    if earlier < later {
        lemma_greedy_total_grows(earlier, (later - 1) as nat, max_tier);
    }
}

/// Counts the parts of a body that the greedy policy builds: how many have no boost, and how
/// many have a boost of each tier.
#[derive(Debug, PartialEq, Eq, Copy, Clone, Structural)]
pub struct BoostedPartCounts {
    pub num_unboosted_parts: usize,
    pub num_t1_parts: usize,
    pub num_t2_parts: usize,
    pub num_t3_parts: usize,
}

impl View for BoostedPartCounts {
    type V = PartCounts;

    open spec fn view(&self) -> PartCounts {
        PartCounts {
            unboosted: self.num_unboosted_parts as nat,
            t1: self.num_t1_parts as nat,
            t2: self.num_t2_parts as nat,
            t3: self.num_t3_parts as nat,
        }
    }
}

impl BoostedPartCounts {
    /// The counts of a body without parts.
    pub fn new() -> (counts: Self)
        ensures
            counts@ == greedy_counts(0, 0),
    {
        BoostedPartCounts {
            num_unboosted_parts: 0,
            num_t1_parts: 0,
            num_t2_parts: 0,
            num_t3_parts: 0,
        }
    }

    /// The number of parts in total.
    pub fn total_parts(&self) -> (total: usize)
        requires
            self@.total() <= usize::MAX,
        ensures
            total == self@.total(),
    {
        self.num_unboosted_parts + self.num_t1_parts + self.num_t2_parts + self.num_t3_parts
    }

    /// Takes one step of the greedy policy: raises the lowest-tier part that is below
    /// `max_boost_tier` by one tier, or, where every part is at that tier, adds an unboosted
    /// part.
    pub fn upgrade_or_add(&mut self, max_boost_tier: u8)
        requires
            old(self)@.total() < usize::MAX,
        ensures
            final(self)@ == old(self)@.upgraded_or_grown(max_boost_tier as nat),
    {
        if max_boost_tier > 0 {
            // Upgrade any unmaxed parts
            if self.num_unboosted_parts > 0 {
                // - Unboosted -> T1
                increment_part_tier_u32(&mut self.num_unboosted_parts, &mut self.num_t1_parts);
                return ;
            }
            if max_boost_tier > 1 {
                if self.num_t1_parts > 0 {
                    // - T1 -> T2
                    increment_part_tier_u32(&mut self.num_t1_parts, &mut self.num_t2_parts);
                    return ;
                }
                if max_boost_tier > 2 {
                    if self.num_t2_parts > 0 {
                        // - T2 -> T3
                        increment_part_tier_u32(&mut self.num_t2_parts, &mut self.num_t3_parts);
                        return ;
                    }
                }
            }
        }
        // Add another unboosted part

        self.num_unboosted_parts += 1;
    }
}

/// This function generically calculates how many parts are needed, plus how many boosts of each
/// tier are needed, to minimally-beat a target amount.
///
/// Return contained array is [total_parts, t1_boosts, t2_boosts, t3_boosts].
/// Returns None if more than 50 parts were needed.
pub fn iteratively_calculate_boosted_parts(
    params: IterativeCalculationParams,
    max_boost_tier: u8,
) -> (res: Option<[usize; 4]>)
    ensures
        res is Some <==> params@.greedy_solution(max_boost_tier as nat) is Some,
        res matches Some(arr) ==> {
            let counts = params@.greedy_solution(max_boost_tier as nat).unwrap();
            arr@ == seq![
                counts.total() as usize,
                counts.t1 as usize,
                counts.t2 as usize,
                counts.t3 as usize,
            ]
        },
{
    // Iteratively add parts and modify boosts up to the max tier, then repeat
    let mut counts = BoostedPartCounts::new();
    let mut current = params;
    let ghost input = params@;
    let ghost max_tier = max_boost_tier as nat;
    let ghost mut steps: nat = 0;
    current.update_current_power_from_boost_counts(0, 0, 0, 0);

    while current.current_power_less_than_target_amount()
        invariant
            params@ == input,
            current@ == input,
            max_tier == max_boost_tier as nat,
            counts@ == greedy_counts(steps, max_tier),
            current.current_power() == input.power_of(counts@),
            counts@.total() <= 51,
            steps == counts@.total() + counts@.t1 + 2 * counts@.t2 + 3 * counts@.t3,
            forall|earlier: nat|
                earlier < steps ==> input.power_of(#[trigger] greedy_counts(earlier, max_tier))
                    < input.target_amount,
        decreases 204 - steps,
    {
        if counts.total_parts() > 50 {
            proof {
                assert forall|other: nat| !input.is_greedy_answer(max_tier, other) by {
                    if other > steps {
                        lemma_greedy_total_grows(steps, other, max_tier);
                    }
                }
            }
            return None;
        }
        proof {
            steps = steps + 1;
        }
        counts.upgrade_or_add(max_boost_tier);
        current.update_current_power_from_boost_counts(
            counts.num_unboosted_parts,
            counts.num_t1_parts,
            counts.num_t2_parts,
            counts.num_t3_parts,
        );
    }

    if counts.total_parts() > 50 {
        proof {
            assert forall|other: nat| !input.is_greedy_answer(max_tier, other) by {
                if other > steps {
                    assert(input.power_of(greedy_counts(steps, max_tier)) >= input.target_amount);
                }
            }
        }
        return None;
    }
    proof {
        assert(input.is_greedy_answer(max_tier, steps));
        let chosen = choose|steps: nat| input.is_greedy_answer(max_tier, steps);
        assert(chosen == steps) by {
            if chosen < steps {
                assert(input.power_of(greedy_counts(chosen, max_tier)) < input.target_amount);
            }
            if steps < chosen {
                assert(input.power_of(greedy_counts(steps, max_tier)) < input.target_amount);
            }
        }
    }

    Some([counts.total_parts(), counts.num_t1_parts, counts.num_t2_parts, counts.num_t3_parts])
}

/// Moves one part from a tier to the next higher tier.
pub fn increment_part_tier_u32(lower_part_num: &mut usize, higher_part_num: &mut usize)
    requires
        *old(lower_part_num) > 0,
        *old(higher_part_num) < usize::MAX,
    ensures
        *final(lower_part_num) == *old(lower_part_num) - 1,
        *final(higher_part_num) == *old(higher_part_num) + 1,
{
    *lower_part_num -= 1;
    *higher_part_num += 1;
}

/// The more one part gives, the fewer parts reach an amount.
pub proof fn lemma_stronger_parts_are_fewer(amount: nat, weaker: nat, stronger: nat)
    requires
        0 < weaker <= stronger,
    ensures
        ceiling_quotient(amount, stronger) <= ceiling_quotient(amount, weaker),
{
    let count = ceiling_quotient(amount, weaker);
    lemma_ceiling_quotient_is_least(amount, weaker, count);
    assert(count * stronger >= count * weaker) by (nonlinear_arith)
        requires
            weaker <= stronger,
    ;
    lemma_ceiling_quotient_is_least(amount, stronger, count);
}

/// Parts that each give `power`: as many of them as reach a multiple of
/// `power` are exactly that multiple.
pub proof fn lemma_parts_for_a_multiple(parts: nat, power: nat)
    requires
        power > 0,
    ensures
        ceiling_quotient(parts * power, power) == parts,
{
    lemma_ceiling_quotient_is_least(parts * power, power, parts);
    if parts > 0 {
        lemma_ceiling_quotient_is_least(parts * power, power, (parts - 1) as nat);
        assert((parts - 1) * power < parts * power) by (nonlinear_arith)
            requires
                power > 0,
        ;
    }
    let least = ceiling_quotient(parts * power, power);
    lemma_ceiling_quotient_is_least(parts * power, power, least);
}

/// The greedy policy gives no part a tier above the highest allowed one, and
/// at most one part a tier below it.
pub proof fn lemma_greedy_counts_shape(steps: nat, max_tier: nat)
    ensures
        greedy_counts(steps, max_tier).highest_tier() <= max_tier,
        max_tier >= 3 ==> greedy_counts(steps, max_tier).unboosted + greedy_counts(
            steps,
            max_tier,
        ).t1 + greedy_counts(steps, max_tier).t2 <= 1,
        max_tier == 2 ==> greedy_counts(steps, max_tier).unboosted + greedy_counts(
            steps,
            max_tier,
        ).t1 <= 1,
        max_tier == 1 ==> greedy_counts(steps, max_tier).unboosted <= 1,
    decreases steps,
{
    if steps > 0 {
        lemma_greedy_counts_shape((steps - 1) as nat, max_tier);
    }
}

/// After a whole number of rounds of the greedy policy, each of which adds a
/// part and raises it to the highest allowed tier, every part has that tier.
pub proof fn lemma_greedy_full_rounds(rounds: nat, max_tier: nat)
    requires
        max_tier <= 3,
    ensures
        greedy_counts(rounds * (max_tier + 1), max_tier) == PartCounts::uniform(rounds, max_tier),
    decreases rounds,
{
    reveal_with_fuel(greedy_counts, 5);
    if rounds > 0 {
        lemma_greedy_full_rounds((rounds - 1) as nat, max_tier);
        assert(rounds * (max_tier + 1) == (rounds - 1) * (max_tier + 1) + max_tier + 1)
            by (nonlinear_arith)
            requires
                rounds > 0,
        ;
        let before = ((rounds - 1) * (max_tier + 1)) as nat;
        assert(greedy_counts(before, max_tier) == PartCounts::uniform(
            (rounds - 1) as nat,
            max_tier,
        ));
        if max_tier == 0 {
            assert(greedy_counts(before + 1, max_tier) == PartCounts::uniform(rounds, max_tier));
        } else if max_tier == 1 {
            assert(greedy_counts(before + 2, max_tier) == PartCounts::uniform(rounds, max_tier));
        } else if max_tier == 2 {
            assert(greedy_counts(before + 3, max_tier) == PartCounts::uniform(rounds, max_tier));
        } else {
            assert(greedy_counts(before + 4, max_tier) == PartCounts::uniform(rounds, max_tier));
        }
    } else {
        assert(rounds * (max_tier + 1) == 0) by (nonlinear_arith)
            requires
                rounds == 0,
        ;
    }
}

/// A body gives no more than its number of parts times what one part of the
/// highest tier gives, if a part gives no less with a boost of a higher
/// tier.
pub proof fn lemma_power_is_bounded_by_best_tier(
    input: CalculationInput,
    counts: PartCounts,
    max_tier: nat,
)
    requires
        input.has_rising_powers(),
        counts.highest_tier() <= max_tier,
    ensures
        input.power_of(counts) <= counts.total() * input.power_of_tier(max_tier),
{
    let best = input.power_of_tier(max_tier);
    assert(input.unboosted_power * counts.unboosted <= best * counts.unboosted)
        by (nonlinear_arith)
        requires
            input.unboosted_power <= best,
    ;
    assert(input.t1_power * counts.t1 <= best * counts.t1) by (nonlinear_arith)
        requires
            input.t1_power <= best || counts.t1 == 0,
    ;
    assert(input.t2_power * counts.t2 <= best * counts.t2) by (nonlinear_arith)
        requires
            input.t2_power <= best || counts.t2 == 0,
    ;
    assert(input.t3_power * counts.t3 <= best * counts.t3) by (nonlinear_arith)
        requires
            input.t3_power <= best || counts.t3 == 0,
    ;
    assert(counts.total() * best == best * counts.unboosted + best * counts.t1 + best * counts.t2
        + best * counts.t3) by (nonlinear_arith)
        requires
            counts.total() == counts.unboosted + counts.t1 + counts.t2 + counts.t3,
    ;
}

/// What a body of parts of one tier gives.
pub proof fn lemma_power_of_uniform(input: CalculationInput, count: nat, tier: nat)
    ensures
        input.power_of(PartCounts::uniform(count, tier)) == count * input.power_of_tier(tier),
        PartCounts::uniform(count, tier).total() == count,
{
    let power = input.power_of_tier(tier);
    assert(input.unboosted_power * 0 == 0 && input.t1_power * 0 == 0 && input.t2_power * 0 == 0
        && input.t3_power * 0 == 0) by (nonlinear_arith);
    assert(power * count == count * power) by (nonlinear_arith);
}

/// No body reaches the target with fewer parts than the least number of
/// parts of the highest allowed tier that reaches it, if a part gives no
/// less with a boost of a higher tier.
pub proof fn lemma_no_smaller_body(input: CalculationInput, counts: PartCounts, max_tier: nat)
    requires
        input.has_positive_powers(),
        input.has_rising_powers(),
        counts.highest_tier() <= max_tier,
        input.power_of(counts) >= input.target_amount,
    ensures
        counts.total() >= input.parts_needed_at(max_tier),
{
    lemma_power_is_bounded_by_best_tier(input, counts, max_tier);
    lemma_ceiling_quotient_is_least(
        input.target_amount,
        input.power_of_tier(max_tier),
        counts.total(),
    );
}

/// No body of parts of one tier reaches the target with fewer parts than
/// `parts_needed_at` says, and with that many it does.
pub proof fn lemma_parts_needed_is_least(input: CalculationInput, tier: nat, count: nat)
    requires
        input.power_of_tier(tier) > 0,
    ensures
        input.power_of(PartCounts::uniform(count, tier)) >= input.target_amount <==> count
            >= input.parts_needed_at(tier),
{
    lemma_power_of_uniform(input, count, tier);
    lemma_ceiling_quotient_is_least(input.target_amount, input.power_of_tier(tier), count);
}

/// The first step at or after `from` at which the greedy policy reaches the
/// target, given that it reaches it at `bound` and at no step before `from`.
proof fn lemma_first_sufficient_step(
    input: CalculationInput,
    max_tier: nat,
    from: nat,
    bound: nat,
) -> (first: nat)
    requires
        from <= bound,
        input.power_of(greedy_counts(bound, max_tier)) >= input.target_amount,
        forall|earlier: nat|
            earlier < from ==> input.power_of(#[trigger] greedy_counts(earlier, max_tier))
                < input.target_amount,
    ensures
        first <= bound,
        input.is_first_sufficient_step(max_tier, first),
    decreases bound - from,
{
    if input.power_of(greedy_counts(from, max_tier)) >= input.target_amount {
        from
    } else {
        lemma_first_sufficient_step(input, max_tier, from + 1, bound)
    }
}

/// The body that the criteria ask for reaches the target, has no more than
/// 50 parts, and its parts have the tiers that the choice allows: one tier
/// for every part where the choice names one, else no tier above the one
/// that it names.
pub proof fn lemma_solution_is_sound(input: CalculationInput, config: BoostSelectionConfig)
    requires
        input.has_positive_powers(),
    ensures
        input.solution(config) matches Some(counts) ==> {
            &&& input.power_of(counts) >= input.target_amount
            &&& counts.total() <= 50
            &&& counts.summary().is_valid()
            &&& counts.highest_tier() <= config.boost_tier_choice.max_tier()
            &&& config.boost_tier_choice.is_exact() ==> counts == PartCounts::uniform(
                counts.total(),
                config.boost_tier_choice.max_tier(),
            )
            &&& !config.allow_partial_boosts ==> counts == PartCounts::uniform(
                counts.total(),
                counts.highest_tier(),
            )
        },
{
    let max_tier = config.boost_tier_choice.max_tier();
    assert forall|tier: nat|
        input.power_of(PartCounts::uniform(#[trigger] input.parts_needed_at(tier), tier))
            >= input.target_amount by {
        lemma_parts_needed_is_least(input, tier, input.parts_needed_at(tier));
    }
    if !config.boost_tier_choice.is_exact() && config.allow_partial_boosts {
        if input.greedy_solution(max_tier) is Some {
            let steps = choose|steps: nat| input.is_greedy_answer(max_tier, steps);
            lemma_greedy_counts_shape(steps, max_tier);
        }
    }
}

/// Where a part gives no less with a boost of a higher tier, the criteria
/// can be met exactly when the least number of parts that reaches the target
/// at the highest tier that the choice allows is no more than 50.
pub proof fn lemma_solvable_iff_fewest_parts_fit(
    input: CalculationInput,
    config: BoostSelectionConfig,
)
    requires
        input.has_positive_powers(),
        input.has_rising_powers(),
    ensures
        input.solution(config) is Some <==> input.parts_needed_at(
            config.boost_tier_choice.max_tier(),
        ) <= 50,
{
    let max_tier = config.boost_tier_choice.max_tier();
    let best = input.power_of_tier(max_tier);
    assert forall|tier: nat| tier <= max_tier implies input.parts_needed_at(max_tier)
        <= #[trigger] input.parts_needed_at(tier) by {
        lemma_stronger_parts_are_fewer(input.target_amount, input.power_of_tier(tier), best);
    }
    if !config.boost_tier_choice.is_exact() && config.allow_partial_boosts {
        if input.parts_needed_at(max_tier) <= 50 {
            let bound = (50 * (max_tier + 1)) as nat;
            lemma_greedy_full_rounds(50, max_tier);
            lemma_parts_needed_is_least(input, max_tier, 50);
            let first = lemma_first_sufficient_step(input, max_tier, 0, bound);
            lemma_greedy_total_grows(first, bound, max_tier);
            assert(input.is_greedy_answer(max_tier, first));
        }
        if input.greedy_solution(max_tier) is Some {
            let steps = choose|steps: nat| input.is_greedy_answer(max_tier, steps);
            let counts = greedy_counts(steps, max_tier);
            lemma_greedy_counts_shape(steps, max_tier);
            lemma_no_smaller_body(input, counts, max_tier);
        }
    }
}

/// A target that needs 51 parts of the highest tier that the choice allows
/// cannot be met, whatever the choice and whether or not partial boosts are
/// allowed.
pub proof fn lemma_one_part_too_many(input: CalculationInput, config: BoostSelectionConfig)
    requires
        input.has_positive_powers(),
        input.has_rising_powers(),
        input.parts_needed_at(config.boost_tier_choice.max_tier()) == 51,
    ensures
        input.solution(config) is None,
{
    lemma_solvable_iff_fewest_parts_fit(input, config);
}

/// With a choice of one tier, the body for a target that `parts` parts of
/// that tier give exactly has `parts` parts, for any number up to 50.
pub proof fn lemma_exact_tier_round_trip(
    input: CalculationInput,
    config: BoostSelectionConfig,
    parts: nat,
)
    requires
        config.boost_tier_choice.is_exact(),
        input.power_of_tier(config.boost_tier_choice.max_tier()) > 0,
        parts <= 50,
        input.target_amount == parts * input.power_of_tier(config.boost_tier_choice.max_tier()),
    ensures
        input.solution(config) == Some(
            PartCounts::uniform(parts, config.boost_tier_choice.max_tier()),
        ),
{
    lemma_parts_for_a_multiple(parts, input.power_of_tier(config.boost_tier_choice.max_tier()));
}

} // verus!
