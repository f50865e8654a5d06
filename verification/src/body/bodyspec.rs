//! Implements BodySpec as a way to perform calculations on a particular creep body layout.

use vstd::prelude::*;
use crate::boost::boost::{
    AbstractBoost, ATTACK_BOOSTS, CARRY_BOOSTS, DISMANTLE_BOOSTS, HARVEST_BOOSTS, HEAL_BOOSTS,
    MOVE_BOOSTS, RANGED_ATTACK_BOOSTS,
};
use crate::constants::parts::Part;
use crate::game::{
    attack_power, attack_power_spec, carry_capacity, carry_capacity_spec, creep_hits_per_part,
    creep_hits_per_part_spec, creep_spawn_time, creep_spawn_time_spec, dismantle_power,
    dismantle_power_spec, harvest_deposit_power, harvest_deposit_power_spec,
    harvest_mineral_power, harvest_mineral_power_spec, harvest_power, harvest_power_spec,
    heal_power, heal_power_spec, max_creep_size, max_creep_size_spec, move_cost_plain,
    move_cost_plain_spec, move_cost_road, move_cost_road_spec, move_cost_swamp,
    move_cost_swamp_spec, move_power, move_power_spec, part_cost, part_cost_spec,
    ranged_attack_power, ranged_attack_power_spec, ranged_heal_power, ranged_heal_power_spec,
};

verus! {

/// The damage that one ranged attack part deals to one target with a mass
/// attack, by the distance of the target.
pub open spec fn ranged_mass_attack_power_at_distance_spec(distance: u8) -> u32 {
    if distance == 1 {
        10
    } else if distance == 2 {
        4
    } else if distance == 3 {
        1
    } else {
        0
    }
}

/// Returns the damage that one ranged attack part deals to one target with a mass attack, by
/// the distance of the target.
pub fn ranged_mass_attack_power_at_distance(distance: u8) -> (power: u32)
    ensures
        power == ranged_mass_attack_power_at_distance_spec(distance),
{
    match distance {
        1 => 10,
        2 => 4,
        3 => 1,
        _ => 0,
    }
}

/// The whole-number factor by which the boost of a part multiplies a
/// capability that the three given boosts improve: the factor of the boost
/// if it is one of the three, and 1 if it is another boost or none.
pub open spec fn boost_factor(boost: Option<AbstractBoost>, boosts: [AbstractBoost; 3]) -> nat {
    match boost {
        None => 1,
        Some(abstract_boost) => if boosts@.contains(abstract_boost) {
            match abstract_boost.u32_multiplier_spec() {
                Some(multiplier) => multiplier as nat,
                None => 1,
            }
        } else {
            1
        },
    }
}

/// Returns the whole-number factor by which the boost of a part multiplies a capability that
/// the three given boosts improve.
fn boost_multiplier(boost: &Option<AbstractBoost>, boosts: &[AbstractBoost; 3]) -> (multiplier:
    u32)
    ensures
        multiplier == boost_factor(*boost, *boosts),
        1 <= multiplier <= 7,
{
    match boost {
        None => 1,
        Some(abstract_boost) => {
            if AbstractBoost::boost_in_slice(boosts.as_slice(), abstract_boost) {
                match AbstractBoost::get_u32_multiplier(abstract_boost) {
                    Some(val) => val,
                    None => 1,
                }
            } else {
                1
            }
        },
    }
}

/// Describes one part of a creep body: its kind, its hits, and its boost.
#[derive(Debug, PartialEq, Eq, Hash, Copy, Clone, Structural)]
pub struct PartSpec {
    pub part: Part,
    pub hits: u32,
    pub boost: Option<AbstractBoost>,
}

impl PartSpec {
    /// What the part gives of a capability that parts of kind `part`
    /// provide, of which one unboosted part gives `power`, and that the
    /// three given boosts improve.
    pub open spec fn amount_of(self, part: Part, power: nat, boosts: [AbstractBoost; 3]) -> nat {
        if self.part == part {
            boost_factor(self.boost, boosts) * power
        } else {
            0
        }
    }

    /// The fatigue that the part removes per tick.
    pub open spec fn fatigue_reduction_spec(self) -> nat {
        if self.hits > 0 {
            self.amount_of(Part::Move, move_power_spec() as nat, MOVE_BOOSTS)
        } else {
            0
        }
    }

    /// The fatigue that the part generates when the creep moves onto a tile
    /// of the given cost: none for a move part or for a carry part without
    /// hits, which cannot carry anything.
    pub open spec fn fatigue_generation_spec(self, tile_cost: u32) -> nat {
        if self.part == Part::Move || (self.part == Part::Carry && self.hits == 0) {
            0
        } else {
            tile_cost as nat
        }
    }

    /// Creates the description of a part.
    pub fn new(part: Part, hits: u32, boost: Option<AbstractBoost>) -> (spec: Self)
        ensures
            spec == (PartSpec { part, hits, boost }),
    {
        Self { part, hits, boost }
    }

    /// Creates the description of an undamaged part without a boost.
    pub fn new_unboosted_part(part: Part) -> (spec: Self)
        ensures
            spec == (PartSpec { part, hits: creep_hits_per_part_spec(), boost: None }),
    {
        Self::new(part, creep_hits_per_part(), None)
    }

    /// Creates the description of an undamaged part with a boost.
    pub fn new_boosted_part(part: Part, boost: AbstractBoost) -> (spec: Self)
        ensures
            spec == (PartSpec { part, hits: creep_hits_per_part_spec(), boost: Some(boost) }),
    {
        Self::new(part, creep_hits_per_part(), Some(boost))
    }

    /// Whether the part has hits left.
    pub fn is_active(&self) -> (active: bool)
        ensures
            active == (self.hits > 0),
    {
        self.hits > 0
    }

    /// The fatigue that the part removes per tick.
    pub fn get_fatigue_reduction(&self) -> (amount: u32)
        ensures
            amount == self.fatigue_reduction_spec(),
    {
        match self.part {
            // Only Move parts contribute to fatigue reduction
            Part::Move => {
                if self.is_active() {
                    let multiplier = boost_multiplier(&self.boost, &MOVE_BOOSTS);
                    let power = move_power();
                    assert(multiplier * power <= 14) by (nonlinear_arith)
                        requires
                            multiplier <= 7,
                            power == 2,
                    ;
                    multiplier * power
                } else {
                    // Inactive Move parts do not contribute to fatigue reduction
                    0
                }
            },
            _ => 0,
        }
    }

    /// The fatigue that the part generates when the creep moves onto a tile of the given cost.
    pub fn get_fatigue_generation(&self, tile_cost: u32) -> (amount: u32)
        ensures
            amount == self.fatigue_generation_spec(tile_cost),
    {
        match self.part {
            // Move parts reduce fatigue and generate none.
            Part::Move => 0,
            Part::Carry => {
                // Carry parts only contribute to fatigue generation if they're carrying something.
                // But an inactive Carry part cannot be carrying anything by definition, and thus
                // it can't contribute to fatigue generation.
                if self.hits > 0 {
                    tile_cost
                } else {
                    0
                }
            },
            _ => tile_cost,
        }
    }

    /// The energy that the part harvests per tick.
    pub fn get_harvest_energy_amount(&self) -> (amount: u32)
        ensures
            amount == self.amount_of(Part::Work, harvest_power_spec() as nat, HARVEST_BOOSTS),
    {
        match self.part {
            Part::Work => boost_multiplier(&self.boost, &HARVEST_BOOSTS) * harvest_power(),
            _ => 0,
        }
    }

    /// The mineral that the part harvests per tick.
    pub fn get_harvest_mineral_amount(&self) -> (amount: u32)
        ensures
            amount == self.amount_of(
                Part::Work,
                harvest_mineral_power_spec() as nat,
                HARVEST_BOOSTS,
            ),
    {
        match self.part {
            Part::Work => boost_multiplier(&self.boost, &HARVEST_BOOSTS) * harvest_mineral_power(),
            _ => 0,
        }
    }

    /// The deposit resource that the part harvests per tick.
    pub fn get_harvest_deposit_amount(&self) -> (amount: u32)
        ensures
            amount == self.amount_of(
                Part::Work,
                harvest_deposit_power_spec() as nat,
                HARVEST_BOOSTS,
            ),
    {
        match self.part {
            Part::Work => boost_multiplier(&self.boost, &HARVEST_BOOSTS) * harvest_deposit_power(),
            _ => 0,
        }
    }

    /// The resources that the part can carry.
    pub fn get_carry_capacity(&self) -> (amount: u32)
        ensures
            amount == self.amount_of(Part::Carry, carry_capacity_spec() as nat, CARRY_BOOSTS),
    {
        match self.part {
            Part::Carry => boost_multiplier(&self.boost, &CARRY_BOOSTS) * carry_capacity(),
            _ => 0,
        }
    }

    /// The melee damage that the part deals per tick.
    pub fn get_attack_damage(&self) -> (amount: u32)
        ensures
            amount == self.amount_of(Part::Attack, attack_power_spec() as nat, ATTACK_BOOSTS),
    {
        match self.part {
            Part::Attack => boost_multiplier(&self.boost, &ATTACK_BOOSTS) * attack_power(),
            _ => 0,
        }
    }

    /// The ranged damage that the part deals per tick.
    pub fn get_ranged_attack_damage(&self) -> (amount: u32)
        ensures
            amount == self.amount_of(
                Part::RangedAttack,
                ranged_attack_power_spec() as nat,
                RANGED_ATTACK_BOOSTS,
            ),
    {
        match self.part {
            Part::RangedAttack => boost_multiplier(&self.boost, &RANGED_ATTACK_BOOSTS)
                * ranged_attack_power(),
            _ => 0,
        }
    }

    /// The damage that the part deals per tick to one target at the given distance with a
    /// ranged mass attack.
    pub fn get_ranged_mass_attack_damage_at_distance_single_target(&self, distance: u8) -> (amount:
        u32)
        ensures
            amount == self.amount_of(
                Part::RangedAttack,
                ranged_mass_attack_power_at_distance_spec(distance) as nat,
                RANGED_ATTACK_BOOSTS,
            ),
    {
        match self.part {
            Part::RangedAttack => boost_multiplier(&self.boost, &RANGED_ATTACK_BOOSTS)
                * ranged_mass_attack_power_at_distance(distance),
            _ => 0,
        }
    }

    /// The hits that the part heals per tick on a neighbour.
    pub fn get_heal_amount(&self) -> (amount: u32)
        ensures
            amount == self.amount_of(Part::Heal, heal_power_spec() as nat, HEAL_BOOSTS),
    {
        match self.part {
            Part::Heal => boost_multiplier(&self.boost, &HEAL_BOOSTS) * heal_power(),
            _ => 0,
        }
    }

    /// The hits that the part heals per tick at range.
    pub fn get_ranged_heal_amount(&self) -> (amount: u32)
        ensures
            amount == self.amount_of(Part::Heal, ranged_heal_power_spec() as nat, HEAL_BOOSTS),
    {
        match self.part {
            Part::Heal => boost_multiplier(&self.boost, &HEAL_BOOSTS) * ranged_heal_power(),
            _ => 0,
        }
    }

    /// The hits that the part dismantles per tick.
    pub fn get_dismantle_damage(&self) -> (amount: u32)
        ensures
            amount == self.amount_of(Part::Work, dismantle_power_spec() as nat, DISMANTLE_BOOSTS),
    {
        match self.part {
            Part::Work => boost_multiplier(&self.boost, &DISMANTLE_BOOSTS) * dismantle_power(),
            _ => 0,
        }
    }
}

impl From<Part> for PartSpec {
    fn from(val: Part) -> (spec: Self) {
        Self::new(val, creep_hits_per_part(), None)
    }
}

impl vstd::std_specs::convert::FromSpecImpl<Part> for PartSpec {
    open spec fn obeys_from_spec() -> bool {
        true
    }

    open spec fn from_spec(val: Part) -> Self {
        PartSpec { part: val, hits: creep_hits_per_part_spec(), boost: None }
    }
}

/// Why a body could not be constructed.
#[derive(Debug, PartialEq, Eq, Clone, Copy, Structural)]
pub enum BodySpecValidationError {
    /// The body has more parts than a creep can have.
    TooManyParts,
}

/// The sum of what `value` gives for each part of a body.
pub open spec fn sum_of_parts(body: Seq<PartSpec>, value: spec_fn(PartSpec) -> nat) -> nat
    decreases body.len(),
{
    if body.len() == 0 {
        0
    } else {
        sum_of_parts(body.drop_last(), value) + value(body.last())
    }
}

/// The sum over the first parts of a body grows by what the next part gives,
/// and is no more than the sum over the whole body.
pub proof fn lemma_sum_of_prefix(body: Seq<PartSpec>, value: spec_fn(PartSpec) -> nat, count: int)
    requires
        0 <= count <= body.len(),
    ensures
        sum_of_parts(body.take(count), value) <= sum_of_parts(body, value),
        count < body.len() ==> sum_of_parts(body.take(count + 1), value) == sum_of_parts(
            body.take(count),
            value,
        ) + value(body[count]) && sum_of_parts(body.take(count + 1), value) <= sum_of_parts(
            body,
            value,
        ),
    decreases body.len() - count,
{
    if count < body.len() {
        lemma_sum_of_prefix(body, value, count + 1);
        assert(body.take(count + 1).drop_last() =~= body.take(count));
    } else {
        assert(body.take(count) =~= body);
    }
}

/// What an active part gives of a capability that parts of kind `part`
/// provide, and nothing for a part without hits.
pub open spec fn active_amount(
    part: Part,
    power: nat,
    boosts: [AbstractBoost; 3],
) -> spec_fn(PartSpec) -> nat {
    |spec: PartSpec|
        if spec.hits > 0 {
            spec.amount_of(part, power, boosts)
        } else {
            0
        }
}

/// Describes a creep body: its parts, in order.
#[derive(Debug, PartialEq, Eq, Hash, Clone)]
pub struct BodySpec {
    body: Vec<PartSpec>,
}

impl View for BodySpec {
    type V = Seq<PartSpec>;

    closed spec fn view(&self) -> Seq<PartSpec> {
        self.body@
    }
}

impl BodySpec {
    /// The fatigue that is left when the creep moves onto a tile of the
    /// given cost: what its parts generate less what they remove, and never
    /// less than nothing.
    pub open spec fn net_exhaustion_spec(&self, tile_cost: u32) -> nat {
        let generated = sum_of_parts(
            self@,
            |spec: PartSpec| spec.fatigue_generation_spec(tile_cost),
        );
        let reduced = sum_of_parts(self@, |spec: PartSpec| spec.fatigue_reduction_spec());
        if reduced >= generated {
            0
        } else {
            (generated - reduced) as nat
        }
    }

    /// Whether the fatigue that the parts generate on a tile of the given
    /// cost, and the fatigue that they remove, each fit a `u32`.
    pub open spec fn fatigue_fits(&self, tile_cost: u32) -> bool {
        sum_of_parts(self@, |spec: PartSpec| spec.fatigue_generation_spec(tile_cost)) <= u32::MAX
            && sum_of_parts(self@, |spec: PartSpec| spec.fatigue_reduction_spec()) <= u32::MAX
    }

    /// Creates the description of a body from its parts.
    pub fn new(body: &[PartSpec]) -> (spec: Self)
        ensures
            spec@ == body@,
    {
        let mut parts: Vec<PartSpec> = Vec::new();
        let mut i: usize = 0;
        while i < body.len()
            invariant
                i <= body@.len(),
                parts@ == body@.take(i as int),
            decreases body@.len() - i,
        {
            parts.push(body[i]);
            proof {
                assert(parts@ =~= body@.take(i + 1));
            }
            i += 1;
        }
        proof {
            assert(body@.take(i as int) =~= body@);
        }
        Self { body: parts }
    }

    /// Creates the description of a body from its parts, if they are no more than a creep can
    /// have.
    pub fn validated_new(body: &[PartSpec]) -> (res: Result<Self, BodySpecValidationError>)
        ensures
            res is Ok <==> body@.len() <= max_creep_size_spec(),
            res matches Ok(spec) ==> spec@ == body@,
            res matches Err(error) ==> error == BodySpecValidationError::TooManyParts,
    {
        if body.len() > max_creep_size() as usize {
            Err(BodySpecValidationError::TooManyParts)
        } else {
            Ok(BodySpec::new(body))
        }
    }

    /// Returns the descriptions of the parts of the body, in order.
    pub fn get_part_specs(&self) -> (specs: Vec<PartSpec>)
        ensures
            specs@ == self@,
    {
        let mut specs: Vec<PartSpec> = Vec::with_capacity(self.body.len());
        let mut i: usize = 0;
        while i < self.body.len()
            invariant
                i <= self@.len(),
                specs@ == self@.take(i as int),
            decreases self@.len() - i,
        {
            specs.push(self.body[i]);
            proof {
                assert(specs@ =~= self@.take(i + 1));
            }
            i += 1;
        }
        proof {
            assert(self@.take(i as int) =~= self@);
        }
        specs
    }

    /// Returns the kinds of the parts of the body, in order.
    pub fn get_parts(&self) -> (parts: Vec<Part>)
        ensures
            parts@ == self@.map_values(|spec: PartSpec| spec.part),
    {
        let mut v: Vec<Part> = Vec::with_capacity(self.body.len());
        let mut i: usize = 0;
        while i < self.body.len()
            invariant
                i <= self@.len(),
                v@ == self@.take(i as int).map_values(|spec: PartSpec| spec.part),
            decreases self@.len() - i,
        {
            v.push(self.body[i].part);
            proof {
                assert(v@ =~= self@.take(i + 1).map_values(|spec: PartSpec| spec.part));
            }
            i += 1;
        }
        proof {
            assert(self@.take(i as int) =~= self@);
        }
        v
    }

    /// The hits of all the parts of the body together.
    pub fn hits(&self) -> (total: u32)
        requires
            sum_of_parts(self@, |spec: PartSpec| spec.hits as nat) <= u32::MAX,
        ensures
            total == sum_of_parts(self@, |spec: PartSpec| spec.hits as nat),
    {
        let ghost value = |spec: PartSpec| spec.hits as nat;
        let mut acc: u32 = 0;
        let mut i: usize = 0;
        while i < self.body.len()
            invariant
                i <= self@.len(),
                value == |spec: PartSpec| spec.hits as nat,
                acc == sum_of_parts(self@.take(i as int), value),
                sum_of_parts(self@, value) <= u32::MAX,
            decreases self@.len() - i,
        {
            proof {
                lemma_sum_of_prefix(self@, value, i as int);
            }
            acc = acc + self.body[i].hits;
            i += 1;
        }
        proof {
            assert(self@.take(i as int) =~= self@);
        }
        acc
    }

    /// The resources that the active carry parts of the body can carry together.
    pub fn carry_capacity(&self) -> (total: u32)
        requires
            sum_of_parts(self@, active_amount(Part::Carry, carry_capacity_spec() as nat, CARRY_BOOSTS)) <= u32::MAX,
        ensures
            total == sum_of_parts(
                self@,
                active_amount(Part::Carry, carry_capacity_spec() as nat, CARRY_BOOSTS),
            ),
    {
        let ghost value = active_amount(Part::Carry, carry_capacity_spec() as nat, CARRY_BOOSTS);
        let mut acc: u32 = 0;
        let mut i: usize = 0;
        while i < self.body.len()
            invariant
                i <= self@.len(),
                value == active_amount(Part::Carry, carry_capacity_spec() as nat, CARRY_BOOSTS),
                acc == sum_of_parts(self@.take(i as int), value),
                sum_of_parts(self@, value) <= u32::MAX,
            decreases self@.len() - i,
        {
            proof {
                lemma_sum_of_prefix(self@, value, i as int);
            }
            if self.body[i].part == Part::Carry && self.body[i].hits > 0 {
                acc = acc + self.body[i].get_carry_capacity();
            }
            i += 1;
        }
        proof {
            assert(self@.take(i as int) =~= self@);
        }
        acc
    }

    /// The melee damage that the active attack parts of the body deal per tick together.
    pub fn attack_damage(&self) -> (total: u32)
        requires
            sum_of_parts(self@, active_amount(Part::Attack, attack_power_spec() as nat, ATTACK_BOOSTS)) <= u32::MAX,
        ensures
            total == sum_of_parts(
                self@,
                active_amount(Part::Attack, attack_power_spec() as nat, ATTACK_BOOSTS),
            ),
    {
        let ghost value = active_amount(Part::Attack, attack_power_spec() as nat, ATTACK_BOOSTS);
        let mut acc: u32 = 0;
        let mut i: usize = 0;
        while i < self.body.len()
            invariant
                i <= self@.len(),
                value == active_amount(Part::Attack, attack_power_spec() as nat, ATTACK_BOOSTS),
                acc == sum_of_parts(self@.take(i as int), value),
                sum_of_parts(self@, value) <= u32::MAX,
            decreases self@.len() - i,
        {
            proof {
                lemma_sum_of_prefix(self@, value, i as int);
            }
            if self.body[i].part == Part::Attack && self.body[i].hits > 0 {
                acc = acc + self.body[i].get_attack_damage();
            }
            i += 1;
        }
        proof {
            assert(self@.take(i as int) =~= self@);
        }
        acc
    }

    /// The ranged damage that the active ranged attack parts of the body deal per tick together.
    pub fn ranged_attack_damage(&self) -> (total: u32)
        requires
            sum_of_parts(self@, active_amount(Part::RangedAttack, ranged_attack_power_spec() as nat, RANGED_ATTACK_BOOSTS)) <= u32::MAX,
        ensures
            total == sum_of_parts(
                self@,
                active_amount(Part::RangedAttack, ranged_attack_power_spec() as nat, RANGED_ATTACK_BOOSTS),
            ),
    {
        let ghost value = active_amount(Part::RangedAttack, ranged_attack_power_spec() as nat, RANGED_ATTACK_BOOSTS);
        let mut acc: u32 = 0;
        let mut i: usize = 0;
        while i < self.body.len()
            invariant
                i <= self@.len(),
                value == active_amount(Part::RangedAttack, ranged_attack_power_spec() as nat, RANGED_ATTACK_BOOSTS),
                acc == sum_of_parts(self@.take(i as int), value),
                sum_of_parts(self@, value) <= u32::MAX,
            decreases self@.len() - i,
        {
            proof {
                lemma_sum_of_prefix(self@, value, i as int);
            }
            if self.body[i].part == Part::RangedAttack && self.body[i].hits > 0 {
                acc = acc + self.body[i].get_ranged_attack_damage();
            }
            i += 1;
        }
        proof {
            assert(self@.take(i as int) =~= self@);
        }
        acc
    }

    /// The hits that the active heal parts of the body heal per tick on a neighbour together.
    pub fn heal_amount(&self) -> (total: u32)
        requires
            sum_of_parts(self@, active_amount(Part::Heal, heal_power_spec() as nat, HEAL_BOOSTS)) <= u32::MAX,
        ensures
            total == sum_of_parts(
                self@,
                active_amount(Part::Heal, heal_power_spec() as nat, HEAL_BOOSTS),
            ),
    {
        let ghost value = active_amount(Part::Heal, heal_power_spec() as nat, HEAL_BOOSTS);
        let mut acc: u32 = 0;
        let mut i: usize = 0;
        while i < self.body.len()
            invariant
                i <= self@.len(),
                value == active_amount(Part::Heal, heal_power_spec() as nat, HEAL_BOOSTS),
                acc == sum_of_parts(self@.take(i as int), value),
                sum_of_parts(self@, value) <= u32::MAX,
            decreases self@.len() - i,
        {
            proof {
                lemma_sum_of_prefix(self@, value, i as int);
            }
            if self.body[i].part == Part::Heal && self.body[i].hits > 0 {
                acc = acc + self.body[i].get_heal_amount();
            }
            i += 1;
        }
        proof {
            assert(self@.take(i as int) =~= self@);
        }
        acc
    }

    /// The hits that the active heal parts of the body heal per tick at range together.
    pub fn ranged_heal_amount(&self) -> (total: u32)
        requires
            sum_of_parts(self@, active_amount(Part::Heal, ranged_heal_power_spec() as nat, HEAL_BOOSTS)) <= u32::MAX,
        ensures
            total == sum_of_parts(
                self@,
                active_amount(Part::Heal, ranged_heal_power_spec() as nat, HEAL_BOOSTS),
            ),
    {
        let ghost value = active_amount(Part::Heal, ranged_heal_power_spec() as nat, HEAL_BOOSTS);
        let mut acc: u32 = 0;
        let mut i: usize = 0;
        while i < self.body.len()
            invariant
                i <= self@.len(),
                value == active_amount(Part::Heal, ranged_heal_power_spec() as nat, HEAL_BOOSTS),
                acc == sum_of_parts(self@.take(i as int), value),
                sum_of_parts(self@, value) <= u32::MAX,
            decreases self@.len() - i,
        {
            proof {
                lemma_sum_of_prefix(self@, value, i as int);
            }
            if self.body[i].part == Part::Heal && self.body[i].hits > 0 {
                acc = acc + self.body[i].get_ranged_heal_amount();
            }
            i += 1;
        }
        proof {
            assert(self@.take(i as int) =~= self@);
        }
        acc
    }

    /// The hits that the active work parts of the body dismantle per tick together.
    pub fn dismantle_damage(&self) -> (total: u32)
        requires
            sum_of_parts(self@, active_amount(Part::Work, dismantle_power_spec() as nat, DISMANTLE_BOOSTS)) <= u32::MAX,
        ensures
            total == sum_of_parts(
                self@,
                active_amount(Part::Work, dismantle_power_spec() as nat, DISMANTLE_BOOSTS),
            ),
    {
        let ghost value = active_amount(Part::Work, dismantle_power_spec() as nat, DISMANTLE_BOOSTS);
        let mut acc: u32 = 0;
        let mut i: usize = 0;
        while i < self.body.len()
            invariant
                i <= self@.len(),
                value == active_amount(Part::Work, dismantle_power_spec() as nat, DISMANTLE_BOOSTS),
                acc == sum_of_parts(self@.take(i as int), value),
                sum_of_parts(self@, value) <= u32::MAX,
            decreases self@.len() - i,
        {
            proof {
                lemma_sum_of_prefix(self@, value, i as int);
            }
            if self.body[i].part == Part::Work && self.body[i].hits > 0 {
                acc = acc + self.body[i].get_dismantle_damage();
            }
            i += 1;
        }
        proof {
            assert(self@.take(i as int) =~= self@);
        }
        acc
    }

    /// The energy that the active work parts of the body harvest per tick together.
    pub fn harvest_energy_amount(&self) -> (total: u32)
        requires
            sum_of_parts(self@, active_amount(Part::Work, harvest_power_spec() as nat, HARVEST_BOOSTS)) <= u32::MAX,
        ensures
            total == sum_of_parts(
                self@,
                active_amount(Part::Work, harvest_power_spec() as nat, HARVEST_BOOSTS),
            ),
    {
        let ghost value = active_amount(Part::Work, harvest_power_spec() as nat, HARVEST_BOOSTS);
        let mut acc: u32 = 0;
        let mut i: usize = 0;
        while i < self.body.len()
            invariant
                i <= self@.len(),
                value == active_amount(Part::Work, harvest_power_spec() as nat, HARVEST_BOOSTS),
                acc == sum_of_parts(self@.take(i as int), value),
                sum_of_parts(self@, value) <= u32::MAX,
            decreases self@.len() - i,
        {
            proof {
                lemma_sum_of_prefix(self@, value, i as int);
            }
            if self.body[i].part == Part::Work && self.body[i].hits > 0 {
                acc = acc + self.body[i].get_harvest_energy_amount();
            }
            i += 1;
        }
        proof {
            assert(self@.take(i as int) =~= self@);
        }
        acc
    }

    /// The mineral that the active work parts of the body harvest per tick together.
    pub fn harvest_mineral_amount(&self) -> (total: u32)
        requires
            sum_of_parts(self@, active_amount(Part::Work, harvest_mineral_power_spec() as nat, HARVEST_BOOSTS)) <= u32::MAX,
        ensures
            total == sum_of_parts(
                self@,
                active_amount(Part::Work, harvest_mineral_power_spec() as nat, HARVEST_BOOSTS),
            ),
    {
        let ghost value = active_amount(Part::Work, harvest_mineral_power_spec() as nat, HARVEST_BOOSTS);
        let mut acc: u32 = 0;
        let mut i: usize = 0;
        while i < self.body.len()
            invariant
                i <= self@.len(),
                value == active_amount(Part::Work, harvest_mineral_power_spec() as nat, HARVEST_BOOSTS),
                acc == sum_of_parts(self@.take(i as int), value),
                sum_of_parts(self@, value) <= u32::MAX,
            decreases self@.len() - i,
        {
            proof {
                lemma_sum_of_prefix(self@, value, i as int);
            }
            if self.body[i].part == Part::Work && self.body[i].hits > 0 {
                acc = acc + self.body[i].get_harvest_mineral_amount();
            }
            i += 1;
        }
        proof {
            assert(self@.take(i as int) =~= self@);
        }
        acc
    }

    /// The deposit resource that the active work parts of the body harvest per tick together.
    pub fn harvest_deposit_amount(&self) -> (total: u32)
        requires
            sum_of_parts(self@, active_amount(Part::Work, harvest_deposit_power_spec() as nat, HARVEST_BOOSTS)) <= u32::MAX,
        ensures
            total == sum_of_parts(
                self@,
                active_amount(Part::Work, harvest_deposit_power_spec() as nat, HARVEST_BOOSTS),
            ),
    {
        let ghost value = active_amount(Part::Work, harvest_deposit_power_spec() as nat, HARVEST_BOOSTS);
        let mut acc: u32 = 0;
        let mut i: usize = 0;
        while i < self.body.len()
            invariant
                i <= self@.len(),
                value == active_amount(Part::Work, harvest_deposit_power_spec() as nat, HARVEST_BOOSTS),
                acc == sum_of_parts(self@.take(i as int), value),
                sum_of_parts(self@, value) <= u32::MAX,
            decreases self@.len() - i,
        {
            proof {
                lemma_sum_of_prefix(self@, value, i as int);
            }
            if self.body[i].part == Part::Work && self.body[i].hits > 0 {
                acc = acc + self.body[i].get_harvest_deposit_amount();
            }
            i += 1;
        }
        proof {
            assert(self@.take(i as int) =~= self@);
        }
        acc
    }

    /// The damage that the active ranged attack parts of the body deal per tick together to one
    /// target at the given distance with a ranged mass attack.
    pub fn ranged_mass_attack_damage_at_distance_single_target(&self, distance: u8) -> (total: u32)
        requires
            sum_of_parts(
                self@,
                active_amount(
                    Part::RangedAttack,
                    ranged_mass_attack_power_at_distance_spec(distance) as nat,
                    RANGED_ATTACK_BOOSTS,
                ),
            ) <= u32::MAX,
        ensures
            total == sum_of_parts(
                self@,
                active_amount(
                    Part::RangedAttack,
                    ranged_mass_attack_power_at_distance_spec(distance) as nat,
                    RANGED_ATTACK_BOOSTS,
                ),
            ),
    {
        let ghost value = active_amount(
            Part::RangedAttack,
            ranged_mass_attack_power_at_distance_spec(distance) as nat,
            RANGED_ATTACK_BOOSTS,
        );
        let mut acc: u32 = 0;
        let mut i: usize = 0;
        while i < self.body.len()
            invariant
                i <= self@.len(),
                value == active_amount(
                    Part::RangedAttack,
                    ranged_mass_attack_power_at_distance_spec(distance) as nat,
                    RANGED_ATTACK_BOOSTS,
                ),
                acc == sum_of_parts(self@.take(i as int), value),
                sum_of_parts(self@, value) <= u32::MAX,
            decreases self@.len() - i,
        {
            proof {
                lemma_sum_of_prefix(self@, value, i as int);
            }
            if self.body[i].part == Part::RangedAttack && self.body[i].hits > 0 {
                acc = acc + self.body[i].get_ranged_mass_attack_damage_at_distance_single_target(distance);
            }
            i += 1;
        }
        proof {
            assert(self@.take(i as int) =~= self@);
        }
        acc
    }

    /// The energy that it costs to spawn the body.
    pub fn energy_to_spawn(&self) -> (total: u32)
        requires
            sum_of_parts(self@, |spec: PartSpec| part_cost_spec(spec.part) as nat) <= u32::MAX,
        ensures
            total == sum_of_parts(self@, |spec: PartSpec| part_cost_spec(spec.part) as nat),
    {
        let ghost value = |spec: PartSpec| part_cost_spec(spec.part) as nat;
        let mut acc: u32 = 0;
        let mut i: usize = 0;
        while i < self.body.len()
            invariant
                i <= self@.len(),
                value == |spec: PartSpec| part_cost_spec(spec.part) as nat,
                acc == sum_of_parts(self@.take(i as int), value),
                sum_of_parts(self@, value) <= u32::MAX,
            decreases self@.len() - i,
        {
            proof {
                lemma_sum_of_prefix(self@, value, i as int);
            }
            acc = acc + part_cost(self.body[i].part);
            i += 1;
        }
        proof {
            assert(self@.take(i as int) =~= self@);
        }
        acc
    }

    /// The ticks that it takes to spawn the body.
    pub fn ticks_to_spawn(&self) -> (total: u32)
        requires
            sum_of_parts(self@, |spec: PartSpec| creep_spawn_time_spec() as nat) <= u32::MAX,
        ensures
            total == sum_of_parts(self@, |spec: PartSpec| creep_spawn_time_spec() as nat),
    {
        let ghost value = |spec: PartSpec| creep_spawn_time_spec() as nat;
        let mut acc: u32 = 0;
        let mut i: usize = 0;
        while i < self.body.len()
            invariant
                i <= self@.len(),
                value == |spec: PartSpec| creep_spawn_time_spec() as nat,
                acc == sum_of_parts(self@.take(i as int), value),
                sum_of_parts(self@, value) <= u32::MAX,
            decreases self@.len() - i,
        {
            proof {
                lemma_sum_of_prefix(self@, value, i as int);
            }
            acc = acc + creep_spawn_time();
            i += 1;
        }
        proof {
            assert(self@.take(i as int) =~= self@);
        }
        acc
    }

    fn tile_move_net_exhaustion(&self, tile_cost: u32) -> (exhaustion: u32)
        requires
            self.fatigue_fits(tile_cost),
        ensures
            exhaustion == self.net_exhaustion_spec(tile_cost),
    {
        let ghost generation = |spec: PartSpec| spec.fatigue_generation_spec(tile_cost);
        let ghost reduction = |spec: PartSpec| spec.fatigue_reduction_spec();
        let mut fatigue_generated: u32 = 0;
        let mut fatigue_reduced: u32 = 0;
        let mut i: usize = 0;
        while i < self.body.len()
            invariant
                i <= self@.len(),
                generation == |spec: PartSpec| spec.fatigue_generation_spec(tile_cost),
                reduction == |spec: PartSpec| spec.fatigue_reduction_spec(),
                fatigue_generated == sum_of_parts(self@.take(i as int), generation),
                fatigue_reduced == sum_of_parts(self@.take(i as int), reduction),
                sum_of_parts(self@, generation) <= u32::MAX,
                sum_of_parts(self@, reduction) <= u32::MAX,
            decreases self@.len() - i,
        {
            proof {
                lemma_sum_of_prefix(self@, generation, i as int);
                lemma_sum_of_prefix(self@, reduction, i as int);
            }
            fatigue_generated = fatigue_generated + self.body[i].get_fatigue_generation(tile_cost);
            fatigue_reduced = fatigue_reduced + self.body[i].get_fatigue_reduction();
            i += 1;
        }
        proof {
            assert(self@.take(i as int) =~= self@);
        }
        fatigue_generated.saturating_sub(fatigue_reduced)
    }

    /// The fatigue that is left when the creep moves onto a plain.
    pub fn plains_move_net_exhaustion(&self) -> (exhaustion: u32)
        requires
            self.fatigue_fits(move_cost_plain_spec()),
        ensures
            exhaustion == self.net_exhaustion_spec(move_cost_plain_spec()),
    {
        self.tile_move_net_exhaustion(move_cost_plain())
    }

    /// The fatigue that is left when the creep moves onto a swamp.
    pub fn swamp_move_net_exhaustion(&self) -> (exhaustion: u32)
        requires
            self.fatigue_fits(move_cost_swamp_spec()),
        ensures
            exhaustion == self.net_exhaustion_spec(move_cost_swamp_spec()),
    {
        self.tile_move_net_exhaustion(move_cost_swamp())
    }

    /// The fatigue that is left when the creep moves onto a road.
    pub fn road_move_net_exhaustion(&self) -> (exhaustion: u32)
        requires
            self.fatigue_fits(move_cost_road_spec()),
        ensures
            exhaustion == self.net_exhaustion_spec(move_cost_road_spec()),
    {
        self.tile_move_net_exhaustion(move_cost_road())
    }
}

} // verus!
