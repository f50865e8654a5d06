//! Convenience abstraction layer for working with boosts.

use vstd::prelude::*;
use crate::boost::reaction::Reaction;
use crate::boost::reaction_chains::{
    chain_outputs, get_reaction_chain_for_resource, is_chain_of, lemma_chain_outputs_are_compounds,
    lemma_chain_time, outputs_time,
};
use crate::constants::parts::Part;
use crate::constants::resources::{is_t1_resource, is_t2_resource, is_t3_resource, LabResource};
use crate::game::{
    reaction_components, reaction_components_spec, reaction_time, reaction_time_spec,
};

verus! {

/// Encapsulates the concept of a creep boost, regardless of the actual numbers involved.
#[derive(Debug, PartialEq, Eq, Hash, Clone, Copy, Structural)]
pub enum AbstractBoost {
    // Work
    T1Harvest,
    T1BuildRepair,
    T1Dismantle,
    T1UpgradeController,
    T2Harvest,
    T2BuildRepair,
    T2Dismantle,
    T2UpgradeController,
    T3Harvest,
    T3BuildRepair,
    T3Dismantle,
    T3UpgradeController,
    // Attack
    T1Attack,
    T2Attack,
    T3Attack,
    // Ranged Attack
    T1RangedAttack,
    T2RangedAttack,
    T3RangedAttack,
    // Heal
    T1Heal,
    T2Heal,
    T3Heal,
    // Carry
    T1Carry,
    T2Carry,
    T3Carry,
    // Move
    T1Move,
    T2Move,
    T3Move,
    // Tough
    T1Tough,
    T2Tough,
    T3Tough,
}

/// The 12 boosts that can be applied to work parts.
pub const WORK_BOOSTS: [AbstractBoost; 12] = [
    AbstractBoost::T1Harvest,
    AbstractBoost::T1BuildRepair,
    AbstractBoost::T1Dismantle,
    AbstractBoost::T1UpgradeController,
    AbstractBoost::T2Harvest,
    AbstractBoost::T2BuildRepair,
    AbstractBoost::T2Dismantle,
    AbstractBoost::T2UpgradeController,
    AbstractBoost::T3Harvest,
    AbstractBoost::T3BuildRepair,
    AbstractBoost::T3Dismantle,
    AbstractBoost::T3UpgradeController,
];

/// The 3 boosts that affect harvesting, by rising tier.
pub const HARVEST_BOOSTS: [AbstractBoost; 3] = [
    AbstractBoost::T1Harvest,
    AbstractBoost::T2Harvest,
    AbstractBoost::T3Harvest,
];

/// The 3 boosts that affect building and repairing, by rising tier.
pub const BUILD_REPAIR_BOOSTS: [AbstractBoost; 3] = [
    AbstractBoost::T1BuildRepair,
    AbstractBoost::T2BuildRepair,
    AbstractBoost::T3BuildRepair,
];

/// The 3 boosts that affect dismantling, by rising tier.
pub const DISMANTLE_BOOSTS: [AbstractBoost; 3] = [
    AbstractBoost::T1Dismantle,
    AbstractBoost::T2Dismantle,
    AbstractBoost::T3Dismantle,
];

/// The 3 boosts that affect upgrading a controller, by rising tier.
pub const UPGRADE_CONTROLLER_BOOSTS: [AbstractBoost; 3] = [
    AbstractBoost::T1UpgradeController,
    AbstractBoost::T2UpgradeController,
    AbstractBoost::T3UpgradeController,
];

/// The 3 boosts that affect melee attacks, by rising tier.
pub const ATTACK_BOOSTS: [AbstractBoost; 3] = [
    AbstractBoost::T1Attack,
    AbstractBoost::T2Attack,
    AbstractBoost::T3Attack,
];

/// The 3 boosts that affect ranged attacks, by rising tier.
pub const RANGED_ATTACK_BOOSTS: [AbstractBoost; 3] = [
    AbstractBoost::T1RangedAttack,
    AbstractBoost::T2RangedAttack,
    AbstractBoost::T3RangedAttack,
];

/// The 3 boosts that affect healing, by rising tier.
pub const HEAL_BOOSTS: [AbstractBoost; 3] = [
    AbstractBoost::T1Heal,
    AbstractBoost::T2Heal,
    AbstractBoost::T3Heal,
];

/// The 3 boosts that affect carry capacity, by rising tier.
pub const CARRY_BOOSTS: [AbstractBoost; 3] = [
    AbstractBoost::T1Carry,
    AbstractBoost::T2Carry,
    AbstractBoost::T3Carry,
];

/// The 3 boosts that affect fatigue reduction, by rising tier.
pub const MOVE_BOOSTS: [AbstractBoost; 3] = [
    AbstractBoost::T1Move,
    AbstractBoost::T2Move,
    AbstractBoost::T3Move,
];

/// The 3 boosts that affect damage reduction, by rising tier.
pub const TOUGH_BOOSTS: [AbstractBoost; 3] = [
    AbstractBoost::T1Tough,
    AbstractBoost::T2Tough,
    AbstractBoost::T3Tough,
];

/// The 10 Tier 1 boosts.
pub const T1_BOOSTS: [AbstractBoost; 10] = [
    AbstractBoost::T1Harvest,
    AbstractBoost::T1BuildRepair,
    AbstractBoost::T1Dismantle,
    AbstractBoost::T1UpgradeController,
    AbstractBoost::T1Attack,
    AbstractBoost::T1RangedAttack,
    AbstractBoost::T1Heal,
    AbstractBoost::T1Carry,
    AbstractBoost::T1Move,
    AbstractBoost::T1Tough,
];

/// The 10 Tier 2 boosts.
pub const T2_BOOSTS: [AbstractBoost; 10] = [
    AbstractBoost::T2Harvest,
    AbstractBoost::T2BuildRepair,
    AbstractBoost::T2Dismantle,
    AbstractBoost::T2UpgradeController,
    AbstractBoost::T2Attack,
    AbstractBoost::T2RangedAttack,
    AbstractBoost::T2Heal,
    AbstractBoost::T2Carry,
    AbstractBoost::T2Move,
    AbstractBoost::T2Tough,
];

/// The 10 Tier 3 boosts.
pub const T3_BOOSTS: [AbstractBoost; 10] = [
    AbstractBoost::T3Harvest,
    AbstractBoost::T3BuildRepair,
    AbstractBoost::T3Dismantle,
    AbstractBoost::T3UpgradeController,
    AbstractBoost::T3Attack,
    AbstractBoost::T3RangedAttack,
    AbstractBoost::T3Heal,
    AbstractBoost::T3Carry,
    AbstractBoost::T3Move,
    AbstractBoost::T3Tough,
];

/// The factor by which a Tier 1 boost multiplies melee attack damage.
pub const T1_ATTACK_MULTIPLIER: u32 = 2;

/// The factor by which a Tier 2 boost multiplies melee attack damage.
pub const T2_ATTACK_MULTIPLIER: u32 = 3;

/// The factor by which a Tier 3 boost multiplies melee attack damage.
pub const T3_ATTACK_MULTIPLIER: u32 = 4;

/// The factor by which a Tier 1 boost multiplies harvest amounts.
pub const T1_HARVEST_MULTIPLIER: u32 = 3;

/// The factor by which a Tier 2 boost multiplies harvest amounts.
pub const T2_HARVEST_MULTIPLIER: u32 = 5;

/// The factor by which a Tier 3 boost multiplies harvest amounts.
pub const T3_HARVEST_MULTIPLIER: u32 = 7;

/// The factor by which a Tier 1 boost multiplies carry capacity.
pub const T1_CARRY_MULTIPLIER: u32 = 2;

/// The factor by which a Tier 2 boost multiplies carry capacity.
pub const T2_CARRY_MULTIPLIER: u32 = 3;

/// The factor by which a Tier 3 boost multiplies carry capacity.
pub const T3_CARRY_MULTIPLIER: u32 = 4;

/// The factor by which a Tier 1 boost multiplies ranged attack damage.
pub const T1_RANGED_ATTACK_MULTIPLIER: u32 = 2;

/// The factor by which a Tier 2 boost multiplies ranged attack damage.
pub const T2_RANGED_ATTACK_MULTIPLIER: u32 = 3;

/// The factor by which a Tier 3 boost multiplies ranged attack damage.
pub const T3_RANGED_ATTACK_MULTIPLIER: u32 = 4;

/// The factor by which a Tier 1 boost multiplies heal amounts.
pub const T1_HEAL_MULTIPLIER: u32 = 2;

/// The factor by which a Tier 2 boost multiplies heal amounts.
pub const T2_HEAL_MULTIPLIER: u32 = 3;

/// The factor by which a Tier 3 boost multiplies heal amounts.
pub const T3_HEAL_MULTIPLIER: u32 = 4;

/// The factor by which a Tier 1 boost multiplies dismantle damage.
pub const T1_DISMANTLE_MULTIPLIER: u32 = 2;

/// The factor by which a Tier 2 boost multiplies dismantle damage.
pub const T2_DISMANTLE_MULTIPLIER: u32 = 3;

/// The factor by which a Tier 3 boost multiplies dismantle damage.
pub const T3_DISMANTLE_MULTIPLIER: u32 = 4;

/// The factor by which a Tier 1 boost multiplies fatigue reduction.
pub const T1_MOVE_MULTIPLIER: u32 = 2;

/// The factor by which a Tier 2 boost multiplies fatigue reduction.
pub const T2_MOVE_MULTIPLIER: u32 = 3;

/// The factor by which a Tier 3 boost multiplies fatigue reduction.
pub const T3_MOVE_MULTIPLIER: u32 = 4;

/// The capabilities of a creep that a boost can improve.
#[derive(Debug, PartialEq, Eq, Hash, Clone, Copy, Structural)]
pub enum BoostCategory {
    HarvestEnergy,
    HarvestMineral,
    HarvestDeposit,
    Build,
    Repair,
    Dismantle,
    UpgradeController,
    Attack,
    RangedAttack,
    RangedMassAttack,
    Heal,
    RangedHeal,
    Carry,
    Move,
    Tough,
}

impl BoostCategory {
    /// The kind of part that provides a capability.
    pub open spec fn associated_part_spec(self) -> Part {
        match self {
            BoostCategory::Attack => Part::Attack,
            BoostCategory::RangedAttack | BoostCategory::RangedMassAttack => Part::RangedAttack,
            BoostCategory::Heal | BoostCategory::RangedHeal => Part::Heal,
            BoostCategory::Carry => Part::Carry,
            BoostCategory::Move => Part::Move,
            BoostCategory::Tough => Part::Tough,
            _ => Part::Work,
        }
    }

    /// The three boosts that improve a capability, by rising tier.
    pub open spec fn abstract_boosts_spec(self) -> [AbstractBoost; 3] {
        match self {
            BoostCategory::HarvestEnergy
            | BoostCategory::HarvestMineral
            | BoostCategory::HarvestDeposit => HARVEST_BOOSTS,
            BoostCategory::Build | BoostCategory::Repair => BUILD_REPAIR_BOOSTS,
            BoostCategory::Dismantle => DISMANTLE_BOOSTS,
            BoostCategory::UpgradeController => UPGRADE_CONTROLLER_BOOSTS,
            BoostCategory::Attack => ATTACK_BOOSTS,
            BoostCategory::RangedAttack | BoostCategory::RangedMassAttack => RANGED_ATTACK_BOOSTS,
            BoostCategory::Heal | BoostCategory::RangedHeal => HEAL_BOOSTS,
            BoostCategory::Carry => CARRY_BOOSTS,
            BoostCategory::Move => MOVE_BOOSTS,
            BoostCategory::Tough => TOUGH_BOOSTS,
        }
    }

    /// Returns the kind of part that provides the capability.
    pub fn get_associated_part_for_category(value: &BoostCategory) -> (part: Part)
        ensures
            part == value.associated_part_spec(),
    {
        match value {
            BoostCategory::HarvestEnergy => Part::Work,
            BoostCategory::HarvestMineral => Part::Work,
            BoostCategory::HarvestDeposit => Part::Work,
            BoostCategory::Build => Part::Work,
            BoostCategory::Repair => Part::Work,
            BoostCategory::Dismantle => Part::Work,
            BoostCategory::UpgradeController => Part::Work,
            BoostCategory::Attack => Part::Attack,
            BoostCategory::RangedAttack => Part::RangedAttack,
            BoostCategory::RangedMassAttack => Part::RangedAttack,
            BoostCategory::Heal => Part::Heal,
            BoostCategory::RangedHeal => Part::Heal,
            BoostCategory::Carry => Part::Carry,
            BoostCategory::Move => Part::Move,
            BoostCategory::Tough => Part::Tough,
        }
    }

    /// Returns the kind of part that provides this capability.
    pub fn get_associated_part(&self) -> (part: Part)
        ensures
            part == self.associated_part_spec(),
    {
        BoostCategory::get_associated_part_for_category(self)
    }

    /// Returns the three boosts that improve the capability, by rising tier.
    pub fn get_abstract_boosts_for_category(value: &BoostCategory) -> (boosts: [AbstractBoost; 3])
        ensures
            boosts == value.abstract_boosts_spec(),
    {
        match value {
            BoostCategory::HarvestEnergy => HARVEST_BOOSTS,
            BoostCategory::HarvestMineral => HARVEST_BOOSTS,
            BoostCategory::HarvestDeposit => HARVEST_BOOSTS,
            BoostCategory::Build => BUILD_REPAIR_BOOSTS,
            BoostCategory::Repair => BUILD_REPAIR_BOOSTS,
            BoostCategory::Dismantle => DISMANTLE_BOOSTS,
            BoostCategory::UpgradeController => UPGRADE_CONTROLLER_BOOSTS,
            BoostCategory::Attack => ATTACK_BOOSTS,
            BoostCategory::RangedAttack => RANGED_ATTACK_BOOSTS,
            BoostCategory::RangedMassAttack => RANGED_ATTACK_BOOSTS,
            BoostCategory::Heal => HEAL_BOOSTS,
            BoostCategory::RangedHeal => HEAL_BOOSTS,
            BoostCategory::Carry => CARRY_BOOSTS,
            BoostCategory::Move => MOVE_BOOSTS,
            BoostCategory::Tough => TOUGH_BOOSTS,
        }
    }

    /// Returns the three boosts that improve this capability, by rising tier.
    pub fn get_abstract_boosts(&self) -> (boosts: [AbstractBoost; 3])
        ensures
            boosts == self.abstract_boosts_spec(),
    {
        BoostCategory::get_abstract_boosts_for_category(self)
    }
}

impl AbstractBoost {
    /// The compound that a creep is boosted with to get this boost.
    pub open spec fn resource_spec(self) -> LabResource {
        match self {
            AbstractBoost::T1Attack => LabResource::UtriumHydride,
            AbstractBoost::T2Attack => LabResource::UtriumAcid,
            AbstractBoost::T3Attack => LabResource::CatalyzedUtriumAcid,
            AbstractBoost::T1Harvest => LabResource::UtriumOxide,
            AbstractBoost::T2Harvest => LabResource::UtriumAlkalide,
            AbstractBoost::T3Harvest => LabResource::CatalyzedUtriumAlkalide,
            AbstractBoost::T1Carry => LabResource::KeaniumHydride,
            AbstractBoost::T2Carry => LabResource::KeaniumAcid,
            AbstractBoost::T3Carry => LabResource::CatalyzedKeaniumAcid,
            AbstractBoost::T1RangedAttack => LabResource::KeaniumOxide,
            AbstractBoost::T2RangedAttack => LabResource::KeaniumAlkalide,
            AbstractBoost::T3RangedAttack => LabResource::CatalyzedKeaniumAlkalide,
            AbstractBoost::T1BuildRepair => LabResource::LemergiumHydride,
            AbstractBoost::T2BuildRepair => LabResource::LemergiumAcid,
            AbstractBoost::T3BuildRepair => LabResource::CatalyzedLemergiumAcid,
            AbstractBoost::T1Heal => LabResource::LemergiumOxide,
            AbstractBoost::T2Heal => LabResource::LemergiumAlkalide,
            AbstractBoost::T3Heal => LabResource::CatalyzedLemergiumAlkalide,
            AbstractBoost::T1Dismantle => LabResource::ZynthiumHydride,
            AbstractBoost::T2Dismantle => LabResource::ZynthiumAcid,
            AbstractBoost::T3Dismantle => LabResource::CatalyzedZynthiumAcid,
            AbstractBoost::T1Move => LabResource::ZynthiumOxide,
            AbstractBoost::T2Move => LabResource::ZynthiumAlkalide,
            AbstractBoost::T3Move => LabResource::CatalyzedZynthiumAlkalide,
            AbstractBoost::T1UpgradeController => LabResource::GhodiumHydride,
            AbstractBoost::T2UpgradeController => LabResource::GhodiumAcid,
            AbstractBoost::T3UpgradeController => LabResource::CatalyzedGhodiumAcid,
            AbstractBoost::T1Tough => LabResource::GhodiumOxide,
            AbstractBoost::T2Tough => LabResource::GhodiumAlkalide,
            AbstractBoost::T3Tough => LabResource::CatalyzedGhodiumAlkalide,
        }
    }

    /// The tier of this boost: 3 if it is listed in `T3_BOOSTS`, 2 if in
    /// `T2_BOOSTS`, else 1.
    pub open spec fn tier_spec(self) -> u8 {
        if T3_BOOSTS@.contains(self) {
            3
        } else if T2_BOOSTS@.contains(self) {
            2
        } else {
            1
        }
    }

    /// The kind of part that this boost applies to.
    pub open spec fn part_spec(self) -> Part {
        if WORK_BOOSTS@.contains(self) {
            Part::Work
        } else if ATTACK_BOOSTS@.contains(self) {
            Part::Attack
        } else if RANGED_ATTACK_BOOSTS@.contains(self) {
            Part::RangedAttack
        } else if HEAL_BOOSTS@.contains(self) {
            Part::Heal
        } else if CARRY_BOOSTS@.contains(self) {
            Part::Carry
        } else if MOVE_BOOSTS@.contains(self) {
            Part::Move
        } else {
            Part::Tough
        }
    }

    /// The whole-number factor that this boost multiplies its capability by;
    /// `None` for the boosts whose factor is fractional.
    pub open spec fn u32_multiplier_spec(self) -> Option<u32> {
        match self {
            AbstractBoost::T1Attack => Some(T1_ATTACK_MULTIPLIER),
            AbstractBoost::T2Attack => Some(T2_ATTACK_MULTIPLIER),
            AbstractBoost::T3Attack => Some(T3_ATTACK_MULTIPLIER),
            AbstractBoost::T1Harvest => Some(T1_HARVEST_MULTIPLIER),
            AbstractBoost::T2Harvest => Some(T2_HARVEST_MULTIPLIER),
            AbstractBoost::T3Harvest => Some(T3_HARVEST_MULTIPLIER),
            AbstractBoost::T1Carry => Some(T1_CARRY_MULTIPLIER),
            AbstractBoost::T2Carry => Some(T2_CARRY_MULTIPLIER),
            AbstractBoost::T3Carry => Some(T3_CARRY_MULTIPLIER),
            AbstractBoost::T1RangedAttack => Some(T1_RANGED_ATTACK_MULTIPLIER),
            AbstractBoost::T2RangedAttack => Some(T2_RANGED_ATTACK_MULTIPLIER),
            AbstractBoost::T3RangedAttack => Some(T3_RANGED_ATTACK_MULTIPLIER),
            AbstractBoost::T1Heal => Some(T1_HEAL_MULTIPLIER),
            AbstractBoost::T2Heal => Some(T2_HEAL_MULTIPLIER),
            AbstractBoost::T3Heal => Some(T3_HEAL_MULTIPLIER),
            AbstractBoost::T1Dismantle => Some(T1_DISMANTLE_MULTIPLIER),
            AbstractBoost::T2Dismantle => Some(T2_DISMANTLE_MULTIPLIER),
            AbstractBoost::T3Dismantle => Some(T3_DISMANTLE_MULTIPLIER),
            AbstractBoost::T1Move => Some(T1_MOVE_MULTIPLIER),
            AbstractBoost::T2Move => Some(T2_MOVE_MULTIPLIER),
            AbstractBoost::T3Move => Some(T3_MOVE_MULTIPLIER),
            _ => None,
        }
    }

    /// Whether the boost occurs in the slice.
    pub fn boost_in_slice(s: &[AbstractBoost], boost: &AbstractBoost) -> (found: bool)
        ensures
            found == s@.contains(*boost),
    {
        let mut i: usize = 0;
        while i < s.len()
            invariant
                i <= s.len(),
                forall|j: int| 0 <= j < i ==> s@[j] != *boost,
            decreases s.len() - i,
        {
            if AbstractBoost::const_eq(&s[i], boost) {
                return true;
            }
            i += 1;
        }
        false
    }

    /// Whether two boosts are the same boost.
    pub fn const_eq(a: &AbstractBoost, b: &AbstractBoost) -> (same: bool)
        ensures
            same == (*a == *b),
    {
        match (a, b) {
            (AbstractBoost::T1Harvest, AbstractBoost::T1Harvest) => true,
            (AbstractBoost::T1BuildRepair, AbstractBoost::T1BuildRepair) => true,
            (AbstractBoost::T1Dismantle, AbstractBoost::T1Dismantle) => true,
            (AbstractBoost::T1UpgradeController, AbstractBoost::T1UpgradeController) => true,
            (AbstractBoost::T2Harvest, AbstractBoost::T2Harvest) => true,
            (AbstractBoost::T2BuildRepair, AbstractBoost::T2BuildRepair) => true,
            (AbstractBoost::T2Dismantle, AbstractBoost::T2Dismantle) => true,
            (AbstractBoost::T2UpgradeController, AbstractBoost::T2UpgradeController) => true,
            (AbstractBoost::T3Harvest, AbstractBoost::T3Harvest) => true,
            (AbstractBoost::T3BuildRepair, AbstractBoost::T3BuildRepair) => true,
            (AbstractBoost::T3Dismantle, AbstractBoost::T3Dismantle) => true,
            (AbstractBoost::T3UpgradeController, AbstractBoost::T3UpgradeController) => true,
            (AbstractBoost::T1Attack, AbstractBoost::T1Attack) => true,
            (AbstractBoost::T2Attack, AbstractBoost::T2Attack) => true,
            (AbstractBoost::T3Attack, AbstractBoost::T3Attack) => true,
            (AbstractBoost::T1RangedAttack, AbstractBoost::T1RangedAttack) => true,
            (AbstractBoost::T2RangedAttack, AbstractBoost::T2RangedAttack) => true,
            (AbstractBoost::T3RangedAttack, AbstractBoost::T3RangedAttack) => true,
            (AbstractBoost::T1Heal, AbstractBoost::T1Heal) => true,
            (AbstractBoost::T2Heal, AbstractBoost::T2Heal) => true,
            (AbstractBoost::T3Heal, AbstractBoost::T3Heal) => true,
            (AbstractBoost::T1Carry, AbstractBoost::T1Carry) => true,
            (AbstractBoost::T2Carry, AbstractBoost::T2Carry) => true,
            (AbstractBoost::T3Carry, AbstractBoost::T3Carry) => true,
            (AbstractBoost::T1Move, AbstractBoost::T1Move) => true,
            (AbstractBoost::T2Move, AbstractBoost::T2Move) => true,
            (AbstractBoost::T3Move, AbstractBoost::T3Move) => true,
            (AbstractBoost::T1Tough, AbstractBoost::T1Tough) => true,
            (AbstractBoost::T2Tough, AbstractBoost::T2Tough) => true,
            (AbstractBoost::T3Tough, AbstractBoost::T3Tough) => true,
            _ => false,
        }
    }

    /// Converts a resource into the boost that it gives.
    ///
    /// Fails for the resources that boost nothing: the base minerals and the
    /// base compounds.
    pub fn try_from_resource_type(value: &LabResource) -> (res: Result<AbstractBoost, &'static str>)
        ensures
            res is Ok <==> is_t1_resource(*value) || is_t2_resource(*value) || is_t3_resource(
                *value,
            ),
            res matches Ok(boost) ==> boost.resource_spec() == *value,
            res matches Err(message) ==> message@ == "resource is not a boost compound"@,
    {
        match value {
            LabResource::UtriumHydride => Ok(AbstractBoost::T1Attack),
            LabResource::UtriumAcid => Ok(AbstractBoost::T2Attack),
            LabResource::CatalyzedUtriumAcid => Ok(AbstractBoost::T3Attack),
            LabResource::UtriumOxide => Ok(AbstractBoost::T1Harvest),
            LabResource::UtriumAlkalide => Ok(AbstractBoost::T2Harvest),
            LabResource::CatalyzedUtriumAlkalide => Ok(AbstractBoost::T3Harvest),
            LabResource::KeaniumHydride => Ok(AbstractBoost::T1Carry),
            LabResource::KeaniumAcid => Ok(AbstractBoost::T2Carry),
            LabResource::CatalyzedKeaniumAcid => Ok(AbstractBoost::T3Carry),
            LabResource::KeaniumOxide => Ok(AbstractBoost::T1RangedAttack),
            LabResource::KeaniumAlkalide => Ok(AbstractBoost::T2RangedAttack),
            LabResource::CatalyzedKeaniumAlkalide => Ok(AbstractBoost::T3RangedAttack),
            LabResource::LemergiumHydride => Ok(AbstractBoost::T1BuildRepair),
            LabResource::LemergiumAcid => Ok(AbstractBoost::T2BuildRepair),
            LabResource::CatalyzedLemergiumAcid => Ok(AbstractBoost::T3BuildRepair),
            LabResource::LemergiumOxide => Ok(AbstractBoost::T1Heal),
            LabResource::LemergiumAlkalide => Ok(AbstractBoost::T2Heal),
            LabResource::CatalyzedLemergiumAlkalide => Ok(AbstractBoost::T3Heal),
            LabResource::ZynthiumHydride => Ok(AbstractBoost::T1Dismantle),
            LabResource::ZynthiumAcid => Ok(AbstractBoost::T2Dismantle),
            LabResource::CatalyzedZynthiumAcid => Ok(AbstractBoost::T3Dismantle),
            LabResource::ZynthiumOxide => Ok(AbstractBoost::T1Move),
            LabResource::ZynthiumAlkalide => Ok(AbstractBoost::T2Move),
            LabResource::CatalyzedZynthiumAlkalide => Ok(AbstractBoost::T3Move),
            LabResource::GhodiumHydride => Ok(AbstractBoost::T1UpgradeController),
            LabResource::GhodiumAcid => Ok(AbstractBoost::T2UpgradeController),
            LabResource::CatalyzedGhodiumAcid => Ok(AbstractBoost::T3UpgradeController),
            LabResource::GhodiumOxide => Ok(AbstractBoost::T1Tough),
            LabResource::GhodiumAlkalide => Ok(AbstractBoost::T2Tough),
            LabResource::CatalyzedGhodiumAlkalide => Ok(AbstractBoost::T3Tough),
            _ => Err("resource is not a boost compound"),
        }
    }

    /// Returns the boosts that can be applied to a kind of part, by rising tier; for work
    /// parts, the four boosts of each tier together. No boost can be applied to a claim part.
    pub fn boosts_for_part(part: &Part) -> (boosts: &'static [AbstractBoost])
        ensures
            boosts@ == match *part {
                Part::Work => WORK_BOOSTS@,
                Part::Attack => ATTACK_BOOSTS@,
                Part::RangedAttack => RANGED_ATTACK_BOOSTS@,
                Part::Heal => HEAL_BOOSTS@,
                Part::Carry => CARRY_BOOSTS@,
                Part::Move => MOVE_BOOSTS@,
                Part::Tough => TOUGH_BOOSTS@,
                Part::Claim => Seq::empty(),
            },
            forall|boost: AbstractBoost|
                boosts@.contains(boost) <==> *part != Part::Claim && boost.part_spec() == *part,
    {
        match part {
            Part::Work => &WORK_BOOSTS,
            Part::Attack => &ATTACK_BOOSTS,
            Part::RangedAttack => &RANGED_ATTACK_BOOSTS,
            Part::Heal => &HEAL_BOOSTS,
            Part::Carry => &CARRY_BOOSTS,
            Part::Move => &MOVE_BOOSTS,
            Part::Tough => &TOUGH_BOOSTS,
            _ => &[],
        }
    }

    /// Returns the kind of part that a boost applies to.
    pub fn part_for_boost(boost: &AbstractBoost) -> (part: Part)
        ensures
            part == boost.part_spec(),
    {
        match boost {
            AbstractBoost::T1Harvest => Part::Work,
            AbstractBoost::T1BuildRepair => Part::Work,
            AbstractBoost::T1Dismantle => Part::Work,
            AbstractBoost::T1UpgradeController => Part::Work,
            AbstractBoost::T2Harvest => Part::Work,
            AbstractBoost::T2BuildRepair => Part::Work,
            AbstractBoost::T2Dismantle => Part::Work,
            AbstractBoost::T2UpgradeController => Part::Work,
            AbstractBoost::T3Harvest => Part::Work,
            AbstractBoost::T3BuildRepair => Part::Work,
            AbstractBoost::T3Dismantle => Part::Work,
            AbstractBoost::T3UpgradeController => Part::Work,
            AbstractBoost::T1Attack => Part::Attack,
            AbstractBoost::T2Attack => Part::Attack,
            AbstractBoost::T3Attack => Part::Attack,
            AbstractBoost::T1RangedAttack => Part::RangedAttack,
            AbstractBoost::T2RangedAttack => Part::RangedAttack,
            AbstractBoost::T3RangedAttack => Part::RangedAttack,
            AbstractBoost::T1Heal => Part::Heal,
            AbstractBoost::T2Heal => Part::Heal,
            AbstractBoost::T3Heal => Part::Heal,
            AbstractBoost::T1Carry => Part::Carry,
            AbstractBoost::T2Carry => Part::Carry,
            AbstractBoost::T3Carry => Part::Carry,
            AbstractBoost::T1Move => Part::Move,
            AbstractBoost::T2Move => Part::Move,
            AbstractBoost::T3Move => Part::Move,
            AbstractBoost::T1Tough => Part::Tough,
            AbstractBoost::T2Tough => Part::Tough,
            AbstractBoost::T3Tough => Part::Tough,
        }
    }

    /// Returns the kind of part that this boost applies to.
    pub fn associated_part(&self) -> (part: Part)
        ensures
            part == self.part_spec(),
    {
        AbstractBoost::part_for_boost(self)
    }

    /// Returns the compound that a creep is boosted with to get a boost.
    pub fn resource_for_boost(boost: &AbstractBoost) -> (resource: LabResource)
        ensures
            resource == boost.resource_spec(),
    {
        match boost {
            AbstractBoost::T1Attack => LabResource::UtriumHydride,
            AbstractBoost::T2Attack => LabResource::UtriumAcid,
            AbstractBoost::T3Attack => LabResource::CatalyzedUtriumAcid,
            AbstractBoost::T1Harvest => LabResource::UtriumOxide,
            AbstractBoost::T2Harvest => LabResource::UtriumAlkalide,
            AbstractBoost::T3Harvest => LabResource::CatalyzedUtriumAlkalide,
            AbstractBoost::T1Carry => LabResource::KeaniumHydride,
            AbstractBoost::T2Carry => LabResource::KeaniumAcid,
            AbstractBoost::T3Carry => LabResource::CatalyzedKeaniumAcid,
            AbstractBoost::T1RangedAttack => LabResource::KeaniumOxide,
            AbstractBoost::T2RangedAttack => LabResource::KeaniumAlkalide,
            AbstractBoost::T3RangedAttack => LabResource::CatalyzedKeaniumAlkalide,
            AbstractBoost::T1BuildRepair => LabResource::LemergiumHydride,
            AbstractBoost::T2BuildRepair => LabResource::LemergiumAcid,
            AbstractBoost::T3BuildRepair => LabResource::CatalyzedLemergiumAcid,
            AbstractBoost::T1Heal => LabResource::LemergiumOxide,
            AbstractBoost::T2Heal => LabResource::LemergiumAlkalide,
            AbstractBoost::T3Heal => LabResource::CatalyzedLemergiumAlkalide,
            AbstractBoost::T1Dismantle => LabResource::ZynthiumHydride,
            AbstractBoost::T2Dismantle => LabResource::ZynthiumAcid,
            AbstractBoost::T3Dismantle => LabResource::CatalyzedZynthiumAcid,
            AbstractBoost::T1Move => LabResource::ZynthiumOxide,
            AbstractBoost::T2Move => LabResource::ZynthiumAlkalide,
            AbstractBoost::T3Move => LabResource::CatalyzedZynthiumAlkalide,
            AbstractBoost::T1UpgradeController => LabResource::GhodiumHydride,
            AbstractBoost::T2UpgradeController => LabResource::GhodiumAcid,
            AbstractBoost::T3UpgradeController => LabResource::CatalyzedGhodiumAcid,
            AbstractBoost::T1Tough => LabResource::GhodiumOxide,
            AbstractBoost::T2Tough => LabResource::GhodiumAlkalide,
            AbstractBoost::T3Tough => LabResource::CatalyzedGhodiumAlkalide,
        }
    }

    /// Returns the compound that a creep is boosted with to get this boost.
    pub fn associated_resource(&self) -> (resource: LabResource)
        ensures
            resource == self.resource_spec(),
    {
        AbstractBoost::resource_for_boost(self)
    }

    /// Returns the tier of a boost: 1, 2 or 3.
    pub fn tier_for_boost(boost: &AbstractBoost) -> (tier: u8)
        ensures
            tier == boost.tier_spec(),
            1 <= tier <= 3,
    {
        if AbstractBoost::boost_in_slice(&T3_BOOSTS, boost) {
            3
        } else if AbstractBoost::boost_in_slice(&T2_BOOSTS, boost) {
            2
        } else {
            1
        }
    }

    /// Returns the tier of this boost: 1, 2 or 3.
    pub fn tier(&self) -> (tier: u8)
        ensures
            tier == self.tier_spec(),
            1 <= tier <= 3,
    {
        AbstractBoost::tier_for_boost(self)
    }

    /// Whether the factor of a boost is a whole number.
    pub fn has_u32_multiplier(value: &AbstractBoost) -> (whole: bool)
        ensures
            whole == value.u32_multiplier_spec().is_some(),
    {
        match value {
            AbstractBoost::T1Attack => true,
            AbstractBoost::T2Attack => true,
            AbstractBoost::T3Attack => true,
            AbstractBoost::T1Harvest => true,
            AbstractBoost::T2Harvest => true,
            AbstractBoost::T3Harvest => true,
            AbstractBoost::T1Carry => true,
            AbstractBoost::T2Carry => true,
            AbstractBoost::T3Carry => true,
            AbstractBoost::T1RangedAttack => true,
            AbstractBoost::T2RangedAttack => true,
            AbstractBoost::T3RangedAttack => true,
            AbstractBoost::T1BuildRepair => false,
            AbstractBoost::T2BuildRepair => false,
            AbstractBoost::T3BuildRepair => false,
            AbstractBoost::T1Heal => true,
            AbstractBoost::T2Heal => true,
            AbstractBoost::T3Heal => true,
            AbstractBoost::T1Dismantle => true,
            AbstractBoost::T2Dismantle => true,
            AbstractBoost::T3Dismantle => true,
            AbstractBoost::T1Move => true,
            AbstractBoost::T2Move => true,
            AbstractBoost::T3Move => true,
            AbstractBoost::T1UpgradeController => false,
            AbstractBoost::T2UpgradeController => false,
            AbstractBoost::T3UpgradeController => false,
            AbstractBoost::T1Tough => false,
            AbstractBoost::T2Tough => false,
            AbstractBoost::T3Tough => false,
        }
    }

    /// Whether the factor of a boost is fractional.
    pub fn has_f32_multiplier(value: &AbstractBoost) -> (fractional: bool)
        ensures
            fractional == value.u32_multiplier_spec().is_none(),
    {
        !AbstractBoost::has_u32_multiplier(value)
    }

    /// Returns the whole-number factor of a boost, if it has one.
    pub fn get_u32_multiplier(value: &AbstractBoost) -> (multiplier: Option<u32>)
        ensures
            multiplier == value.u32_multiplier_spec(),
    {
        match value {
            AbstractBoost::T1Attack => Some(T1_ATTACK_MULTIPLIER),
            AbstractBoost::T2Attack => Some(T2_ATTACK_MULTIPLIER),
            AbstractBoost::T3Attack => Some(T3_ATTACK_MULTIPLIER),
            AbstractBoost::T1Harvest => Some(T1_HARVEST_MULTIPLIER),
            AbstractBoost::T2Harvest => Some(T2_HARVEST_MULTIPLIER),
            AbstractBoost::T3Harvest => Some(T3_HARVEST_MULTIPLIER),
            AbstractBoost::T1Carry => Some(T1_CARRY_MULTIPLIER),
            AbstractBoost::T2Carry => Some(T2_CARRY_MULTIPLIER),
            AbstractBoost::T3Carry => Some(T3_CARRY_MULTIPLIER),
            AbstractBoost::T1RangedAttack => Some(T1_RANGED_ATTACK_MULTIPLIER),
            AbstractBoost::T2RangedAttack => Some(T2_RANGED_ATTACK_MULTIPLIER),
            AbstractBoost::T3RangedAttack => Some(T3_RANGED_ATTACK_MULTIPLIER),
            AbstractBoost::T1BuildRepair => None,
            AbstractBoost::T2BuildRepair => None,
            AbstractBoost::T3BuildRepair => None,
            AbstractBoost::T1Heal => Some(T1_HEAL_MULTIPLIER),
            AbstractBoost::T2Heal => Some(T2_HEAL_MULTIPLIER),
            AbstractBoost::T3Heal => Some(T3_HEAL_MULTIPLIER),
            AbstractBoost::T1Dismantle => Some(T1_DISMANTLE_MULTIPLIER),
            AbstractBoost::T2Dismantle => Some(T2_DISMANTLE_MULTIPLIER),
            AbstractBoost::T3Dismantle => Some(T3_DISMANTLE_MULTIPLIER),
            AbstractBoost::T1Move => Some(T1_MOVE_MULTIPLIER),
            AbstractBoost::T2Move => Some(T2_MOVE_MULTIPLIER),
            AbstractBoost::T3Move => Some(T3_MOVE_MULTIPLIER),
            AbstractBoost::T1UpgradeController => None,
            AbstractBoost::T2UpgradeController => None,
            AbstractBoost::T3UpgradeController => None,
            AbstractBoost::T1Tough => None,
            AbstractBoost::T2Tough => None,
            AbstractBoost::T3Tough => None,
        }
    }

    /// Returns the two resources that a lab combines to produce the compound of a boost.
    pub fn reaction_components_for_boost(boost: &AbstractBoost) -> (components: [LabResource; 2])
        ensures
            reaction_components_spec(boost.resource_spec()) == Some(
                (components@[0], components@[1]),
            ),
    {
        // The compound of a boost is always one with a set of reaction components.
        let (first, second) = reaction_components(boost.associated_resource()).unwrap();
        [first, second]
    }

    /// Returns the two resources that a lab combines to produce the compound of this boost.
    pub fn reaction_components(&self) -> (components: [LabResource; 2])
        ensures
            reaction_components_spec(self.resource_spec()) == Some(
                (components@[0], components@[1]),
            ),
    {
        AbstractBoost::reaction_components_for_boost(self)
    }

    /// Returns the reaction chain that produces the compound of a boost from base minerals.
    pub fn reaction_chain_for_boost(boost: &AbstractBoost) -> (chain: Vec<Reaction>)
        ensures
            is_chain_of(chain@, chain_outputs(boost.resource_spec())),
    {
        let resource = boost.associated_resource();
        get_reaction_chain_for_resource(&resource)
    }

    /// Returns the reaction chain that produces the compound of this boost from base minerals.
    pub fn reaction_chain(&self) -> (chain: Vec<Reaction>)
        ensures
            is_chain_of(chain@, chain_outputs(self.resource_spec())),
    {
        AbstractBoost::reaction_chain_for_boost(self)
    }

    /// Returns the ticks that one lab reaction for the compound of a boost takes.
    pub fn reaction_time_for_boost(boost: &AbstractBoost) -> (ticks: u32)
        ensures
            reaction_time_spec(boost.resource_spec()) == Some(ticks),
    {
        let resource = boost.associated_resource();
        // A boost is always associated with a resource that has a reaction time
        reaction_time(resource).unwrap()
    }

    /// Returns the ticks that one lab reaction for the compound of this boost takes.
    pub fn reaction_time(&self) -> (ticks: u32)
        ensures
            reaction_time_spec(self.resource_spec()) == Some(ticks),
    {
        AbstractBoost::reaction_time_for_boost(self)
    }

    /// Returns the ticks that the whole reaction chain of a boost takes: the sum of the ticks
    /// of one lab reaction for each output of the chain.
    pub fn reaction_chain_time_for_boost(boost: &AbstractBoost) -> (ticks: u32)
        ensures
            ticks == outputs_time(chain_outputs(boost.resource_spec())),
    {
        let chain = boost.reaction_chain();
        proof {
            lemma_chain_outputs_are_compounds(boost.resource_spec());
            lemma_chain_time(chain@, chain_outputs(boost.resource_spec()));
        }
        Reaction::reaction_time_for_chain(chain.as_slice())
    }

    /// Returns the ticks that the whole reaction chain of this boost takes.
    pub fn reaction_chain_time(&self) -> (ticks: u32)
        ensures
            ticks == outputs_time(chain_outputs(self.resource_spec())),
    {
        AbstractBoost::reaction_chain_time_for_boost(self)
    }

    /// Finds, among the three boosts of a capability, the one that multiplies by the given
    /// whole number.
    pub fn try_from_u32_multiplier(boosts: &[AbstractBoost; 3], multiplier: u32) -> (res: Result<
        AbstractBoost,
        &'static str,
    >)
        ensures
            res is Ok <==> exists|i: int|
                0 <= i < 3 && (#[trigger] boosts@[i]).u32_multiplier_spec() == Some(multiplier),
            res matches Ok(boost) ==> exists|i: int|
                0 <= i < 3 && boosts@[i] == boost && (forall|j: int|
                    0 <= j < i ==> (#[trigger] boosts@[j]).u32_multiplier_spec() != Some(
                        multiplier,
                    )) && boost.u32_multiplier_spec() == Some(multiplier),
            res matches Err(message) ==> message@ == "invalid boost value"@,
    {
        let mut i: usize = 0;
        while i < 3
            invariant
                i <= 3,
                forall|j: int|
                    0 <= j < i ==> (#[trigger] boosts@[j]).u32_multiplier_spec() != Some(
                        multiplier,
                    ),
            decreases 3 - i,
        {
            if let Some(value) = AbstractBoost::get_u32_multiplier(&boosts[i]) {
                if value == multiplier {
                    return Ok(boosts[i]);
                }
            }
            i += 1;
        }
        Err("invalid boost value")
    }
}

/// A boost and its compound determine each other: no two boosts share a
/// compound, and the resources that give a boost are the boost compounds of
/// the three tiers.
pub proof fn lemma_boost_resource_is_one_to_one(a: AbstractBoost, b: AbstractBoost)
    ensures
        a.resource_spec() == b.resource_spec() ==> a == b,
        is_t1_resource(a.resource_spec()) <==> a.tier_spec() == 1,
        is_t2_resource(a.resource_spec()) <==> a.tier_spec() == 2,
        is_t3_resource(a.resource_spec()) <==> a.tier_spec() == 3,
        forall|resource: LabResource|
            is_t1_resource(resource) || is_t2_resource(resource) || is_t3_resource(resource)
                ==> exists|boost: AbstractBoost| #[trigger] boost.resource_spec() == resource,
{
    assert forall|resource: LabResource|
        is_t1_resource(resource) || is_t2_resource(resource) || is_t3_resource(
            resource,
        ) implies exists|boost: AbstractBoost| #[trigger] boost.resource_spec() == resource by {
        let boost = boost_of(resource);
        assert(boost.resource_spec() == resource);
    }
}

/// The boost that a boost compound gives; for any other resource, a boost
/// that it does not give.
spec fn boost_of(resource: LabResource) -> AbstractBoost {
    match resource {
        LabResource::UtriumHydride => AbstractBoost::T1Attack,
        LabResource::UtriumAcid => AbstractBoost::T2Attack,
        LabResource::CatalyzedUtriumAcid => AbstractBoost::T3Attack,
        LabResource::UtriumOxide => AbstractBoost::T1Harvest,
        LabResource::UtriumAlkalide => AbstractBoost::T2Harvest,
        LabResource::CatalyzedUtriumAlkalide => AbstractBoost::T3Harvest,
        LabResource::KeaniumHydride => AbstractBoost::T1Carry,
        LabResource::KeaniumAcid => AbstractBoost::T2Carry,
        LabResource::CatalyzedKeaniumAcid => AbstractBoost::T3Carry,
        LabResource::KeaniumOxide => AbstractBoost::T1RangedAttack,
        LabResource::KeaniumAlkalide => AbstractBoost::T2RangedAttack,
        LabResource::CatalyzedKeaniumAlkalide => AbstractBoost::T3RangedAttack,
        LabResource::LemergiumHydride => AbstractBoost::T1BuildRepair,
        LabResource::LemergiumAcid => AbstractBoost::T2BuildRepair,
        LabResource::CatalyzedLemergiumAcid => AbstractBoost::T3BuildRepair,
        LabResource::LemergiumOxide => AbstractBoost::T1Heal,
        LabResource::LemergiumAlkalide => AbstractBoost::T2Heal,
        LabResource::CatalyzedLemergiumAlkalide => AbstractBoost::T3Heal,
        LabResource::ZynthiumHydride => AbstractBoost::T1Dismantle,
        LabResource::ZynthiumAcid => AbstractBoost::T2Dismantle,
        LabResource::CatalyzedZynthiumAcid => AbstractBoost::T3Dismantle,
        LabResource::ZynthiumOxide => AbstractBoost::T1Move,
        LabResource::ZynthiumAlkalide => AbstractBoost::T2Move,
        LabResource::CatalyzedZynthiumAlkalide => AbstractBoost::T3Move,
        LabResource::GhodiumHydride => AbstractBoost::T1UpgradeController,
        LabResource::GhodiumAcid => AbstractBoost::T2UpgradeController,
        LabResource::CatalyzedGhodiumAcid => AbstractBoost::T3UpgradeController,
        LabResource::GhodiumOxide => AbstractBoost::T1Tough,
        LabResource::GhodiumAlkalide => AbstractBoost::T2Tough,
        LabResource::CatalyzedGhodiumAlkalide => AbstractBoost::T3Tough,
        _ => AbstractBoost::T1Harvest,
    }
}

impl From<AbstractBoost> for LabResource {
    fn from(val: AbstractBoost) -> (resource: Self) {
        val.associated_resource()
    }
}

impl vstd::std_specs::convert::FromSpecImpl<AbstractBoost> for LabResource {
    open spec fn obeys_from_spec() -> bool {
        true
    }

    open spec fn from_spec(val: AbstractBoost) -> Self {
        val.resource_spec()
    }
}

} // verus!
