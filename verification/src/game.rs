//! The boundary to the `screeps` crate: the game's reaction tables, part
//! costs and numeric constants.
//!
//! The contracts in this module are believed, not proved. Each function that
//! carries one calls into `screeps` and restates what that crate's source
//! says; the rest of the library is verified against these contracts.
//!
//! The library has its own `LabResource` and `Part`. Where a call needs the
//! type of `screeps`, the variant of the same name is taken, and the same on
//! the way back.

use vstd::prelude::*;
use crate::constants::parts::Part;
use crate::constants::resources::{
    is_base_compound, is_base_mineral, is_t1_resource, is_t2_resource, is_t3_resource,
    LabResource,
};

verus! {

/// `screeps::ResourceType`, carried through verified code as an opaque value.
#[verifier::external_type_specification]
#[verifier::external_body]
pub struct ExGameResourceType(screeps::ResourceType);

/// The `screeps::ResourceType` variant that has the same name as `resource`,
/// where `resource` is a base mineral or a base compound.
#[verifier::external_body]
fn basic_to_game(resource: LabResource) -> (game: Option<screeps::ResourceType>)
    ensures
        game.is_some() <==> is_base_mineral(resource) || is_base_compound(resource),
{
    Some(match resource {
        LabResource::Hydrogen => screeps::ResourceType::Hydrogen,
        LabResource::Oxygen => screeps::ResourceType::Oxygen,
        LabResource::Utrium => screeps::ResourceType::Utrium,
        LabResource::Lemergium => screeps::ResourceType::Lemergium,
        LabResource::Keanium => screeps::ResourceType::Keanium,
        LabResource::Zynthium => screeps::ResourceType::Zynthium,
        LabResource::Catalyst => screeps::ResourceType::Catalyst,
        LabResource::Hydroxide => screeps::ResourceType::Hydroxide,
        LabResource::ZynthiumKeanite => screeps::ResourceType::ZynthiumKeanite,
        LabResource::UtriumLemergite => screeps::ResourceType::UtriumLemergite,
        LabResource::Ghodium => screeps::ResourceType::Ghodium,
        _ => return None,
    })
}

/// The `screeps::ResourceType` variant that has the same name as `resource`,
/// where `resource` is a Tier 1 boost compound.
#[verifier::external_body]
fn t1_to_game(resource: LabResource) -> (game: Option<screeps::ResourceType>)
    ensures
        game.is_some() <==> is_t1_resource(resource),
{
    Some(match resource {
        LabResource::UtriumHydride => screeps::ResourceType::UtriumHydride,
        LabResource::UtriumOxide => screeps::ResourceType::UtriumOxide,
        LabResource::KeaniumHydride => screeps::ResourceType::KeaniumHydride,
        LabResource::KeaniumOxide => screeps::ResourceType::KeaniumOxide,
        LabResource::LemergiumHydride => screeps::ResourceType::LemergiumHydride,
        LabResource::LemergiumOxide => screeps::ResourceType::LemergiumOxide,
        LabResource::ZynthiumHydride => screeps::ResourceType::ZynthiumHydride,
        LabResource::ZynthiumOxide => screeps::ResourceType::ZynthiumOxide,
        LabResource::GhodiumHydride => screeps::ResourceType::GhodiumHydride,
        LabResource::GhodiumOxide => screeps::ResourceType::GhodiumOxide,
        _ => return None,
    })
}

/// The `screeps::ResourceType` variant that has the same name as `resource`,
/// where `resource` is a Tier 2 boost compound.
#[verifier::external_body]
fn t2_to_game(resource: LabResource) -> (game: Option<screeps::ResourceType>)
    ensures
        game.is_some() <==> is_t2_resource(resource),
{
    Some(match resource {
        LabResource::UtriumAcid => screeps::ResourceType::UtriumAcid,
        LabResource::UtriumAlkalide => screeps::ResourceType::UtriumAlkalide,
        LabResource::KeaniumAcid => screeps::ResourceType::KeaniumAcid,
        LabResource::KeaniumAlkalide => screeps::ResourceType::KeaniumAlkalide,
        LabResource::LemergiumAcid => screeps::ResourceType::LemergiumAcid,
        LabResource::LemergiumAlkalide => screeps::ResourceType::LemergiumAlkalide,
        LabResource::ZynthiumAcid => screeps::ResourceType::ZynthiumAcid,
        LabResource::ZynthiumAlkalide => screeps::ResourceType::ZynthiumAlkalide,
        LabResource::GhodiumAcid => screeps::ResourceType::GhodiumAcid,
        LabResource::GhodiumAlkalide => screeps::ResourceType::GhodiumAlkalide,
        _ => return None,
    })
}

/// The `screeps::ResourceType` variant that has the same name as `resource`,
/// where `resource` is a Tier 3 boost compound.
#[verifier::external_body]
fn t3_to_game(resource: LabResource) -> (game: Option<screeps::ResourceType>)
    ensures
        game.is_some() <==> is_t3_resource(resource),
{
    Some(match resource {
        LabResource::CatalyzedUtriumAcid => screeps::ResourceType::CatalyzedUtriumAcid,
        LabResource::CatalyzedUtriumAlkalide => screeps::ResourceType::CatalyzedUtriumAlkalide,
        LabResource::CatalyzedKeaniumAcid => screeps::ResourceType::CatalyzedKeaniumAcid,
        LabResource::CatalyzedKeaniumAlkalide => screeps::ResourceType::CatalyzedKeaniumAlkalide,
        LabResource::CatalyzedLemergiumAcid => screeps::ResourceType::CatalyzedLemergiumAcid,
        LabResource::CatalyzedLemergiumAlkalide => screeps::ResourceType::CatalyzedLemergiumAlkalide,
        LabResource::CatalyzedZynthiumAcid => screeps::ResourceType::CatalyzedZynthiumAcid,
        LabResource::CatalyzedZynthiumAlkalide => screeps::ResourceType::CatalyzedZynthiumAlkalide,
        LabResource::CatalyzedGhodiumAcid => screeps::ResourceType::CatalyzedGhodiumAcid,
        LabResource::CatalyzedGhodiumAlkalide => screeps::ResourceType::CatalyzedGhodiumAlkalide,
        _ => return None,
    })
}

/// The resource that has the same name as the `screeps::ResourceType` variant
/// `game`, where that is a base mineral or a base compound.
#[verifier::external_body]
fn basic_from_game(game: &screeps::ResourceType) -> (resource: Option<LabResource>)
{
    Some(match game {
        screeps::ResourceType::Hydrogen => LabResource::Hydrogen,
        screeps::ResourceType::Oxygen => LabResource::Oxygen,
        screeps::ResourceType::Utrium => LabResource::Utrium,
        screeps::ResourceType::Lemergium => LabResource::Lemergium,
        screeps::ResourceType::Keanium => LabResource::Keanium,
        screeps::ResourceType::Zynthium => LabResource::Zynthium,
        screeps::ResourceType::Catalyst => LabResource::Catalyst,
        screeps::ResourceType::Hydroxide => LabResource::Hydroxide,
        screeps::ResourceType::ZynthiumKeanite => LabResource::ZynthiumKeanite,
        screeps::ResourceType::UtriumLemergite => LabResource::UtriumLemergite,
        screeps::ResourceType::Ghodium => LabResource::Ghodium,
        _ => return None,
    })
}

/// The resource that has the same name as the `screeps::ResourceType` variant
/// `game`, where that is a Tier 1 boost compound.
#[verifier::external_body]
fn t1_from_game(game: &screeps::ResourceType) -> (resource: Option<LabResource>)
{
    Some(match game {
        screeps::ResourceType::UtriumHydride => LabResource::UtriumHydride,
        screeps::ResourceType::UtriumOxide => LabResource::UtriumOxide,
        screeps::ResourceType::KeaniumHydride => LabResource::KeaniumHydride,
        screeps::ResourceType::KeaniumOxide => LabResource::KeaniumOxide,
        screeps::ResourceType::LemergiumHydride => LabResource::LemergiumHydride,
        screeps::ResourceType::LemergiumOxide => LabResource::LemergiumOxide,
        screeps::ResourceType::ZynthiumHydride => LabResource::ZynthiumHydride,
        screeps::ResourceType::ZynthiumOxide => LabResource::ZynthiumOxide,
        screeps::ResourceType::GhodiumHydride => LabResource::GhodiumHydride,
        screeps::ResourceType::GhodiumOxide => LabResource::GhodiumOxide,
        _ => return None,
    })
}

/// The resource that has the same name as the `screeps::ResourceType` variant
/// `game`, where that is a Tier 2 boost compound.
#[verifier::external_body]
fn t2_from_game(game: &screeps::ResourceType) -> (resource: Option<LabResource>)
{
    Some(match game {
        screeps::ResourceType::UtriumAcid => LabResource::UtriumAcid,
        screeps::ResourceType::UtriumAlkalide => LabResource::UtriumAlkalide,
        screeps::ResourceType::KeaniumAcid => LabResource::KeaniumAcid,
        screeps::ResourceType::KeaniumAlkalide => LabResource::KeaniumAlkalide,
        screeps::ResourceType::LemergiumAcid => LabResource::LemergiumAcid,
        screeps::ResourceType::LemergiumAlkalide => LabResource::LemergiumAlkalide,
        screeps::ResourceType::ZynthiumAcid => LabResource::ZynthiumAcid,
        screeps::ResourceType::ZynthiumAlkalide => LabResource::ZynthiumAlkalide,
        screeps::ResourceType::GhodiumAcid => LabResource::GhodiumAcid,
        screeps::ResourceType::GhodiumAlkalide => LabResource::GhodiumAlkalide,
        _ => return None,
    })
}

/// The resource that has the same name as the `screeps::ResourceType` variant
/// `game`, where that is a Tier 3 boost compound.
#[verifier::external_body]
fn t3_from_game(game: &screeps::ResourceType) -> (resource: Option<LabResource>)
{
    Some(match game {
        screeps::ResourceType::CatalyzedUtriumAcid => LabResource::CatalyzedUtriumAcid,
        screeps::ResourceType::CatalyzedUtriumAlkalide => LabResource::CatalyzedUtriumAlkalide,
        screeps::ResourceType::CatalyzedKeaniumAcid => LabResource::CatalyzedKeaniumAcid,
        screeps::ResourceType::CatalyzedKeaniumAlkalide => LabResource::CatalyzedKeaniumAlkalide,
        screeps::ResourceType::CatalyzedLemergiumAcid => LabResource::CatalyzedLemergiumAcid,
        screeps::ResourceType::CatalyzedLemergiumAlkalide => LabResource::CatalyzedLemergiumAlkalide,
        screeps::ResourceType::CatalyzedZynthiumAcid => LabResource::CatalyzedZynthiumAcid,
        screeps::ResourceType::CatalyzedZynthiumAlkalide => LabResource::CatalyzedZynthiumAlkalide,
        screeps::ResourceType::CatalyzedGhodiumAcid => LabResource::CatalyzedGhodiumAcid,
        screeps::ResourceType::CatalyzedGhodiumAlkalide => LabResource::CatalyzedGhodiumAlkalide,
        _ => return None,
    })
}

/// The `screeps::ResourceType` variant that stands for a resource.
pub(crate) fn to_game(resource: LabResource) -> screeps::ResourceType {
    if let Some(game) = basic_to_game(resource) {
        game
    } else if let Some(game) = t1_to_game(resource) {
        game
    } else if let Some(game) = t2_to_game(resource) {
        game
    } else {
        t3_to_game(resource).unwrap()
    }
}

/// The resource that a `screeps::ResourceType` variant stands for, if it is
/// one that labs use.
pub(crate) fn from_game(game: &screeps::ResourceType) -> Option<LabResource> {
    if let Some(resource) = basic_from_game(game) {
        Some(resource)
    } else if let Some(resource) = t1_from_game(game) {
        Some(resource)
    } else if let Some(resource) = t2_from_game(game) {
        Some(resource)
    } else {
        t3_from_game(game)
    }
}

/// The two resources that a lab combines to produce `resource`, as the game's
/// `REACTIONS` table lists them; `None` for a base mineral.
pub open spec fn reaction_components_spec(resource: LabResource) -> Option<
    (LabResource, LabResource),
> {
    match resource {
        LabResource::Hydroxide => Some((LabResource::Oxygen, LabResource::Hydrogen)),
        LabResource::ZynthiumKeanite => Some((LabResource::Zynthium, LabResource::Keanium)),
        LabResource::UtriumLemergite => Some((LabResource::Utrium, LabResource::Lemergium)),
        LabResource::Ghodium => Some((LabResource::UtriumLemergite, LabResource::ZynthiumKeanite)),
        LabResource::UtriumHydride => Some((LabResource::Utrium, LabResource::Hydrogen)),
        LabResource::UtriumOxide => Some((LabResource::Utrium, LabResource::Oxygen)),
        LabResource::KeaniumHydride => Some((LabResource::Keanium, LabResource::Hydrogen)),
        LabResource::KeaniumOxide => Some((LabResource::Keanium, LabResource::Oxygen)),
        LabResource::LemergiumHydride => Some((LabResource::Lemergium, LabResource::Hydrogen)),
        LabResource::LemergiumOxide => Some((LabResource::Lemergium, LabResource::Oxygen)),
        LabResource::ZynthiumHydride => Some((LabResource::Zynthium, LabResource::Hydrogen)),
        LabResource::ZynthiumOxide => Some((LabResource::Zynthium, LabResource::Oxygen)),
        LabResource::GhodiumHydride => Some((LabResource::Ghodium, LabResource::Hydrogen)),
        LabResource::GhodiumOxide => Some((LabResource::Ghodium, LabResource::Oxygen)),
        LabResource::UtriumAcid => Some((LabResource::UtriumHydride, LabResource::Hydroxide)),
        LabResource::UtriumAlkalide => Some((LabResource::UtriumOxide, LabResource::Hydroxide)),
        LabResource::KeaniumAcid => Some((LabResource::KeaniumHydride, LabResource::Hydroxide)),
        LabResource::KeaniumAlkalide => Some((LabResource::KeaniumOxide, LabResource::Hydroxide)),
        LabResource::LemergiumAcid => Some((LabResource::LemergiumHydride, LabResource::Hydroxide)),
        LabResource::LemergiumAlkalide => Some((LabResource::LemergiumOxide, LabResource::Hydroxide)),
        LabResource::ZynthiumAcid => Some((LabResource::ZynthiumHydride, LabResource::Hydroxide)),
        LabResource::ZynthiumAlkalide => Some((LabResource::ZynthiumOxide, LabResource::Hydroxide)),
        LabResource::GhodiumAcid => Some((LabResource::GhodiumHydride, LabResource::Hydroxide)),
        LabResource::GhodiumAlkalide => Some((LabResource::GhodiumOxide, LabResource::Hydroxide)),
        LabResource::CatalyzedUtriumAcid => Some((LabResource::UtriumAcid, LabResource::Catalyst)),
        LabResource::CatalyzedUtriumAlkalide => Some((LabResource::UtriumAlkalide, LabResource::Catalyst)),
        LabResource::CatalyzedKeaniumAcid => Some((LabResource::KeaniumAcid, LabResource::Catalyst)),
        LabResource::CatalyzedKeaniumAlkalide => Some((LabResource::KeaniumAlkalide, LabResource::Catalyst)),
        LabResource::CatalyzedLemergiumAcid => Some((LabResource::LemergiumAcid, LabResource::Catalyst)),
        LabResource::CatalyzedLemergiumAlkalide => Some((LabResource::LemergiumAlkalide, LabResource::Catalyst)),
        LabResource::CatalyzedZynthiumAcid => Some((LabResource::ZynthiumAcid, LabResource::Catalyst)),
        LabResource::CatalyzedZynthiumAlkalide => Some((LabResource::ZynthiumAlkalide, LabResource::Catalyst)),
        LabResource::CatalyzedGhodiumAcid => Some((LabResource::GhodiumAcid, LabResource::Catalyst)),
        LabResource::CatalyzedGhodiumAlkalide => Some((LabResource::GhodiumAlkalide, LabResource::Catalyst)),
        _ => None,
    }
}

/// The number of ticks one lab reaction that produces `resource` takes, as
/// the game's `REACTION_TIME` table lists it; `None` for a base mineral.
pub open spec fn reaction_time_spec(resource: LabResource) -> Option<u32> {
    match resource {
        LabResource::Hydroxide => Some(20u32),
        LabResource::ZynthiumKeanite => Some(5u32),
        LabResource::UtriumLemergite => Some(5u32),
        LabResource::Ghodium => Some(5u32),
        LabResource::UtriumHydride => Some(10u32),
        LabResource::UtriumOxide => Some(10u32),
        LabResource::KeaniumHydride => Some(10u32),
        LabResource::KeaniumOxide => Some(10u32),
        LabResource::LemergiumHydride => Some(15u32),
        LabResource::LemergiumOxide => Some(10u32),
        LabResource::ZynthiumHydride => Some(20u32),
        LabResource::ZynthiumOxide => Some(10u32),
        LabResource::GhodiumHydride => Some(10u32),
        LabResource::GhodiumOxide => Some(10u32),
        LabResource::UtriumAcid => Some(5u32),
        LabResource::UtriumAlkalide => Some(5u32),
        LabResource::KeaniumAcid => Some(5u32),
        LabResource::KeaniumAlkalide => Some(5u32),
        LabResource::LemergiumAcid => Some(10u32),
        LabResource::LemergiumAlkalide => Some(5u32),
        LabResource::ZynthiumAcid => Some(40u32),
        LabResource::ZynthiumAlkalide => Some(5u32),
        LabResource::GhodiumAcid => Some(15u32),
        LabResource::GhodiumAlkalide => Some(30u32),
        LabResource::CatalyzedUtriumAcid => Some(60u32),
        LabResource::CatalyzedUtriumAlkalide => Some(60u32),
        LabResource::CatalyzedKeaniumAcid => Some(60u32),
        LabResource::CatalyzedKeaniumAlkalide => Some(60u32),
        LabResource::CatalyzedLemergiumAcid => Some(65u32),
        LabResource::CatalyzedLemergiumAlkalide => Some(60u32),
        LabResource::CatalyzedZynthiumAcid => Some(160u32),
        LabResource::CatalyzedZynthiumAlkalide => Some(60u32),
        LabResource::CatalyzedGhodiumAcid => Some(80u32),
        LabResource::CatalyzedGhodiumAlkalide => Some(150u32),
        _ => None,
    }
}

/// Calls `screeps::ResourceType::reaction_components` on the variant that
/// has the same name as `resource`, and gives the two components as the
/// resources that have the same names. The contract claims that the table of
/// lab reactions of `screeps` is `reaction_components_spec`, with the two
/// components in the order in which that table gives them.
#[verifier::external_body]
pub(crate) fn reaction_components(resource: LabResource) -> (components: Option<
    (LabResource, LabResource),
>)
    ensures
        components == reaction_components_spec(resource),
{
    let [first, second] = to_game(resource).reaction_components()?;
    Some((from_game(&first)?, from_game(&second)?))
}

/// Calls `screeps::ResourceType::reaction_time` on the variant that has the
/// same name as `resource`. The contract claims that the table of reaction
/// times of `screeps` is `reaction_time_spec`.
#[verifier::external_body]
pub(crate) fn reaction_time(resource: LabResource) -> (time: Option<u32>)
    ensures
        time == reaction_time_spec(resource),
{
    to_game(resource).reaction_time()
}

/// The energy it costs to spawn one part of a kind, as the game's
/// `BODYPART_COST` table lists it.
pub open spec fn part_cost_spec(part: Part) -> u32 {
    match part {
        Part::Move => 50,
        Part::Work => 100,
        Part::Carry => 50,
        Part::Attack => 80,
        Part::RangedAttack => 150,
        Part::Tough => 10,
        Part::Heal => 250,
        Part::Claim => 600,
    }
}

/// Calls `screeps::Part::cost` on the variant that has the same name as
/// `part`. The contract claims that its table of costs is `part_cost_spec`.
#[verifier::external_body]
pub(crate) fn part_cost(part: Part) -> (cost: u32)
    ensures
        cost == part_cost_spec(part),
{
    let game = match part {
        Part::Move => screeps::Part::Move,
        Part::Work => screeps::Part::Work,
        Part::Carry => screeps::Part::Carry,
        Part::Attack => screeps::Part::Attack,
        Part::RangedAttack => screeps::Part::RangedAttack,
        Part::Tough => screeps::Part::Tough,
        Part::Heal => screeps::Part::Heal,
        Part::Claim => screeps::Part::Claim,
    };
    game.cost()
}

/// The value of the game constant `LAB_REACTION_AMOUNT`: the amount of a compound that one lab reaction produces.
pub open spec fn lab_reaction_amount_spec() -> u32 {
    5
}

/// Reads `screeps::constants::LAB_REACTION_AMOUNT`. The contract claims that it is 5.
#[verifier::external_body]
#[verifier::when_used_as_spec(lab_reaction_amount_spec)]
pub(crate) fn lab_reaction_amount() -> (value: u32)
    ensures
        value == lab_reaction_amount_spec(),
{
    screeps::constants::LAB_REACTION_AMOUNT
}

/// The value of the game constant `MAX_CREEP_SIZE`: the largest number of parts a creep body can have.
pub open spec fn max_creep_size_spec() -> u32 {
    50
}

/// Reads `screeps::constants::MAX_CREEP_SIZE`. The contract claims that it is 50.
#[verifier::external_body]
#[verifier::when_used_as_spec(max_creep_size_spec)]
pub(crate) fn max_creep_size() -> (value: u32)
    ensures
        value == max_creep_size_spec(),
{
    screeps::constants::MAX_CREEP_SIZE
}

/// The value of the game constant `CREEP_SPAWN_TIME`: the ticks it takes to spawn one body part.
pub open spec fn creep_spawn_time_spec() -> u32 {
    3
}

/// Reads `screeps::constants::CREEP_SPAWN_TIME`. The contract claims that it is 3.
#[verifier::external_body]
#[verifier::when_used_as_spec(creep_spawn_time_spec)]
pub(crate) fn creep_spawn_time() -> (value: u32)
    ensures
        value == creep_spawn_time_spec(),
{
    screeps::constants::CREEP_SPAWN_TIME
}

/// The value of the game constant `CREEP_HITS_PER_PART`: the hits of an undamaged body part.
pub open spec fn creep_hits_per_part_spec() -> u32 {
    100
}

/// Reads `screeps::constants::extra::CREEP_HITS_PER_PART`. The contract claims that it is 100.
#[verifier::external_body]
#[verifier::when_used_as_spec(creep_hits_per_part_spec)]
pub(crate) fn creep_hits_per_part() -> (value: u32)
    ensures
        value == creep_hits_per_part_spec(),
{
    screeps::constants::extra::CREEP_HITS_PER_PART
}

/// The value of the game constant `HARVEST_POWER`: the energy one work part harvests per tick.
pub open spec fn harvest_power_spec() -> u32 {
    2
}

/// Reads `screeps::constants::HARVEST_POWER`. The contract claims that it is 2.
#[verifier::external_body]
#[verifier::when_used_as_spec(harvest_power_spec)]
pub(crate) fn harvest_power() -> (value: u32)
    ensures
        value == harvest_power_spec(),
{
    screeps::constants::HARVEST_POWER
}

/// The value of the game constant `HARVEST_MINERAL_POWER`: the mineral one work part harvests per tick.
pub open spec fn harvest_mineral_power_spec() -> u32 {
    1
}

/// Reads `screeps::constants::HARVEST_MINERAL_POWER`. The contract claims that it is 1.
#[verifier::external_body]
#[verifier::when_used_as_spec(harvest_mineral_power_spec)]
pub(crate) fn harvest_mineral_power() -> (value: u32)
    ensures
        value == harvest_mineral_power_spec(),
{
    screeps::constants::HARVEST_MINERAL_POWER
}

/// The value of the game constant `HARVEST_DEPOSIT_POWER`: the deposit resource one work part harvests per tick.
pub open spec fn harvest_deposit_power_spec() -> u32 {
    1
}

/// Reads `screeps::constants::HARVEST_DEPOSIT_POWER`. The contract claims that it is 1.
#[verifier::external_body]
#[verifier::when_used_as_spec(harvest_deposit_power_spec)]
pub(crate) fn harvest_deposit_power() -> (value: u32)
    ensures
        value == harvest_deposit_power_spec(),
{
    screeps::constants::HARVEST_DEPOSIT_POWER
}

/// The value of the game constant `DISMANTLE_POWER`: the hits one work part dismantles per tick.
pub open spec fn dismantle_power_spec() -> u32 {
    50
}

/// Reads `screeps::constants::DISMANTLE_POWER`. The contract claims that it is 50.
#[verifier::external_body]
#[verifier::when_used_as_spec(dismantle_power_spec)]
pub(crate) fn dismantle_power() -> (value: u32)
    ensures
        value == dismantle_power_spec(),
{
    screeps::constants::DISMANTLE_POWER
}

/// The value of the game constant `ATTACK_POWER`: the damage one attack part deals per tick.
pub open spec fn attack_power_spec() -> u32 {
    30
}

/// Reads `screeps::constants::ATTACK_POWER`. The contract claims that it is 30.
#[verifier::external_body]
#[verifier::when_used_as_spec(attack_power_spec)]
pub(crate) fn attack_power() -> (value: u32)
    ensures
        value == attack_power_spec(),
{
    screeps::constants::ATTACK_POWER
}

/// The value of the game constant `RANGED_ATTACK_POWER`: the damage one ranged attack part deals per tick.
pub open spec fn ranged_attack_power_spec() -> u32 {
    10
}

/// Reads `screeps::constants::RANGED_ATTACK_POWER`. The contract claims that it is 10.
#[verifier::external_body]
#[verifier::when_used_as_spec(ranged_attack_power_spec)]
pub(crate) fn ranged_attack_power() -> (value: u32)
    ensures
        value == ranged_attack_power_spec(),
{
    screeps::constants::RANGED_ATTACK_POWER
}

/// The value of the game constant `HEAL_POWER`: the hits one heal part restores per tick to a neighbour.
pub open spec fn heal_power_spec() -> u32 {
    12
}

/// Reads `screeps::constants::HEAL_POWER`. The contract claims that it is 12.
#[verifier::external_body]
#[verifier::when_used_as_spec(heal_power_spec)]
pub(crate) fn heal_power() -> (value: u32)
    ensures
        value == heal_power_spec(),
{
    screeps::constants::HEAL_POWER
}

/// The value of the game constant `RANGED_HEAL_POWER`: the hits one heal part restores per tick at range.
pub open spec fn ranged_heal_power_spec() -> u32 {
    4
}

/// Reads `screeps::constants::RANGED_HEAL_POWER`. The contract claims that it is 4.
#[verifier::external_body]
#[verifier::when_used_as_spec(ranged_heal_power_spec)]
pub(crate) fn ranged_heal_power() -> (value: u32)
    ensures
        value == ranged_heal_power_spec(),
{
    screeps::constants::RANGED_HEAL_POWER
}

/// The value of the game constant `CARRY_CAPACITY`: the resources one carry part holds.
pub open spec fn carry_capacity_spec() -> u32 {
    50
}

/// Reads `screeps::constants::CARRY_CAPACITY`. The contract claims that it is 50.
#[verifier::external_body]
#[verifier::when_used_as_spec(carry_capacity_spec)]
pub(crate) fn carry_capacity() -> (value: u32)
    ensures
        value == carry_capacity_spec(),
{
    screeps::constants::CARRY_CAPACITY
}

/// The value of the game constant `MOVE_POWER`: the fatigue one move part removes per tick.
pub open spec fn move_power_spec() -> u32 {
    2
}

/// Reads `screeps::constants::extra::MOVE_POWER`. The contract claims that it is 2.
#[verifier::external_body]
#[verifier::when_used_as_spec(move_power_spec)]
pub(crate) fn move_power() -> (value: u32)
    ensures
        value == move_power_spec(),
{
    screeps::constants::extra::MOVE_POWER
}

/// The value of the game constant `MOVE_COST_ROAD`: the fatigue one part generates when it moves onto a road.
pub open spec fn move_cost_road_spec() -> u32 {
    1
}

/// Reads `screeps::constants::extra::MOVE_COST_ROAD`. The contract claims that it is 1.
#[verifier::external_body]
#[verifier::when_used_as_spec(move_cost_road_spec)]
pub(crate) fn move_cost_road() -> (value: u32)
    ensures
        value == move_cost_road_spec(),
{
    screeps::constants::extra::MOVE_COST_ROAD
}

/// The value of the game constant `MOVE_COST_PLAIN`: the fatigue one part generates when it moves onto a plain.
pub open spec fn move_cost_plain_spec() -> u32 {
    2
}

/// Reads `screeps::constants::extra::MOVE_COST_PLAIN`. The contract claims that it is 2.
#[verifier::external_body]
#[verifier::when_used_as_spec(move_cost_plain_spec)]
pub(crate) fn move_cost_plain() -> (value: u32)
    ensures
        value == move_cost_plain_spec(),
{
    screeps::constants::extra::MOVE_COST_PLAIN
}

/// The value of the game constant `MOVE_COST_SWAMP`: the fatigue one part generates when it moves onto a swamp.
pub open spec fn move_cost_swamp_spec() -> u32 {
    10
}

/// Reads `screeps::constants::extra::MOVE_COST_SWAMP`. The contract claims that it is 10.
#[verifier::external_body]
#[verifier::when_used_as_spec(move_cost_swamp_spec)]
pub(crate) fn move_cost_swamp() -> (value: u32)
    ensures
        value == move_cost_swamp_spec(),
{
    screeps::constants::extra::MOVE_COST_SWAMP
}

} // verus!
