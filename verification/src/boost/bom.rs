//! Utilities to help quantify needed materials for lab reactions.

use vstd::prelude::*;
use crate::boost::reaction::Reaction;
use crate::constants::resources::{
    canonical_index, is_base_mineral, is_lab_compound, lemma_canonical_order,
    lemma_resource_categories, LabResource, BASE_COMPOUNDS, BASE_MINERALS, LAB_RESOURCES,
    T1_RESOURCES, T2_RESOURCES, T3_RESOURCES,
};
use crate::game::{
    lab_reaction_amount, lab_reaction_amount_spec, reaction_components, reaction_components_spec,
};
use crate::helpers::functions::const_min_u32;

verus! {

/// Encapsulates a list of minerals and mineral compounds and the amounts of each.
///
/// This can be used to determine what resources are needed to get a certain quantity of boosts,
/// with helper methods for breaking down specific compounds into base components and amounts.
#[derive(Debug, PartialEq, Eq, Hash, Clone, Copy, Structural)]
pub struct ReactionBillOfMaterials {
    // Raw minerals
    pub hydrogen: u32,
    pub oxygen: u32,
    pub utrium: u32,
    pub keanium: u32,
    pub lemergium: u32,
    pub zynthium: u32,
    pub catalyst: u32,

    // Base compounds
    pub ghodium: u32,
    pub hydroxide: u32,
    pub zynthium_keanite: u32,
    pub utrium_lemergite: u32,

    // Tier 1 boosts
    pub utrium_hydride: u32,
    pub utrium_oxide: u32,
    pub keanium_hydride: u32,
    pub keanium_oxide: u32,
    pub lemergium_hydride: u32,
    pub lemergium_oxide: u32,
    pub zynthium_hydride: u32,
    pub zynthium_oxide: u32,
    pub ghodium_hydride: u32,
    pub ghodium_oxide: u32,

    // Tier 2 boosts
    pub utrium_acid: u32,
    pub utrium_alkalide: u32,
    pub keanium_acid: u32,
    pub keanium_alkalide: u32,
    pub lemergium_acid: u32,
    pub lemergium_alkalide: u32,
    pub zynthium_acid: u32,
    pub zynthium_alkalide: u32,
    pub ghodium_acid: u32,
    pub ghodium_alkalide: u32,

    // Tier 3 boosts
    pub catalyzed_utrium_acid: u32,
    pub catalyzed_utrium_alkalide: u32,
    pub catalyzed_keanium_acid: u32,
    pub catalyzed_keanium_alkalide: u32,
    pub catalyzed_lemergium_acid: u32,
    pub catalyzed_lemergium_alkalide: u32,
    pub catalyzed_zynthium_acid: u32,
    pub catalyzed_zynthium_alkalide: u32,
    pub catalyzed_ghodium_acid: u32,
    pub catalyzed_ghodium_alkalide: u32,
}

/// The sum of two amounts, capped at the largest amount a bill can hold.
pub open spec fn saturating_sum(held: nat, added: nat) -> nat {
    if held + added > u32::MAX {
        u32::MAX as nat
    } else {
        held + added
    }
}

/// What is left of an amount after `removed` is taken from it, but never
/// less than nothing.
pub open spec fn saturating_difference(held: nat, removed: nat) -> nat {
    if removed > held {
        0
    } else {
        (held - removed) as nat
    }
}

/// An amount as a bill can hold it: capped at the largest amount a counter
/// holds.
pub open spec fn capped(amount: nat) -> nat {
    if amount > u32::MAX {
        u32::MAX as nat
    } else {
        amount
    }
}

/// How many reaction steps lie between a resource and the base minerals: 0
/// for a base mineral, and for a compound one more than for the deeper of
/// its two components.
pub open spec fn reaction_depth(resource: LabResource) -> nat {
    if canonical_index(resource) < 7 {
        0
    } else if canonical_index(resource) < 10 {
        1
    } else if canonical_index(resource) < 11 {
        2
    } else if canonical_index(resource) < 21 {
        3
    } else if canonical_index(resource) < 31 {
        4
    } else {
        5
    }
}

/// The number of units of the base mineral `mineral` that go into one unit
/// of `resource`, when every lab reaction takes one unit of each of its two
/// components for one unit of its product.
pub open spec fn mineral_units(resource: LabResource, mineral: LabResource) -> nat
    decreases reaction_depth(resource),
{
    match reaction_components_spec(resource) {
        None => if resource == mineral {
            1
        } else {
            0
        },
        Some((first, second)) => mineral_units(first, mineral) + mineral_units(second, mineral),
    }
}

/// The sum of what `share` gives for each resource of a list.
pub open spec fn sum_over(share: spec_fn(LabResource) -> nat, list: Seq<LabResource>) -> nat
    decreases list.len(),
{
    if list.len() == 0 {
        0
    } else {
        sum_over(share, list.drop_last()) + share(list.last())
    }
}

impl ReactionBillOfMaterials {
    /// The amount that the bill holds of a resource. The bill is the
    /// function that this gives from resources to amounts: two bills that
    /// agree on every resource are equal.
    pub open spec fn amount_of(&self, resource: LabResource) -> nat {
        match resource {
            LabResource::Hydrogen => self.hydrogen as nat,
            LabResource::Oxygen => self.oxygen as nat,
            LabResource::Utrium => self.utrium as nat,
            LabResource::Lemergium => self.lemergium as nat,
            LabResource::Keanium => self.keanium as nat,
            LabResource::Zynthium => self.zynthium as nat,
            LabResource::Catalyst => self.catalyst as nat,
            LabResource::Hydroxide => self.hydroxide as nat,
            LabResource::ZynthiumKeanite => self.zynthium_keanite as nat,
            LabResource::UtriumLemergite => self.utrium_lemergite as nat,
            LabResource::Ghodium => self.ghodium as nat,
            LabResource::UtriumHydride => self.utrium_hydride as nat,
            LabResource::UtriumOxide => self.utrium_oxide as nat,
            LabResource::KeaniumHydride => self.keanium_hydride as nat,
            LabResource::KeaniumOxide => self.keanium_oxide as nat,
            LabResource::LemergiumHydride => self.lemergium_hydride as nat,
            LabResource::LemergiumOxide => self.lemergium_oxide as nat,
            LabResource::ZynthiumHydride => self.zynthium_hydride as nat,
            LabResource::ZynthiumOxide => self.zynthium_oxide as nat,
            LabResource::GhodiumHydride => self.ghodium_hydride as nat,
            LabResource::GhodiumOxide => self.ghodium_oxide as nat,
            LabResource::UtriumAcid => self.utrium_acid as nat,
            LabResource::UtriumAlkalide => self.utrium_alkalide as nat,
            LabResource::KeaniumAcid => self.keanium_acid as nat,
            LabResource::KeaniumAlkalide => self.keanium_alkalide as nat,
            LabResource::LemergiumAcid => self.lemergium_acid as nat,
            LabResource::LemergiumAlkalide => self.lemergium_alkalide as nat,
            LabResource::ZynthiumAcid => self.zynthium_acid as nat,
            LabResource::ZynthiumAlkalide => self.zynthium_alkalide as nat,
            LabResource::GhodiumAcid => self.ghodium_acid as nat,
            LabResource::GhodiumAlkalide => self.ghodium_alkalide as nat,
            LabResource::CatalyzedUtriumAcid => self.catalyzed_utrium_acid as nat,
            LabResource::CatalyzedUtriumAlkalide => self.catalyzed_utrium_alkalide as nat,
            LabResource::CatalyzedKeaniumAcid => self.catalyzed_keanium_acid as nat,
            LabResource::CatalyzedKeaniumAlkalide => self.catalyzed_keanium_alkalide as nat,
            LabResource::CatalyzedLemergiumAcid => self.catalyzed_lemergium_acid as nat,
            LabResource::CatalyzedLemergiumAlkalide => self.catalyzed_lemergium_alkalide as nat,
            LabResource::CatalyzedZynthiumAcid => self.catalyzed_zynthium_acid as nat,
            LabResource::CatalyzedZynthiumAlkalide => self.catalyzed_zynthium_alkalide as nat,
            LabResource::CatalyzedGhodiumAcid => self.catalyzed_ghodium_acid as nat,
            LabResource::CatalyzedGhodiumAlkalide => self.catalyzed_ghodium_alkalide as nat,
        }
    }

    /// The amount of `resource` actually broken down when a reduction by
    /// `amount` is asked for: no more than the bill holds.
    pub open spec fn reduction_of(&self, resource: LabResource, amount: nat) -> nat {
        if self.amount_of(resource) <= amount {
            self.amount_of(resource)
        } else {
            amount
        }
    }

    /// The amount held of `other` after `amount` of `resource`, or all that
    /// the bill holds of it if that is less, is broken down into the two
    /// components that a lab combines to produce it: the resource loses what
    /// is broken down and each component gains as much. A base mineral has no
    /// components, and nothing changes.
    pub open spec fn amount_after_reduction(
        &self,
        resource: LabResource,
        amount: nat,
        other: LabResource,
    ) -> nat {
        match reaction_components_spec(resource) {
            None => self.amount_of(other),
            Some((first, second)) => if other == resource {
                (self.amount_of(other) - self.reduction_of(resource, amount)) as nat
            } else if other == first || other == second {
                saturating_sum(self.amount_of(other), self.reduction_of(resource, amount))
            } else {
                self.amount_of(other)
            },
        }
    }

    /// Whether the bill holds at least `needed` of each of the two components
    /// of `resource`. A base mineral has no components, so no bill holds
    /// them.
    pub open spec fn holds_components(&self, resource: LabResource, needed: nat) -> bool {
        match reaction_components_spec(resource) {
            None => false,
            Some((first, second)) => self.amount_of(first) >= needed && self.amount_of(second)
                >= needed,
        }
    }

    /// The amount held of `other` after a lab has turned `consumed` of each
    /// of the two components of `output` into one batch of `output`.
    pub open spec fn amount_after_reaction(
        &self,
        output: LabResource,
        consumed: nat,
        other: LabResource,
    ) -> nat {
        match reaction_components_spec(output) {
            None => self.amount_of(other),
            Some((first, second)) => if other == output {
                saturating_sum(self.amount_of(other), lab_reaction_amount_spec() as nat)
            } else if other == first || other == second {
                saturating_difference(self.amount_of(other), consumed)
            } else {
                self.amount_of(other)
            },
        }
    }

    /// The units of the base mineral `mineral` that the bill holds in the
    /// form of `resource`.
    #[verifier::opaque]
    pub open spec fn mineral_share(&self, resource: LabResource, mineral: LabResource) -> nat {
        self.amount_of(resource) * mineral_units(resource, mineral)
    }

    /// The units of the base mineral `mineral` that the bill holds in any
    /// form: as the mineral itself and inside every compound.
    pub open spec fn mineral_total(&self, mineral: LabResource) -> nat {
        sum_over(|resource: LabResource| self.mineral_share(resource, mineral), LAB_RESOURCES@)
    }

    /// The resources of which the bill holds anything, each with its amount,
    /// in canonical order.
    pub open spec fn nonzero_entries(&self) -> Seq<(LabResource, u32)> {
        LAB_RESOURCES@.filter_map(
            |resource: LabResource|
                if self.amount_of(resource) > 0 {
                    Some((resource, self.amount_of(resource) as u32))
                } else {
                    None
                },
        )
    }

    /// Generates an empty BOM.
    pub fn new() -> (bom: Self)
        ensures
            forall|resource: LabResource| bom.amount_of(resource) == 0,
    {
        Self::default()
    }

    /// Generates an empty BOM.
    pub fn default() -> (bom: Self)
        ensures
            forall|resource: LabResource| bom.amount_of(resource) == 0,
    {
        Self {
            // Raw minerals
            hydrogen: 0,
            oxygen: 0,
            utrium: 0,
            keanium: 0,
            lemergium: 0,
            zynthium: 0,
            catalyst: 0,

            // Base compounds
            ghodium: 0,
            hydroxide: 0,
            zynthium_keanite: 0,
            utrium_lemergite: 0,

            // Tier 1 boosts
            utrium_hydride: 0,
            utrium_oxide: 0,
            keanium_hydride: 0,
            keanium_oxide: 0,
            lemergium_hydride: 0,
            lemergium_oxide: 0,
            zynthium_hydride: 0,
            zynthium_oxide: 0,
            ghodium_hydride: 0,
            ghodium_oxide: 0,

            // Tier 2 boosts
            utrium_acid: 0,
            utrium_alkalide: 0,
            keanium_acid: 0,
            keanium_alkalide: 0,
            lemergium_acid: 0,
            lemergium_alkalide: 0,
            zynthium_acid: 0,
            zynthium_alkalide: 0,
            ghodium_acid: 0,
            ghodium_alkalide: 0,

            // Tier 3 boosts
            catalyzed_utrium_acid: 0,
            catalyzed_utrium_alkalide: 0,
            catalyzed_keanium_acid: 0,
            catalyzed_keanium_alkalide: 0,
            catalyzed_lemergium_acid: 0,
            catalyzed_lemergium_alkalide: 0,
            catalyzed_zynthium_acid: 0,
            catalyzed_zynthium_alkalide: 0,
            catalyzed_ghodium_acid: 0,
            catalyzed_ghodium_alkalide: 0,
        }
    }

    /// Adds the specified amount of the specified resource to this BOM, saturating at [u32::MAX].
    pub fn add_resource(&mut self, resource: &LabResource, amount: u32)
        ensures
            forall|other: LabResource|
                final(self).amount_of(other) == if other == *resource {
                    saturating_sum(old(self).amount_of(other), amount as nat)
                } else {
                    old(self).amount_of(other)
                },
    {
        match resource {
            // Raw minerals
            LabResource::Hydrogen => self.hydrogen = self.hydrogen.saturating_add(amount),
            LabResource::Oxygen => self.oxygen = self.oxygen.saturating_add(amount),
            LabResource::Utrium => self.utrium = self.utrium.saturating_add(amount),
            LabResource::Keanium => self.keanium = self.keanium.saturating_add(amount),
            LabResource::Lemergium => self.lemergium = self.lemergium.saturating_add(amount),
            LabResource::Zynthium => self.zynthium = self.zynthium.saturating_add(amount),
            LabResource::Catalyst => self.catalyst = self.catalyst.saturating_add(amount),
            // Base compounds
            LabResource::Ghodium => self.ghodium = self.ghodium.saturating_add(amount),
            LabResource::Hydroxide => self.hydroxide = self.hydroxide.saturating_add(amount),
            LabResource::ZynthiumKeanite => self.zynthium_keanite = self.zynthium_keanite.saturating_add(amount),
            LabResource::UtriumLemergite => self.utrium_lemergite = self.utrium_lemergite.saturating_add(amount),
            // Tier 1 boosts
            LabResource::UtriumHydride => self.utrium_hydride = self.utrium_hydride.saturating_add(amount),
            LabResource::UtriumOxide => self.utrium_oxide = self.utrium_oxide.saturating_add(amount),
            LabResource::KeaniumHydride => self.keanium_hydride = self.keanium_hydride.saturating_add(amount),
            LabResource::KeaniumOxide => self.keanium_oxide = self.keanium_oxide.saturating_add(amount),
            LabResource::LemergiumHydride => self.lemergium_hydride = self.lemergium_hydride.saturating_add(amount),
            LabResource::LemergiumOxide => self.lemergium_oxide = self.lemergium_oxide.saturating_add(amount),
            LabResource::ZynthiumHydride => self.zynthium_hydride = self.zynthium_hydride.saturating_add(amount),
            LabResource::ZynthiumOxide => self.zynthium_oxide = self.zynthium_oxide.saturating_add(amount),
            LabResource::GhodiumHydride => self.ghodium_hydride = self.ghodium_hydride.saturating_add(amount),
            LabResource::GhodiumOxide => self.ghodium_oxide = self.ghodium_oxide.saturating_add(amount),
            // Tier 2 boosts
            LabResource::UtriumAcid => self.utrium_acid = self.utrium_acid.saturating_add(amount),
            LabResource::UtriumAlkalide => self.utrium_alkalide = self.utrium_alkalide.saturating_add(amount),
            LabResource::KeaniumAcid => self.keanium_acid = self.keanium_acid.saturating_add(amount),
            LabResource::KeaniumAlkalide => self.keanium_alkalide = self.keanium_alkalide.saturating_add(amount),
            LabResource::LemergiumAcid => self.lemergium_acid = self.lemergium_acid.saturating_add(amount),
            LabResource::LemergiumAlkalide => self.lemergium_alkalide = self.lemergium_alkalide.saturating_add(amount),
            LabResource::ZynthiumAcid => self.zynthium_acid = self.zynthium_acid.saturating_add(amount),
            LabResource::ZynthiumAlkalide => self.zynthium_alkalide = self.zynthium_alkalide.saturating_add(amount),
            LabResource::GhodiumAcid => self.ghodium_acid = self.ghodium_acid.saturating_add(amount),
            LabResource::GhodiumAlkalide => self.ghodium_alkalide = self.ghodium_alkalide.saturating_add(amount),
            // Tier 3 boosts
            LabResource::CatalyzedUtriumAcid => self.catalyzed_utrium_acid = self.catalyzed_utrium_acid.saturating_add(amount),
            LabResource::CatalyzedUtriumAlkalide => self.catalyzed_utrium_alkalide = self.catalyzed_utrium_alkalide.saturating_add(amount),
            LabResource::CatalyzedKeaniumAcid => self.catalyzed_keanium_acid = self.catalyzed_keanium_acid.saturating_add(amount),
            LabResource::CatalyzedKeaniumAlkalide => self.catalyzed_keanium_alkalide = self.catalyzed_keanium_alkalide.saturating_add(amount),
            LabResource::CatalyzedLemergiumAcid => self.catalyzed_lemergium_acid = self.catalyzed_lemergium_acid.saturating_add(amount),
            LabResource::CatalyzedLemergiumAlkalide => self.catalyzed_lemergium_alkalide = self.catalyzed_lemergium_alkalide.saturating_add(amount),
            LabResource::CatalyzedZynthiumAcid => self.catalyzed_zynthium_acid = self.catalyzed_zynthium_acid.saturating_add(amount),
            LabResource::CatalyzedZynthiumAlkalide => self.catalyzed_zynthium_alkalide = self.catalyzed_zynthium_alkalide.saturating_add(amount),
            LabResource::CatalyzedGhodiumAcid => self.catalyzed_ghodium_acid = self.catalyzed_ghodium_acid.saturating_add(amount),
            LabResource::CatalyzedGhodiumAlkalide => self.catalyzed_ghodium_alkalide = self.catalyzed_ghodium_alkalide.saturating_add(amount),
        };
    }

    /// Removes the specified amount of the specified resource from this BOM, saturating at 0.
    pub fn remove_resource(&mut self, resource: &LabResource, amount: u32)
        ensures
            forall|other: LabResource|
                final(self).amount_of(other) == if other == *resource {
                    saturating_difference(old(self).amount_of(other), amount as nat)
                } else {
                    old(self).amount_of(other)
                },
    {
        match resource {
            // Raw minerals
            LabResource::Hydrogen => self.hydrogen = self.hydrogen.saturating_sub(amount),
            LabResource::Oxygen => self.oxygen = self.oxygen.saturating_sub(amount),
            LabResource::Utrium => self.utrium = self.utrium.saturating_sub(amount),
            LabResource::Keanium => self.keanium = self.keanium.saturating_sub(amount),
            LabResource::Lemergium => self.lemergium = self.lemergium.saturating_sub(amount),
            LabResource::Zynthium => self.zynthium = self.zynthium.saturating_sub(amount),
            LabResource::Catalyst => self.catalyst = self.catalyst.saturating_sub(amount),
            // Base compounds
            LabResource::Ghodium => self.ghodium = self.ghodium.saturating_sub(amount),
            LabResource::Hydroxide => self.hydroxide = self.hydroxide.saturating_sub(amount),
            LabResource::ZynthiumKeanite => self.zynthium_keanite = self.zynthium_keanite.saturating_sub(amount),
            LabResource::UtriumLemergite => self.utrium_lemergite = self.utrium_lemergite.saturating_sub(amount),
            // Tier 1 boosts
            LabResource::UtriumHydride => self.utrium_hydride = self.utrium_hydride.saturating_sub(amount),
            LabResource::UtriumOxide => self.utrium_oxide = self.utrium_oxide.saturating_sub(amount),
            LabResource::KeaniumHydride => self.keanium_hydride = self.keanium_hydride.saturating_sub(amount),
            LabResource::KeaniumOxide => self.keanium_oxide = self.keanium_oxide.saturating_sub(amount),
            LabResource::LemergiumHydride => self.lemergium_hydride = self.lemergium_hydride.saturating_sub(amount),
            LabResource::LemergiumOxide => self.lemergium_oxide = self.lemergium_oxide.saturating_sub(amount),
            LabResource::ZynthiumHydride => self.zynthium_hydride = self.zynthium_hydride.saturating_sub(amount),
            LabResource::ZynthiumOxide => self.zynthium_oxide = self.zynthium_oxide.saturating_sub(amount),
            LabResource::GhodiumHydride => self.ghodium_hydride = self.ghodium_hydride.saturating_sub(amount),
            LabResource::GhodiumOxide => self.ghodium_oxide = self.ghodium_oxide.saturating_sub(amount),
            // Tier 2 boosts
            LabResource::UtriumAcid => self.utrium_acid = self.utrium_acid.saturating_sub(amount),
            LabResource::UtriumAlkalide => self.utrium_alkalide = self.utrium_alkalide.saturating_sub(amount),
            LabResource::KeaniumAcid => self.keanium_acid = self.keanium_acid.saturating_sub(amount),
            LabResource::KeaniumAlkalide => self.keanium_alkalide = self.keanium_alkalide.saturating_sub(amount),
            LabResource::LemergiumAcid => self.lemergium_acid = self.lemergium_acid.saturating_sub(amount),
            LabResource::LemergiumAlkalide => self.lemergium_alkalide = self.lemergium_alkalide.saturating_sub(amount),
            LabResource::ZynthiumAcid => self.zynthium_acid = self.zynthium_acid.saturating_sub(amount),
            LabResource::ZynthiumAlkalide => self.zynthium_alkalide = self.zynthium_alkalide.saturating_sub(amount),
            LabResource::GhodiumAcid => self.ghodium_acid = self.ghodium_acid.saturating_sub(amount),
            LabResource::GhodiumAlkalide => self.ghodium_alkalide = self.ghodium_alkalide.saturating_sub(amount),
            // Tier 3 boosts
            LabResource::CatalyzedUtriumAcid => self.catalyzed_utrium_acid = self.catalyzed_utrium_acid.saturating_sub(amount),
            LabResource::CatalyzedUtriumAlkalide => self.catalyzed_utrium_alkalide = self.catalyzed_utrium_alkalide.saturating_sub(amount),
            LabResource::CatalyzedKeaniumAcid => self.catalyzed_keanium_acid = self.catalyzed_keanium_acid.saturating_sub(amount),
            LabResource::CatalyzedKeaniumAlkalide => self.catalyzed_keanium_alkalide = self.catalyzed_keanium_alkalide.saturating_sub(amount),
            LabResource::CatalyzedLemergiumAcid => self.catalyzed_lemergium_acid = self.catalyzed_lemergium_acid.saturating_sub(amount),
            LabResource::CatalyzedLemergiumAlkalide => self.catalyzed_lemergium_alkalide = self.catalyzed_lemergium_alkalide.saturating_sub(amount),
            LabResource::CatalyzedZynthiumAcid => self.catalyzed_zynthium_acid = self.catalyzed_zynthium_acid.saturating_sub(amount),
            LabResource::CatalyzedZynthiumAlkalide => self.catalyzed_zynthium_alkalide = self.catalyzed_zynthium_alkalide.saturating_sub(amount),
            LabResource::CatalyzedGhodiumAcid => self.catalyzed_ghodium_acid = self.catalyzed_ghodium_acid.saturating_sub(amount),
            LabResource::CatalyzedGhodiumAlkalide => self.catalyzed_ghodium_alkalide = self.catalyzed_ghodium_alkalide.saturating_sub(amount),
        };
    }

    /// Returns the current amount of the specified resource in this BOM.
    pub fn resource_amount(&self, resource: &LabResource) -> (amount: u32)
        ensures
            amount == self.amount_of(*resource),
    {
        match resource {
            // Raw minerals
            LabResource::Hydrogen => self.hydrogen,
            LabResource::Oxygen => self.oxygen,
            LabResource::Utrium => self.utrium,
            LabResource::Keanium => self.keanium,
            LabResource::Lemergium => self.lemergium,
            LabResource::Zynthium => self.zynthium,
            LabResource::Catalyst => self.catalyst,
            // Base compounds
            LabResource::Ghodium => self.ghodium,
            LabResource::Hydroxide => self.hydroxide,
            LabResource::ZynthiumKeanite => self.zynthium_keanite,
            LabResource::UtriumLemergite => self.utrium_lemergite,
            // Tier 1 boosts
            LabResource::UtriumHydride => self.utrium_hydride,
            LabResource::UtriumOxide => self.utrium_oxide,
            LabResource::KeaniumHydride => self.keanium_hydride,
            LabResource::KeaniumOxide => self.keanium_oxide,
            LabResource::LemergiumHydride => self.lemergium_hydride,
            LabResource::LemergiumOxide => self.lemergium_oxide,
            LabResource::ZynthiumHydride => self.zynthium_hydride,
            LabResource::ZynthiumOxide => self.zynthium_oxide,
            LabResource::GhodiumHydride => self.ghodium_hydride,
            LabResource::GhodiumOxide => self.ghodium_oxide,
            // Tier 2 boosts
            LabResource::UtriumAcid => self.utrium_acid,
            LabResource::UtriumAlkalide => self.utrium_alkalide,
            LabResource::KeaniumAcid => self.keanium_acid,
            LabResource::KeaniumAlkalide => self.keanium_alkalide,
            LabResource::LemergiumAcid => self.lemergium_acid,
            LabResource::LemergiumAlkalide => self.lemergium_alkalide,
            LabResource::ZynthiumAcid => self.zynthium_acid,
            LabResource::ZynthiumAlkalide => self.zynthium_alkalide,
            LabResource::GhodiumAcid => self.ghodium_acid,
            LabResource::GhodiumAlkalide => self.ghodium_alkalide,
            // Tier 3 boosts
            LabResource::CatalyzedUtriumAcid => self.catalyzed_utrium_acid,
            LabResource::CatalyzedUtriumAlkalide => self.catalyzed_utrium_alkalide,
            LabResource::CatalyzedKeaniumAcid => self.catalyzed_keanium_acid,
            LabResource::CatalyzedKeaniumAlkalide => self.catalyzed_keanium_alkalide,
            LabResource::CatalyzedLemergiumAcid => self.catalyzed_lemergium_acid,
            LabResource::CatalyzedLemergiumAlkalide => self.catalyzed_lemergium_alkalide,
            LabResource::CatalyzedZynthiumAcid => self.catalyzed_zynthium_acid,
            LabResource::CatalyzedZynthiumAlkalide => self.catalyzed_zynthium_alkalide,
            LabResource::CatalyzedGhodiumAcid => self.catalyzed_ghodium_acid,
            LabResource::CatalyzedGhodiumAlkalide => self.catalyzed_ghodium_alkalide,
        }
    }

    /// Whether this BOM contains a non-zero amount of the specified resource.
    pub fn contains(&self, resource: &LabResource) -> (held: bool)
        ensures
            held == (self.amount_of(*resource) > 0),
    {
        self.resource_amount(resource) > 0
    }

    /// Converts an arbitrary amount of a particular resource in this BOM into its reaction
    /// components.
    ///
    /// Clamps to the lesser of the amount provided and the amount listed in the BOM.
    ///
    /// Does nothing for resources that do not have reaction components to break down into.
    pub fn reduce_resource(&mut self, resource: &LabResource, amount: u32)
        ensures
            forall|other: LabResource|
                final(self).amount_of(other) == old(self).amount_after_reduction(
                    *resource,
                    amount as nat,
                    other,
                ),
            reaction_components_spec(*resource) is None ==> *final(self) == *old(self),
            forall|mineral: LabResource|
                capped(final(self).mineral_total(mineral)) == capped(
                    old(self).mineral_total(mineral),
                ),
    {
        // Verify that we have enough resources to actually do a reduction, and clamp the amount to
        // what we have
        let available_amount = self.resource_amount(resource);
        let reduction_amount = const_min_u32(available_amount, amount);
        if reduction_amount > 0 {
            // Verify that it's a reaction compound
            if let Some((component_1, component_2)) = reaction_components(*resource) {
                // Subtract the amount of the resource from the BOM
                self.remove_resource(resource, reduction_amount);

                // Add the amount of the reaction components to the BOM
                self.add_resource(&component_1, reduction_amount);
                self.add_resource(&component_2, reduction_amount);
            }
        }
        proof {
            assert forall|mineral: LabResource|
                capped(self.mineral_total(mineral)) == capped(
                    old(self).mineral_total(mineral),
                ) by {
                lemma_reduction_keeps_mineral_totals(
                    *old(self),
                    *self,
                    *resource,
                    amount as nat,
                    mineral,
                );
            }
        }
    }

    /// Converts all non-mineral resources in this BOM into their base mineral components.
    ///
    /// Primarily useful if you have no access to pre-made boosts and have to react everything up
    /// from scratch.
    ///
    /// Afterwards the bill holds no compound, and of each base mineral what
    /// it held before in any form, capped at the largest amount a counter
    /// holds.
    pub fn reduce_all_resources_to_base_materials(&mut self)
        ensures
            forall|resource: LabResource|
                is_lab_compound(resource) ==> final(self).amount_of(resource) == 0,
            forall|mineral: LabResource|
                is_base_mineral(mineral) ==> final(self).amount_of(mineral) == capped(
                    old(self).mineral_total(mineral),
                ),
    {
        proof {
            lemma_canonical_order();
        }
        // Iterate through all T3 resources and reduce them
        let mut i: usize = 0;
        while i < T3_RESOURCES.len()
            invariant
                i <= 10,
                forall|r: LabResource| 31 <= canonical_index(r) < 31 + i ==> self.amount_of(r) == 0,
                forall|mineral: LabResource|
                    capped(self.mineral_total(mineral)) == capped(
                        old(self).mineral_total(mineral),
                    ),
            decreases 10 - i,
        {
            proof {
                lemma_canonical_order();
            }
            self.reduce_resource(&T3_RESOURCES[i], u32::MAX);  // This will clamp to the contained amount, if any
            i += 1;
        }

        // Iterate through all T2 resources and reduce them
        let mut i: usize = 0;
        while i < T2_RESOURCES.len()
            invariant
                i <= 10,
                forall|r: LabResource| 31 <= canonical_index(r) ==> self.amount_of(r) == 0,
                forall|r: LabResource| 21 <= canonical_index(r) < 21 + i ==> self.amount_of(r) == 0,
                forall|mineral: LabResource|
                    capped(self.mineral_total(mineral)) == capped(
                        old(self).mineral_total(mineral),
                    ),
            decreases 10 - i,
        {
            proof {
                lemma_canonical_order();
            }
            self.reduce_resource(&T2_RESOURCES[i], u32::MAX);  // This will clamp to the contained amount, if any
            i += 1;
        }

        // Iterate through all T1 resources and reduce them
        let mut i: usize = 0;
        while i < T1_RESOURCES.len()
            invariant
                i <= 10,
                forall|r: LabResource| 21 <= canonical_index(r) ==> self.amount_of(r) == 0,
                forall|r: LabResource| 11 <= canonical_index(r) < 11 + i ==> self.amount_of(r) == 0,
                forall|mineral: LabResource|
                    capped(self.mineral_total(mineral)) == capped(
                        old(self).mineral_total(mineral),
                    ),
            decreases 10 - i,
        {
            proof {
                lemma_canonical_order();
            }
            self.reduce_resource(&T1_RESOURCES[i], u32::MAX);  // This will clamp to the contained amount, if any
            i += 1;
        }

        // Iterate through all base compounds and reduce them
        // Reduce Ghodium specifically first, since it itself breaks down into other base compounds
        self.reduce_resource(&LabResource::Ghodium, u32::MAX);
        let mut i: usize = 0;
        while i < BASE_COMPOUNDS.len()
            invariant
                i <= 4,
                forall|r: LabResource| 10 <= canonical_index(r) ==> self.amount_of(r) == 0,
                forall|r: LabResource| 7 <= canonical_index(r) < 7 + i ==> self.amount_of(r) == 0,
                forall|mineral: LabResource|
                    capped(self.mineral_total(mineral)) == capped(
                        old(self).mineral_total(mineral),
                    ),
            decreases 4 - i,
        {
            proof {
                lemma_canonical_order();
            }
            self.reduce_resource(&BASE_COMPOUNDS[i], u32::MAX);  // This will clamp to the contained amount, if any
            i += 1;
        }
        proof {
            assert forall|mineral: LabResource| is_base_mineral(mineral) implies self.amount_of(
                mineral,
            ) == capped(old(self).mineral_total(mineral)) by {
                lemma_minerals_only(*self, mineral);
            }
        }
    }

    /// Merges the provided bill of materials with this bill of materials:
    /// every amount of the other bill is added to this one's, saturating at
    /// [u32::MAX].
    pub fn merge(&mut self, other: ReactionBillOfMaterials)
        ensures
            forall|resource: LabResource|
                final(self).amount_of(resource) == saturating_sum(
                    old(self).amount_of(resource),
                    other.amount_of(resource),
                ),
    {
        proof {
            lemma_canonical_order();
        }
        // Iterate through all T3 resources and copy their amounts
        let mut i: usize = 0;
        while i < T3_RESOURCES.len()
            invariant
                i <= 10,
                forall|r: LabResource|
                    self.amount_of(r) == if 31 <= canonical_index(r) < 31 + i {
                        saturating_sum(old(self).amount_of(r), other.amount_of(r))
                    } else {
                        old(self).amount_of(r)
                    },
            decreases 10 - i,
        {
            proof {
                lemma_canonical_order();
            }
            self.add_resource(&T3_RESOURCES[i], other.resource_amount(&T3_RESOURCES[i]));
            i += 1;
        }

        // Iterate through all T2 resources and copy them
        let mut i: usize = 0;
        while i < T2_RESOURCES.len()
            invariant
                i <= 10,
                forall|r: LabResource|
                    self.amount_of(r) == if 31 <= canonical_index(r) || 21 <= canonical_index(r)
                        < 21 + i {
                        saturating_sum(old(self).amount_of(r), other.amount_of(r))
                    } else {
                        old(self).amount_of(r)
                    },
            decreases 10 - i,
        {
            proof {
                lemma_canonical_order();
            }
            self.add_resource(&T2_RESOURCES[i], other.resource_amount(&T2_RESOURCES[i]));
            i += 1;
        }

        // Iterate through all T1 resources and copy them
        let mut i: usize = 0;
        while i < T1_RESOURCES.len()
            invariant
                i <= 10,
                forall|r: LabResource|
                    self.amount_of(r) == if 21 <= canonical_index(r) || 11 <= canonical_index(r)
                        < 11 + i {
                        saturating_sum(old(self).amount_of(r), other.amount_of(r))
                    } else {
                        old(self).amount_of(r)
                    },
            decreases 10 - i,
        {
            proof {
                lemma_canonical_order();
            }
            self.add_resource(&T1_RESOURCES[i], other.resource_amount(&T1_RESOURCES[i]));
            i += 1;
        }

        // Iterate through all base compounds and copy them
        let mut i: usize = 0;
        while i < BASE_COMPOUNDS.len()
            invariant
                i <= 4,
                forall|r: LabResource|
                    self.amount_of(r) == if 11 <= canonical_index(r) || 7 <= canonical_index(r) < 7
                        + i {
                        saturating_sum(old(self).amount_of(r), other.amount_of(r))
                    } else {
                        old(self).amount_of(r)
                    },
            decreases 4 - i,
        {
            proof {
                lemma_canonical_order();
            }
            self.add_resource(&BASE_COMPOUNDS[i], other.resource_amount(&BASE_COMPOUNDS[i]));
            i += 1;
        }

        // Iterate through all minerals and copy them
        let mut i: usize = 0;
        while i < BASE_MINERALS.len()
            invariant
                i <= 7,
                forall|r: LabResource|
                    self.amount_of(r) == if 7 <= canonical_index(r) || canonical_index(r) < i {
                        saturating_sum(old(self).amount_of(r), other.amount_of(r))
                    } else {
                        old(self).amount_of(r)
                    },
            decreases 7 - i,
        {
            proof {
                lemma_canonical_order();
            }
            self.add_resource(&BASE_MINERALS[i], other.resource_amount(&BASE_MINERALS[i]));
            i += 1;
        }
    }

    /// Determines whether the lab reaction to produce the given resource can be run with the
    /// materials available in this bill of materials.
    pub fn can_run_reaction_for_resource(&self, resource: &LabResource) -> (runnable: bool)
        ensures
            runnable == self.holds_components(*resource, lab_reaction_amount_spec() as nat),
    {
        if let Some(reactants) = reaction_components(*resource) {
            (self.resource_amount(&reactants.0) >= lab_reaction_amount()) && (self.resource_amount(
                &reactants.1,
            ) >= lab_reaction_amount())
        } else {
            false
        }
    }

    /// Determines whether the given lab reaction can be run with the materials available in
    /// this bill of materials.
    pub fn can_run_reaction(&self, reaction: &Reaction) -> (runnable: bool)
        ensures
            runnable == self.holds_components(reaction@.output, reaction@.num_desired as nat),
    {
        if let Some(reactants) = reaction_components(reaction.output()) {
            (self.resource_amount(&reactants.0) >= reaction.num_desired()) && (
            self.resource_amount(&reactants.1) >= reaction.num_desired())
        } else {
            false
        }
    }

    /// Adjusts this bill of materials as if the lab reaction to produce the given resource was
    /// run, incrementing the output resource amount and decrementing the input resources by
    /// the amount of one lab reaction.
    ///
    /// Returns true if the reaction was successful, false if it wasn't, due to resource amounts or
    /// the specified resource being a base mineral; the bill is then unchanged.
    pub fn run_reaction_for_resource(&mut self, resource: &LabResource) -> (ran: bool)
        ensures
            ran == old(self).holds_components(*resource, lab_reaction_amount_spec() as nat),
            ran ==> forall|other: LabResource|
                final(self).amount_of(other) == old(self).amount_after_reaction(
                    *resource,
                    lab_reaction_amount_spec() as nat,
                    other,
                ),
            !ran ==> *final(self) == *old(self),
    {
        if let Some(reactants) = reaction_components(*resource) {
            let can_run_reaction = {
                (self.resource_amount(&reactants.0) >= lab_reaction_amount()) && (
                self.resource_amount(&reactants.1) >= lab_reaction_amount())
            };

            if can_run_reaction {
                self.add_resource(resource, lab_reaction_amount());
                self.remove_resource(&reactants.0, lab_reaction_amount());
                self.remove_resource(&reactants.1, lab_reaction_amount());
                true
            } else {
                false
            }
        } else {
            false
        }
    }

    /// Adjusts this bill of materials as if the specified reaction was run, incrementing the output
    /// resource amount by the amount of one lab reaction and decrementing the input resources by
    /// the desired amount in the specified reaction.
    ///
    /// Returns true if the reaction was successful, false if it wasn't, due to resource amounts or
    /// the output being a base mineral; the bill is then unchanged.
    pub fn run_reaction(&mut self, reaction: &Reaction) -> (ran: bool)
        ensures
            ran == old(self).holds_components(reaction@.output, reaction@.num_desired as nat),
            ran ==> forall|other: LabResource|
                final(self).amount_of(other) == old(self).amount_after_reaction(
                    reaction@.output,
                    reaction@.num_desired as nat,
                    other,
                ),
            !ran ==> *final(self) == *old(self),
    {
        let resource = reaction.output();
        if let Some(reactants) = reaction_components(resource) {
            let can_run_reaction = {
                (self.resource_amount(&reactants.0) >= reaction.num_desired()) && (
                self.resource_amount(&reactants.1) >= reaction.num_desired())
            };

            if can_run_reaction {
                self.add_resource(&resource, lab_reaction_amount());
                self.remove_resource(&reactants.0, reaction.num_desired());
                self.remove_resource(&reactants.1, reaction.num_desired());
                true
            } else {
                false
            }
        } else {
            false
        }
    }

    /// Returns an iterator over all the resource-amount pairs where amount is non-zero, in
    /// canonical order.
    pub fn iter(&self) -> (iter: Iter)
        ensures
            iter.remaining() == self.nonzero_entries(),
    {
        Iter::new(self)
    }
}

impl Default for ReactionBillOfMaterials {
    fn default() -> (bom: Self)
        ensures
            forall|resource: LabResource| bom.amount_of(resource) == 0,
    {
        ReactionBillOfMaterials::default()
    }
}

/// An iterator over the non-zero resources and their amounts in a `ReactionBillOfMaterials`.
///
/// This `struct` is created by the [iter](ReactionBillOfMaterials::iter) method on a
/// [ReactionBillOfMaterials].
pub struct Iter {
    resources: Vec<(LabResource, u32)>,
    current_index: usize,
}

impl Iter {
    #[verifier::type_invariant]
    spec fn within_bounds(&self) -> bool {
        self.current_index <= self.resources@.len()
    }

    /// The pairs that the iterator has yet to give, in order.
    pub closed spec fn remaining(&self) -> Seq<(LabResource, u32)> {
        self.resources@.skip(self.current_index as int)
    }

    fn new(bom: &ReactionBillOfMaterials) -> (iter: Iter)
        ensures
            iter.remaining() == bom.nonzero_entries(),
    {
        let ghost entry = |resource: LabResource|
            if bom.amount_of(resource) > 0 {
                Some((resource, bom.amount_of(resource) as u32))
            } else {
                None
            };
        let mut resources: Vec<(LabResource, u32)> = Vec::new();
        let mut i: usize = 0;
        while i < LAB_RESOURCES.len()
            invariant
                i <= 41,
                entry == |resource: LabResource|
                    if bom.amount_of(resource) > 0 {
                        Some((resource, bom.amount_of(resource) as u32))
                    } else {
                        None
                    },
                resources@ == LAB_RESOURCES@.take(i as int).filter_map(entry),
            decreases 41 - i,
        {
            proof {
                assert(LAB_RESOURCES@.take(i + 1).drop_last() =~= LAB_RESOURCES@.take(i as int));
            }
            let amount = bom.resource_amount(&LAB_RESOURCES[i]);
            if amount > 0 {
                resources.push((LAB_RESOURCES[i], amount));
            }
            i += 1;
        }
        proof {
            assert(LAB_RESOURCES@.take(41) =~= LAB_RESOURCES@);
            assert(resources@.skip(0) =~= resources@);
        }
        Iter { resources, current_index: 0 }
    }

    /// Gives the next pair, if one is left.
    pub fn next(&mut self) -> (item: Option<(LabResource, u32)>)
        ensures
            item == if old(self).remaining().len() > 0 {
                Some(old(self).remaining()[0])
            } else {
                None
            },
            final(self).remaining() == if old(self).remaining().len() > 0 {
                old(self).remaining().skip(1)
            } else {
                old(self).remaining()
            },
    {
        proof {
            use_type_invariant(&*self);
        }
        if self.current_index >= self.resources.len() {
            None
        } else {
            let current = self.resources[self.current_index];
            self.current_index += 1;
            proof {
                assert(self.resources@.skip(self.current_index as int) =~= old(
                    self,
                ).resources@.skip(old(self).current_index as int).skip(1));
            }
            Some(current)
        }
    }

    /// The number of pairs that the iterator has yet to give.
    pub fn len(&self) -> (count: usize)
        ensures
            count == self.remaining().len(),
    {
        proof {
            use_type_invariant(self);
        }
        self.resources.len() - self.current_index
    }
}

/// Fewer reaction steps separate each component of a compound from the base
/// minerals than separate the compound itself.
pub proof fn lemma_components_are_shallower(resource: LabResource)
    ensures
        reaction_components_spec(resource) matches Some((first, second)) ==> reaction_depth(first)
            < reaction_depth(resource) && reaction_depth(second) < reaction_depth(resource)
            && first != second,
        reaction_components_spec(resource) is None <==> is_base_mineral(resource),
{
}

/// The arithmetic of one reduction: `held` of a compound, of which
/// `reduction` is broken down, and its two components, each of which gains
/// `reduction` but is capped. What is lost to the cap is lost only where the
/// capped total stays at the cap.
proof fn lemma_capped_exchange(
    rest: nat,
    held: nat,
    reduction: nat,
    first_held: nat,
    second_held: nat,
    first_units: nat,
    second_units: nat,
)
    requires
        reduction <= held,
        first_held <= u32::MAX,
        second_held <= u32::MAX,
    ensures
        capped(
            rest + ((held - reduction) as nat) * (first_units + second_units) + saturating_sum(
                first_held,
                reduction,
            ) * first_units + saturating_sum(second_held, reduction) * second_units,
        ) == capped(
            rest + held * (first_units + second_units) + first_held * first_units + second_held
                * second_units,
        ),
{
    let first_new = saturating_sum(first_held, reduction);
    let second_new = saturating_sum(second_held, reduction);
    let first_lost = (first_held + reduction - first_new) as nat;
    let second_lost = (second_held + reduction - second_new) as nat;
    let before = rest + held * (first_units + second_units) + first_held * first_units
        + second_held * second_units;
    let after = rest + ((held - reduction) as nat) * (first_units + second_units) + first_new
        * first_units
        + second_new * second_units;
    assert(before == after + first_lost * first_units + second_lost * second_units)
        by (nonlinear_arith)
        requires
            reduction <= held,
            first_new == first_held + reduction - first_lost,
            second_new == second_held + reduction - second_lost,
            before == rest + held * (first_units + second_units) + first_held * first_units
                + second_held * second_units,
            after == rest + ((held - reduction) as nat) * (first_units + second_units) + first_new
                * first_units + second_new * second_units,
    ;
    assert((held - reduction) * (first_units + second_units) >= 0) by (nonlinear_arith)
        requires
            reduction <= held,
    ;
    assert(first_new * first_units >= 0 && second_new * second_units >= 0) by (nonlinear_arith);
    if first_lost > 0 && first_units > 0 {
        assert(first_new * first_units >= u32::MAX) by (nonlinear_arith)
            requires
                first_new == u32::MAX,
                first_units > 0,
        ;
        assert(first_lost * first_units >= 0 && second_lost * second_units >= 0)
            by (nonlinear_arith);
    } else if second_lost > 0 && second_units > 0 {
        assert(second_new * second_units >= u32::MAX) by (nonlinear_arith)
            requires
                second_new == u32::MAX,
                second_units > 0,
        ;
        assert(first_lost * first_units >= 0 && second_lost * second_units >= 0)
            by (nonlinear_arith);
    } else {
        assert(first_lost * first_units == 0) by (nonlinear_arith)
            requires
                first_lost == 0 || first_units == 0,
        ;
        assert(second_lost * second_units == 0) by (nonlinear_arith)
            requires
                second_lost == 0 || second_units == 0,
        ;
    }
}

/// What `share` gives for a resource, if the resource is in the list, else
/// nothing.
spec fn share_within(
    share: spec_fn(LabResource) -> nat,
    resource: LabResource,
    list: Seq<LabResource>,
) -> nat {
    if list.contains(resource) {
        share(resource)
    } else {
        0
    }
}

/// A list without its last item holds what the list holds, but for that
/// item, which it holds only if the list holds it twice.
proof fn lemma_contains_of_drop_last(list: Seq<LabResource>)
    requires
        list.len() > 0,
    ensures
        forall|resource: LabResource|
            list.contains(resource) <==> list.drop_last().contains(resource) || resource
                == list.last(),
        list.no_duplicates() ==> !list.drop_last().contains(list.last())
            && list.drop_last().no_duplicates(),
{
    let front = list.drop_last();
    assert forall|resource: LabResource|
        list.contains(resource) <==> front.contains(resource) || resource == list.last() by {
        if front.contains(resource) {
            let i = choose|i: int| 0 <= i < front.len() && front[i] == resource;
            assert(list[i] == resource);
        }
        if list.contains(resource) && resource != list.last() {
            let i = choose|i: int| 0 <= i < list.len() && list[i] == resource;
            assert(front[i] == resource);
        }
        if resource == list.last() {
            assert(list[list.len() - 1] == resource);
        }
    }
}

/// Two shares that differ on at most three resources: their sums over a list
/// without duplicates differ by what they give for those three, and each sum
/// is at least what its share gives for the three.
proof fn lemma_sums_differ_by_three_shares(
    before: spec_fn(LabResource) -> nat,
    after: spec_fn(LabResource) -> nat,
    a: LabResource,
    b: LabResource,
    c: LabResource,
    list: Seq<LabResource>,
)
    requires
        a != b && b != c && a != c,
        forall|other: LabResource|
            other != a && other != b && other != c ==> #[trigger] after(other) == before(other),
        list.no_duplicates(),
    ensures
        sum_over(before, list) >= share_within(before, a, list) + share_within(before, b, list)
            + share_within(before, c, list),
        sum_over(after, list) - share_within(after, a, list) - share_within(after, b, list)
            - share_within(after, c, list) == sum_over(before, list) - share_within(
            before,
            a,
            list,
        ) - share_within(before, b, list) - share_within(before, c, list),
    decreases list.len(),
{
    if list.len() > 0 {
        lemma_contains_of_drop_last(list);
        lemma_sums_differ_by_three_shares(before, after, a, b, c, list.drop_last());
    }
}

/// A share that gives nothing for any resource but one: its sum over a list
/// without duplicates is what it gives for that one, if the list holds it.
proof fn lemma_sum_of_single_share(
    share: spec_fn(LabResource) -> nat,
    only: LabResource,
    list: Seq<LabResource>,
)
    requires
        forall|other: LabResource| other != only ==> #[trigger] share(other) == 0,
        list.no_duplicates(),
    ensures
        sum_over(share, list) == share_within(share, only, list),
    decreases list.len(),
{
    if list.len() > 0 {
        lemma_contains_of_drop_last(list);
        lemma_sum_of_single_share(share, only, list.drop_last());
    }
}

/// A reduction leaves the capped total of every base mineral as it was.
pub proof fn lemma_reduction_keeps_mineral_totals(
    before: ReactionBillOfMaterials,
    after: ReactionBillOfMaterials,
    resource: LabResource,
    amount: nat,
    mineral: LabResource,
)
    requires
        forall|other: LabResource|
            after.amount_of(other) == before.amount_after_reduction(resource, amount, other),
    ensures
        capped(after.mineral_total(mineral)) == capped(before.mineral_total(mineral)),
{
    lemma_components_are_shallower(resource);
    match reaction_components_spec(resource) {
        None => {
            lemma_amounts_determine_bill(before, after);
        },
        Some((first, second)) => {
            let share_before = |other: LabResource| before.mineral_share(other, mineral);
            let share_after = |other: LabResource| after.mineral_share(other, mineral);
            assert forall|other: LabResource|
                other != resource && other != first && other
                    != second implies #[trigger] share_after(other) == share_before(other) by {
                assert(after.amount_of(other) == before.amount_of(other));
                reveal(ReactionBillOfMaterials::mineral_share);
            }
            lemma_resource_categories(resource);
            lemma_resource_categories(first);
            lemma_resource_categories(second);
            lemma_sums_differ_by_three_shares(
                share_before,
                share_after,
                resource,
                first,
                second,
                LAB_RESOURCES@,
            );
            let reduction = before.reduction_of(resource, amount);
            let rest = before.mineral_total(mineral) - before.mineral_share(resource, mineral)
                - before.mineral_share(first, mineral) - before.mineral_share(second, mineral);
            let first_units = mineral_units(first, mineral);
            let second_units = mineral_units(second, mineral);
            assert(mineral_units(resource, mineral) == first_units + second_units);
            reveal(ReactionBillOfMaterials::mineral_share);
            lemma_capped_exchange(
                rest as nat,
                before.amount_of(resource),
                reduction,
                before.amount_of(first),
                before.amount_of(second),
                first_units,
                second_units,
            );
        },
    }
}

/// In a bill that holds no compound, what it holds of a base mineral in any
/// form is what it holds of the mineral itself.
pub proof fn lemma_minerals_only(bill: ReactionBillOfMaterials, mineral: LabResource)
    requires
        forall|resource: LabResource| is_lab_compound(resource) ==> bill.amount_of(resource) == 0,
        is_base_mineral(mineral),
    ensures
        bill.mineral_total(mineral) == bill.amount_of(mineral),
{
    let share = |resource: LabResource| bill.mineral_share(resource, mineral);
    assert forall|other: LabResource| other != mineral implies #[trigger] share(other) == 0 by {
        lemma_components_are_shallower(other);
        let units = mineral_units(other, mineral);
        let held = bill.amount_of(other);
        lemma_resource_categories(other);
        if is_lab_compound(other) {
            assert(held == 0);
        } else {
            assert(reaction_components_spec(other) is None);
            assert(units == 0);
        }
        assert(held * units == 0) by (nonlinear_arith)
            requires
                held == 0 || units == 0,
        ;
        reveal(ReactionBillOfMaterials::mineral_share);
    }
    assert(share(mineral) == bill.amount_of(mineral)) by {
        lemma_components_are_shallower(mineral);
        assert(mineral_units(mineral, mineral) == 1);
        reveal(ReactionBillOfMaterials::mineral_share);
    }
    lemma_resource_categories(mineral);
    lemma_sum_of_single_share(share, mineral, LAB_RESOURCES@);
}

/// A bill that holds the same amount of two resources and nothing else
/// holds of a base mineral that amount times the units of the mineral in the
/// two together.
pub proof fn lemma_mineral_total_of_two(
    bill: ReactionBillOfMaterials,
    first: LabResource,
    second: LabResource,
    held: nat,
    mineral: LabResource,
)
    requires
        first != second,
        forall|resource: LabResource|
            bill.amount_of(resource) == if resource == first || resource == second {
                held
            } else {
                0
            },
    ensures
        bill.mineral_total(mineral) == held * mineral_units(first, mineral) + held * mineral_units(
            second,
            mineral,
        ),
{
    let share = |resource: LabResource| bill.mineral_share(resource, mineral);
    let nothing = |resource: LabResource| 0nat;
    let third = if first != LabResource::Hydrogen && second != LabResource::Hydrogen {
        LabResource::Hydrogen
    } else if first != LabResource::Oxygen && second != LabResource::Oxygen {
        LabResource::Oxygen
    } else {
        LabResource::Utrium
    };
    assert forall|other: LabResource|
        other != first && other != second implies #[trigger] share(other) == nothing(other) by {
        let units = mineral_units(other, mineral);
        assert(0 * units == 0) by (nonlinear_arith);
        reveal(ReactionBillOfMaterials::mineral_share);
    }
    lemma_resource_categories(first);
    lemma_resource_categories(second);
    lemma_resource_categories(third);
    lemma_sum_of_single_share(nothing, third, LAB_RESOURCES@);
    lemma_sums_differ_by_three_shares(nothing, share, first, second, third, LAB_RESOURCES@);
    reveal(ReactionBillOfMaterials::mineral_share);
}

/// Two bills that hold the same amount of every resource are the same bill.
pub proof fn lemma_amounts_determine_bill(a: ReactionBillOfMaterials, b: ReactionBillOfMaterials)
    requires
        forall|resource: LabResource| a.amount_of(resource) == b.amount_of(resource),
    ensures
        a == b,
{
    assert(a.amount_of(LabResource::Hydrogen) == b.amount_of(LabResource::Hydrogen));
    assert(a.amount_of(LabResource::Oxygen) == b.amount_of(LabResource::Oxygen));
    assert(a.amount_of(LabResource::Utrium) == b.amount_of(LabResource::Utrium));
    assert(a.amount_of(LabResource::Lemergium) == b.amount_of(LabResource::Lemergium));
    assert(a.amount_of(LabResource::Keanium) == b.amount_of(LabResource::Keanium));
    assert(a.amount_of(LabResource::Zynthium) == b.amount_of(LabResource::Zynthium));
    assert(a.amount_of(LabResource::Catalyst) == b.amount_of(LabResource::Catalyst));
    assert(a.amount_of(LabResource::Hydroxide) == b.amount_of(LabResource::Hydroxide));
    assert(a.amount_of(LabResource::ZynthiumKeanite) == b.amount_of(LabResource::ZynthiumKeanite));
    assert(a.amount_of(LabResource::UtriumLemergite) == b.amount_of(LabResource::UtriumLemergite));
    assert(a.amount_of(LabResource::Ghodium) == b.amount_of(LabResource::Ghodium));
    assert(a.amount_of(LabResource::UtriumHydride) == b.amount_of(LabResource::UtriumHydride));
    assert(a.amount_of(LabResource::UtriumOxide) == b.amount_of(LabResource::UtriumOxide));
    assert(a.amount_of(LabResource::KeaniumHydride) == b.amount_of(LabResource::KeaniumHydride));
    assert(a.amount_of(LabResource::KeaniumOxide) == b.amount_of(LabResource::KeaniumOxide));
    assert(a.amount_of(LabResource::LemergiumHydride) == b.amount_of(LabResource::LemergiumHydride));
    assert(a.amount_of(LabResource::LemergiumOxide) == b.amount_of(LabResource::LemergiumOxide));
    assert(a.amount_of(LabResource::ZynthiumHydride) == b.amount_of(LabResource::ZynthiumHydride));
    assert(a.amount_of(LabResource::ZynthiumOxide) == b.amount_of(LabResource::ZynthiumOxide));
    assert(a.amount_of(LabResource::GhodiumHydride) == b.amount_of(LabResource::GhodiumHydride));
    assert(a.amount_of(LabResource::GhodiumOxide) == b.amount_of(LabResource::GhodiumOxide));
    assert(a.amount_of(LabResource::UtriumAcid) == b.amount_of(LabResource::UtriumAcid));
    assert(a.amount_of(LabResource::UtriumAlkalide) == b.amount_of(LabResource::UtriumAlkalide));
    assert(a.amount_of(LabResource::KeaniumAcid) == b.amount_of(LabResource::KeaniumAcid));
    assert(a.amount_of(LabResource::KeaniumAlkalide) == b.amount_of(LabResource::KeaniumAlkalide));
    assert(a.amount_of(LabResource::LemergiumAcid) == b.amount_of(LabResource::LemergiumAcid));
    assert(a.amount_of(LabResource::LemergiumAlkalide) == b.amount_of(LabResource::LemergiumAlkalide));
    assert(a.amount_of(LabResource::ZynthiumAcid) == b.amount_of(LabResource::ZynthiumAcid));
    assert(a.amount_of(LabResource::ZynthiumAlkalide) == b.amount_of(LabResource::ZynthiumAlkalide));
    assert(a.amount_of(LabResource::GhodiumAcid) == b.amount_of(LabResource::GhodiumAcid));
    assert(a.amount_of(LabResource::GhodiumAlkalide) == b.amount_of(LabResource::GhodiumAlkalide));
    assert(a.amount_of(LabResource::CatalyzedUtriumAcid) == b.amount_of(LabResource::CatalyzedUtriumAcid));
    assert(a.amount_of(LabResource::CatalyzedUtriumAlkalide) == b.amount_of(LabResource::CatalyzedUtriumAlkalide));
    assert(a.amount_of(LabResource::CatalyzedKeaniumAcid) == b.amount_of(LabResource::CatalyzedKeaniumAcid));
    assert(a.amount_of(LabResource::CatalyzedKeaniumAlkalide) == b.amount_of(LabResource::CatalyzedKeaniumAlkalide));
    assert(a.amount_of(LabResource::CatalyzedLemergiumAcid) == b.amount_of(LabResource::CatalyzedLemergiumAcid));
    assert(a.amount_of(LabResource::CatalyzedLemergiumAlkalide) == b.amount_of(LabResource::CatalyzedLemergiumAlkalide));
    assert(a.amount_of(LabResource::CatalyzedZynthiumAcid) == b.amount_of(LabResource::CatalyzedZynthiumAcid));
    assert(a.amount_of(LabResource::CatalyzedZynthiumAlkalide) == b.amount_of(LabResource::CatalyzedZynthiumAlkalide));
    assert(a.amount_of(LabResource::CatalyzedGhodiumAcid) == b.amount_of(LabResource::CatalyzedGhodiumAcid));
    assert(a.amount_of(LabResource::CatalyzedGhodiumAlkalide) == b.amount_of(LabResource::CatalyzedGhodiumAlkalide));
}

} // verus!
