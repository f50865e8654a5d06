//! Abstraction of individual lab reactions.

use vstd::prelude::*;
use crate::boost::bom::{
    capped, lemma_mineral_total_of_two, mineral_units, ReactionBillOfMaterials,
};
use crate::constants::resources::{
    is_base_mineral, is_lab_compound, lemma_resource_categories, LabResource,
};
use crate::game::{
    lab_reaction_amount, lab_reaction_amount_spec, reaction_components, reaction_components_spec,
    reaction_time, reaction_time_spec,
};
use crate::helpers::functions::{ceiling_quotient, resource_is_lab_compound};

verus! {

/// Encapsulates a specific lab reaction intent, with both the desired output and the desired
/// amount of that output.
#[derive(Debug, PartialEq, Eq, Hash, Clone, Copy, Structural)]
pub struct Reaction {
    output: LabResource,
    num_desired: u32,
}

/// What a reaction asks for.
pub struct ReactionView {
    /// The resource that the reaction will produce.
    pub output: LabResource,
    /// The desired amount of that resource.
    pub num_desired: u32,
}

/// Why a reaction could not be constructed.
#[derive(Debug, PartialEq, Eq, Clone, Copy, Structural)]
pub enum ReactionValidationError {
    /// The desired output is a base mineral, which no lab reaction produces.
    NotALabCompound,
}

impl View for Reaction {
    type V = ReactionView;

    closed spec fn view(&self) -> ReactionView {
        ReactionView { output: self.output, num_desired: self.num_desired }
    }
}

/// The ticks that a chain of reactions takes: the sum of what each takes.
pub open spec fn chain_time(chain: Seq<Reaction>) -> nat
    decreases chain.len(),
{
    if chain.len() == 0 {
        0
    } else {
        chain_time(chain.drop_last()) + chain.last().time_needed()
    }
}

impl Reaction {
    /// The ticks that labs need for this reaction: the ticks of one lab
    /// reaction for the output, times the number of lab reactions that give
    /// the desired amount. Nothing for a base mineral, which no reaction
    /// produces.
    pub open spec fn time_needed(&self) -> nat {
        match reaction_time_spec(self@.output) {
            None => 0,
            Some(time) => (time as nat) * ceiling_quotient(
                self@.num_desired as nat,
                lab_reaction_amount_spec() as nat,
            ),
        }
    }

    /// Whether the time of this reaction can be computed: the output is a
    /// lab compound and the ticks fit a `u32`.
    pub open spec fn has_time(&self) -> bool {
        is_lab_compound(self@.output) && self.time_needed() <= u32::MAX
    }

    /// Generates a new Reaction, validating that the desired output resource type is actually a
    /// lab compound.
    pub fn checked_new(output: LabResource, num_desired: u32) -> (res: Result<
        Self,
        ReactionValidationError,
    >)
        ensures
            res is Ok <==> is_lab_compound(output),
            res matches Ok(reaction) ==> reaction@ == (ReactionView { output, num_desired }),
            res matches Err(error) ==> error == ReactionValidationError::NotALabCompound,
    {
        let res = resource_is_lab_compound(&output);
        if res {
            Ok(Self::unchecked_new(output, num_desired))
        } else {
            Err(ReactionValidationError::NotALabCompound)
        }
    }

    /// Generates a new Reaction without validating that the desired output resource type is a lab
    /// compound.
    pub fn unchecked_new(output: LabResource, num_desired: u32) -> (reaction: Self)
        ensures
            reaction@ == (ReactionView { output, num_desired }),
    {
        Self { output, num_desired }
    }

    /// The resource type that the Reaction will produce.
    pub fn output(&self) -> (output: LabResource)
        ensures
            output == self@.output,
    {
        self.output
    }

    /// The desired amount of the output resource.
    pub fn num_desired(&self) -> (num_desired: u32)
        ensures
            num_desired == self@.num_desired,
    {
        self.num_desired
    }

    /// The amount of time needed to perform this reaction.
    ///
    /// This will be the number of ticks needed to run enough reactions to produce the desired
    /// amount of the desired output resource.
    pub fn reaction_time(&self) -> (ticks: u32)
        requires
            self.has_time(),
        ensures
            ticks == self.time_needed(),
    {
        let reaction_time = reaction_time(self.output).unwrap();
        let needed_ops = self.num_desired.div_ceil(lab_reaction_amount());
        reaction_time * needed_ops
    }

    /// Generates a bill of materials listing all of the immediate resources necessary to produce
    /// the desired output at the desired amount: of each of the two components of the output,
    /// the desired amount.
    pub fn components_needed(&self) -> (bom: ReactionBillOfMaterials)
        requires
            is_lab_compound(self@.output),
        ensures
            reaction_components_spec(self@.output) matches Some((first, second))
                && forall|resource: LabResource|
                bom.amount_of(resource) == if resource == first || resource == second {
                    self@.num_desired as nat
                } else {
                    0
                },
    {
        let comps = reaction_components(self.output).unwrap();
        let mut bom = ReactionBillOfMaterials::new();
        bom.add_resource(&comps.0, self.num_desired());
        bom.add_resource(&comps.1, self.num_desired());
        bom
    }

    /// Generates a bill of materials listing all of the basic minerals necessary to produce the
    /// desired output at the desired amount: of each base mineral, the desired amount times
    /// the units of the mineral in one unit of the output, capped at [u32::MAX].
    pub fn from_scratch_components_needed(&self) -> (bom: ReactionBillOfMaterials)
        requires
            is_lab_compound(self@.output),
        ensures
            forall|resource: LabResource|
                bom.amount_of(resource) == if is_base_mineral(resource) {
                    capped((self@.num_desired as nat) * mineral_units(self@.output, resource))
                } else {
                    0
                },
    {
        let mut bom = self.components_needed();
        proof {
            let (first, second) = reaction_components_spec(self@.output).unwrap();
            assert forall|mineral: LabResource|
                bom.mineral_total(mineral) == (self@.num_desired as nat) * mineral_units(
                    self@.output,
                    mineral,
                ) by {
                lemma_mineral_total_of_two(bom, first, second, self@.num_desired as nat, mineral);
                let first_units = mineral_units(first, mineral);
                let second_units = mineral_units(second, mineral);
                let desired = self@.num_desired as nat;
                assert(mineral_units(self@.output, mineral) == first_units + second_units);
                assert(desired * first_units + desired * second_units == desired * (first_units
                    + second_units)) by (nonlinear_arith);
            }
        }
        let ghost components = bom;
        bom.reduce_all_resources_to_base_materials();
        proof {
            assert forall|resource: LabResource|
                bom.amount_of(resource) == if is_base_mineral(resource) {
                    capped((self@.num_desired as nat) * mineral_units(self@.output, resource))
                } else {
                    0
                } by {
                lemma_resource_categories(resource);
                if is_base_mineral(resource) {
                    assert(bom.amount_of(resource) == capped(components.mineral_total(resource)));
                }
            }
        }
        bom
    }

    /// Gets the total reaction time needed to run an entire reaction chain, saturating at
    /// [u32::MAX].
    pub fn reaction_time_for_chain(chain: &[Reaction]) -> (ticks: u32)
        requires
            forall|i: int| 0 <= i < chain@.len() ==> (#[trigger] chain@[i]).has_time(),
        ensures
            ticks == capped(chain_time(chain@)),
    {
        let mut acc: u32 = 0;
        let mut i: usize = 0;

        while i < chain.len()
            invariant
                i <= chain@.len(),
                forall|j: int| 0 <= j < chain@.len() ==> (#[trigger] chain@[j]).has_time(),
                acc == capped(chain_time(chain@.take(i as int))),
            decreases chain@.len() - i,
        {
            proof {
                assert(chain@.take(i + 1).drop_last() =~= chain@.take(i as int));
                assert(chain@.take(i + 1).last() == chain@[i as int]);
            }
            acc = acc.saturating_add(chain[i].reaction_time());
            i += 1;
        }
        proof {
            assert(chain@.take(i as int) =~= chain@);
        }
        acc
    }
}

} // verus!
