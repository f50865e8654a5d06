//! The reaction chains: for each lab compound, the lab reactions that produce
//! it from base minerals, in an order in which labs can run them.
//!
//! Every step of a chain stands for one lab reaction, and the steps are
//! ordered from least complex (base compounds) to most complex (T3
//! compounds): each step's components are base minerals or the outputs of
//! earlier steps.

use vstd::prelude::*;
use crate::boost::bom::{lemma_components_are_shallower, reaction_depth};
use crate::boost::reaction::{chain_time, Reaction, ReactionView};
use crate::constants::resources::{is_lab_compound, lemma_resource_categories, LabResource};
use crate::game::{
    lab_reaction_amount, lab_reaction_amount_spec, reaction_components, reaction_components_spec,
    reaction_time_spec,
};

verus! {

/// The outputs of the reaction chain of a resource: the chain of its second
/// component, then the chain of its first component, then the resource
/// itself. A base mineral needs no reaction, and its chain is empty.
pub open spec fn chain_outputs(resource: LabResource) -> Seq<LabResource>
    decreases reaction_depth(resource),
{
    match reaction_components_spec(resource) {
        None => Seq::empty(),
        Some((first, second)) => (chain_outputs(second) + chain_outputs(first)).push(resource),
    }
}

/// Whether a chain of reactions has the given outputs, in order, each for the
/// amount of one lab reaction.
pub open spec fn is_chain_of(chain: Seq<Reaction>, outputs: Seq<LabResource>) -> bool {
    &&& chain.len() == outputs.len()
    &&& forall|i: int|
        0 <= i < chain.len() ==> (#[trigger] chain[i])@ == (ReactionView {
            output: outputs[i],
            num_desired: lab_reaction_amount_spec(),
        })
}

/// Returns the reaction chain of a resource: one reaction for each output of
/// `chain_outputs`, in that order, each for the amount of one lab reaction.
/// The chain of a base mineral is empty.
pub fn get_reaction_chain_for_resource(resource: &LabResource) -> (chain: Vec<Reaction>)
    ensures
        is_chain_of(chain@, chain_outputs(*resource)),
    decreases reaction_depth(*resource),
{
    match reaction_components(*resource) {
        None => Vec::new(),
        Some((first, second)) => {
            proof {
                lemma_components_are_shallower(*resource);
            }
            let mut chain = get_reaction_chain_for_resource(&second);
            let mut first_chain = get_reaction_chain_for_resource(&first);
            chain.append(&mut first_chain);
            chain.push(Reaction::unchecked_new(*resource, lab_reaction_amount()));
            chain
        },
    }
}

/// The ticks that one lab reaction for each of the outputs takes, together.
pub open spec fn outputs_time(outputs: Seq<LabResource>) -> nat
    decreases outputs.len(),
{
    if outputs.len() == 0 {
        0
    } else {
        outputs_time(outputs.drop_last()) + match reaction_time_spec(outputs.last()) {
            None => 0nat,
            Some(ticks) => ticks as nat,
        }
    }
}

/// Every output of a chain is a lab compound.
pub proof fn lemma_chain_outputs_are_compounds(resource: LabResource)
    ensures
        forall|i: int|
            0 <= i < chain_outputs(resource).len() ==> is_lab_compound(
                #[trigger] chain_outputs(resource)[i],
            ),
        chain_outputs(resource).len() <= 31,
    decreases reaction_depth(resource),
{
    lemma_components_are_shallower(resource);
    lemma_resource_categories(resource);
    match reaction_components_spec(resource) {
        None => {},
        Some((first, second)) => {
            lemma_chain_outputs_are_compounds(first);
            lemma_chain_outputs_are_compounds(second);
            lemma_chain_length(first);
            lemma_chain_length(second);
        },
    }
}

/// The chain of a resource is at most as long as a full tree of reactions
/// of its depth has nodes.
proof fn lemma_chain_length(resource: LabResource)
    ensures
        chain_outputs(resource).len() <= if reaction_depth(resource) <= 1 {
            reaction_depth(resource)
        } else if reaction_depth(resource) == 2 {
            3
        } else if reaction_depth(resource) == 3 {
            7
        } else if reaction_depth(resource) == 4 {
            15
        } else {
            31
        },
    decreases reaction_depth(resource),
{
    lemma_components_are_shallower(resource);
    match reaction_components_spec(resource) {
        None => {},
        Some((first, second)) => {
            lemma_chain_length(first);
            lemma_chain_length(second);
        },
    }
}

/// A chain of reactions that has the outputs of the chain of a resource
/// takes the ticks of those outputs, and each of its reactions has a time.
pub proof fn lemma_chain_time(chain: Seq<Reaction>, outputs: Seq<LabResource>)
    requires
        is_chain_of(chain, outputs),
        forall|i: int| 0 <= i < outputs.len() ==> is_lab_compound(#[trigger] outputs[i]),
    ensures
        forall|i: int| 0 <= i < chain.len() ==> (#[trigger] chain[i]).has_time(),
        chain_time(chain) == outputs_time(outputs),
        chain_time(chain) <= 160 * chain.len(),
    decreases chain.len(),
{
    assert forall|i: int| 0 <= i < chain.len() implies (#[trigger] chain[i]).has_time()
        && chain[i].time_needed() <= 160 && chain[i].time_needed() == match reaction_time_spec(
        outputs[i],
    ) {
        None => 0nat,
        Some(ticks) => ticks as nat,
    } by {
        assert(is_lab_compound(outputs[i]));
        lemma_resource_categories(outputs[i]);
        let ticks = reaction_time_spec(outputs[i]).unwrap();
        assert(ticks <= 160);
        assert(crate::helpers::functions::ceiling_quotient(5, 5) == 1);
        assert(ticks * 1 == ticks) by (nonlinear_arith);
    }
    if chain.len() > 0 {
        assert(is_chain_of(chain.drop_last(), outputs.drop_last()));
        lemma_chain_time(chain.drop_last(), outputs.drop_last());
    }
}

/// Whether labs can run the reactions with these outputs in order: the
/// components of every output are base minerals or outputs of earlier
/// reactions.
pub open spec fn is_runnable_in_order(outputs: Seq<LabResource>) -> bool {
    forall|i: int|
        0 <= i < outputs.len() ==> match reaction_components_spec(#[trigger] outputs[i]) {
            None => false,
            Some((first, second)) => {
                &&& reaction_components_spec(first) is None || outputs.take(i).contains(first)
                &&& reaction_components_spec(second) is None || outputs.take(i).contains(second)
            },
        }
}

/// Labs can run the chain of a resource in order, and the last reaction of
/// the chain of a compound produces the compound.
pub proof fn lemma_chain_is_runnable(resource: LabResource)
    ensures
        is_runnable_in_order(chain_outputs(resource)),
        reaction_components_spec(resource) is Some ==> chain_outputs(resource).len() > 0
            && chain_outputs(resource).last() == resource,
    decreases reaction_depth(resource),
{
    lemma_components_are_shallower(resource);
    match reaction_components_spec(resource) {
        None => {},
        Some((first, second)) => {
            lemma_chain_is_runnable(first);
            lemma_chain_is_runnable(second);
            let front = chain_outputs(second);
            let back = chain_outputs(first);
            let outputs = chain_outputs(resource);
            assert(outputs == (front + back).push(resource));
            assert forall|i: int| 0 <= i < outputs.len() implies match reaction_components_spec(
                #[trigger] outputs[i],
            ) {
                None => false,
                Some((a, b)) => {
                    &&& reaction_components_spec(a) is None || outputs.take(i).contains(a)
                    &&& reaction_components_spec(b) is None || outputs.take(i).contains(b)
                },
            } by {
                let (a, b) = reaction_components_spec(outputs[i]).unwrap();
                if i < front.len() {
                    assert(outputs[i] == front[i]);
                    lemma_earlier_outputs(front, outputs, 0, i, a);
                    lemma_earlier_outputs(front, outputs, 0, i, b);
                } else if i < front.len() + back.len() {
                    let k = i - front.len();
                    assert(outputs[i] == back[k]);
                    lemma_earlier_outputs(back, outputs, front.len() as int, k, a);
                    lemma_earlier_outputs(back, outputs, front.len() as int, k, b);
                } else {
                    assert(outputs[i] == resource);
                    if reaction_components_spec(first) is Some {
                        let at = front.len() + back.len() - 1;
                        assert(outputs[at] == back.last());
                        assert(outputs.take(i)[at] == first);
                    }
                    if reaction_components_spec(second) is Some {
                        let at = front.len() - 1;
                        assert(outputs[at] == front.last());
                        assert(outputs.take(i)[at] == second);
                    }
                }
            }
        },
    }
}

/// An output that comes before a place in a part of a chain comes before
/// that place in the whole chain.
proof fn lemma_earlier_outputs(
    part: Seq<LabResource>,
    whole: Seq<LabResource>,
    offset: int,
    place: int,
    output: LabResource,
)
    requires
        0 <= offset,
        0 <= place <= part.len(),
        offset + part.len() <= whole.len(),
        forall|j: int| 0 <= j < part.len() ==> part[j] == whole[offset + j],
    ensures
        part.take(place).contains(output) ==> whole.take(offset + place).contains(output),
{
    if part.take(place).contains(output) {
        let j = choose|j: int| 0 <= j < place && part.take(place)[j] == output;
        assert(whole.take(offset + place)[offset + j] == output);
    }
}

} // verus!
