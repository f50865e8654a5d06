//! The kinds of body part a creep can be built from.

use vstd::prelude::*;

verus! {

/// A kind of creep body part.
#[derive(Debug, PartialEq, Eq, Hash, Clone, Copy, Structural)]
pub enum Part {
    Move,
    Work,
    Carry,
    Attack,
    RangedAttack,
    Tough,
    Heal,
    Claim,
}

} // verus!
