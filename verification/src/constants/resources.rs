//! The resources that labs consume and produce, sorted into categories.

use vstd::prelude::*;

verus! {

/// A resource that a lab reaction consumes or produces.
///
/// The variants are declared in the canonical order in which a bill of
/// materials lists its contents: base minerals, base compounds, then the
/// three tiers of boost compounds.
#[derive(Debug, PartialEq, Eq, Hash, Clone, Copy, Structural)]
pub enum LabResource {
    Hydrogen,
    Oxygen,
    Utrium,
    Lemergium,
    Keanium,
    Zynthium,
    Catalyst,
    Hydroxide,
    ZynthiumKeanite,
    UtriumLemergite,
    Ghodium,
    UtriumHydride,
    UtriumOxide,
    KeaniumHydride,
    KeaniumOxide,
    LemergiumHydride,
    LemergiumOxide,
    ZynthiumHydride,
    ZynthiumOxide,
    GhodiumHydride,
    GhodiumOxide,
    UtriumAcid,
    UtriumAlkalide,
    KeaniumAcid,
    KeaniumAlkalide,
    LemergiumAcid,
    LemergiumAlkalide,
    ZynthiumAcid,
    ZynthiumAlkalide,
    GhodiumAcid,
    GhodiumAlkalide,
    CatalyzedUtriumAcid,
    CatalyzedUtriumAlkalide,
    CatalyzedKeaniumAcid,
    CatalyzedKeaniumAlkalide,
    CatalyzedLemergiumAcid,
    CatalyzedLemergiumAlkalide,
    CatalyzedZynthiumAcid,
    CatalyzedZynthiumAlkalide,
    CatalyzedGhodiumAcid,
    CatalyzedGhodiumAlkalide,
}

/// The 7 harvestable minerals that form the base of reactions.
pub const BASE_MINERALS: [LabResource; 7] = [
    LabResource::Hydrogen,
    LabResource::Oxygen,
    LabResource::Utrium,
    LabResource::Lemergium,
    LabResource::Keanium,
    LabResource::Zynthium,
    LabResource::Catalyst,
];

/// The 4 initial compounds used for boost reactions.
pub const BASE_COMPOUNDS: [LabResource; 4] = [
    LabResource::Hydroxide,
    LabResource::ZynthiumKeanite,
    LabResource::UtriumLemergite,
    LabResource::Ghodium,
];

/// The 10 compounds that comprise Tier 1 boosts.
pub const T1_RESOURCES: [LabResource; 10] = [
    LabResource::UtriumHydride,
    LabResource::UtriumOxide,
    LabResource::KeaniumHydride,
    LabResource::KeaniumOxide,
    LabResource::LemergiumHydride,
    LabResource::LemergiumOxide,
    LabResource::ZynthiumHydride,
    LabResource::ZynthiumOxide,
    LabResource::GhodiumHydride,
    LabResource::GhodiumOxide,
];

/// The 10 compounds that comprise Tier 2 boosts.
pub const T2_RESOURCES: [LabResource; 10] = [
    LabResource::UtriumAcid,
    LabResource::UtriumAlkalide,
    LabResource::KeaniumAcid,
    LabResource::KeaniumAlkalide,
    LabResource::LemergiumAcid,
    LabResource::LemergiumAlkalide,
    LabResource::ZynthiumAcid,
    LabResource::ZynthiumAlkalide,
    LabResource::GhodiumAcid,
    LabResource::GhodiumAlkalide,
];

/// The 10 compounds that comprise Tier 3 boosts.
pub const T3_RESOURCES: [LabResource; 10] = [
    LabResource::CatalyzedUtriumAcid,
    LabResource::CatalyzedUtriumAlkalide,
    LabResource::CatalyzedKeaniumAcid,
    LabResource::CatalyzedKeaniumAlkalide,
    LabResource::CatalyzedLemergiumAcid,
    LabResource::CatalyzedLemergiumAlkalide,
    LabResource::CatalyzedZynthiumAcid,
    LabResource::CatalyzedZynthiumAlkalide,
    LabResource::CatalyzedGhodiumAcid,
    LabResource::CatalyzedGhodiumAlkalide,
];

/// The 34 compounds that a lab reaction can produce.
pub const LAB_OUTPUT_RESOURCES: [LabResource; 34] = [
    LabResource::Hydroxide,
    LabResource::ZynthiumKeanite,
    LabResource::UtriumLemergite,
    LabResource::Ghodium,
    LabResource::UtriumHydride,
    LabResource::UtriumOxide,
    LabResource::KeaniumHydride,
    LabResource::KeaniumOxide,
    LabResource::LemergiumHydride,
    LabResource::LemergiumOxide,
    LabResource::ZynthiumHydride,
    LabResource::ZynthiumOxide,
    LabResource::GhodiumHydride,
    LabResource::GhodiumOxide,
    LabResource::UtriumAcid,
    LabResource::UtriumAlkalide,
    LabResource::KeaniumAcid,
    LabResource::KeaniumAlkalide,
    LabResource::LemergiumAcid,
    LabResource::LemergiumAlkalide,
    LabResource::ZynthiumAcid,
    LabResource::ZynthiumAlkalide,
    LabResource::GhodiumAcid,
    LabResource::GhodiumAlkalide,
    LabResource::CatalyzedUtriumAcid,
    LabResource::CatalyzedUtriumAlkalide,
    LabResource::CatalyzedKeaniumAcid,
    LabResource::CatalyzedKeaniumAlkalide,
    LabResource::CatalyzedLemergiumAcid,
    LabResource::CatalyzedLemergiumAlkalide,
    LabResource::CatalyzedZynthiumAcid,
    LabResource::CatalyzedZynthiumAlkalide,
    LabResource::CatalyzedGhodiumAcid,
    LabResource::CatalyzedGhodiumAlkalide,
];

/// The 41 resources that a lab reaction can use or produce, in canonical
/// order.
pub const LAB_RESOURCES: [LabResource; 41] = [
    LabResource::Hydrogen,
    LabResource::Oxygen,
    LabResource::Utrium,
    LabResource::Lemergium,
    LabResource::Keanium,
    LabResource::Zynthium,
    LabResource::Catalyst,
    LabResource::Hydroxide,
    LabResource::ZynthiumKeanite,
    LabResource::UtriumLemergite,
    LabResource::Ghodium,
    LabResource::UtriumHydride,
    LabResource::UtriumOxide,
    LabResource::KeaniumHydride,
    LabResource::KeaniumOxide,
    LabResource::LemergiumHydride,
    LabResource::LemergiumOxide,
    LabResource::ZynthiumHydride,
    LabResource::ZynthiumOxide,
    LabResource::GhodiumHydride,
    LabResource::GhodiumOxide,
    LabResource::UtriumAcid,
    LabResource::UtriumAlkalide,
    LabResource::KeaniumAcid,
    LabResource::KeaniumAlkalide,
    LabResource::LemergiumAcid,
    LabResource::LemergiumAlkalide,
    LabResource::ZynthiumAcid,
    LabResource::ZynthiumAlkalide,
    LabResource::GhodiumAcid,
    LabResource::GhodiumAlkalide,
    LabResource::CatalyzedUtriumAcid,
    LabResource::CatalyzedUtriumAlkalide,
    LabResource::CatalyzedKeaniumAcid,
    LabResource::CatalyzedKeaniumAlkalide,
    LabResource::CatalyzedLemergiumAcid,
    LabResource::CatalyzedLemergiumAlkalide,
    LabResource::CatalyzedZynthiumAcid,
    LabResource::CatalyzedZynthiumAlkalide,
    LabResource::CatalyzedGhodiumAcid,
    LabResource::CatalyzedGhodiumAlkalide,
];

/// Whether a resource is one of the 7 harvestable minerals.
pub open spec fn is_base_mineral(resource: LabResource) -> bool {
    match resource {
        LabResource::Hydrogen
        | LabResource::Oxygen
        | LabResource::Utrium
        | LabResource::Lemergium
        | LabResource::Keanium
        | LabResource::Zynthium
        | LabResource::Catalyst => true,
        _ => false,
    }
}

/// Whether a resource is one of the 4 base compounds.
pub open spec fn is_base_compound(resource: LabResource) -> bool {
    match resource {
        LabResource::Hydroxide
        | LabResource::ZynthiumKeanite
        | LabResource::UtriumLemergite
        | LabResource::Ghodium => true,
        _ => false,
    }
}

/// Whether a resource is a Tier 1 boost compound.
pub open spec fn is_t1_resource(resource: LabResource) -> bool {
    match resource {
        LabResource::UtriumHydride
        | LabResource::UtriumOxide
        | LabResource::KeaniumHydride
        | LabResource::KeaniumOxide
        | LabResource::LemergiumHydride
        | LabResource::LemergiumOxide
        | LabResource::ZynthiumHydride
        | LabResource::ZynthiumOxide
        | LabResource::GhodiumHydride
        | LabResource::GhodiumOxide => true,
        _ => false,
    }
}

/// Whether a resource is a Tier 2 boost compound.
pub open spec fn is_t2_resource(resource: LabResource) -> bool {
    match resource {
        LabResource::UtriumAcid
        | LabResource::UtriumAlkalide
        | LabResource::KeaniumAcid
        | LabResource::KeaniumAlkalide
        | LabResource::LemergiumAcid
        | LabResource::LemergiumAlkalide
        | LabResource::ZynthiumAcid
        | LabResource::ZynthiumAlkalide
        | LabResource::GhodiumAcid
        | LabResource::GhodiumAlkalide => true,
        _ => false,
    }
}

/// Whether a resource is a Tier 3 boost compound.
pub open spec fn is_t3_resource(resource: LabResource) -> bool {
    match resource {
        LabResource::CatalyzedUtriumAcid
        | LabResource::CatalyzedUtriumAlkalide
        | LabResource::CatalyzedKeaniumAcid
        | LabResource::CatalyzedKeaniumAlkalide
        | LabResource::CatalyzedLemergiumAcid
        | LabResource::CatalyzedLemergiumAlkalide
        | LabResource::CatalyzedZynthiumAcid
        | LabResource::CatalyzedZynthiumAlkalide
        | LabResource::CatalyzedGhodiumAcid
        | LabResource::CatalyzedGhodiumAlkalide => true,
        _ => false,
    }
}

/// Whether a lab reaction can produce a resource: every resource but the
/// base minerals.
pub open spec fn is_lab_compound(resource: LabResource) -> bool {
    is_base_compound(resource) || is_t1_resource(resource) || is_t2_resource(resource)
        || is_t3_resource(resource)
}

/// The position of a resource in the canonical order, which is the order of
/// `LAB_RESOURCES`.
pub open spec fn canonical_index(resource: LabResource) -> int {
    match resource {
        LabResource::Hydrogen => 0,
        LabResource::Oxygen => 1,
        LabResource::Utrium => 2,
        LabResource::Lemergium => 3,
        LabResource::Keanium => 4,
        LabResource::Zynthium => 5,
        LabResource::Catalyst => 6,
        LabResource::Hydroxide => 7,
        LabResource::ZynthiumKeanite => 8,
        LabResource::UtriumLemergite => 9,
        LabResource::Ghodium => 10,
        LabResource::UtriumHydride => 11,
        LabResource::UtriumOxide => 12,
        LabResource::KeaniumHydride => 13,
        LabResource::KeaniumOxide => 14,
        LabResource::LemergiumHydride => 15,
        LabResource::LemergiumOxide => 16,
        LabResource::ZynthiumHydride => 17,
        LabResource::ZynthiumOxide => 18,
        LabResource::GhodiumHydride => 19,
        LabResource::GhodiumOxide => 20,
        LabResource::UtriumAcid => 21,
        LabResource::UtriumAlkalide => 22,
        LabResource::KeaniumAcid => 23,
        LabResource::KeaniumAlkalide => 24,
        LabResource::LemergiumAcid => 25,
        LabResource::LemergiumAlkalide => 26,
        LabResource::ZynthiumAcid => 27,
        LabResource::ZynthiumAlkalide => 28,
        LabResource::GhodiumAcid => 29,
        LabResource::GhodiumAlkalide => 30,
        LabResource::CatalyzedUtriumAcid => 31,
        LabResource::CatalyzedUtriumAlkalide => 32,
        LabResource::CatalyzedKeaniumAcid => 33,
        LabResource::CatalyzedKeaniumAlkalide => 34,
        LabResource::CatalyzedLemergiumAcid => 35,
        LabResource::CatalyzedLemergiumAlkalide => 36,
        LabResource::CatalyzedZynthiumAcid => 37,
        LabResource::CatalyzedZynthiumAlkalide => 38,
        LabResource::CatalyzedGhodiumAcid => 39,
        LabResource::CatalyzedGhodiumAlkalide => 40,
    }
}

/// `canonical_index` is the position in `LAB_RESOURCES`, and the category
/// constants are consecutive runs of that order.
pub proof fn lemma_canonical_order()
    ensures
        forall|resource: LabResource|
            0 <= #[trigger] canonical_index(resource) < 41 && LAB_RESOURCES@[canonical_index(
                resource,
            )] == resource,
        forall|i: int| 0 <= i < 41 ==> canonical_index(#[trigger] LAB_RESOURCES@[i]) == i,
        forall|i: int| 0 <= i < 7 ==> canonical_index(#[trigger] BASE_MINERALS@[i]) == i,
        forall|i: int| 0 <= i < 4 ==> canonical_index(#[trigger] BASE_COMPOUNDS@[i]) == i + 7,
        forall|i: int| 0 <= i < 10 ==> canonical_index(#[trigger] T1_RESOURCES@[i]) == i + 11,
        forall|i: int| 0 <= i < 10 ==> canonical_index(#[trigger] T2_RESOURCES@[i]) == i + 21,
        forall|i: int| 0 <= i < 10 ==> canonical_index(#[trigger] T3_RESOURCES@[i]) == i + 31,
        forall|i: int|
            0 <= i < 34 ==> canonical_index(#[trigger] LAB_OUTPUT_RESOURCES@[i]) == i + 7,
        forall|resource: LabResource|
            #![trigger canonical_index(resource)]
            {
                &&& is_base_mineral(resource) <==> canonical_index(resource) < 7
                &&& is_base_compound(resource) <==> 7 <= canonical_index(resource) < 11
                &&& is_t1_resource(resource) <==> 11 <= canonical_index(resource) < 21
                &&& is_t2_resource(resource) <==> 21 <= canonical_index(resource) < 31
                &&& is_t3_resource(resource) <==> 31 <= canonical_index(resource)
            },
{
}

/// Every resource belongs to exactly one category, and each category's
/// constant lists exactly its members.
pub proof fn lemma_resource_categories(resource: LabResource)
    ensures
        is_base_mineral(resource) <==> !is_lab_compound(resource),
        is_base_mineral(resource) <==> BASE_MINERALS@.contains(resource),
        is_base_compound(resource) <==> BASE_COMPOUNDS@.contains(resource),
        is_t1_resource(resource) <==> T1_RESOURCES@.contains(resource),
        is_t2_resource(resource) <==> T2_RESOURCES@.contains(resource),
        is_t3_resource(resource) <==> T3_RESOURCES@.contains(resource),
        is_lab_compound(resource) <==> LAB_OUTPUT_RESOURCES@.contains(resource),
        LAB_RESOURCES@.contains(resource),
        LAB_RESOURCES@.no_duplicates(),
{
    assert(forall|i: int| 0 <= i < 7 ==> BASE_MINERALS@[i] == LAB_RESOURCES@[i]);
    assert(forall|i: int| 0 <= i < 4 ==> BASE_COMPOUNDS@[i] == LAB_RESOURCES@[i + 7]);
    assert(forall|i: int| 0 <= i < 10 ==> T1_RESOURCES@[i] == LAB_RESOURCES@[i + 11]);
    assert(forall|i: int| 0 <= i < 10 ==> T2_RESOURCES@[i] == LAB_RESOURCES@[i + 21]);
    assert(forall|i: int| 0 <= i < 10 ==> T3_RESOURCES@[i] == LAB_RESOURCES@[i + 31]);
    assert(forall|i: int| 0 <= i < 34 ==> LAB_OUTPUT_RESOURCES@[i] == LAB_RESOURCES@[i + 7]);
}

} // verus!
