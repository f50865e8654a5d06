use screeps::constants::LAB_REACTION_AMOUNT;
use screeps_body_utils::boost::bom::ReactionBillOfMaterials;
use screeps_body_utils::boost::boost::{
    AbstractBoost, BoostCategory, ATTACK_BOOSTS, HEAL_BOOSTS, T1_BOOSTS, T2_BOOSTS, T3_BOOSTS,
    WORK_BOOSTS,
};
use screeps_body_utils::boost::reaction::{Reaction, ReactionValidationError};
use screeps_body_utils::boost::reaction_chains::get_reaction_chain_for_resource;
use screeps_body_utils::constants::parts::Part;
use screeps_body_utils::constants::resources::{
    LabResource, BASE_COMPOUNDS, BASE_MINERALS, LAB_OUTPUT_RESOURCES, LAB_RESOURCES,
};

/// The resource of the game crate that has the same name.
fn to_game(resource: LabResource) -> screeps::ResourceType {
    let name = format!("{:?}", resource);
    let mut found = None;
    for candidate in screeps::constants::RESOURCES_ALL {
        if format!("{:?}", candidate) == name {
            found = Some(*candidate);
        }
    }
    found.unwrap()
}

/// The units of a base mineral in one unit of a resource, by the reaction table of the game.
fn units(resource: screeps::ResourceType, mineral: screeps::ResourceType) -> u64 {
    match resource.reaction_components() {
        None => (resource == mineral) as u64,
        Some([first, second]) => units(first, mineral) + units(second, mineral),
    }
}

fn all_boosts() -> Vec<AbstractBoost> {
    T1_BOOSTS.into_iter().chain(T2_BOOSTS).chain(T3_BOOSTS).collect()
}

fn filled_bill() -> ReactionBillOfMaterials {
    let mut bom = ReactionBillOfMaterials::new();
    let mut amount = 3;
    for resource in LAB_RESOURCES {
        bom.add_resource(&resource, amount);
        amount = amount * 7 % 1000 + 1;
    }
    bom
}

#[test]
fn reaction_tables_are_those_of_the_game() {
    for resource in LAB_RESOURCES {
        let reaction = Reaction::unchecked_new(resource, 1);
        match to_game(resource).reaction_components() {
            Some([first, second]) => {
                let bom = reaction.components_needed();
                let mut entries = bom.iter();
                let mut listed = Vec::new();
                while let Some((component, amount)) = entries.next() {
                    assert_eq!(amount, 1);
                    listed.push(to_game(component));
                }
                assert_eq!(listed.len(), 2);
                assert!(listed.contains(&first) && listed.contains(&second));
                assert_eq!(reaction.reaction_time(), to_game(resource).reaction_time().unwrap());
                assert!(Reaction::checked_new(resource, 1).is_ok());
            },
            None => {
                assert_eq!(to_game(resource).reaction_time(), None);
                assert!(get_reaction_chain_for_resource(&resource).is_empty());
                assert!(matches!(
                    Reaction::checked_new(resource, 1),
                    Err(ReactionValidationError::NotALabCompound)
                ));
            },
        }
    }
}

#[test]
fn boost_reaction_data_is_that_of_the_game() {
    for boost in all_boosts() {
        let resource = boost.associated_resource();
        let [first, second] = boost.reaction_components();
        assert_eq!(
            to_game(resource).reaction_components(),
            Some([to_game(first), to_game(second)])
        );
        assert_eq!(Some(boost.reaction_time()), to_game(resource).reaction_time());
        assert_eq!(AbstractBoost::reaction_time_for_boost(&boost), boost.reaction_time());
        let chain = boost.reaction_chain();
        assert_eq!(chain, get_reaction_chain_for_resource(&resource));
        assert_eq!(chain, AbstractBoost::reaction_chain_for_boost(&boost));
        let ticks: u32 =
            chain.iter().map(|step| to_game(step.output()).reaction_time().unwrap()).sum();
        assert_eq!(boost.reaction_chain_time(), ticks);
        assert_eq!(AbstractBoost::reaction_chain_time_for_boost(&boost), ticks);
    }
    assert_eq!(AbstractBoost::T3Tough.reaction_chain_time(), 20 + 5 + 5 + 5 + 10 + 30 + 150);
    assert_eq!(AbstractBoost::T1Attack.reaction_chain_time(), 10);
}

#[test]
fn boosts_and_their_compounds_determine_each_other() {
    for boost in all_boosts() {
        let resource = AbstractBoost::resource_for_boost(&boost);
        assert_eq!(AbstractBoost::try_from_resource_type(&resource), Ok(boost));
        assert_eq!(LabResource::from(boost), resource);
        assert_eq!(boost.associated_resource(), resource);
        assert!(LAB_OUTPUT_RESOURCES.contains(&resource));
        assert!(!BASE_COMPOUNDS.contains(&resource));
    }
    for resource in BASE_MINERALS.into_iter().chain(BASE_COMPOUNDS) {
        assert_eq!(
            AbstractBoost::try_from_resource_type(&resource),
            Err("resource is not a boost compound")
        );
    }
    assert_eq!(AbstractBoost::T1Attack.associated_resource(), LabResource::UtriumHydride);
    assert_eq!(AbstractBoost::T3Tough.associated_resource(), LabResource::CatalyzedGhodiumAlkalide);
    assert_eq!(AbstractBoost::T2Heal.associated_resource(), LabResource::LemergiumAlkalide);
}

#[test]
fn boosts_have_a_tier_a_part_and_a_factor() {
    for (tier, boosts) in [(1, T1_BOOSTS), (2, T2_BOOSTS), (3, T3_BOOSTS)] {
        for boost in boosts {
            assert_eq!(boost.tier(), tier);
            assert_eq!(AbstractBoost::tier_for_boost(&boost), tier);
            assert_eq!(
                AbstractBoost::has_u32_multiplier(&boost),
                !AbstractBoost::has_f32_multiplier(&boost)
            );
            assert_eq!(
                AbstractBoost::has_u32_multiplier(&boost),
                AbstractBoost::get_u32_multiplier(&boost).is_some()
            );
            assert!(AbstractBoost::boosts_for_part(&boost.associated_part()).contains(&boost));
            assert_eq!(AbstractBoost::part_for_boost(&boost), boost.associated_part());
        }
    }
    assert_eq!(AbstractBoost::get_u32_multiplier(&AbstractBoost::T1Harvest), Some(3));
    assert_eq!(AbstractBoost::get_u32_multiplier(&AbstractBoost::T2Harvest), Some(5));
    assert_eq!(AbstractBoost::get_u32_multiplier(&AbstractBoost::T3Harvest), Some(7));
    assert_eq!(AbstractBoost::get_u32_multiplier(&AbstractBoost::T1Attack), Some(2));
    assert_eq!(AbstractBoost::get_u32_multiplier(&AbstractBoost::T3Move), Some(4));
    assert_eq!(AbstractBoost::get_u32_multiplier(&AbstractBoost::T2Tough), None);
    assert_eq!(AbstractBoost::get_u32_multiplier(&AbstractBoost::T1BuildRepair), None);
    assert_eq!(AbstractBoost::get_u32_multiplier(&AbstractBoost::T3UpgradeController), None);
    assert_eq!(AbstractBoost::T1Dismantle.associated_part(), Part::Work);
    assert_eq!(AbstractBoost::T2RangedAttack.associated_part(), Part::RangedAttack);
    assert!(AbstractBoost::boosts_for_part(&Part::Claim).is_empty());
    assert_eq!(AbstractBoost::boosts_for_part(&Part::Work), &WORK_BOOSTS);
    assert!(AbstractBoost::const_eq(&AbstractBoost::T1Heal, &AbstractBoost::T1Heal));
    assert!(!AbstractBoost::const_eq(&AbstractBoost::T1Heal, &AbstractBoost::T2Heal));
    assert!(AbstractBoost::boost_in_slice(&HEAL_BOOSTS, &AbstractBoost::T3Heal));
    assert!(!AbstractBoost::boost_in_slice(&HEAL_BOOSTS, &AbstractBoost::T3Attack));
    assert!(!AbstractBoost::boost_in_slice(&[], &AbstractBoost::T3Attack));
}

#[test]
fn whole_number_factors_find_their_boost() {
    assert_eq!(
        AbstractBoost::try_from_u32_multiplier(&ATTACK_BOOSTS, 2),
        Ok(AbstractBoost::T1Attack)
    );
    assert_eq!(
        AbstractBoost::try_from_u32_multiplier(&ATTACK_BOOSTS, 3),
        Ok(AbstractBoost::T2Attack)
    );
    assert_eq!(
        AbstractBoost::try_from_u32_multiplier(&ATTACK_BOOSTS, 4),
        Ok(AbstractBoost::T3Attack)
    );
    for invalid in [0, 1, 5, 200] {
        assert_eq!(
            AbstractBoost::try_from_u32_multiplier(&ATTACK_BOOSTS, invalid),
            Err("invalid boost value")
        );
    }
    assert_eq!(
        AbstractBoost::try_from_u32_multiplier(&BoostCategory::HarvestMineral.get_abstract_boosts(), 7),
        Ok(AbstractBoost::T3Harvest)
    );
    assert_eq!(
        AbstractBoost::try_from_u32_multiplier(&BoostCategory::Build.get_abstract_boosts(), 2),
        Err("invalid boost value")
    );
}

#[test]
fn categories_name_their_part_and_their_boosts() {
    assert_eq!(BoostCategory::HarvestDeposit.get_associated_part(), Part::Work);
    assert_eq!(BoostCategory::RangedMassAttack.get_associated_part(), Part::RangedAttack);
    assert_eq!(BoostCategory::RangedHeal.get_associated_part(), Part::Heal);
    assert_eq!(BoostCategory::Tough.get_associated_part(), Part::Tough);
    assert_eq!(
        BoostCategory::get_associated_part_for_category(&BoostCategory::Move),
        Part::Move
    );
    assert_eq!(BoostCategory::RangedHeal.get_abstract_boosts(), HEAL_BOOSTS);
    assert_eq!(
        BoostCategory::get_abstract_boosts_for_category(&BoostCategory::Attack),
        ATTACK_BOOSTS
    );
    assert_eq!(
        BoostCategory::Repair.get_abstract_boosts(),
        BoostCategory::Build.get_abstract_boosts()
    );
}

#[test]
fn full_reduction_leaves_minerals_only_and_conserves_them() {
    let bom = filled_bill();
    let mut reduced = bom;
    reduced.reduce_all_resources_to_base_materials();
    for resource in LAB_OUTPUT_RESOURCES {
        assert_eq!(reduced.resource_amount(&resource), 0);
        assert!(!reduced.contains(&resource));
    }
    for mineral in BASE_MINERALS {
        let total: u64 = LAB_RESOURCES
            .iter()
            .map(|resource| {
                bom.resource_amount(resource) as u64 * units(to_game(*resource), to_game(mineral))
            })
            .sum();
        assert_eq!(reduced.resource_amount(&mineral) as u64, total);
    }
    // a second reduction finds nothing to reduce
    let mut again = reduced;
    again.reduce_all_resources_to_base_materials();
    assert_eq!(again, reduced);
}

#[test]
fn full_reduction_saturates() {
    let mut bom = ReactionBillOfMaterials::new();
    bom.add_resource(&LabResource::Hydroxide, u32::MAX);
    bom.add_resource(&LabResource::Hydrogen, 5);
    bom.add_resource(&LabResource::GhodiumAcid, 10);
    bom.reduce_all_resources_to_base_materials();
    assert_eq!(bom.resource_amount(&LabResource::Hydrogen), u32::MAX);
    assert_eq!(bom.resource_amount(&LabResource::Oxygen), u32::MAX);
    assert_eq!(bom.resource_amount(&LabResource::Utrium), 10);
    assert_eq!(bom.resource_amount(&LabResource::Zynthium), 10);
    assert_eq!(bom.resource_amount(&LabResource::Catalyst), 0);
    assert_eq!(bom.resource_amount(&LabResource::Hydroxide), 0);
}

#[test]
fn reducing_a_mineral_changes_nothing() {
    let bom = filled_bill();
    for mineral in BASE_MINERALS {
        for amount in [0, 1, 25, u32::MAX] {
            let mut reduced = bom;
            reduced.reduce_resource(&mineral, amount);
            assert_eq!(reduced, bom);
        }
    }
}

#[test]
fn reduction_is_clamped_to_what_the_bill_holds() {
    let mut bom = ReactionBillOfMaterials::new();
    bom.add_resource(&LabResource::Ghodium, 10);
    bom.add_resource(&LabResource::UtriumLemergite, 1);
    bom.reduce_resource(&LabResource::Ghodium, 25);
    assert_eq!(bom.resource_amount(&LabResource::Ghodium), 0);
    assert_eq!(bom.resource_amount(&LabResource::UtriumLemergite), 11);
    assert_eq!(bom.resource_amount(&LabResource::ZynthiumKeanite), 10);
    let before = bom;
    bom.reduce_resource(&LabResource::Ghodium, 25);
    assert_eq!(bom, before);
    bom.reduce_resource(&LabResource::UtriumLemergite, 0);
    assert_eq!(bom, before);
}

#[test]
fn amounts_saturate_at_both_ends() {
    let mut bom = ReactionBillOfMaterials::default();
    assert_eq!(bom, ReactionBillOfMaterials::new());
    bom.add_resource(&LabResource::Keanium, u32::MAX - 1);
    bom.add_resource(&LabResource::Keanium, 5);
    assert_eq!(bom.resource_amount(&LabResource::Keanium), u32::MAX);
    assert_eq!(bom.keanium, u32::MAX);
    bom.remove_resource(&LabResource::Keanium, u32::MAX - 2);
    assert_eq!(bom.resource_amount(&LabResource::Keanium), 2);
    bom.remove_resource(&LabResource::Keanium, 3);
    assert_eq!(bom.resource_amount(&LabResource::Keanium), 0);
    assert!(!bom.contains(&LabResource::Keanium));
    bom.add_resource(&LabResource::CatalyzedGhodiumAcid, 1);
    assert!(bom.contains(&LabResource::CatalyzedGhodiumAcid));
    assert_eq!(bom.catalyzed_ghodium_acid, 1);
}

#[test]
fn every_resource_has_its_own_counter() {
    for resource in LAB_RESOURCES {
        let mut bom = ReactionBillOfMaterials::new();
        bom.add_resource(&resource, 9);
        for other in LAB_RESOURCES {
            assert_eq!(bom.resource_amount(&other), if other == resource { 9 } else { 0 });
        }
        bom.remove_resource(&resource, 4);
        for other in LAB_RESOURCES {
            assert_eq!(bom.resource_amount(&other), if other == resource { 5 } else { 0 });
        }
    }
}

#[test]
fn merge_adds_every_amount() {
    let mut bom = filled_bill();
    let mut other = ReactionBillOfMaterials::new();
    other.add_resource(&LabResource::Hydrogen, u32::MAX);
    other.add_resource(&LabResource::Ghodium, 7);
    other.add_resource(&LabResource::CatalyzedUtriumAcid, 11);
    let before = bom;
    bom.merge(other);
    for resource in LAB_RESOURCES {
        assert_eq!(
            bom.resource_amount(&resource),
            before.resource_amount(&resource).saturating_add(other.resource_amount(&resource))
        );
    }
    assert_eq!(bom.resource_amount(&LabResource::Hydrogen), u32::MAX);
    let mut doubled = before;
    doubled.merge(before);
    for resource in LAB_RESOURCES {
        assert_eq!(doubled.resource_amount(&resource), 2 * before.resource_amount(&resource));
    }
}

#[test]
fn bill_lists_its_contents_in_canonical_order() {
    let mut bom = ReactionBillOfMaterials::new();
    bom.add_resource(&LabResource::CatalyzedGhodiumAlkalide, 1);
    bom.add_resource(&LabResource::Ghodium, 2);
    bom.add_resource(&LabResource::Keanium, 3);
    bom.add_resource(&LabResource::Lemergium, 4);
    bom.add_resource(&LabResource::Hydroxide, 5);
    bom.add_resource(&LabResource::Hydroxide, 0);
    bom.add_resource(&LabResource::Oxygen, 0);
    let mut entries = bom.iter();
    assert_eq!(entries.len(), 5);
    assert_eq!(entries.next(), Some((LabResource::Lemergium, 4)));
    assert_eq!(entries.len(), 4);
    assert_eq!(entries.next(), Some((LabResource::Keanium, 3)));
    assert_eq!(entries.next(), Some((LabResource::Hydroxide, 5)));
    assert_eq!(entries.next(), Some((LabResource::Ghodium, 2)));
    assert_eq!(entries.next(), Some((LabResource::CatalyzedGhodiumAlkalide, 1)));
    assert_eq!(entries.len(), 0);
    assert_eq!(entries.next(), None);
    assert_eq!(entries.next(), None);
    assert_eq!(ReactionBillOfMaterials::new().iter().next(), None);
}

#[test]
fn a_lab_reaction_turns_components_into_a_batch() {
    let mut bom = ReactionBillOfMaterials::new();
    assert!(!bom.can_run_reaction_for_resource(&LabResource::Hydroxide));
    bom.add_resource(&LabResource::Hydrogen, LAB_REACTION_AMOUNT);
    bom.add_resource(&LabResource::Oxygen, LAB_REACTION_AMOUNT - 1);
    assert!(!bom.can_run_reaction_for_resource(&LabResource::Hydroxide));
    let before = bom;
    assert!(!bom.run_reaction_for_resource(&LabResource::Hydroxide));
    assert_eq!(bom, before);
    bom.add_resource(&LabResource::Oxygen, 3);
    assert!(bom.can_run_reaction_for_resource(&LabResource::Hydroxide));
    assert!(bom.run_reaction_for_resource(&LabResource::Hydroxide));
    assert_eq!(bom.resource_amount(&LabResource::Hydroxide), 5);
    assert_eq!(bom.resource_amount(&LabResource::Hydrogen), 0);
    assert_eq!(bom.resource_amount(&LabResource::Oxygen), 2);
    // a base mineral is not produced by any reaction
    assert!(!bom.can_run_reaction_for_resource(&LabResource::Oxygen));
    let before = bom;
    assert!(!bom.run_reaction_for_resource(&LabResource::Oxygen));
    assert_eq!(bom, before);
}

#[test]
fn a_reaction_consumes_the_desired_amount_and_produces_a_batch() {
    let mut bom = ReactionBillOfMaterials::new();
    bom.add_resource(&LabResource::Utrium, 30);
    bom.add_resource(&LabResource::Lemergium, 20);
    let reaction = Reaction::checked_new(LabResource::UtriumLemergite, 20).ok().unwrap();
    assert_eq!(reaction.output(), LabResource::UtriumLemergite);
    assert_eq!(reaction.num_desired(), 20);
    assert!(bom.can_run_reaction(&reaction));
    assert!(bom.run_reaction(&reaction));
    assert_eq!(bom.resource_amount(&LabResource::UtriumLemergite), 5);
    assert_eq!(bom.resource_amount(&LabResource::Utrium), 10);
    assert_eq!(bom.resource_amount(&LabResource::Lemergium), 0);
    let before = bom;
    assert!(!bom.can_run_reaction(&reaction));
    assert!(!bom.run_reaction(&reaction));
    assert_eq!(bom, before);
    let nothing = Reaction::unchecked_new(LabResource::Utrium, 0);
    assert!(!bom.can_run_reaction(&nothing));
    assert!(!bom.run_reaction(&nothing));
    assert_eq!(bom, before);
}

#[test]
fn reaction_time_counts_whole_lab_reactions() {
    let time = |resource, amount| Reaction::unchecked_new(resource, amount).reaction_time();
    assert_eq!(time(LabResource::Hydroxide, 0), 0);
    assert_eq!(time(LabResource::Hydroxide, 1), 20);
    assert_eq!(time(LabResource::Hydroxide, 5), 20);
    assert_eq!(time(LabResource::Hydroxide, 6), 40);
    assert_eq!(time(LabResource::Hydroxide, 7), 40);
    assert_eq!(time(LabResource::CatalyzedZynthiumAcid, 11), 480);
    assert_eq!(time(LabResource::Ghodium, 1000), 1000);
}

#[test]
fn components_from_scratch_are_the_minerals_of_the_compound() {
    let bom = Reaction::unchecked_new(LabResource::GhodiumAcid, 10).from_scratch_components_needed();
    let mut expected = ReactionBillOfMaterials::new();
    expected.add_resource(&LabResource::Hydrogen, 20);
    expected.add_resource(&LabResource::Oxygen, 10);
    expected.add_resource(&LabResource::Utrium, 10);
    expected.add_resource(&LabResource::Lemergium, 10);
    expected.add_resource(&LabResource::Keanium, 10);
    expected.add_resource(&LabResource::Zynthium, 10);
    assert_eq!(bom, expected);
    let direct = Reaction::unchecked_new(LabResource::GhodiumAcid, 10).components_needed();
    let mut expected = ReactionBillOfMaterials::new();
    expected.add_resource(&LabResource::GhodiumHydride, 10);
    expected.add_resource(&LabResource::Hydroxide, 10);
    assert_eq!(direct, expected);
    for resource in LAB_OUTPUT_RESOURCES {
        let bom = Reaction::unchecked_new(resource, 3).from_scratch_components_needed();
        for mineral in BASE_MINERALS {
            assert_eq!(
                bom.resource_amount(&mineral) as u64,
                3 * units(to_game(resource), to_game(mineral))
            );
        }
    }
}

#[test]
fn chains_run_in_order_from_base_minerals() {
    for resource in LAB_OUTPUT_RESOURCES {
        let chain = get_reaction_chain_for_resource(&resource);
        assert_eq!(chain.last().map(|step| step.output()), Some(resource));
        let mut bom = ReactionBillOfMaterials::new();
        for mineral in BASE_MINERALS {
            bom.add_resource(&mineral, 100);
        }
        let mut produced = Vec::new();
        for step in &chain {
            assert_eq!(step.num_desired(), LAB_REACTION_AMOUNT);
            assert!(!produced.contains(&step.output()));
            assert!(bom.run_reaction(step), "{:?} in the chain of {:?}", step, resource);
            produced.push(step.output());
        }
        assert_eq!(bom.resource_amount(&resource), LAB_REACTION_AMOUNT);
    }
    let outputs = |resource| -> Vec<LabResource> {
        get_reaction_chain_for_resource(&resource).iter().map(|step| step.output()).collect()
    };
    assert_eq!(outputs(LabResource::Hydroxide), vec![LabResource::Hydroxide]);
    assert_eq!(
        outputs(LabResource::Ghodium),
        vec![LabResource::ZynthiumKeanite, LabResource::UtriumLemergite, LabResource::Ghodium]
    );
    assert_eq!(
        outputs(LabResource::CatalyzedUtriumAcid),
        vec![
            LabResource::Hydroxide,
            LabResource::UtriumHydride,
            LabResource::UtriumAcid,
            LabResource::CatalyzedUtriumAcid
        ]
    );
    assert_eq!(
        outputs(LabResource::GhodiumAlkalide),
        vec![
            LabResource::Hydroxide,
            LabResource::ZynthiumKeanite,
            LabResource::UtriumLemergite,
            LabResource::Ghodium,
            LabResource::GhodiumOxide,
            LabResource::GhodiumAlkalide
        ]
    );
    assert!(outputs(LabResource::Catalyst).is_empty());
}

#[test]
fn chain_time_is_the_sum_of_its_reactions() {
    let chain = [
        Reaction::unchecked_new(LabResource::Hydroxide, 6),
        Reaction::unchecked_new(LabResource::Ghodium, 5),
        Reaction::unchecked_new(LabResource::CatalyzedZynthiumAcid, 1),
    ];
    assert_eq!(Reaction::reaction_time_for_chain(&chain), 40 + 5 + 160);
    assert_eq!(Reaction::reaction_time_for_chain(&[]), 0);
    let long = [Reaction::unchecked_new(LabResource::CatalyzedZynthiumAcid, 100_000_000); 3];
    assert_eq!(long[0].reaction_time(), 3_200_000_000);
    assert_eq!(Reaction::reaction_time_for_chain(&long), u32::MAX);
}
