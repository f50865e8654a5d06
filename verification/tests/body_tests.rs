use screeps_body_utils::body::body_generation::{
    convert_character_to_part as part_of, generate_body_from_string as body_of,
    generate_bodyspec_from_string as bodyspec_of, parse_part_groups as groups_of,
    GenerateBodyError,
};
use screeps_body_utils::body::bodyspec::{
    ranged_mass_attack_power_at_distance, BodySpec, BodySpecValidationError, PartSpec,
};
use screeps_body_utils::boost::boost::AbstractBoost;
use screeps_body_utils::constants::parts::Part;

fn group(multiplier: &str, parts: &str) -> (String, String) {
    (multiplier.to_string(), parts.to_string())
}

#[test]
fn part_groups_are_split_at_digits_after_parts() {
    assert_eq!(groups_of("5T2MC"), vec![group("5", "T"), group("2", "MC")]);
    assert_eq!(groups_of("WM"), vec![group("", "WM")]);
    assert_eq!(groups_of("WM3"), vec![group("", "WM")]);
    assert_eq!(groups_of("12"), vec![]);
    assert_eq!(groups_of(""), vec![]);
    assert_eq!(groups_of("007x y1z"), vec![group("007", "x y"), group("1", "z")]);
    assert_eq!(groups_of("3é4M"), vec![group("3", "é"), group("4", "M")]);
}

#[test]
fn characters_stand_for_parts() {
    assert_eq!(part_of("A"), Some(Part::Attack));
    assert_eq!(part_of("L"), Some(Part::Claim));
    assert_eq!(part_of("a"), None);
    assert_eq!(part_of(""), None);
    assert_eq!(part_of("MM"), None);
    assert_eq!(part_of("1"), None);
}

#[test]
fn bodies_repeat_the_parts_of_each_group() {
    assert_eq!(
        body_of("2WC1M"),
        Ok(vec![Part::Work, Part::Carry, Part::Work, Part::Carry, Part::Move])
    );
    assert_eq!(body_of("2W?C"), body_of("2WC"));
    assert_eq!(body_of("0W3M"), Ok(vec![Part::Move; 3]));
    assert_eq!(body_of("0003M"), Ok(vec![Part::Move; 3]));
    assert_eq!(body_of("3xyz"), Ok(vec![]));
    assert_eq!(body_of("50M").map(|body| body.len()), Ok(50));
    assert_eq!(body_of("25MW").map(|body| body.len()), Ok(50));
}

#[test]
fn bodies_that_are_too_large_are_refused() {
    assert_eq!(body_of("51M"), Err(GenerateBodyError::TooManyBodyParts));
    assert_eq!(body_of("25MW1M"), Err(GenerateBodyError::TooManyBodyParts));
    assert_eq!(body_of("17MWC"), Err(GenerateBodyError::TooManyBodyParts));
    assert_eq!(body_of("18446744073709551615M"), Err(GenerateBodyError::TooManyBodyParts));
    assert_eq!(body_of("18446744073709551615x"), Ok(vec![]));
}

#[test]
fn counts_that_do_not_fit_are_refused() {
    assert_eq!(
        body_of("99999999999999999999999999M"),
        Err(GenerateBodyError::InvalidMultiplier)
    );
    assert_eq!(
        body_of("51M99999999999999999999999999W"),
        Err(GenerateBodyError::InvalidMultiplier)
    );
    assert_eq!(
        body_of("99999999999999999999999999x"),
        Err(GenerateBodyError::InvalidMultiplier)
    );
    assert!(matches!(
        bodyspec_of("99999999999999999999999999M"),
        Err(GenerateBodyError::InvalidMultiplier)
    ));
    assert!(matches!(bodyspec_of("51M"), Err(GenerateBodyError::TooManyBodyParts)));
}

#[test]
fn errors_describe_themselves() {
    assert_eq!(GenerateBodyError::InvalidString.message(), "Body string is invalid");
    assert_eq!(GenerateBodyError::TooManyBodyParts.message(), "Too many parts specified");
    assert_eq!(GenerateBodyError::InvalidMultiplier.message(), "Invalid multiplier");
}

#[test]
fn body_specs_from_strings_are_undamaged_and_unboosted() {
    let spec = bodyspec_of("6W3M").ok().unwrap();
    assert_eq!(spec.get_parts(), body_of("6W3M").unwrap());
    assert_eq!(spec.get_part_specs().len(), 9);
    for part in spec.get_part_specs() {
        assert_eq!(part.hits, 100);
        assert_eq!(part.boost, None);
        assert_eq!(part, PartSpec::from(part.part));
    }
    assert_eq!(spec.harvest_energy_amount(), 12);
    assert_eq!(spec.hits(), 900);
    assert_eq!(spec.energy_to_spawn(), 750);
    assert_eq!(spec.ticks_to_spawn(), 27);
    assert_eq!(spec.plains_move_net_exhaustion(), 6);
    assert_eq!(spec.road_move_net_exhaustion(), 0);
    assert_eq!(spec.swamp_move_net_exhaustion(), 54);
}

#[test]
fn parts_without_hits_give_nothing() {
    let parts = [
        PartSpec::new(Part::Carry, 0, None),
        PartSpec::new(Part::Carry, 1, Some(AbstractBoost::T2Carry)),
        PartSpec::new(Part::Attack, 0, Some(AbstractBoost::T3Attack)),
        PartSpec::new(Part::Attack, 7, Some(AbstractBoost::T3Heal)),
        PartSpec::new(Part::Move, 0, None),
        PartSpec::new(Part::Tough, 0, None),
    ];
    assert!(!parts[0].is_active());
    assert!(parts[1].is_active());
    let spec = BodySpec::new(&parts);
    assert_eq!(spec.get_part_specs(), parts.to_vec());
    assert_eq!(spec.carry_capacity(), 150);
    assert_eq!(spec.attack_damage(), 30);
    assert_eq!(spec.hits(), 8);
    assert_eq!(spec.heal_amount(), 0);
    // the carry part without hits and the move part generate no fatigue; no move part removes any
    assert_eq!(spec.plains_move_net_exhaustion(), 8);
    assert_eq!(parts[4].get_fatigue_reduction(), 0);
    assert_eq!(PartSpec::new(Part::Move, 1, Some(AbstractBoost::T3Move)).get_fatigue_reduction(), 8);
}

#[test]
fn mass_attack_power_falls_with_distance() {
    assert_eq!(ranged_mass_attack_power_at_distance(0), 0);
    assert_eq!(ranged_mass_attack_power_at_distance(1), 10);
    assert_eq!(ranged_mass_attack_power_at_distance(2), 4);
    assert_eq!(ranged_mass_attack_power_at_distance(3), 1);
    assert_eq!(ranged_mass_attack_power_at_distance(4), 0);
    assert_eq!(ranged_mass_attack_power_at_distance(255), 0);
}

#[test]
fn validated_bodies_have_no_more_than_fifty_parts() {
    let parts = [PartSpec::new_unboosted_part(Part::Tough); 51];
    assert!(matches!(
        BodySpec::validated_new(&parts),
        Err(BodySpecValidationError::TooManyParts)
    ));
    assert_eq!(BodySpec::validated_new(&parts[..50]).ok().unwrap().get_parts().len(), 50);
    assert_eq!(BodySpec::validated_new(&[]).ok().unwrap().hits(), 0);
    assert_eq!(BodySpec::new(&parts).get_parts().len(), 51);
}
