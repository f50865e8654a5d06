//! Generates creep bodies from strings such as `"6W3M"`.
//!
//! A body string is a sequence of part groups. Each group is a run of
//! characters that stand for parts, with an optional decimal count in front
//! of it; the parts of the group are repeated, in order, as many times as the
//! count says, and once if there is no count.
//!
//! | Character | Part |
//! | --------- | ---- |
//! | M | [Move](Part::Move) |
//! | W | [Work](Part::Work) |
//! | C | [Carry](Part::Carry) |
//! | A | [Attack](Part::Attack) |
//! | R | [RangedAttack](Part::RangedAttack) |
//! | T | [Tough](Part::Tough) |
//! | H | [Heal](Part::Heal) |
//! | L | [Claim](Part::Claim) |

use vstd::prelude::*;
use crate::body::bodyspec::{BodySpec, PartSpec};
use crate::constants::parts::Part;
use crate::game::{creep_hits_per_part_spec, max_creep_size, max_creep_size_spec};

verus! {

/// Dedicated error describing what went wrong when parsing a body spec.
#[derive(Debug, Clone, Copy, Eq, PartialEq, Structural)]
pub enum GenerateBodyError {
    InvalidString,
    TooManyBodyParts,
    InvalidMultiplier,
}

impl GenerateBodyError {
    /// Describes the error in words.
    pub fn message(&self) -> (message: &'static str)
        ensures
            message@ == match self {
                GenerateBodyError::InvalidString => "Body string is invalid"@,
                GenerateBodyError::TooManyBodyParts => "Too many parts specified"@,
                GenerateBodyError::InvalidMultiplier => "Invalid multiplier"@,
            },
    {
        match self {
            Self::InvalidString => "Body string is invalid",
            Self::TooManyBodyParts => "Too many parts specified",
            Self::InvalidMultiplier => "Invalid multiplier",
        }
    }
}

/// Whether a character is one of the decimal digits `0` to `9`.
pub open spec fn is_digit(character: char) -> bool {
    '0' <= character <= '9'
}

/// `char::is_ascii_digit` of std: whether the character is one of the ASCII
/// decimal digits, U+0030 `0` to U+0039 `9`.
pub assume_specification[ char::is_ascii_digit ](character: &char) -> (digit: bool)
    ensures
        digit == is_digit(*character),
;

/// `String::push` of std: appends the character to the end of the string.
#[verifier::external_body]
fn push_char(string: &mut String, character: char)
    ensures
        final(string)@ == old(string)@.push(character),
{
    string.push(character)
}

/// The part that a character stands for, if it stands for one.
pub open spec fn part_of_character(character: char) -> Option<Part> {
    if character == 'M' {
        Some(Part::Move)
    } else if character == 'W' {
        Some(Part::Work)
    } else if character == 'C' {
        Some(Part::Carry)
    } else if character == 'A' {
        Some(Part::Attack)
    } else if character == 'R' {
        Some(Part::RangedAttack)
    } else if character == 'T' {
        Some(Part::Tough)
    } else if character == 'H' {
        Some(Part::Heal)
    } else if character == 'L' {
        Some(Part::Claim)
    } else {
        None
    }
}

/// A part group: the characters of its count, and the characters of its
/// parts.
pub struct PartGroup {
    /// The digits in front of the group; none if it has no count.
    pub multiplier: Seq<char>,
    /// The characters that follow the digits.
    pub parts: Seq<char>,
}

/// What a scan of the first characters of a body string has found: the
/// groups that are complete, and the count and the parts of the group that
/// the scan is in.
pub struct GroupScan {
    pub groups: Seq<PartGroup>,
    pub multiplier: Seq<char>,
    pub parts: Seq<char>,
}

/// Scans characters from left to right. A digit that follows a part
/// character completes the group and begins the count of the next one; any
/// other digit continues the count, and any other character continues the
/// parts.
pub open spec fn scan_groups(characters: Seq<char>) -> GroupScan
    decreases characters.len(),
{
    if characters.len() == 0 {
        GroupScan { groups: Seq::empty(), multiplier: Seq::empty(), parts: Seq::empty() }
    } else {
        let before = scan_groups(characters.drop_last());
        let character = characters.last();
        if !is_digit(character) {
            GroupScan { parts: before.parts.push(character), ..before }
        } else if before.parts.len() > 0 {
            GroupScan {
                groups: before.groups.push(
                    PartGroup { multiplier: before.multiplier, parts: before.parts },
                ),
                multiplier: seq![character],
                parts: Seq::empty(),
            }
        } else {
            GroupScan { multiplier: before.multiplier.push(character), ..before }
        }
    }
}

/// The part groups of a body string. Digits at the end of the string, which
/// no part follows, belong to no group.
pub open spec fn part_groups(characters: Seq<char>) -> Seq<PartGroup> {
    let scan = scan_groups(characters);
    if scan.parts.len() > 0 {
        scan.groups.push(PartGroup { multiplier: scan.multiplier, parts: scan.parts })
    } else {
        scan.groups
    }
}

/// The number that decimal digits write.
pub open spec fn decimal_value(digits: Seq<char>) -> nat
    decreases digits.len(),
{
    if digits.len() == 0 {
        0
    } else {
        decimal_value(digits.drop_last()) * 10 + (digits.last() as u32 - '0' as u32) as nat
    }
}

/// A sequence of parts, repeated a number of times.
pub open spec fn repeated(parts: Seq<Part>, times: nat) -> Seq<Part>
    decreases times,
{
    if times == 0 {
        Seq::empty()
    } else {
        repeated(parts, (times - 1) as nat) + parts
    }
}

impl PartGroup {
    /// How many times the parts of the group are repeated: once without a
    /// count, else as many times as the count says.
    pub open spec fn times(self) -> nat {
        if self.multiplier.len() == 0 {
            1
        } else {
            decimal_value(self.multiplier)
        }
    }

    /// The parts that the characters of the group stand for, in order.
    /// Characters that stand for no part are passed over.
    pub open spec fn kinds(self) -> Seq<Part> {
        self.parts.filter_map(|character: char| part_of_character(character))
    }

    /// The parts that the group gives to the body.
    pub open spec fn body(self) -> Seq<Part> {
        repeated(self.kinds(), self.times())
    }
}

/// The parts that groups give to the body, one group after the other.
pub open spec fn body_of_groups(groups: Seq<PartGroup>) -> Seq<Part>
    decreases groups.len(),
{
    if groups.len() == 0 {
        Seq::empty()
    } else {
        body_of_groups(groups.drop_last()) + groups.last().body()
    }
}

/// Whether the count of every group fits a `usize`.
pub open spec fn multipliers_fit(groups: Seq<PartGroup>) -> bool {
    forall|i: int| 0 <= i < groups.len() ==> (#[trigger] groups[i]).times() <= usize::MAX
}

/// The characters of a string.
fn characters_of(string: &str) -> (characters: Vec<char>)
    ensures
        characters@ == string@,
{
    let mut characters: Vec<char> = Vec::new();
    for character in iter: string.chars()
        invariant
            characters@ == string@.take(iter.index() as int),
            iter.seq() == string@,
    {
        characters.push(character);
        assert(characters@ =~= string@.take(iter.index() + 1));
    }
    assert(string@.take(string@.len() as int) =~= string@);
    characters
}

/// Whether a pair of strings holds the count and the parts of a group.
pub open spec fn is_group(strings: (String, String), group: PartGroup) -> bool {
    strings.0@ == group.multiplier && strings.1@ == group.parts
}

/// Whether pairs of strings hold the counts and the parts of groups, in
/// order.
pub open spec fn are_groups(strings: Seq<(String, String)>, groups: Seq<PartGroup>) -> bool {
    strings.len() == groups.len() && forall|i: int|
        0 <= i < strings.len() ==> is_group(#[trigger] strings[i], groups[i])
}

/// Converts a creep body spec string (i.e. "2MC") into a Vec of Parts that can be used for
/// spawning.
///
/// Characters can be prefixed with a number to indicate how many of that part you want.
/// Consecutive runs of characters without digits separating them will be grouped together.
///
/// Fails with `InvalidMultiplier` if the count of a group does not fit a `usize`, else with
/// `TooManyBodyParts` if the body has more parts than a creep can have.
pub fn generate_body_from_string(body_string: &str) -> (res: Result<Vec<Part>, GenerateBodyError>)
    ensures
        res == Err::<Vec<Part>, _>(GenerateBodyError::InvalidMultiplier) <==> !multipliers_fit(
            part_groups(body_string@),
        ),
        res == Err::<Vec<Part>, _>(GenerateBodyError::TooManyBodyParts) <==> multipliers_fit(
            part_groups(body_string@),
        ) && body_of_groups(part_groups(body_string@)).len() > max_creep_size_spec(),
        res matches Ok(body) ==> body@ == body_of_groups(part_groups(body_string@)),
        res matches Err(error) ==> error != GenerateBodyError::InvalidString,
{
    let group_strings = parse_part_groups(body_string);
    let ghost groups = part_groups(body_string@);

    // Read every count before any part is generated
    let mut multipliers: Vec<usize> = Vec::new();
    let mut g: usize = 0;
    while g < group_strings.len()
        invariant
            g <= group_strings@.len(),
            groups == part_groups(body_string@),
            are_groups(group_strings@, groups),
            forall|i: int, j: int|
                0 <= i < group_strings@.len() && 0 <= j < group_strings@[i].0@.len() ==> is_digit(
                    #[trigger] group_strings@[i].0@[j],
                ),
            multipliers@.len() == g,
            forall|i: int| 0 <= i < g ==> multipliers@[i] == (#[trigger] groups[i]).times(),
        decreases group_strings@.len() - g,
    {
        proof {
            assert(is_group(group_strings@[g as int], groups[g as int]));
        }
        let digits = characters_of(group_strings[g].0.as_str());
        let multiplier_parse_res = if digits.len() == 0 {
            Some(1)
        } else {
            parse_multiplier(&digits)
        };
        match multiplier_parse_res {
            Some(multiplier) => {
                multipliers.push(multiplier);
            },
            None => {
                proof {
                    assert(groups[g as int].times() > usize::MAX);
                }
                return Err(GenerateBodyError::InvalidMultiplier);
            },
        }
        g += 1;
    }
    assert(multipliers_fit(groups));

    let mut output_vec: Vec<Part> = Vec::new();
    let mut g: usize = 0;
    while g < group_strings.len()
        invariant
            g <= group_strings@.len(),
            groups == part_groups(body_string@),
            multipliers_fit(groups),
            are_groups(group_strings@, groups),
            multipliers@.len() == group_strings@.len(),
            forall|i: int|
                0 <= i < multipliers@.len() ==> multipliers@[i] == (#[trigger] groups[i]).times(),
            output_vec@ == body_of_groups(groups.take(g as int)),
            output_vec@.len() <= max_creep_size_spec(),
        decreases group_strings@.len() - g,
    {
        proof {
            assert(is_group(group_strings@[g as int], groups[g as int]));
            assert(groups.take(g + 1).drop_last() =~= groups.take(g as int));
            lemma_body_of_prefix(groups, g + 1);
        }
        let parts_vec = convert_characters_to_parts(group_strings[g].1.as_str());
        if parts_vec.len() > 0 {
            let multiplier = multipliers[g];
            let ghost before = output_vec@;
            let mut k: usize = 0;
            while k < multiplier
                invariant
                    k <= multiplier,
                    groups == part_groups(body_string@),
                    multipliers_fit(groups),
                    parts_vec@.len() > 0,
                    output_vec@ == before + repeated(parts_vec@, k as nat),
                    output_vec@.len() <= max_creep_size_spec(),
                    before + repeated(parts_vec@, multiplier as nat) == body_of_groups(
                        groups.take(g + 1),
                    ),
                    body_of_groups(groups.take(g + 1)).len() <= body_of_groups(groups).len(),
                decreases multiplier - k,
            {
                proof {
                    lemma_repeated_grows(parts_vec@, (k + 1) as nat, multiplier as nat);
                    assert((before + repeated(parts_vec@, k as nat)) + parts_vec@ =~= before
                        + repeated(parts_vec@, (k + 1) as nat));
                }
                let mut i: usize = 0;
                let ghost round_start = output_vec@;
                while i < parts_vec.len()
                    invariant
                        i <= parts_vec@.len(),
                        groups == part_groups(body_string@),
                        multipliers_fit(groups),
                        output_vec@ == round_start + parts_vec@.take(i as int),
                        output_vec@.len() <= max_creep_size_spec(),
                        (round_start + parts_vec@).len() <= body_of_groups(groups).len(),
                    decreases parts_vec@.len() - i,
                {
                    if output_vec.len() >= max_creep_size() as usize {
                        return Err(GenerateBodyError::TooManyBodyParts);
                    }
                    output_vec.push(parts_vec[i]);
                    proof {
                        assert(output_vec@ =~= round_start + parts_vec@.take(i + 1));
                    }
                    i += 1;
                }
                proof {
                    assert(parts_vec@.take(i as int) =~= parts_vec@);
                }
                k += 1;
            }
        } else {
            proof {
                lemma_repeated_nothing(parts_vec@, multipliers@[g as int] as nat);
                assert(output_vec@ + Seq::<Part>::empty() =~= output_vec@);
            }
        }
        g += 1;
    }
    proof {
        assert(groups.take(g as int) =~= groups);
    }
    Ok(output_vec)
}

/// Converts a creep body spec string (i.e. "2MC") into a [BodySpec] that can be used for
/// calculations: the body of undamaged parts without boosts that the string describes.
pub fn generate_bodyspec_from_string(body_string: &str) -> (res: Result<
    BodySpec,
    GenerateBodyError,
>)
    ensures
        res == Err::<BodySpec, _>(GenerateBodyError::InvalidMultiplier) <==> !multipliers_fit(
            part_groups(body_string@),
        ),
        res == Err::<BodySpec, _>(GenerateBodyError::TooManyBodyParts) <==> multipliers_fit(
            part_groups(body_string@),
        ) && body_of_groups(part_groups(body_string@)).len() > max_creep_size_spec(),
        res matches Ok(spec) ==> spec@ == body_of_groups(part_groups(body_string@)).map_values(
            |part: Part| PartSpec { part, hits: creep_hits_per_part_spec(), boost: None },
        ),
        res matches Err(error) ==> error != GenerateBodyError::InvalidString,
{
    let parts_vec = match generate_body_from_string(body_string) {
        Ok(parts_vec) => parts_vec,
        Err(error) => {
            return Err(error);
        },
    };
    let mut specs: Vec<PartSpec> = Vec::new();
    let mut i: usize = 0;
    while i < parts_vec.len()
        invariant
            i <= parts_vec@.len(),
            specs@ == parts_vec@.take(i as int).map_values(
                |part: Part| PartSpec { part, hits: creep_hits_per_part_spec(), boost: None },
            ),
        decreases parts_vec@.len() - i,
    {
        specs.push(PartSpec::new_unboosted_part(parts_vec[i]));
        proof {
            assert(specs@ =~= parts_vec@.take(i + 1).map_values(
                |part: Part| PartSpec { part, hits: creep_hits_per_part_spec(), boost: None },
            ));
        }
        i += 1;
    }
    proof {
        assert(parts_vec@.take(i as int) =~= parts_vec@);
    }
    Ok(BodySpec::new(specs.as_slice()))
}

/// Converts a string slice into a Part.
///
/// The string must be one character that stands for a part. Anything else will return None.
pub fn convert_character_to_part(char_slice: &str) -> (part: Option<Part>)
    ensures
        part == if char_slice@.len() == 1 {
            part_of_character(char_slice@[0])
        } else {
            None
        },
{
    let characters = characters_of(char_slice);
    if characters.len() == 1 {
        part_for_character(characters[0])
    } else {
        None
    }
}

/// The part that a character stands for, if it stands for one.
fn part_for_character(character: char) -> (part: Option<Part>)
    ensures
        part == part_of_character(character),
{
    match character {
        'M' => Some(Part::Move),
        'W' => Some(Part::Work),
        'C' => Some(Part::Carry),
        'A' => Some(Part::Attack),
        'R' => Some(Part::RangedAttack),
        'T' => Some(Part::Tough),
        'H' => Some(Part::Heal),
        'L' => Some(Part::Claim),
        _ => None,
    }
}

/// The parts that the characters of a string stand for, in order, passing over the characters
/// that stand for no part.
fn convert_characters_to_parts(parts_string: &str) -> (parts: Vec<Part>)
    ensures
        parts@ == parts_string@.filter_map(|character: char| part_of_character(character)),
{
    let characters = characters_of(parts_string);
    let mut parts: Vec<Part> = Vec::new();
    let mut i: usize = 0;
    while i < characters.len()
        invariant
            i <= characters@.len(),
            characters@ == parts_string@,
            parts@ == characters@.take(i as int).filter_map(
                |character: char| part_of_character(character),
            ),
        decreases characters@.len() - i,
    {
        proof {
            assert(characters@.take(i + 1).drop_last() =~= characters@.take(i as int));
        }
        if let Some(part) = part_for_character(characters[i]) {
            parts.push(part);
        }
        i += 1;
    }
    proof {
        assert(characters@.take(i as int) =~= characters@);
    }
    parts
}

/// Reads a decimal number, if it fits a `usize`.
fn parse_multiplier(characters: &Vec<char>) -> (multiplier: Option<usize>)
    requires
        forall|i: int| 0 <= i < characters@.len() ==> is_digit(#[trigger] characters@[i]),
    ensures
        multiplier is Some <==> decimal_value(characters@) <= usize::MAX,
        multiplier matches Some(value) ==> value == decimal_value(characters@),
{
    let mut value: usize = 0;
    let mut i: usize = 0;
    while i < characters.len()
        invariant
            i <= characters@.len(),
            forall|j: int| 0 <= j < characters@.len() ==> is_digit(#[trigger] characters@[j]),
            value == decimal_value(characters@.take(i as int)),
        decreases characters@.len() - i,
    {
        proof {
            assert(characters@.take(i + 1).drop_last() =~= characters@.take(i as int));
            lemma_decimal_value_grows(characters@, i + 1);
        }
        let digit = (characters[i] as u32 - '0' as u32) as usize;
        value = match value.checked_mul(10) {
            Some(tens) => match tens.checked_add(digit) {
                Some(sum) => sum,
                None => {
                    return None;
                },
            },
            None => {
                return None;
            },
        };
        i += 1;
    }
    proof {
        assert(characters@.take(i as int) =~= characters@);
    }
    Some(value)
}

/// Splits up a creep body spec string into individual part groups and multipliers.
///
/// Each pair holds the digits in front of a group and the characters of its parts.
pub fn parse_part_groups(body_string: &str) -> (groups: Vec<(String, String)>)
    ensures
        are_groups(groups@, part_groups(body_string@)),
        forall|i: int, j: int|
            0 <= i < groups@.len() && 0 <= j < groups@[i].0@.len() ==> is_digit(
                #[trigger] groups@[i].0@[j],
            ),
{
    let mut group_strings: Vec<(String, String)> = Vec::new();
    let mut multiplier_accumulator = String::new();
    let mut parts_accumulator = String::new();
    let mut parts_seen: bool = false;
    let ghost mut found: Seq<PartGroup> = Seq::empty();

    for character in iter: body_string.chars()
        invariant
            iter.seq() == body_string@,
            scan_groups(body_string@.take(iter.index() as int)) == (GroupScan {
                groups: found,
                multiplier: multiplier_accumulator@,
                parts: parts_accumulator@,
            }),
            parts_seen == (parts_accumulator@.len() > 0),
            are_groups(group_strings@, found),
            forall|j: int|
                0 <= j < multiplier_accumulator@.len() ==> is_digit(
                    #[trigger] multiplier_accumulator@[j],
                ),
            forall|i: int, j: int|
                0 <= i < group_strings@.len() && 0 <= j < group_strings@[i].0@.len() ==> is_digit(
                    #[trigger] group_strings@[i].0@[j],
                ),
    {
        proof {
            assert(body_string@.take(iter.index() + 1).drop_last() =~= body_string@.take(
                iter.index() as int,
            ));
        }
        if character.is_ascii_digit() {
            if parts_seen {
                // If there are previously-parsed-parts, then we've moved to a
                // new group and need to store the old one before starting on the new group
                proof {
                    found = found.push(
                        PartGroup {
                            multiplier: multiplier_accumulator@,
                            parts: parts_accumulator@,
                        },
                    );
                }
                group_strings.push((multiplier_accumulator, parts_accumulator));

                multiplier_accumulator = String::new();
                parts_accumulator = String::new();
                parts_seen = false;
            }
            push_char(&mut multiplier_accumulator, character);
            proof {
                assert(multiplier_accumulator@ =~= scan_groups(
                    body_string@.take(iter.index() + 1),
                ).multiplier);
            }
        } else {
            push_char(&mut parts_accumulator, character);
            parts_seen = true;
        }
    }
    proof {
        assert(body_string@.take(body_string@.len() as int) =~= body_string@);
    }

    // Aggregate the final group into the output
    if parts_seen {
        group_strings.push((multiplier_accumulator, parts_accumulator));
    }
    // Return the parsed part groups

    group_strings
}

/// The number that the first digits write, times 10 and plus the next digit,
/// is the number that the digits with the next one write.
proof fn lemma_decimal_value_grows(digits: Seq<char>, count: int)
    requires
        0 < count <= digits.len(),
        forall|j: int| 0 <= j < digits.len() ==> is_digit(#[trigger] digits[j]),
    ensures
        decimal_value(digits.take(count)) == decimal_value(digits.take(count - 1)) * 10 + (
        digits[count - 1] as u32 - '0' as u32),
        decimal_value(digits.take(count)) <= decimal_value(digits),
    decreases digits.len() - count,
{
    assert(digits.take(count).drop_last() =~= digits.take(count - 1));
    if count < digits.len() {
        lemma_decimal_value_grows(digits, count + 1);
    } else {
        assert(digits.take(count) =~= digits);
    }
}

/// Parts that are repeated more often are no fewer.
proof fn lemma_repeated_grows(parts: Seq<Part>, fewer: nat, more: nat)
    requires
        fewer <= more,
    ensures
        repeated(parts, fewer).len() <= repeated(parts, more).len(),
        repeated(parts, fewer).len() == fewer * parts.len(),
    decreases more,
{
    if fewer < more {
        lemma_repeated_grows(parts, fewer, (more - 1) as nat);
    }
    if fewer > 0 {
        lemma_repeated_grows(parts, (fewer - 1) as nat, (fewer - 1) as nat);
        assert(fewer * parts.len() == (fewer - 1) * parts.len() + parts.len())
            by (nonlinear_arith)
            requires
                fewer > 0,
        ;
    } else {
        assert(0 * parts.len() == 0) by (nonlinear_arith);
    }
}

/// No parts, however often repeated, are no parts.
proof fn lemma_repeated_nothing(parts: Seq<Part>, times: nat)
    requires
        parts.len() == 0,
    ensures
        repeated(parts, times) == Seq::<Part>::empty(),
    decreases times,
{
    if times > 0 {
        lemma_repeated_nothing(parts, (times - 1) as nat);
        assert(repeated(parts, times) =~= Seq::<Part>::empty());
    }
}

/// The first groups give to the body what they give alone, followed by what
/// the next group gives, and no more parts than all the groups give.
proof fn lemma_body_of_prefix(groups: Seq<PartGroup>, count: int)
    requires
        0 < count <= groups.len(),
    ensures
        body_of_groups(groups.take(count)) == body_of_groups(groups.take(count - 1))
            + groups[count - 1].body(),
        body_of_groups(groups.take(count)).len() <= body_of_groups(groups).len(),
    decreases groups.len() - count,
{
    assert(groups.take(count).drop_last() =~= groups.take(count - 1));
    if count < groups.len() {
        lemma_body_of_prefix(groups, count + 1);
    } else {
        assert(groups.take(count) =~= groups);
    }
}

} // verus!
