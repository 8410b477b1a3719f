//! The rule system catalogue that the HTTP API answers: each family of
//! rule systems with how it is described, and its presets. A preset's name
//! and description are its configuration's, given here as plain values.

use crate::kinds::{RuleSystemType, RuleSystemVariant};
use crate::text::to_owned_string;
use vstd::prelude::*;

verus! {

/// A preset as the catalogue lists it.
#[derive(Clone, Debug)]
pub struct PresetSummary {
    pub variant: RuleSystemVariant,
    pub name: String,
    pub description: String,
}

/// A family of rule systems as the catalogue lists it, or as its own page
/// describes it.
#[derive(Clone, Debug)]
pub struct RuleSystemSummary {
    pub system_type: RuleSystemType,
    pub name: String,
    pub description: String,
    pub dice_notation: String,
    pub presets: Vec<PresetSummary>,
}

/// The name of a family of rule systems.
pub open spec fn system_name(t: RuleSystemType) -> Seq<char> {
    match t {
        RuleSystemType::D20 => "D20 System"@,
        RuleSystemType::D100 => "D100 System"@,
        RuleSystemType::Narrative => "Narrative System"@,
        RuleSystemType::Custom => "Custom System"@,
    }
}

/// How the catalogue describes a family.
pub open spec fn listed_description(t: RuleSystemType) -> Seq<char> {
    match t {
        RuleSystemType::D20 =>
            "Roll d20 + modifier vs Difficulty Class. Used by D&D, Pathfinder, and similar games."@,
        RuleSystemType::D100 =>
            "Roll percentile dice under skill value. Used by Call of Cthulhu, RuneQuest, and similar games."@,
        RuleSystemType::Narrative =>
            "Fiction-first with descriptive outcomes. Used by Kids on Bikes, FATE, PbtA games."@,
        RuleSystemType::Custom =>
            "Build your own rule system from scratch with custom dice and mechanics."@,
    }
}

/// The dice a family rolls, as the catalogue writes them.
pub open spec fn listed_dice(t: RuleSystemType) -> Seq<char> {
    match t {
        RuleSystemType::D20 => "1d20"@,
        RuleSystemType::D100 => "1d100"@,
        RuleSystemType::Narrative => "Varies"@,
        RuleSystemType::Custom => "Custom"@,
    }
}

/// How a family's own page describes it.
pub open spec fn detailed_description(t: RuleSystemType) -> Seq<char> {
    match t {
        RuleSystemType::D20 =>
            "Roll d20 + modifier vs Difficulty Class. Higher is better. Natural 20 is critical success, natural 1 is critical failure."@,
        RuleSystemType::D100 =>
            "Roll percentile dice (d100) and compare to skill value. Roll equal to or under to succeed. Lower rolls are better successes."@,
        RuleSystemType::Narrative =>
            "Fiction-first systems where outcomes are described rather than strictly calculated. Dice inform the narrative."@,
        RuleSystemType::Custom => "Define your own dice mechanics, stats, and success conditions."@,
    }
}

/// The dice a family rolls, as its own page writes them.
pub open spec fn detailed_dice(t: RuleSystemType) -> Seq<char> {
    match t {
        RuleSystemType::D20 => "1d20"@,
        RuleSystemType::D100 => "1d100"@,
        RuleSystemType::Narrative => "Varies by game"@,
        RuleSystemType::Custom => "Custom"@,
    }
}

fn name_of(t: RuleSystemType) -> (r: String)
    ensures
        r@ == system_name(t),
{
    match t {
        RuleSystemType::D20 => to_owned_string("D20 System"),
        RuleSystemType::D100 => to_owned_string("D100 System"),
        RuleSystemType::Narrative => to_owned_string("Narrative System"),
        RuleSystemType::Custom => to_owned_string("Custom System"),
    }
}

/// A family as the catalogue lists it, with the given presets.
pub fn listed_system(t: RuleSystemType, presets: Vec<PresetSummary>) -> (r: RuleSystemSummary)
    ensures
        r.system_type == t,
        r.name@ == system_name(t),
        r.description@ == listed_description(t),
        r.dice_notation@ == listed_dice(t),
        r.presets == presets,
{
    let (description, dice_notation) = match t {
        RuleSystemType::D20 => (
            to_owned_string(
                "Roll d20 + modifier vs Difficulty Class. Used by D&D, Pathfinder, and similar games.",
            ),
            to_owned_string("1d20"),
        ),
        RuleSystemType::D100 => (
            to_owned_string(
                "Roll percentile dice under skill value. Used by Call of Cthulhu, RuneQuest, and similar games.",
            ),
            to_owned_string("1d100"),
        ),
        RuleSystemType::Narrative => (
            to_owned_string(
                "Fiction-first with descriptive outcomes. Used by Kids on Bikes, FATE, PbtA games.",
            ),
            to_owned_string("Varies"),
        ),
        RuleSystemType::Custom => (
            to_owned_string(
                "Build your own rule system from scratch with custom dice and mechanics.",
            ),
            to_owned_string("Custom"),
        ),
    };
    RuleSystemSummary { system_type: t, name: name_of(t), description, dice_notation, presets }
}

/// A family as its own page describes it, with the given presets.
pub fn system_details(t: RuleSystemType, presets: Vec<PresetSummary>) -> (r: RuleSystemSummary)
    ensures
        r.system_type == t,
        r.name@ == system_name(t),
        r.description@ == detailed_description(t),
        r.dice_notation@ == detailed_dice(t),
        r.presets == presets,
{
    let (description, dice_notation) = match t {
        RuleSystemType::D20 => (
            to_owned_string(
                "Roll d20 + modifier vs Difficulty Class. Higher is better. Natural 20 is critical success, natural 1 is critical failure.",
            ),
            to_owned_string("1d20"),
        ),
        RuleSystemType::D100 => (
            to_owned_string(
                "Roll percentile dice (d100) and compare to skill value. Roll equal to or under to succeed. Lower rolls are better successes.",
            ),
            to_owned_string("1d100"),
        ),
        RuleSystemType::Narrative => (
            to_owned_string(
                "Fiction-first systems where outcomes are described rather than strictly calculated. Dice inform the narrative.",
            ),
            to_owned_string("Varies by game"),
        ),
        RuleSystemType::Custom => (
            to_owned_string("Define your own dice mechanics, stats, and success conditions."),
            to_owned_string("Custom"),
        ),
    };
    RuleSystemSummary { system_type: t, name: name_of(t), description, dice_notation, presets }
}

/// The catalogue: the D20, D100 and narrative families with their presets,
/// then the custom family, which lists none.
pub fn rule_system_catalogue(
    d20: Vec<PresetSummary>,
    d100: Vec<PresetSummary>,
    narrative: Vec<PresetSummary>,
) -> (r: Vec<RuleSystemSummary>)
    ensures
        r@.len() == 4,
        r@[0].system_type == RuleSystemType::D20 && r@[0].presets == d20,
        r@[1].system_type == RuleSystemType::D100 && r@[1].presets == d100,
        r@[2].system_type == RuleSystemType::Narrative && r@[2].presets == narrative,
        r@[3].system_type == RuleSystemType::Custom && r@[3].presets@.len() == 0,
        forall|i: int|
            0 <= i < 4 ==> {
                &&& (#[trigger] r@[i]).name@ == system_name(r@[i].system_type)
                &&& r@[i].description@ == listed_description(r@[i].system_type)
                &&& r@[i].dice_notation@ == listed_dice(r@[i].system_type)
            },
{
    let mut r: Vec<RuleSystemSummary> = Vec::new();
    r.push(listed_system(RuleSystemType::D20, d20));
    r.push(listed_system(RuleSystemType::D100, d100));
    r.push(listed_system(RuleSystemType::Narrative, narrative));
    r.push(listed_system(RuleSystemType::Custom, Vec::new()));
    r
}

} // verus!
