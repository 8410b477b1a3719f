//! The kinds the HTTP API and the store name by text: spatial relations
//! between locations, monomyth stages of acts, challenge types, the
//! entities assets belong to, and rule systems.

use crate::api::{bad_request, ApiError};
use crate::text::{append_str, str_eq, to_owned_string};
use vstd::prelude::*;

verus! {

/// How one location connects to another.
#[derive(Clone, Copy, Debug, PartialEq, Eq, Structural)]
pub enum SpatialRelationship {
    Enters,
    Exits,
    LeadsTo,
    AdjacentTo,
    ConnectsTo,
}

/// The name of a spatial relationship, as `{:?}` writes it.
pub open spec fn spatial_relationship_name(t: SpatialRelationship) -> Seq<char> {
    match t {
        SpatialRelationship::Enters => "Enters"@,
        SpatialRelationship::Exits => "Exits"@,
        SpatialRelationship::LeadsTo => "LeadsTo"@,
        SpatialRelationship::AdjacentTo => "AdjacentTo"@,
        SpatialRelationship::ConnectsTo => "ConnectsTo"@,
    }
}

/// The spatial relationship a name stands for; any other text reads as `ConnectsTo`.
pub open spec fn spatial_relationship_from(s: Seq<char>) -> SpatialRelationship {
    if s == "Enters"@ {
        SpatialRelationship::Enters
    } else if s == "Exits"@ {
        SpatialRelationship::Exits
    } else if s == "LeadsTo"@ {
        SpatialRelationship::LeadsTo
    } else if s == "AdjacentTo"@ {
        SpatialRelationship::AdjacentTo
    } else if s == "ConnectsTo"@ {
        SpatialRelationship::ConnectsTo
    } else {
        SpatialRelationship::ConnectsTo
    }
}

impl SpatialRelationship {
    /// The variant's name, as `{:?}` writes it.
    pub fn name(&self) -> (r: String)
        ensures
            r@ == spatial_relationship_name(*self),
    {
        match self {
            SpatialRelationship::Enters => to_owned_string("Enters"),
            SpatialRelationship::Exits => to_owned_string("Exits"),
            SpatialRelationship::LeadsTo => to_owned_string("LeadsTo"),
            SpatialRelationship::AdjacentTo => to_owned_string("AdjacentTo"),
            SpatialRelationship::ConnectsTo => to_owned_string("ConnectsTo"),
        }
    }
}

/// Reads how two locations connect; any text but the other four names reads as `ConnectsTo`.
pub fn parse_spatial_relationship(s: &str) -> (t: SpatialRelationship)
    ensures
        t == spatial_relationship_from(s@),
{
    if str_eq(s, "Enters") {
        SpatialRelationship::Enters
    } else if str_eq(s, "Exits") {
        SpatialRelationship::Exits
    } else if str_eq(s, "LeadsTo") {
        SpatialRelationship::LeadsTo
    } else if str_eq(s, "AdjacentTo") {
        SpatialRelationship::AdjacentTo
    } else if str_eq(s, "ConnectsTo") {
        SpatialRelationship::ConnectsTo
    } else {
        SpatialRelationship::ConnectsTo
    }
}

/// Reading back the name of a spatial relationship gives it back.
pub proof fn spatial_relationship_round_trip(t: SpatialRelationship)
    ensures
        spatial_relationship_from(spatial_relationship_name(t)) == t,
{
    reveal_strlit("Enters");
    reveal_strlit("Exits");
    reveal_strlit("LeadsTo");
    reveal_strlit("AdjacentTo");
    reveal_strlit("ConnectsTo");
    match t {
        SpatialRelationship::Enters => {
        },
        SpatialRelationship::Exits => {
            assert("Exits"@.len() != "Enters"@.len());
        },
        SpatialRelationship::LeadsTo => {
            assert("LeadsTo"@.len() != "Enters"@.len());
            assert("LeadsTo"@.len() != "Exits"@.len());
        },
        SpatialRelationship::AdjacentTo => {
            assert("AdjacentTo"@.len() != "Enters"@.len());
            assert("AdjacentTo"@.len() != "Exits"@.len());
            assert("AdjacentTo"@.len() != "LeadsTo"@.len());
        },
        SpatialRelationship::ConnectsTo => {
            assert("ConnectsTo"@.len() != "Enters"@.len());
            assert("ConnectsTo"@.len() != "Exits"@.len());
            assert("ConnectsTo"@.len() != "LeadsTo"@.len());
            assert("ConnectsTo"@[0] != "AdjacentTo"@[0]);
        },
    }
}

/// A stage of the hero's journey that an act covers.
#[derive(Clone, Copy, Debug, PartialEq, Eq, Structural)]
pub enum MonomythStage {
    OrdinaryWorld,
    CallToAdventure,
    RefusalOfTheCall,
    MeetingTheMentor,
    CrossingTheThreshold,
    TestsAlliesEnemies,
    ApproachToInnermostCave,
    Ordeal,
    Reward,
    TheRoadBack,
    Resurrection,
    ReturnWithElixir,
}

/// The name of a monomyth stage, as `{:?}` writes it.
pub open spec fn monomyth_stage_name(t: MonomythStage) -> Seq<char> {
    match t {
        MonomythStage::OrdinaryWorld => "OrdinaryWorld"@,
        MonomythStage::CallToAdventure => "CallToAdventure"@,
        MonomythStage::RefusalOfTheCall => "RefusalOfTheCall"@,
        MonomythStage::MeetingTheMentor => "MeetingTheMentor"@,
        MonomythStage::CrossingTheThreshold => "CrossingTheThreshold"@,
        MonomythStage::TestsAlliesEnemies => "TestsAlliesEnemies"@,
        MonomythStage::ApproachToInnermostCave => "ApproachToInnermostCave"@,
        MonomythStage::Ordeal => "Ordeal"@,
        MonomythStage::Reward => "Reward"@,
        MonomythStage::TheRoadBack => "TheRoadBack"@,
        MonomythStage::Resurrection => "Resurrection"@,
        MonomythStage::ReturnWithElixir => "ReturnWithElixir"@,
    }
}

/// The monomyth stage a name stands for; any other text reads as `OrdinaryWorld`.
pub open spec fn monomyth_stage_from(s: Seq<char>) -> MonomythStage {
    if s == "OrdinaryWorld"@ {
        MonomythStage::OrdinaryWorld
    } else if s == "CallToAdventure"@ {
        MonomythStage::CallToAdventure
    } else if s == "RefusalOfTheCall"@ {
        MonomythStage::RefusalOfTheCall
    } else if s == "MeetingTheMentor"@ {
        MonomythStage::MeetingTheMentor
    } else if s == "CrossingTheThreshold"@ {
        MonomythStage::CrossingTheThreshold
    } else if s == "TestsAlliesEnemies"@ {
        MonomythStage::TestsAlliesEnemies
    } else if s == "ApproachToInnermostCave"@ {
        MonomythStage::ApproachToInnermostCave
    } else if s == "Ordeal"@ {
        MonomythStage::Ordeal
    } else if s == "Reward"@ {
        MonomythStage::Reward
    } else if s == "TheRoadBack"@ {
        MonomythStage::TheRoadBack
    } else if s == "Resurrection"@ {
        MonomythStage::Resurrection
    } else if s == "ReturnWithElixir"@ {
        MonomythStage::ReturnWithElixir
    } else {
        MonomythStage::OrdinaryWorld
    }
}

impl MonomythStage {
    /// The variant's name, as `{:?}` writes it.
    pub fn name(&self) -> (r: String)
        ensures
            r@ == monomyth_stage_name(*self),
    {
        match self {
            MonomythStage::OrdinaryWorld => to_owned_string("OrdinaryWorld"),
            MonomythStage::CallToAdventure => to_owned_string("CallToAdventure"),
            MonomythStage::RefusalOfTheCall => to_owned_string("RefusalOfTheCall"),
            MonomythStage::MeetingTheMentor => to_owned_string("MeetingTheMentor"),
            MonomythStage::CrossingTheThreshold => to_owned_string("CrossingTheThreshold"),
            MonomythStage::TestsAlliesEnemies => to_owned_string("TestsAlliesEnemies"),
            MonomythStage::ApproachToInnermostCave => to_owned_string("ApproachToInnermostCave"),
            MonomythStage::Ordeal => to_owned_string("Ordeal"),
            MonomythStage::Reward => to_owned_string("Reward"),
            MonomythStage::TheRoadBack => to_owned_string("TheRoadBack"),
            MonomythStage::Resurrection => to_owned_string("Resurrection"),
            MonomythStage::ReturnWithElixir => to_owned_string("ReturnWithElixir"),
        }
    }
}

/// Reads the hero's-journey stage of an act; unknown names read as `OrdinaryWorld`.
pub fn parse_monomyth_stage(s: &str) -> (t: MonomythStage)
    ensures
        t == monomyth_stage_from(s@),
{
    if str_eq(s, "OrdinaryWorld") {
        MonomythStage::OrdinaryWorld
    } else if str_eq(s, "CallToAdventure") {
        MonomythStage::CallToAdventure
    } else if str_eq(s, "RefusalOfTheCall") {
        MonomythStage::RefusalOfTheCall
    } else if str_eq(s, "MeetingTheMentor") {
        MonomythStage::MeetingTheMentor
    } else if str_eq(s, "CrossingTheThreshold") {
        MonomythStage::CrossingTheThreshold
    } else if str_eq(s, "TestsAlliesEnemies") {
        MonomythStage::TestsAlliesEnemies
    } else if str_eq(s, "ApproachToInnermostCave") {
        MonomythStage::ApproachToInnermostCave
    } else if str_eq(s, "Ordeal") {
        MonomythStage::Ordeal
    } else if str_eq(s, "Reward") {
        MonomythStage::Reward
    } else if str_eq(s, "TheRoadBack") {
        MonomythStage::TheRoadBack
    } else if str_eq(s, "Resurrection") {
        MonomythStage::Resurrection
    } else if str_eq(s, "ReturnWithElixir") {
        MonomythStage::ReturnWithElixir
    } else {
        MonomythStage::OrdinaryWorld
    }
}

/// Reading back the name of a monomyth stage gives it back.
pub proof fn monomyth_stage_round_trip(t: MonomythStage)
    ensures
        monomyth_stage_from(monomyth_stage_name(t)) == t,
{
    reveal_strlit("OrdinaryWorld");
    reveal_strlit("CallToAdventure");
    reveal_strlit("RefusalOfTheCall");
    reveal_strlit("MeetingTheMentor");
    reveal_strlit("CrossingTheThreshold");
    reveal_strlit("TestsAlliesEnemies");
    reveal_strlit("ApproachToInnermostCave");
    reveal_strlit("Ordeal");
    reveal_strlit("Reward");
    reveal_strlit("TheRoadBack");
    reveal_strlit("Resurrection");
    reveal_strlit("ReturnWithElixir");
    match t {
        MonomythStage::OrdinaryWorld => {
        },
        MonomythStage::CallToAdventure => {
            assert("CallToAdventure"@.len() != "OrdinaryWorld"@.len());
        },
        MonomythStage::RefusalOfTheCall => {
            assert("RefusalOfTheCall"@.len() != "OrdinaryWorld"@.len());
            assert("RefusalOfTheCall"@.len() != "CallToAdventure"@.len());
        },
        MonomythStage::MeetingTheMentor => {
            assert("MeetingTheMentor"@.len() != "OrdinaryWorld"@.len());
            assert("MeetingTheMentor"@.len() != "CallToAdventure"@.len());
            assert("MeetingTheMentor"@[0] != "RefusalOfTheCall"@[0]);
        },
        MonomythStage::CrossingTheThreshold => {
            assert("CrossingTheThreshold"@.len() != "OrdinaryWorld"@.len());
            assert("CrossingTheThreshold"@.len() != "CallToAdventure"@.len());
            assert("CrossingTheThreshold"@.len() != "RefusalOfTheCall"@.len());
            assert("CrossingTheThreshold"@.len() != "MeetingTheMentor"@.len());
        },
        MonomythStage::TestsAlliesEnemies => {
            assert("TestsAlliesEnemies"@.len() != "OrdinaryWorld"@.len());
            assert("TestsAlliesEnemies"@.len() != "CallToAdventure"@.len());
            assert("TestsAlliesEnemies"@.len() != "RefusalOfTheCall"@.len());
            assert("TestsAlliesEnemies"@.len() != "MeetingTheMentor"@.len());
            assert("TestsAlliesEnemies"@.len() != "CrossingTheThreshold"@.len());
        },
        MonomythStage::ApproachToInnermostCave => {
            assert("ApproachToInnermostCave"@.len() != "OrdinaryWorld"@.len());
            assert("ApproachToInnermostCave"@.len() != "CallToAdventure"@.len());
            assert("ApproachToInnermostCave"@.len() != "RefusalOfTheCall"@.len());
            assert("ApproachToInnermostCave"@.len() != "MeetingTheMentor"@.len());
            assert("ApproachToInnermostCave"@.len() != "CrossingTheThreshold"@.len());
            assert("ApproachToInnermostCave"@.len() != "TestsAlliesEnemies"@.len());
        },
        MonomythStage::Ordeal => {
            assert("Ordeal"@.len() != "OrdinaryWorld"@.len());
            assert("Ordeal"@.len() != "CallToAdventure"@.len());
            assert("Ordeal"@.len() != "RefusalOfTheCall"@.len());
            assert("Ordeal"@.len() != "MeetingTheMentor"@.len());
            assert("Ordeal"@.len() != "CrossingTheThreshold"@.len());
            assert("Ordeal"@.len() != "TestsAlliesEnemies"@.len());
            assert("Ordeal"@.len() != "ApproachToInnermostCave"@.len());
        },
        MonomythStage::Reward => {
            assert("Reward"@.len() != "OrdinaryWorld"@.len());
            assert("Reward"@.len() != "CallToAdventure"@.len());
            assert("Reward"@.len() != "RefusalOfTheCall"@.len());
            assert("Reward"@.len() != "MeetingTheMentor"@.len());
            assert("Reward"@.len() != "CrossingTheThreshold"@.len());
            assert("Reward"@.len() != "TestsAlliesEnemies"@.len());
            assert("Reward"@.len() != "ApproachToInnermostCave"@.len());
            assert("Reward"@[0] != "Ordeal"@[0]);
        },
        MonomythStage::TheRoadBack => {
            assert("TheRoadBack"@.len() != "OrdinaryWorld"@.len());
            assert("TheRoadBack"@.len() != "CallToAdventure"@.len());
            assert("TheRoadBack"@.len() != "RefusalOfTheCall"@.len());
            assert("TheRoadBack"@.len() != "MeetingTheMentor"@.len());
            assert("TheRoadBack"@.len() != "CrossingTheThreshold"@.len());
            assert("TheRoadBack"@.len() != "TestsAlliesEnemies"@.len());
            assert("TheRoadBack"@.len() != "ApproachToInnermostCave"@.len());
            assert("TheRoadBack"@.len() != "Ordeal"@.len());
            assert("TheRoadBack"@.len() != "Reward"@.len());
        },
        MonomythStage::Resurrection => {
            assert("Resurrection"@.len() != "OrdinaryWorld"@.len());
            assert("Resurrection"@.len() != "CallToAdventure"@.len());
            assert("Resurrection"@.len() != "RefusalOfTheCall"@.len());
            assert("Resurrection"@.len() != "MeetingTheMentor"@.len());
            assert("Resurrection"@.len() != "CrossingTheThreshold"@.len());
            assert("Resurrection"@.len() != "TestsAlliesEnemies"@.len());
            assert("Resurrection"@.len() != "ApproachToInnermostCave"@.len());
            assert("Resurrection"@.len() != "Ordeal"@.len());
            assert("Resurrection"@.len() != "Reward"@.len());
            assert("Resurrection"@.len() != "TheRoadBack"@.len());
        },
        MonomythStage::ReturnWithElixir => {
            assert("ReturnWithElixir"@.len() != "OrdinaryWorld"@.len());
            assert("ReturnWithElixir"@.len() != "CallToAdventure"@.len());
            assert("ReturnWithElixir"@[2] != "RefusalOfTheCall"@[2]);
            assert("ReturnWithElixir"@[0] != "MeetingTheMentor"@[0]);
            assert("ReturnWithElixir"@.len() != "CrossingTheThreshold"@.len());
            assert("ReturnWithElixir"@.len() != "TestsAlliesEnemies"@.len());
            assert("ReturnWithElixir"@.len() != "ApproachToInnermostCave"@.len());
            assert("ReturnWithElixir"@.len() != "Ordeal"@.len());
            assert("ReturnWithElixir"@.len() != "Reward"@.len());
            assert("ReturnWithElixir"@.len() != "TheRoadBack"@.len());
            assert("ReturnWithElixir"@.len() != "Resurrection"@.len());
        },
    }
}

/// The kind of a challenge.
#[derive(Clone, Copy, Debug, PartialEq, Eq, Structural)]
pub enum ChallengeType {
    SkillCheck,
    AbilityCheck,
    SavingThrow,
    OpposedCheck,
    ComplexChallenge,
}

/// The name of a challenge type, as `{:?}` writes it.
pub open spec fn challenge_type_name(t: ChallengeType) -> Seq<char> {
    match t {
        ChallengeType::SkillCheck => "SkillCheck"@,
        ChallengeType::AbilityCheck => "AbilityCheck"@,
        ChallengeType::SavingThrow => "SavingThrow"@,
        ChallengeType::OpposedCheck => "OpposedCheck"@,
        ChallengeType::ComplexChallenge => "ComplexChallenge"@,
    }
}

/// The challenge type a name stands for; any other text reads as `SkillCheck`.
pub open spec fn challenge_type_from(s: Seq<char>) -> ChallengeType {
    if s == "SkillCheck"@ {
        ChallengeType::SkillCheck
    } else if s == "AbilityCheck"@ {
        ChallengeType::AbilityCheck
    } else if s == "SavingThrow"@ {
        ChallengeType::SavingThrow
    } else if s == "OpposedCheck"@ {
        ChallengeType::OpposedCheck
    } else if s == "ComplexChallenge"@ {
        ChallengeType::ComplexChallenge
    } else {
        ChallengeType::SkillCheck
    }
}

impl ChallengeType {
    /// The variant's name, as `{:?}` writes it.
    pub fn name(&self) -> (r: String)
        ensures
            r@ == challenge_type_name(*self),
    {
        match self {
            ChallengeType::SkillCheck => to_owned_string("SkillCheck"),
            ChallengeType::AbilityCheck => to_owned_string("AbilityCheck"),
            ChallengeType::SavingThrow => to_owned_string("SavingThrow"),
            ChallengeType::OpposedCheck => to_owned_string("OpposedCheck"),
            ChallengeType::ComplexChallenge => to_owned_string("ComplexChallenge"),
        }
    }
}

/// Reads a stored challenge type; unknown names read as `SkillCheck`.
pub fn parse_challenge_type(s: &str) -> (t: ChallengeType)
    ensures
        t == challenge_type_from(s@),
{
    if str_eq(s, "SkillCheck") {
        ChallengeType::SkillCheck
    } else if str_eq(s, "AbilityCheck") {
        ChallengeType::AbilityCheck
    } else if str_eq(s, "SavingThrow") {
        ChallengeType::SavingThrow
    } else if str_eq(s, "OpposedCheck") {
        ChallengeType::OpposedCheck
    } else if str_eq(s, "ComplexChallenge") {
        ChallengeType::ComplexChallenge
    } else {
        ChallengeType::SkillCheck
    }
}

/// Reading back the name of a challenge type gives it back.
pub proof fn challenge_type_round_trip(t: ChallengeType)
    ensures
        challenge_type_from(challenge_type_name(t)) == t,
{
    reveal_strlit("SkillCheck");
    reveal_strlit("AbilityCheck");
    reveal_strlit("SavingThrow");
    reveal_strlit("OpposedCheck");
    reveal_strlit("ComplexChallenge");
    match t {
        ChallengeType::SkillCheck => {
        },
        ChallengeType::AbilityCheck => {
            assert("AbilityCheck"@.len() != "SkillCheck"@.len());
        },
        ChallengeType::SavingThrow => {
            assert("SavingThrow"@.len() != "SkillCheck"@.len());
            assert("SavingThrow"@.len() != "AbilityCheck"@.len());
        },
        ChallengeType::OpposedCheck => {
            assert("OpposedCheck"@.len() != "SkillCheck"@.len());
            assert("OpposedCheck"@[0] != "AbilityCheck"@[0]);
            assert("OpposedCheck"@.len() != "SavingThrow"@.len());
        },
        ChallengeType::ComplexChallenge => {
            assert("ComplexChallenge"@.len() != "SkillCheck"@.len());
            assert("ComplexChallenge"@.len() != "AbilityCheck"@.len());
            assert("ComplexChallenge"@.len() != "SavingThrow"@.len());
            assert("ComplexChallenge"@.len() != "OpposedCheck"@.len());
        },
    }
}
/// What `str::to_lowercase` gives for a text: its Unicode lower case.
pub uninterp spec fn lowercase(s: Seq<char>) -> Seq<char>;

/// Lower-cases a text with `str::to_lowercase`; the result is named, as
/// Unicode's case mapping is the standard library's.
#[verifier::external_body]
fn to_lowercase(s: &str) -> (r: String)
    ensures
        r@ == lowercase(s@),
{
    s.to_lowercase()
}

/// The kind of thing an asset belongs to.
#[derive(Clone, Copy, Debug, PartialEq, Eq, Structural)]
pub enum EntityType {
    Character,
    Location,
    Item,
}

/// The entity type a lower-cased name stands for.
pub open spec fn entity_type_named(lower: Seq<char>) -> Option<EntityType> {
    if lower == "character"@ {
        Some(EntityType::Character)
    } else if lower == "location"@ {
        Some(EntityType::Location)
    } else if lower == "item"@ {
        Some(EntityType::Item)
    } else {
        None
    }
}

/// The entity type named by an already lower-cased text.
pub fn entity_type_from_lowercase(lower: &str) -> (r: Option<EntityType>)
    ensures
        r == entity_type_named(lower@),
{
    if str_eq(lower, "character") {
        Some(EntityType::Character)
    } else if str_eq(lower, "location") {
        Some(EntityType::Location)
    } else if str_eq(lower, "item") {
        Some(EntityType::Item)
    } else {
        None
    }
}

/// Reads an entity type from a path, in any case.
pub fn parse_entity_type(s: &str) -> (r: Option<EntityType>)
    ensures
        r == entity_type_named(lowercase(s@)),
{
    let lower = to_lowercase(s);
    entity_type_from_lowercase(lower.as_str())
}

/// A family of rule systems.
#[derive(Clone, Copy, Debug, PartialEq, Eq, Structural)]
pub enum RuleSystemType {
    D20,
    D100,
    Narrative,
    Custom,
}

/// The rule system type a lower-cased name stands for.
pub open spec fn rule_system_type_named(lower: Seq<char>) -> Option<RuleSystemType> {
    if lower == "d20"@ {
        Some(RuleSystemType::D20)
    } else if lower == "d100"@ {
        Some(RuleSystemType::D100)
    } else if lower == "narrative"@ {
        Some(RuleSystemType::Narrative)
    } else if lower == "custom"@ {
        Some(RuleSystemType::Custom)
    } else {
        None
    }
}

/// The message for an unknown rule system type.
pub open spec fn unknown_system_type_text(s: Seq<char>) -> Seq<char> {
    "Unknown rule system type: "@ + s + ". Valid types: d20, d100, narrative, custom"@
}

/// The rule system type named by the lower-cased `lower`; `given` is
/// the text as given, quoted in the error.
pub fn rule_system_type_from_lowercase(lower: &str, given: &str) -> (r: Result<
    RuleSystemType,
    ApiError,
>)
    ensures
        match rule_system_type_named(lower@) {
            Some(t) => r == Ok::<RuleSystemType, ApiError>(t),
            None => r matches Err(e) && e.status == bad_request() && e.message@
                == unknown_system_type_text(given@),
        },
{
    if str_eq(lower, "d20") {
        Ok(RuleSystemType::D20)
    } else if str_eq(lower, "d100") {
        Ok(RuleSystemType::D100)
    } else if str_eq(lower, "narrative") {
        Ok(RuleSystemType::Narrative)
    } else if str_eq(lower, "custom") {
        Ok(RuleSystemType::Custom)
    } else {
        let mut m = to_owned_string("Unknown rule system type: ");
        append_str(&mut m, given);
        append_str(&mut m, ". Valid types: d20, d100, narrative, custom");
        Err(ApiError { status: 400, message: m })
    }
}

/// Reads a rule system type from a path, in any case; an unknown one is a
/// "Bad Request" that lists the valid types.
pub fn parse_system_type(s: &str) -> (r: Result<RuleSystemType, ApiError>)
    ensures
        match rule_system_type_named(lowercase(s@)) {
            Some(t) => r == Ok::<RuleSystemType, ApiError>(t),
            None => r matches Err(e) && e.status == bad_request() && e.message@
                == unknown_system_type_text(s@),
        },
{
    let lower = to_lowercase(s);
    rule_system_type_from_lowercase(lower.as_str(), s)
}

/// A preset rule system.
#[derive(Clone, Copy, Debug, PartialEq, Eq, Structural)]
pub enum RuleSystemVariant {
    Dnd5e,
    Pathfinder2e,
    GenericD20,
    CallOfCthulhu7e,
    RuneQuest,
    GenericD100,
    KidsOnBikes,
    FateCore,
    PoweredByApocalypse,
}

/// The preset's name, as `{:?}` writes it.
pub open spec fn variant_debug_name(v: RuleSystemVariant) -> Seq<char> {
    match v {
        RuleSystemVariant::Dnd5e => "Dnd5e"@,
        RuleSystemVariant::Pathfinder2e => "Pathfinder2e"@,
        RuleSystemVariant::GenericD20 => "GenericD20"@,
        RuleSystemVariant::CallOfCthulhu7e => "CallOfCthulhu7e"@,
        RuleSystemVariant::RuneQuest => "RuneQuest"@,
        RuleSystemVariant::GenericD100 => "GenericD100"@,
        RuleSystemVariant::KidsOnBikes => "KidsOnBikes"@,
        RuleSystemVariant::FateCore => "FateCore"@,
        RuleSystemVariant::PoweredByApocalypse => "PoweredByApocalypse"@,
    }
}

impl RuleSystemVariant {
    /// The preset's name, as `{:?}` writes it.
    pub fn debug_name(&self) -> (r: String)
        ensures
            r@ == variant_debug_name(*self),
    {
        match self {
            RuleSystemVariant::Dnd5e => to_owned_string("Dnd5e"),
            RuleSystemVariant::Pathfinder2e => to_owned_string("Pathfinder2e"),
            RuleSystemVariant::GenericD20 => to_owned_string("GenericD20"),
            RuleSystemVariant::CallOfCthulhu7e => to_owned_string("CallOfCthulhu7e"),
            RuleSystemVariant::RuneQuest => to_owned_string("RuneQuest"),
            RuleSystemVariant::GenericD100 => to_owned_string("GenericD100"),
            RuleSystemVariant::KidsOnBikes => to_owned_string("KidsOnBikes"),
            RuleSystemVariant::FateCore => to_owned_string("FateCore"),
            RuleSystemVariant::PoweredByApocalypse => to_owned_string("PoweredByApocalypse"),
        }
    }
}

/// `s` with every '-' written as '_'.
pub open spec fn dashes_to_underscores(s: Seq<char>) -> Seq<char> {
    s.map_values(|c: char| if c == '-' { '_' } else { c })
}

/// The preset a normalised (lower-cased, '-' as '_') name stands for; each
/// preset has a few spellings.
pub open spec fn rule_system_variant_named(key: Seq<char>) -> Option<RuleSystemVariant> {
    if key == "dnd5e"@ || key == "dnd_5e"@ {
        Some(RuleSystemVariant::Dnd5e)
    } else if key == "pathfinder2e"@ || key == "pathfinder_2e"@ {
        Some(RuleSystemVariant::Pathfinder2e)
    } else if key == "generic_d20"@ || key == "genericd20"@ {
        Some(RuleSystemVariant::GenericD20)
    } else if key == "coc7e"@ || key == "coc_7e"@ || key == "callofcthulhu7e"@ || key
        == "call_of_cthulhu_7e"@ {
        Some(RuleSystemVariant::CallOfCthulhu7e)
    } else if key == "runequest"@ || key == "rune_quest"@ {
        Some(RuleSystemVariant::RuneQuest)
    } else if key == "generic_d100"@ || key == "genericd100"@ {
        Some(RuleSystemVariant::GenericD100)
    } else if key == "kidsonbikes"@ || key == "kids_on_bikes"@ {
        Some(RuleSystemVariant::KidsOnBikes)
    } else if key == "fatecore"@ || key == "fate_core"@ || key == "fate"@ {
        Some(RuleSystemVariant::FateCore)
    } else if key == "pbta"@ || key == "poweredbyapocalypse"@ || key == "powered_by_apocalypse"@ {
        Some(RuleSystemVariant::PoweredByApocalypse)
    } else {
        None
    }
}

/// The message for an unknown preset.
pub open spec fn unknown_variant_text(s: Seq<char>) -> Seq<char> {
    "Unknown variant: "@ + s
        + ". Valid variants: dnd5e, pathfinder2e, generic_d20, coc7e, runequest, generic_d100, kidsonbikes, fatecore, pbta"@
}

fn replace_dashes(s: &str) -> (r: String)
    ensures
        r@ == dashes_to_underscores(s@),
{
    let mut r = String::new();
    let n = s.unicode_len();
    let mut i: usize = 0;
    while i < n
        invariant
            n == s@.len(),
            i <= n,
            r@ == dashes_to_underscores(s@.take(i as int)),
        decreases n - i,
    {
        let c = s.get_char(i);
        let d = if c == '-' {
            '_'
        } else {
            c
        };
        crate::text::push_char(&mut r, d);
        assert(dashes_to_underscores(s@.take(i + 1)) == dashes_to_underscores(
            s@.take(i as int),
        ).push(d));
        i = i + 1;
    }
    assert(s@.take(n as int) == s@);
    r
}

fn eq_any(s: &str, a: &str, b: &str) -> (r: bool)
    ensures
        r == (s@ == a@ || s@ == b@),
{
    str_eq(s, a) || str_eq(s, b)
}

/// The preset named by the lower-cased `lower`; `given` is the text as
/// given, quoted in the error.
pub fn rule_system_variant_from_lowercase(lower: &str, given: &str) -> (r: Result<
    RuleSystemVariant,
    ApiError,
>)
    ensures
        match rule_system_variant_named(dashes_to_underscores(lower@)) {
            Some(v) => r == Ok::<RuleSystemVariant, ApiError>(v),
            None => r matches Err(e) && e.status == bad_request() && e.message@
                == unknown_variant_text(given@),
        },
{
    let key = replace_dashes(lower);
    let k = key.as_str();
    if eq_any(k, "dnd5e", "dnd_5e") {
        Ok(RuleSystemVariant::Dnd5e)
    } else if eq_any(k, "pathfinder2e", "pathfinder_2e") {
        Ok(RuleSystemVariant::Pathfinder2e)
    } else if eq_any(k, "generic_d20", "genericd20") {
        Ok(RuleSystemVariant::GenericD20)
    } else if eq_any(k, "coc7e", "coc_7e") || eq_any(k, "callofcthulhu7e", "call_of_cthulhu_7e") {
        Ok(RuleSystemVariant::CallOfCthulhu7e)
    } else if eq_any(k, "runequest", "rune_quest") {
        Ok(RuleSystemVariant::RuneQuest)
    } else if eq_any(k, "generic_d100", "genericd100") {
        Ok(RuleSystemVariant::GenericD100)
    } else if eq_any(k, "kidsonbikes", "kids_on_bikes") {
        Ok(RuleSystemVariant::KidsOnBikes)
    } else if eq_any(k, "fatecore", "fate_core") || str_eq(k, "fate") {
        Ok(RuleSystemVariant::FateCore)
    } else if eq_any(k, "pbta", "poweredbyapocalypse") || str_eq(k, "powered_by_apocalypse") {
        Ok(RuleSystemVariant::PoweredByApocalypse)
    } else {
        let mut m = to_owned_string("Unknown variant: ");
        append_str(&mut m, given);
        append_str(
            &mut m,
            ". Valid variants: dnd5e, pathfinder2e, generic_d20, coc7e, runequest, generic_d100, kidsonbikes, fatecore, pbta",
        );
        Err(ApiError { status: 400, message: m })
    }
}

/// Reads a preset rule system from a path, in any case and with '-' or
/// '_' between words; an unknown one is a "Bad Request" that lists the
/// presets.
pub fn parse_variant(s: &str) -> (r: Result<RuleSystemVariant, ApiError>)
    ensures
        match rule_system_variant_named(dashes_to_underscores(lowercase(s@))) {
            Some(v) => r == Ok::<RuleSystemVariant, ApiError>(v),
            None => r matches Err(e) && e.status == bad_request() && e.message@
                == unknown_variant_text(s@),
        },
{
    let lower = to_lowercase(s);
    rule_system_variant_from_lowercase(lower.as_str(), s)
}


/// A world's rule system as a request gives it: a preset's name, or a
/// full configuration of type `C`.
#[derive(Clone, Debug)]
pub enum RuleSystemInput<C> {
    /// A preset, expanded to its full configuration.
    VariantOnly { variant: RuleSystemVariant },
    /// A full configuration, taken as it is.
    Full(C),
}

impl<C> RuleSystemInput<C> {
    /// The full configuration: the one given, or the preset's as `preset`
    /// (the configuration's constructor for presets) builds it.
    pub fn into_config<F: Fn(RuleSystemVariant) -> C>(self, preset: F) -> (r: C)
        requires
            forall|v: RuleSystemVariant| preset.requires((v,)),
        ensures
            match self {
                RuleSystemInput::VariantOnly { variant } => preset.ensures((variant,), r),
                RuleSystemInput::Full(c) => r == c,
            },
    {
        match self {
            RuleSystemInput::VariantOnly { variant } => preset(variant),
            RuleSystemInput::Full(c) => c,
        }
    }
}

} // verus!
