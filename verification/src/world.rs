//! The world model that sessions and the storage codecs read: locations,
//! characters, scenes and the small enumerations that describe them.

use crate::ids::WorldId;
use crate::text::{str_eq, to_owned_string};
use vstd::prelude::*;
use vstd::string::*;

verus! {

/// The kind of a location.
#[derive(Clone, Copy, Debug, PartialEq, Eq, Structural)]
pub enum LocationType {
    Interior,
    Exterior,
    Abstract,
}

/// The Campbell archetype a character currently plays.
#[derive(Clone, Copy, Debug, PartialEq, Eq, Structural)]
pub enum CampbellArchetype {
    Hero,
    Mentor,
    ThresholdGuardian,
    Herald,
    Shapeshifter,
    Shadow,
    Trickster,
    Ally,
}

/// Time of day of a scene.
#[derive(Clone, Copy, Debug, PartialEq, Eq, Structural)]
pub enum TimeOfDay {
    Morning,
    Afternoon,
    Evening,
    Night,
}

/// When a scene takes place.
#[derive(Clone, Debug, PartialEq, Eq)]
pub enum TimeContext {
    Unspecified,
    TimeOfDay(TimeOfDay),
    During(String),
    Custom(String),
}

/// A world: the container of all other data.
#[derive(Clone, Debug)]
pub struct World {
    pub id: WorldId,
    pub name: String,
    pub description: String,
}

/// A location of a world.
#[derive(Clone, Debug)]
pub struct Location {
    pub id: u128,
    pub name: String,
    pub description: String,
    pub location_type: LocationType,
    pub backdrop_asset: Option<String>,
    pub parent_id: Option<u128>,
}

/// A non-player character of a world.
#[derive(Clone, Debug)]
pub struct Character {
    pub id: u128,
    pub name: String,
    pub description: String,
    pub sprite_asset: Option<String>,
    pub portrait_asset: Option<String>,
    pub current_archetype: CampbellArchetype,
    pub wants: Vec<String>,
    pub is_alive: bool,
    pub is_active: bool,
}

/// A scene: a location at a time, with the characters featured in it.
#[derive(Clone, Debug)]
pub struct Scene {
    pub id: u128,
    /// The act the scene belongs to.
    pub act_id: u128,
    pub name: String,
    pub location_id: u128,
    pub time_context: TimeContext,
    pub backdrop_override: Option<String>,
    pub featured_characters: Vec<u128>,
    pub directorial_notes: String,
    /// The scene's place among its act's scenes.
    pub order: u32,
}

/// The name under which a location type is written.
pub open spec fn location_type_name(t: LocationType) -> Seq<char> {
    match t {
        LocationType::Interior => "Interior"@,
        LocationType::Exterior => "Exterior"@,
        LocationType::Abstract => "Abstract"@,
    }
}

/// The location type a stored or requested name stands for; unknown names
/// read as `Interior`.
pub open spec fn location_type_from(s: Seq<char>) -> LocationType {
    if s == "Interior"@ {
        LocationType::Interior
    } else if s == "Exterior"@ {
        LocationType::Exterior
    } else if s == "Abstract"@ {
        LocationType::Abstract
    } else {
        LocationType::Interior
    }
}

impl LocationType {
    /// The variant's name, as `{:?}` writes it.
    pub fn name(&self) -> (r: String)
        ensures
            r@ == location_type_name(*self),
    {
        match self {
            LocationType::Interior => to_owned_string("Interior"),
            LocationType::Exterior => to_owned_string("Exterior"),
            LocationType::Abstract => to_owned_string("Abstract"),
        }
    }
}

/// Reads a location type; unknown names give `Interior`.
pub fn parse_location_type(s: &str) -> (r: LocationType)
    ensures
        r == location_type_from(s@),
{
    if str_eq(s, "Interior") {
        LocationType::Interior
    } else if str_eq(s, "Exterior") {
        LocationType::Exterior
    } else if str_eq(s, "Abstract") {
        LocationType::Abstract
    } else {
        LocationType::Interior
    }
}

/// Law: a location type's name reads back as the same location type.
pub proof fn location_type_round_trip(t: LocationType)
    ensures
        location_type_from(location_type_name(t)) == t,
{
    reveal_strlit("Interior");
    reveal_strlit("Exterior");
    reveal_strlit("Abstract");
    assert("Interior"@[0] == 'I');
    assert("Exterior"@[0] == 'E');
    assert("Abstract"@[0] == 'A');
}

/// The name under which an archetype is written.
pub open spec fn archetype_name(a: CampbellArchetype) -> Seq<char> {
    match a {
        CampbellArchetype::Hero => "Hero"@,
        CampbellArchetype::Mentor => "Mentor"@,
        CampbellArchetype::ThresholdGuardian => "ThresholdGuardian"@,
        CampbellArchetype::Herald => "Herald"@,
        CampbellArchetype::Shapeshifter => "Shapeshifter"@,
        CampbellArchetype::Shadow => "Shadow"@,
        CampbellArchetype::Trickster => "Trickster"@,
        CampbellArchetype::Ally => "Ally"@,
    }
}

/// The archetype a stored name stands for; unknown names read as `Ally`.
pub open spec fn archetype_from(s: Seq<char>) -> CampbellArchetype {
    if s == "Hero"@ {
        CampbellArchetype::Hero
    } else if s == "Mentor"@ {
        CampbellArchetype::Mentor
    } else if s == "ThresholdGuardian"@ {
        CampbellArchetype::ThresholdGuardian
    } else if s == "Herald"@ {
        CampbellArchetype::Herald
    } else if s == "Shapeshifter"@ {
        CampbellArchetype::Shapeshifter
    } else if s == "Shadow"@ {
        CampbellArchetype::Shadow
    } else if s == "Trickster"@ {
        CampbellArchetype::Trickster
    } else {
        CampbellArchetype::Ally
    }
}

impl CampbellArchetype {
    /// The variant's name, as `{:?}` writes it.
    pub fn name(&self) -> (r: String)
        ensures
            r@ == archetype_name(*self),
    {
        match self {
            CampbellArchetype::Hero => to_owned_string("Hero"),
            CampbellArchetype::Mentor => to_owned_string("Mentor"),
            CampbellArchetype::ThresholdGuardian => to_owned_string("ThresholdGuardian"),
            CampbellArchetype::Herald => to_owned_string("Herald"),
            CampbellArchetype::Shapeshifter => to_owned_string("Shapeshifter"),
            CampbellArchetype::Shadow => to_owned_string("Shadow"),
            CampbellArchetype::Trickster => to_owned_string("Trickster"),
            CampbellArchetype::Ally => to_owned_string("Ally"),
        }
    }
}

/// Reads a stored archetype; unknown names give `Ally`.
pub fn parse_archetype(s: &str) -> (r: CampbellArchetype)
    ensures
        r == archetype_from(s@),
{
    if str_eq(s, "Hero") {
        CampbellArchetype::Hero
    } else if str_eq(s, "Mentor") {
        CampbellArchetype::Mentor
    } else if str_eq(s, "ThresholdGuardian") {
        CampbellArchetype::ThresholdGuardian
    } else if str_eq(s, "Herald") {
        CampbellArchetype::Herald
    } else if str_eq(s, "Shapeshifter") {
        CampbellArchetype::Shapeshifter
    } else if str_eq(s, "Shadow") {
        CampbellArchetype::Shadow
    } else if str_eq(s, "Trickster") {
        CampbellArchetype::Trickster
    } else {
        CampbellArchetype::Ally
    }
}

/// Law: an archetype's name reads back as the same archetype.
pub proof fn archetype_round_trip(a: CampbellArchetype)
    ensures
        archetype_from(archetype_name(a)) == a,
{
    reveal_strlit("Hero");
    reveal_strlit("Mentor");
    reveal_strlit("ThresholdGuardian");
    reveal_strlit("Herald");
    reveal_strlit("Shapeshifter");
    reveal_strlit("Shadow");
    reveal_strlit("Trickster");
    reveal_strlit("Ally");
    assert("Hero"@ != "Mentor"@ && "Hero"@ != "ThresholdGuardian"@ && "Hero"@ != "Herald"@) by {
        assert("Hero"@.len() != "Herald"@.len());
        assert("Hero"@[0] != "Mentor"@[0]);
        assert("Hero"@[0] != "ThresholdGuardian"@[0]);
    }
    assert("Shapeshifter"@ != "Shadow"@ && "Trickster"@ != "ThresholdGuardian"@) by {
        assert("Shapeshifter"@.len() != "Shadow"@.len());
        assert("Trickster"@.len() != "ThresholdGuardian"@.len());
    }
    match a {
        CampbellArchetype::Hero => {},
        CampbellArchetype::Mentor => {
            assert("Mentor"@[0] != "Hero"@[0]);
        },
        CampbellArchetype::ThresholdGuardian => {
            assert("ThresholdGuardian"@[0] != "Mentor"@[0]);
        },
        CampbellArchetype::Herald => {
            assert("Herald"@[0] != "Mentor"@[0]);
            assert("Herald"@[0] != "ThresholdGuardian"@[0]);
        },
        CampbellArchetype::Shapeshifter => {
            assert("Shapeshifter"@[0] != "Hero"@[0]);
            assert("Shapeshifter"@[0] != "Mentor"@[0]);
            assert("Shapeshifter"@[0] != "ThresholdGuardian"@[0]);
            assert("Shapeshifter"@[0] != "Herald"@[0]);
        },
        CampbellArchetype::Shadow => {
            assert("Shadow"@[0] != "Hero"@[0]);
            assert("Shadow"@[0] != "Mentor"@[0]);
            assert("Shadow"@[0] != "ThresholdGuardian"@[0]);
            assert("Shadow"@[0] != "Herald"@[0]);
        },
        CampbellArchetype::Trickster => {
            assert("Trickster"@[0] != "Hero"@[0]);
            assert("Trickster"@[0] != "Mentor"@[0]);
            assert("Trickster"@[0] != "Herald"@[0]);
            assert("Trickster"@[0] != "Shapeshifter"@[0]);
            assert("Trickster"@[0] != "Shadow"@[0]);
        },
        CampbellArchetype::Ally => {
            assert("Ally"@[0] != "Hero"@[0]);
            assert("Ally"@[0] != "Mentor"@[0]);
            assert("Ally"@[0] != "ThresholdGuardian"@[0]);
            assert("Ally"@[0] != "Herald"@[0]);
            assert("Ally"@[0] != "Shapeshifter"@[0]);
            assert("Ally"@[0] != "Shadow"@[0]);
            assert("Ally"@[0] != "Trickster"@[0]);
        },
    }
}

/// The name of a time of day, as `{:?}` writes it.
pub open spec fn time_of_day_name(t: TimeOfDay) -> Seq<char> {
    match t {
        TimeOfDay::Morning => "Morning"@,
        TimeOfDay::Afternoon => "Afternoon"@,
        TimeOfDay::Evening => "Evening"@,
        TimeOfDay::Night => "Night"@,
    }
}

/// The text shown for a scene's time: the time of day's name, the free
/// text of `During` and `Custom`, or `Unspecified`.
pub open spec fn time_context_text(t: TimeContext) -> Seq<char> {
    match t {
        TimeContext::Unspecified => "Unspecified"@,
        TimeContext::TimeOfDay(d) => time_of_day_name(d),
        TimeContext::During(s) => s@,
        TimeContext::Custom(s) => s@,
    }
}

impl TimeOfDay {
    /// The variant's name, as `{:?}` writes it.
    pub fn name(&self) -> (r: String)
        ensures
            r@ == time_of_day_name(*self),
    {
        match self {
            TimeOfDay::Morning => to_owned_string("Morning"),
            TimeOfDay::Afternoon => to_owned_string("Afternoon"),
            TimeOfDay::Evening => to_owned_string("Evening"),
            TimeOfDay::Night => to_owned_string("Night"),
        }
    }
}

impl TimeContext {
    /// The text shown to players for this time.
    pub fn display_text(&self) -> (r: String)
        ensures
            r@ == time_context_text(*self),
    {
        match self {
            TimeContext::Unspecified => to_owned_string("Unspecified"),
            TimeContext::TimeOfDay(d) => d.name(),
            TimeContext::During(s) => s.clone(),
            TimeContext::Custom(s) => s.clone(),
        }
    }
}

} // verus!
