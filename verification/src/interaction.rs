//! Interactions offered in a scene: their kinds and targets, as the HTTP
//! API and the WebSocket name them.

use crate::api::{bad_request, ApiError};
use crate::ids::{parse_uuid, uuid_parsed, uuid_text, uuid_to_string};
use crate::text::{concat_str, str_eq, to_owned_string};
use vstd::prelude::*;

verus! {

/// What `{:?}` writes for a text: the text in double quotes, with the
/// characters that need it escaped.
pub uninterp spec fn str_debug(s: Seq<char>) -> Seq<char>;

/// Writes a text as `{:?}` does (std's `Debug` for `str`).
#[verifier::external_body]
pub(crate) fn debug_str(s: &str) -> (r: String)
    ensures
        r@ == str_debug(s@),
{
    format!("{:?}", s)
}

/// The kind of an interaction.
#[derive(Clone, Debug, PartialEq, Eq)]
pub enum InteractionType {
    Dialogue,
    Examine,
    UseItem,
    PickUp,
    GiveItem,
    Attack,
    Travel,
    Custom(String),
}

/// The names of the kinds other than `Custom`.
pub open spec fn interaction_type_named(s: Seq<char>) -> Option<InteractionType> {
    if s == "Dialogue"@ {
        Some(InteractionType::Dialogue)
    } else if s == "Examine"@ {
        Some(InteractionType::Examine)
    } else if s == "UseItem"@ {
        Some(InteractionType::UseItem)
    } else if s == "PickUp"@ {
        Some(InteractionType::PickUp)
    } else if s == "GiveItem"@ {
        Some(InteractionType::GiveItem)
    } else if s == "Attack"@ {
        Some(InteractionType::Attack)
    } else if s == "Travel"@ {
        Some(InteractionType::Travel)
    } else {
        None
    }
}

/// `t` is the kind a request naming `s` gets: the kind with that name, or
/// `Custom` carrying the text itself.
pub open spec fn parsed_as(s: Seq<char>, t: InteractionType) -> bool {
    match interaction_type_named(s) {
        Some(k) => t == k,
        None => t matches InteractionType::Custom(c) && c@ == s,
    }
}

/// The name a kind is sent under; `Custom` is sent as its own text.
pub open spec fn interaction_type_wire(t: InteractionType) -> Seq<char> {
    match t {
        InteractionType::Dialogue => "Dialogue"@,
        InteractionType::Examine => "Examine"@,
        InteractionType::UseItem => "UseItem"@,
        InteractionType::PickUp => "PickUp"@,
        InteractionType::GiveItem => "GiveItem"@,
        InteractionType::Attack => "Attack"@,
        InteractionType::Travel => "Travel"@,
        InteractionType::Custom(s) => s@,
    }
}

/// What `{:?}` writes for a kind.
pub open spec fn interaction_type_debug(t: InteractionType) -> Seq<char> {
    match t {
        InteractionType::Custom(s) => "Custom("@ + str_debug(s@) + ")"@,
        _ => interaction_type_wire(t),
    }
}

/// Reads an interaction kind from a request.
pub fn parse_interaction_type(s: &str) -> (t: InteractionType)
    ensures
        parsed_as(s@, t),
{
    if str_eq(s, "Dialogue") {
        InteractionType::Dialogue
    } else if str_eq(s, "Examine") {
        InteractionType::Examine
    } else if str_eq(s, "UseItem") {
        InteractionType::UseItem
    } else if str_eq(s, "PickUp") {
        InteractionType::PickUp
    } else if str_eq(s, "GiveItem") {
        InteractionType::GiveItem
    } else if str_eq(s, "Attack") {
        InteractionType::Attack
    } else if str_eq(s, "Travel") {
        InteractionType::Travel
    } else {
        InteractionType::Custom(to_owned_string(s))
    }
}

impl InteractionType {
    /// The kind as `{:?}` writes it (how responses name it).
    pub fn debug_name(&self) -> (r: String)
        ensures
            r@ == interaction_type_debug(*self),
    {
        match self {
            InteractionType::Dialogue => to_owned_string("Dialogue"),
            InteractionType::Examine => to_owned_string("Examine"),
            InteractionType::UseItem => to_owned_string("UseItem"),
            InteractionType::PickUp => to_owned_string("PickUp"),
            InteractionType::GiveItem => to_owned_string("GiveItem"),
            InteractionType::Attack => to_owned_string("Attack"),
            InteractionType::Travel => to_owned_string("Travel"),
            InteractionType::Custom(s) => {
                let q = debug_str(s.as_str());
                let a = concat_str("Custom(", q.as_str());
                concat_str(a.as_str(), ")")
            },
        }
    }
}

/// Reading back the name a kind is sent under gives the kind, for every
/// kind whose custom text is not one of the seven names.
pub proof fn interaction_type_round_trip(t: InteractionType)
    requires
        t matches InteractionType::Custom(s) ==> interaction_type_named(s@) is None,
    ensures
        parsed_as(interaction_type_wire(t), t),
{
    reveal_strlit("Dialogue");
    reveal_strlit("Examine");
    reveal_strlit("UseItem");
    reveal_strlit("PickUp");
    reveal_strlit("GiveItem");
    reveal_strlit("Attack");
    reveal_strlit("Travel");
    match t {
        InteractionType::Custom(_) => {},
        InteractionType::Dialogue => {},
        InteractionType::Examine => {
            assert("Examine"@[0] != "Dialogue"@[0]);
        },
        InteractionType::UseItem => {
            assert("UseItem"@[0] != "Dialogue"@[0]);
            assert("UseItem"@[0] != "Examine"@[0]);
        },
        InteractionType::PickUp => {
            assert("PickUp"@[0] != "Dialogue"@[0]);
            assert("PickUp"@[0] != "Examine"@[0]);
            assert("PickUp"@[0] != "UseItem"@[0]);
        },
        InteractionType::GiveItem => {
            assert("GiveItem"@[0] != "Dialogue"@[0]);
            assert("GiveItem"@[0] != "Examine"@[0]);
            assert("GiveItem"@[0] != "UseItem"@[0]);
            assert("GiveItem"@[0] != "PickUp"@[0]);
        },
        InteractionType::Attack => {
            assert("Attack"@[0] != "Dialogue"@[0]);
            assert("Attack"@[0] != "Examine"@[0]);
            assert("Attack"@[0] != "UseItem"@[0]);
            assert("Attack"@[0] != "PickUp"@[0]);
            assert("Attack"@[0] != "GiveItem"@[0]);
        },
        InteractionType::Travel => {
            assert("Travel"@[0] != "Dialogue"@[0]);
            assert("Travel"@[0] != "Examine"@[0]);
            assert("Travel"@[0] != "UseItem"@[0]);
            assert("Travel"@[0] != "PickUp"@[0]);
            assert("Travel"@[0] != "GiveItem"@[0]);
            assert("Travel"@[0] != "Attack"@[0]);
        },
    }
}

/// What an interaction is aimed at.
#[derive(Clone, Debug, PartialEq, Eq)]
pub enum InteractionTarget {
    Character(u128),
    Item(u128),
    Environment(String),
    NoTarget,
}

/// Reads an interaction's target from a request: its type, and the ID or
/// description that the type asks for. "Character" and "Item" need a UUID
/// in `target_id`, "Environment" needs a description; any other type is no
/// target. A missing or malformed part is a "Bad Request".
pub fn parse_target(target_type: &str, target_id: Option<&str>, description: Option<&str>) -> (r:
    Result<InteractionTarget, ApiError>)
    ensures
        target_type@ == "Character"@ ==> match target_id {
            None => r matches Err(e) && e.status == bad_request() && e.message@
                == "Character target requires target_id"@,
            Some(id) => match uuid_parsed(id@) {
                Some(v) => r == Ok::<InteractionTarget, ApiError>(InteractionTarget::Character(v)),
                None => r matches Err(e) && e.status == bad_request() && e.message@
                    == "Invalid character ID"@,
            },
        },
        target_type@ == "Item"@ ==> match target_id {
            None => r matches Err(e) && e.status == bad_request() && e.message@
                == "Item target requires target_id"@,
            Some(id) => match uuid_parsed(id@) {
                Some(v) => r == Ok::<InteractionTarget, ApiError>(InteractionTarget::Item(v)),
                None => r matches Err(e) && e.status == bad_request() && e.message@
                    == "Invalid item ID"@,
            },
        },
        target_type@ == "Environment"@ ==> match description {
            None => r matches Err(e) && e.status == bad_request() && e.message@
                == "Environment target requires target_description"@,
            Some(d) => r matches Ok(InteractionTarget::Environment(t)) && t@ == d@,
        },
        target_type@ != "Character"@ && target_type@ != "Item"@ && target_type@
            != "Environment"@ ==> r == Ok::<InteractionTarget, ApiError>(InteractionTarget::NoTarget),
{
    proof {
        reveal_strlit("Character");
        reveal_strlit("Item");
        reveal_strlit("Environment");
        assert("Item"@.len() != "Character"@.len());
        assert("Environment"@.len() != "Character"@.len());
        assert("Environment"@.len() != "Item"@.len());
    }
    if str_eq(target_type, "Character") {
        match target_id {
            None => Err(ApiError::bad_request("Character target requires target_id")),
            Some(id) => match parse_uuid(id) {
                Some(v) => Ok(InteractionTarget::Character(v)),
                None => Err(ApiError::bad_request("Invalid character ID")),
            },
        }
    } else if str_eq(target_type, "Item") {
        match target_id {
            None => Err(ApiError::bad_request("Item target requires target_id")),
            Some(id) => match parse_uuid(id) {
                Some(v) => Ok(InteractionTarget::Item(v)),
                None => Err(ApiError::bad_request("Invalid item ID")),
            },
        }
    } else if str_eq(target_type, "Environment") {
        match description {
            None => Err(ApiError::bad_request("Environment target requires target_description")),
            Some(d) => Ok(InteractionTarget::Environment(to_owned_string(d))),
        }
    } else {
        Ok(InteractionTarget::NoTarget)
    }
}

/// The name of an interaction's target shown after travelling: the
/// character's or item's ID after its kind, the environment's description,
/// or nothing.
pub open spec fn travel_target_name(t: InteractionTarget) -> Option<Seq<char>> {
    match t {
        InteractionTarget::Character(id) => Some("Character "@ + uuid_text(id)),
        InteractionTarget::Item(id) => Some("Item "@ + uuid_text(id)),
        InteractionTarget::Environment(d) => Some(d@),
        InteractionTarget::NoTarget => None,
    }
}

/// The name of an interaction's target shown on a scene change: the kind
/// alone for a character or item, the environment's description, or nothing.
pub open spec fn scene_target_name(t: InteractionTarget) -> Option<Seq<char>> {
    match t {
        InteractionTarget::Character(_) => Some("Character"@),
        InteractionTarget::Item(_) => Some("Item"@),
        InteractionTarget::Environment(d) => Some(d@),
        InteractionTarget::NoTarget => None,
    }
}

/// The opt-in text view of an optional string.
pub open spec fn opt_view(o: Option<String>) -> Option<Seq<char>> {
    match o {
        Some(s) => Some(s@),
        None => None,
    }
}

impl InteractionTarget {
    /// The target's name as shown after travelling.
    pub fn travel_name(&self) -> (r: Option<String>)
        ensures
            opt_view(r) == travel_target_name(*self),
    {
        match self {
            InteractionTarget::Character(id) => {
                let t = uuid_to_string(*id);
                Some(concat_str("Character ", t.as_str()))
            },
            InteractionTarget::Item(id) => {
                let t = uuid_to_string(*id);
                Some(concat_str("Item ", t.as_str()))
            },
            InteractionTarget::Environment(d) => Some(d.clone()),
            InteractionTarget::NoTarget => None,
        }
    }

    /// The target's name as shown on a scene change.
    pub fn scene_name(&self) -> (r: Option<String>)
        ensures
            opt_view(r) == scene_target_name(*self),
    {
        match self {
            InteractionTarget::Character(_) => Some(to_owned_string("Character")),
            InteractionTarget::Item(_) => Some(to_owned_string("Item")),
            InteractionTarget::Environment(d) => Some(d.clone()),
            InteractionTarget::NoTarget => None,
        }
    }
}

/// Body of a request to create an interaction.
#[derive(Clone, Debug)]
pub struct CreateInteractionRequest {
    pub name: String,
    pub interaction_type: String,
    pub target_type: String,
    pub target_id: Option<String>,
    pub target_description: Option<String>,
    pub prompt_hints: String,
    pub allowed_tools: Vec<String>,
    pub order: u32,
}

/// An interaction as the HTTP API answers it.
#[derive(Clone, Debug)]
pub struct InteractionResponse {
    pub id: String,
    pub scene_id: String,
    pub name: String,
    pub interaction_type: String,
    pub target: String,
    pub prompt_hints: String,
    pub allowed_tools: Vec<String>,
    pub is_available: bool,
    pub order: u32,
}

/// Body of a request to make an interaction available or not.
#[derive(Clone, Copy, Debug)]
pub struct SetAvailabilityRequest {
    pub available: bool,
}


/// The interaction a creation request asks for, read.
#[derive(Clone, Debug)]
pub struct NewInteraction {
    pub scene_id: u128,
    pub name: String,
    pub interaction_type: InteractionType,
    pub target: InteractionTarget,
    /// Hints for the language model, when not empty.
    pub prompt_hints: Option<String>,
    pub allowed_tools: Vec<String>,
    pub order: u32,
}

/// Reads the interaction a creation request asks for: the scene ID must
/// be a UUID ("Invalid scene ID"), the kind is read as `parse_interaction_type`
/// does and the target as `parse_target` does (its errors pass through).
pub fn new_interaction(scene_id: &str, req: CreateInteractionRequest) -> (r: Result<
    NewInteraction,
    ApiError,
>)
    ensures
        match uuid_parsed(scene_id@) {
            None => r matches Err(e) && e.status == bad_request() && e.message@
                == "Invalid scene ID"@,
            Some(s) => match r {
                Ok(n) => {
                    &&& n.scene_id == s
                    &&& n.name == req.name
                    &&& parsed_as(req.interaction_type@, n.interaction_type)
                    &&& n.prompt_hints == (if req.prompt_hints@.len() == 0 {
                        None
                    } else {
                        Some(req.prompt_hints)
                    })
                    &&& n.allowed_tools == req.allowed_tools
                    &&& n.order == req.order
                },
                Err(e) => e.status == bad_request(),
            },
        },
        uuid_parsed(scene_id@) is Some ==> match r {
            Ok(n) => target_read(req.target_type@, opt_view(req.target_id), opt_view(req.target_description), Some(n.target)),
            Err(_) => target_read(req.target_type@, opt_view(req.target_id), opt_view(req.target_description), None),
        },
{
    let s = match crate::api::parse_id(scene_id, "Invalid scene ID") {
        Ok(v) => v,
        Err(e) => {
            return Err(e);
        },
    };
    let interaction_type = parse_interaction_type(req.interaction_type.as_str());
    let target = match parse_target(
        req.target_type.as_str(),
        opt_str(&req.target_id),
        opt_str(&req.target_description),
    ) {
        Ok(t) => t,
        Err(e) => {
            return Err(e);
        },
    };
    let CreateInteractionRequest {
        name,
        interaction_type: _,
        target_type: _,
        target_id: _,
        target_description: _,
        prompt_hints,
        allowed_tools,
        order,
    } = req;
    let prompt_hints = if prompt_hints.unicode_len() == 0 {
        None
    } else {
        Some(prompt_hints)
    };
    Ok(NewInteraction { scene_id: s, name, interaction_type, target, prompt_hints, allowed_tools, order })
}

/// `t` is the target read from a target type, ID and description (`None`
/// when they make an error).
pub open spec fn target_read(
    target_type: Seq<char>,
    target_id: Option<Seq<char>>,
    description: Option<Seq<char>>,
    t: Option<InteractionTarget>,
) -> bool {
    if target_type == "Character"@ || target_type == "Item"@ {
        match target_id {
            None => t is None,
            Some(id) => match uuid_parsed(id) {
                None => t is None,
                Some(v) => t == Some(
                    if target_type == "Character"@ {
                        InteractionTarget::Character(v)
                    } else {
                        InteractionTarget::Item(v)
                    },
                ),
            },
        }
    } else if target_type == "Environment"@ {
        match description {
            None => t is None,
            Some(d) => t matches Some(InteractionTarget::Environment(x)) && x@ == d,
        }
    } else {
        t == Some(InteractionTarget::NoTarget)
    }
}

fn opt_str(o: &Option<String>) -> (r: Option<&str>)
    ensures
        match o {
            Some(s) => r matches Some(t) && t@ == s@,
            None => r is None,
        },
{
    match o {
        Some(s) => Some(s.as_str()),
        None => None,
    }
}

/// An interaction offered in a scene.
#[derive(Clone, Debug)]
pub struct InteractionTemplate {
    pub id: u128,
    pub scene_id: u128,
    pub name: String,
    pub interaction_type: InteractionType,
    pub target: InteractionTarget,
    pub prompt_hints: String,
    pub allowed_tools: Vec<String>,
    pub is_available: bool,
    pub order: u32,
}

/// Applies a change request to an interaction: its name, kind, target,
/// hints, tools and order are replaced; a target that cannot be read
/// fails as `parse_target` does, with nothing changed.
pub fn apply_interaction_update(t: InteractionTemplate, req: CreateInteractionRequest) -> (r: Result<
    InteractionTemplate,
    ApiError,
>)
    ensures
        match r {
            Ok(n) => {
                &&& n.id == t.id
                &&& n.scene_id == t.scene_id
                &&& n.is_available == t.is_available
                &&& n.name == req.name
                &&& parsed_as(req.interaction_type@, n.interaction_type)
                &&& target_read(
                    req.target_type@,
                    opt_view(req.target_id),
                    opt_view(req.target_description),
                    Some(n.target),
                )
                &&& n.prompt_hints == req.prompt_hints
                &&& n.allowed_tools == req.allowed_tools
                &&& n.order == req.order
            },
            Err(e) => e.status == bad_request() && target_read(
                req.target_type@,
                opt_view(req.target_id),
                opt_view(req.target_description),
                None,
            ),
        },
{
    let interaction_type = parse_interaction_type(req.interaction_type.as_str());
    let target = match parse_target(
        req.target_type.as_str(),
        opt_str(&req.target_id),
        opt_str(&req.target_description),
    ) {
        Ok(x) => x,
        Err(e) => {
            return Err(e);
        },
    };
    Ok(
        InteractionTemplate {
            id: t.id,
            scene_id: t.scene_id,
            name: req.name,
            interaction_type,
            target,
            prompt_hints: req.prompt_hints,
            allowed_tools: req.allowed_tools,
            is_available: t.is_available,
            order: req.order,
        },
    )
}


/// Law: an environment target is shown by its own description, on a scene
/// change as after a travel; only a missing target shows nothing.
pub proof fn environment_target_shown_by_description(d: String, t: InteractionTarget)
    ensures
        scene_target_name(InteractionTarget::Environment(d)) == Some(d@),
        travel_target_name(InteractionTarget::Environment(d)) == Some(d@),
        scene_target_name(InteractionTarget::Environment(d)) == travel_target_name(
            InteractionTarget::Environment(d),
        ),
        scene_target_name(t) is None <==> t is NoTarget,
        travel_target_name(t) is None <==> t is NoTarget,
{
}

} // verus!
