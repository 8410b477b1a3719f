//! The HTTP API's requests and answers for worlds. A world's rule system
//! configuration is the world model's; here it is a type parameter.

use crate::api::{bad_request, parse_id, ApiError};
use crate::ids::{uuid_parsed, uuid_text, uuid_to_string};
use crate::kinds::{RuleSystemInput, RuleSystemVariant};
use crate::world::World;
use vstd::prelude::*;

verus! {

/// Body of a request creating a world.
#[derive(Clone, Debug)]
pub struct CreateWorldRequest<C> {
    pub name: String,
    pub description: String,
    /// A preset or a full configuration; none leaves the service's default.
    pub rule_system: Option<RuleSystemInput<C>>,
}

/// Body of a request changing a world: all three are set.
#[derive(Clone, Debug)]
pub struct UpdateWorldRequest<C> {
    pub name: String,
    pub description: String,
    pub rule_system: C,
}

/// The answer for a world.
#[derive(Clone, Debug)]
pub struct WorldResponse<C> {
    pub id: String,
    pub name: String,
    pub description: String,
    pub rule_system: C,
    pub created_at: String,
    pub updated_at: String,
}

/// A world to create, as the world service takes it.
#[derive(Clone, Debug)]
pub struct NewWorld<C> {
    pub name: String,
    pub description: String,
    pub rule_system: Option<C>,
}

/// Changes to a world, as the world service takes them; what is absent
/// stays.
#[derive(Clone, Debug)]
pub struct WorldChanges<C> {
    pub name: Option<String>,
    pub description: Option<String>,
    pub rule_system: Option<C>,
}

/// The world that a creation request asks for; a preset is expanded to
/// its full configuration by `preset`.
pub fn new_world<C, F: Fn(RuleSystemVariant) -> C>(req: CreateWorldRequest<C>, preset: F) -> (r:
    NewWorld<C>)
    requires
        forall|v: RuleSystemVariant| preset.requires((v,)),
    ensures
        r.name == req.name,
        r.description == req.description,
        match req.rule_system {
            None => r.rule_system is None,
            Some(RuleSystemInput::VariantOnly { variant }) => r.rule_system matches Some(c)
                && preset.ensures((variant,), c),
            Some(RuleSystemInput::Full(c)) => r.rule_system == Some(c),
        },
{
    let rule_system = match req.rule_system {
        None => None,
        Some(input) => Some(input.into_config(preset)),
    };
    NewWorld { name: req.name, description: req.description, rule_system }
}

/// The world and the changes a change request asks for: the ID must be a
/// UUID ("Invalid world ID"), and the name, description and rule system
/// are all set.
pub fn world_changes<C>(id: &str, req: UpdateWorldRequest<C>) -> (r: Result<
    (u128, WorldChanges<C>),
    ApiError,
>)
    ensures
        match uuid_parsed(id@) {
            None => r matches Err(e) && e.status == bad_request() && e.message@
                == "Invalid world ID"@,
            Some(w) => r matches Ok((v, c)) && v == w && c.name == Some(req.name) && c.description
                == Some(req.description) && c.rule_system == Some(req.rule_system),
        },
{
    let w = match parse_id(id, "Invalid world ID") {
        Ok(v) => v,
        Err(e) => {
            return Err(e);
        },
    };
    Ok(
        (
            w,
            WorldChanges {
                name: Some(req.name),
                description: Some(req.description),
                rule_system: Some(req.rule_system),
            },
        ),
    )
}

impl<C> WorldResponse<C> {
    /// The answer for a world with its rule system and its timestamps
    /// (RFC 3339 texts).
    pub fn from_world(world: World, rule_system: C, created_at: String, updated_at: String) -> (r:
        WorldResponse<C>)
        ensures
            r.id@ == uuid_text(world.id.0),
            r.name == world.name,
            r.description == world.description,
            r.rule_system == rule_system,
            r.created_at == created_at,
            r.updated_at == updated_at,
    {
        WorldResponse {
            id: uuid_to_string(world.id.0),
            name: world.name,
            description: world.description,
            rule_system,
            created_at,
            updated_at,
        }
    }
}

} // verus!
