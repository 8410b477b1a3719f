//! Skills of a world: the API's requests and answers, and the check that a
//! skill changed through a world belongs to it. A skill's category is the
//! world model's; here it is a type parameter.

use crate::api::{forbidden, not_found, parse_id, bad_request, ApiError};
use crate::ids::{uuid_parsed, uuid_text, uuid_to_string};
use crate::text::to_owned_string;
use vstd::prelude::*;

verus! {

/// Body of a request creating a custom skill.
#[derive(Clone, Debug)]
pub struct CreateSkillRequest<K> {
    pub name: String,
    pub description: String,
    pub category: K,
    pub base_attribute: Option<String>,
}

/// Body of a request changing a skill; what is absent stays.
#[derive(Clone, Debug)]
pub struct UpdateSkillRequest<K> {
    pub name: Option<String>,
    pub description: Option<String>,
    pub category: Option<K>,
    pub base_attribute: Option<String>,
    pub is_hidden: Option<bool>,
    pub order: Option<u32>,
}

/// A skill of a world.
#[derive(Clone, Debug)]
pub struct Skill<K> {
    pub id: u128,
    pub world_id: u128,
    pub name: String,
    pub description: String,
    pub category: K,
    pub base_attribute: Option<String>,
    pub is_custom: bool,
    pub is_hidden: bool,
    pub order: u32,
}

/// The answer for a skill.
#[derive(Clone, Debug)]
pub struct SkillResponse<K> {
    pub id: String,
    pub world_id: String,
    pub name: String,
    pub description: String,
    pub category: K,
    pub base_attribute: Option<String>,
    pub is_custom: bool,
    pub is_hidden: bool,
    pub order: u32,
}

impl<K> SkillResponse<K> {
    /// The answer for a skill: its IDs written as UUIDs, the rest as it is.
    pub fn from_skill(skill: Skill<K>) -> (r: SkillResponse<K>)
        ensures
            r.id@ == uuid_text(skill.id),
            r.world_id@ == uuid_text(skill.world_id),
            r.name == skill.name,
            r.description == skill.description,
            r.category == skill.category,
            r.base_attribute == skill.base_attribute,
            r.is_custom == skill.is_custom,
            r.is_hidden == skill.is_hidden,
            r.order == skill.order,
    {
        SkillResponse {
            id: uuid_to_string(skill.id),
            world_id: uuid_to_string(skill.world_id),
            name: skill.name,
            description: skill.description,
            category: skill.category,
            base_attribute: skill.base_attribute,
            is_custom: skill.is_custom,
            is_hidden: skill.is_hidden,
            order: skill.order,
        }
    }
}

/// The world and skill IDs of a request on one skill of a world: "Invalid
/// world ID" is checked first, then "Invalid skill ID".
pub fn skill_ids(world_id: &str, skill_id: &str) -> (r: Result<(u128, u128), ApiError>)
    ensures
        match (uuid_parsed(world_id@), uuid_parsed(skill_id@)) {
            (Some(w), Some(s)) => r == Ok::<(u128, u128), ApiError>((w, s)),
            (None, _) => r matches Err(e) && e.status == bad_request() && e.message@
                == "Invalid world ID"@,
            (Some(_), None) => r matches Err(e) && e.status == bad_request() && e.message@
                == "Invalid skill ID"@,
        },
{
    let w = match parse_id(world_id, "Invalid world ID") {
        Ok(v) => v,
        Err(e) => {
            return Err(e);
        },
    };
    let s = match parse_id(skill_id, "Invalid skill ID") {
        Ok(v) => v,
        Err(e) => {
            return Err(e);
        },
    };
    Ok((w, s))
}

/// A skill is changed or deleted through a world only when it was found
/// ("Not Found": "Skill not found") and belongs to that world
/// ("Forbidden": "Skill does not belong to this world").
pub fn owned_skill<K>(world: u128, found: Option<Skill<K>>) -> (r: Result<Skill<K>, ApiError>)
    ensures
        match found {
            None => r matches Err(e) && e.status == not_found() && e.message@ == "Skill not found"@,
            Some(s) => if s.world_id == world {
                r == Ok::<Skill<K>, ApiError>(s)
            } else {
                r matches Err(e) && e.status == forbidden() && e.message@
                    == "Skill does not belong to this world"@
            },
        },
{
    match found {
        None => Err(ApiError::not_found("Skill not found")),
        Some(s) => {
            if s.world_id == world {
                Ok(s)
            } else {
                Err(
                    ApiError {
                        status: 403,
                        message: to_owned_string("Skill does not belong to this world"),
                    },
                )
            }
        },
    }
}

} // verus!
