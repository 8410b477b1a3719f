//! The HTTP API's requests on the non-player characters of a world: what
//! the character service is asked to create or change.

use crate::api::{bad_request, parse_id, ApiError};
use crate::ids::uuid_parsed;
use crate::location::{non_empty, non_empty_exec};
use crate::world::{archetype_from, parse_archetype, CampbellArchetype};
use vstd::prelude::*;

verus! {

/// Body of a request creating or changing a character.
#[derive(Clone, Debug)]
pub struct CreateCharacterRequestDto {
    pub name: String,
    /// An empty description is none.
    pub description: String,
    /// The archetype's name, read as stored names are (an unknown one is
    /// `Ally`).
    pub archetype: String,
    pub sprite_asset: Option<String>,
    pub portrait_asset: Option<String>,
}

/// A character to create, as the character service takes it (no stats).
#[derive(Clone, Debug)]
pub struct NewCharacter {
    pub world_id: u128,
    pub name: String,
    pub description: Option<String>,
    pub archetype: CampbellArchetype,
    pub sprite_asset: Option<String>,
    pub portrait_asset: Option<String>,
    pub wants: Vec<String>,
}

/// Changes to a character, as the character service takes them; what is
/// absent stays.
#[derive(Clone, Debug)]
pub struct CharacterChanges {
    pub name: Option<String>,
    pub description: Option<String>,
    pub sprite_asset: Option<String>,
    pub portrait_asset: Option<String>,
    pub is_alive: Option<bool>,
    pub is_active: Option<bool>,
}

/// Body of a request changing a character's archetype.
#[derive(Clone, Debug)]
pub struct ChangeArchetypeRequestDto {
    pub archetype: String,
    pub reason: String,
}

/// An archetype change, as the character service takes it.
#[derive(Clone, Debug)]
pub struct ArchetypeChange {
    pub new_archetype: CampbellArchetype,
    pub reason: String,
}

/// The character a creation request asks for in the world `world_id`
/// ("Invalid world ID" where it is no UUID); it starts with no wants.
pub fn new_character(world_id: &str, req: CreateCharacterRequestDto) -> (r: Result<
    NewCharacter,
    ApiError,
>)
    ensures
        match uuid_parsed(world_id@) {
            None => r matches Err(e) && e.status == bad_request() && e.message@
                == "Invalid world ID"@,
            Some(w) => r matches Ok(c) && c.world_id == w && c.name == req.name && c.description
                == non_empty(req.description) && c.archetype == archetype_from(req.archetype@)
                && c.sprite_asset == req.sprite_asset && c.portrait_asset == req.portrait_asset
                && c.wants@.len() == 0,
        },
{
    let w = match parse_id(world_id, "Invalid world ID") {
        Ok(v) => v,
        Err(e) => {
            return Err(e);
        },
    };
    let archetype = parse_archetype(req.archetype.as_str());
    Ok(
        NewCharacter {
            world_id: w,
            name: req.name,
            description: non_empty_exec(req.description),
            archetype,
            sprite_asset: req.sprite_asset,
            portrait_asset: req.portrait_asset,
            wants: Vec::new(),
        },
    )
}

/// The character and the changes a change request asks for ("Invalid
/// character ID" where the ID is no UUID): the name is always set, the
/// description where it is not empty, the assets as given; whether the
/// character is alive or active stays.
pub fn character_changes(id: &str, req: CreateCharacterRequestDto) -> (r: Result<
    (u128, CharacterChanges),
    ApiError,
>)
    ensures
        match uuid_parsed(id@) {
            None => r matches Err(e) && e.status == bad_request() && e.message@
                == "Invalid character ID"@,
            Some(c) => r matches Ok((v, ch)) && v == c && ch.name == Some(req.name)
                && ch.description == non_empty(req.description) && ch.sprite_asset
                == req.sprite_asset && ch.portrait_asset == req.portrait_asset
                && ch.is_alive is None && ch.is_active is None,
        },
{
    let c = match parse_id(id, "Invalid character ID") {
        Ok(v) => v,
        Err(e) => {
            return Err(e);
        },
    };
    Ok(
        (
            c,
            CharacterChanges {
                name: Some(req.name),
                description: non_empty_exec(req.description),
                sprite_asset: req.sprite_asset,
                portrait_asset: req.portrait_asset,
                is_alive: None,
                is_active: None,
            },
        ),
    )
}

/// The character and the archetype change a request asks for ("Invalid
/// character ID" where the ID is no UUID; the archetype is read as stored
/// names are).
pub fn archetype_change(id: &str, req: ChangeArchetypeRequestDto) -> (r: Result<
    (u128, ArchetypeChange),
    ApiError,
>)
    ensures
        match uuid_parsed(id@) {
            None => r matches Err(e) && e.status == bad_request() && e.message@
                == "Invalid character ID"@,
            Some(c) => r matches Ok((v, ch)) && v == c && ch.new_archetype == archetype_from(
                req.archetype@,
            ) && ch.reason == req.reason,
        },
{
    let c = match parse_id(id, "Invalid character ID") {
        Ok(v) => v,
        Err(e) => {
            return Err(e);
        },
    };
    let new_archetype = parse_archetype(req.archetype.as_str());
    Ok((c, ArchetypeChange { new_archetype, reason: req.reason }))
}

} // verus!
