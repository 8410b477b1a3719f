//! The world snapshot a client gets on joining a session, in the shape it
//! is sent as JSON: IDs as UUID text, kinds by name.

use crate::ids::{uuid_text, uuid_to_string};
use crate::session::WorldSnapshot;
use crate::world::{archetype_name, location_type_name, Character, Location, Scene};
use vstd::prelude::*;

verus! {

/// The world's part of the JSON snapshot.
#[derive(Clone, Debug)]
pub struct WorldJson {
    pub id: String,
    pub name: String,
    pub description: String,
}

/// A location in the JSON snapshot.
#[derive(Clone, Debug)]
pub struct LocationJson {
    pub id: String,
    pub name: String,
    pub description: String,
    pub backdrop_asset: Option<String>,
    pub location_type: String,
}

/// A character in the JSON snapshot.
#[derive(Clone, Debug)]
pub struct CharacterJson {
    pub id: String,
    pub name: String,
    pub description: String,
    pub sprite_asset: Option<String>,
    pub portrait_asset: Option<String>,
    pub archetype: String,
}

/// A scene in the JSON snapshot.
#[derive(Clone, Debug)]
pub struct SceneJson {
    pub id: String,
    pub name: String,
    pub location_id: String,
    pub directorial_notes: String,
}

/// The JSON snapshot of a session's world.
#[derive(Clone, Debug)]
pub struct SnapshotJson {
    pub world: WorldJson,
    pub locations: Vec<LocationJson>,
    pub characters: Vec<CharacterJson>,
    pub scenes: Vec<SceneJson>,
    pub current_scene_id: Option<String>,
}

/// `j` is location `l` in the JSON snapshot.
pub open spec fn location_json(l: Location, j: LocationJson) -> bool {
    &&& j.id@ == uuid_text(l.id)
    &&& j.name == l.name
    &&& j.description == l.description
    &&& j.backdrop_asset == l.backdrop_asset
    &&& j.location_type@ == location_type_name(l.location_type)
}

/// `j` is character `c` in the JSON snapshot.
pub open spec fn character_json(c: Character, j: CharacterJson) -> bool {
    &&& j.id@ == uuid_text(c.id)
    &&& j.name == c.name
    &&& j.description == c.description
    &&& j.sprite_asset == c.sprite_asset
    &&& j.portrait_asset == c.portrait_asset
    &&& j.archetype@ == archetype_name(c.current_archetype)
}

/// `j` is scene `s` in the JSON snapshot.
pub open spec fn scene_json(s: Scene, j: SceneJson) -> bool {
    &&& j.id@ == uuid_text(s.id)
    &&& j.name == s.name
    &&& j.location_id@ == uuid_text(s.location_id)
    &&& j.directorial_notes == s.directorial_notes
}

fn copy_option(o: &Option<String>) -> (r: Option<String>)
    ensures
        r == *o,
{
    match o {
        Some(s) => Some(s.clone()),
        None => None,
    }
}

impl WorldSnapshot {
    /// The snapshot in the shape it is sent as JSON: the world, then each
    /// location, character and scene in order, and the current scene's ID.
    pub fn to_json(&self) -> (j: SnapshotJson)
        ensures
            j.world.id@ == uuid_text(self.world.id.0),
            j.world.name == self.world.name,
            j.world.description == self.world.description,
            j.locations@.len() == self.locations@.len(),
            forall|i: int|
                0 <= i < self.locations@.len() ==> location_json(
                    self.locations@[i],
                    #[trigger] j.locations@[i],
                ),
            j.characters@.len() == self.characters@.len(),
            forall|i: int|
                0 <= i < self.characters@.len() ==> character_json(
                    self.characters@[i],
                    #[trigger] j.characters@[i],
                ),
            j.scenes@.len() == self.scenes@.len(),
            forall|i: int|
                0 <= i < self.scenes@.len() ==> scene_json(self.scenes@[i], #[trigger] j.scenes@[i]),
            j.current_scene_id == self.current_scene_id,
    {
        let mut locations: Vec<LocationJson> = Vec::new();
        let mut i: usize = 0;
        while i < self.locations.len()
            invariant
                i <= self.locations@.len(),
                locations@.len() == i,
                forall|k: int|
                    0 <= k < i ==> location_json(self.locations@[k], #[trigger] locations@[k]),
            decreases self.locations@.len() - i,
        {
            let l = &self.locations[i];
            locations.push(
                LocationJson {
                    id: uuid_to_string(l.id),
                    name: l.name.clone(),
                    description: l.description.clone(),
                    backdrop_asset: copy_option(&l.backdrop_asset),
                    location_type: l.location_type.name(),
                },
            );
            i = i + 1;
        }
        let mut characters: Vec<CharacterJson> = Vec::new();
        let mut i: usize = 0;
        while i < self.characters.len()
            invariant
                i <= self.characters@.len(),
                characters@.len() == i,
                forall|k: int|
                    0 <= k < i ==> character_json(self.characters@[k], #[trigger] characters@[k]),
            decreases self.characters@.len() - i,
        {
            let c = &self.characters[i];
            characters.push(
                CharacterJson {
                    id: uuid_to_string(c.id),
                    name: c.name.clone(),
                    description: c.description.clone(),
                    sprite_asset: copy_option(&c.sprite_asset),
                    portrait_asset: copy_option(&c.portrait_asset),
                    archetype: c.current_archetype.name(),
                },
            );
            i = i + 1;
        }
        let mut scenes: Vec<SceneJson> = Vec::new();
        let mut i: usize = 0;
        while i < self.scenes.len()
            invariant
                i <= self.scenes@.len(),
                scenes@.len() == i,
                forall|k: int| 0 <= k < i ==> scene_json(self.scenes@[k], #[trigger] scenes@[k]),
            decreases self.scenes@.len() - i,
        {
            let s = &self.scenes[i];
            scenes.push(
                SceneJson {
                    id: uuid_to_string(s.id),
                    name: s.name.clone(),
                    location_id: uuid_to_string(s.location_id),
                    directorial_notes: s.directorial_notes.clone(),
                },
            );
            i = i + 1;
        }
        SnapshotJson {
            world: WorldJson {
                id: self.world.id.to_string(),
                name: self.world.name.clone(),
                description: self.world.description.clone(),
            },
            locations,
            characters,
            scenes,
            current_scene_id: copy_option(&self.current_scene_id),
        }
    }
}

} // verus!
