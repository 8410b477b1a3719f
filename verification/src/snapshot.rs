//! The world snapshot sent to a player's client when it joins: the world,
//! its locations, characters and scenes written out as text, and the
//! scene being played.

use crate::ids::{uuid_text, uuid_to_string, WorldId};
use crate::interaction::{debug_str, str_debug};
use crate::world::{
    archetype_name, location_type_name, time_of_day_name, Character, Location, Scene,
    TimeContext, World,
};
use crate::prompt::find_first;
use crate::text::{append_str, concat_str, to_owned_string};
use vstd::prelude::*;

verus! {

/// The world's own data. Its rule system configuration (`C`) is the
/// world model's.
#[derive(Clone, Debug)]
pub struct WorldData<C> {
    pub id: String,
    pub name: String,
    pub description: String,
    pub rule_system: C,
}

/// A location as a player's client gets it.
#[derive(Clone, Debug)]
pub struct LocationData {
    pub id: String,
    pub name: String,
    pub description: String,
    pub location_type: String,
    pub backdrop_asset: Option<String>,
    pub parent_id: Option<String>,
}

/// A character as a player's client gets it.
#[derive(Clone, Debug)]
pub struct CharacterData {
    pub id: String,
    pub name: String,
    pub description: String,
    pub archetype: String,
    pub sprite_asset: Option<String>,
    pub portrait_asset: Option<String>,
    pub is_alive: bool,
    pub is_active: bool,
}

/// A scene as a player's client gets it.
#[derive(Clone, Debug)]
pub struct SceneData {
    pub id: String,
    pub name: String,
    pub location_id: String,
    pub time_context: String,
    pub backdrop_override: Option<String>,
    pub featured_characters: Vec<String>,
    pub directorial_notes: String,
}

/// The world as a player's client gets it on joining.
#[derive(Clone, Debug)]
pub struct PlayerWorldSnapshot<C> {
    pub world: WorldData<C>,
    pub locations: Vec<LocationData>,
    pub characters: Vec<CharacterData>,
    pub scenes: Vec<SceneData>,
    pub current_scene: Option<SceneData>,
}

/// What `{:?}` writes for a scene's time.
pub open spec fn time_context_debug(t: TimeContext) -> Seq<char> {
    match t {
        TimeContext::Unspecified => "Unspecified"@,
        TimeContext::TimeOfDay(d) => "TimeOfDay("@ + time_of_day_name(d) + ")"@,
        TimeContext::During(s) => "During("@ + str_debug(s@) + ")"@,
        TimeContext::Custom(s) => "Custom("@ + str_debug(s@) + ")"@,
    }
}

fn wrap(prefix: &str, inner: &str) -> (r: String)
    ensures
        r@ == prefix@ + inner@ + ")"@,
{
    let mut r = concat_str(prefix, inner);
    append_str(&mut r, ")");
    r
}

/// Writes a scene's time as `{:?}` does.
pub fn time_context_debug_text(t: &TimeContext) -> (r: String)
    ensures
        r@ == time_context_debug(*t),
{
    match t {
        TimeContext::Unspecified => to_owned_string("Unspecified"),
        TimeContext::TimeOfDay(d) => {
            let n = d.name();
            wrap("TimeOfDay(", n.as_str())
        },
        TimeContext::During(s) => {
            let q = debug_str(s.as_str());
            wrap("During(", q.as_str())
        },
        TimeContext::Custom(s) => {
            let q = debug_str(s.as_str());
            wrap("Custom(", q.as_str())
        },
    }
}

fn copy_option(o: &Option<String>) -> (r: Option<String>)
    ensures
        r == *o,
{
    match o {
        Some(s) => Some(s.clone()),
        None => None,
    }
}

/// `d` is location `l` written out.
pub open spec fn location_written(l: Location, d: LocationData) -> bool {
    &&& d.id@ == uuid_text(l.id)
    &&& d.name == l.name
    &&& d.description == l.description
    &&& d.location_type@ == location_type_name(l.location_type)
    &&& d.backdrop_asset == l.backdrop_asset
    &&& match l.parent_id {
        Some(p) => d.parent_id matches Some(t) && t@ == uuid_text(p),
        None => d.parent_id is None,
    }
}

/// `d` is character `c` written out.
pub open spec fn character_written(c: Character, d: CharacterData) -> bool {
    &&& d.id@ == uuid_text(c.id)
    &&& d.name == c.name
    &&& d.description == c.description
    &&& d.archetype@ == archetype_name(c.current_archetype)
    &&& d.sprite_asset == c.sprite_asset
    &&& d.portrait_asset == c.portrait_asset
    &&& d.is_alive == c.is_alive
    &&& d.is_active == c.is_active
}

/// `d` is scene `s` written out.
pub open spec fn scene_written(s: Scene, d: SceneData) -> bool {
    &&& d.id@ == uuid_text(s.id)
    &&& d.name == s.name
    &&& d.location_id@ == uuid_text(s.location_id)
    &&& d.time_context@ == time_context_debug(s.time_context)
    &&& d.backdrop_override == s.backdrop_override
    &&& d.featured_characters@.len() == s.featured_characters@.len()
    &&& forall|i: int|
        0 <= i < s.featured_characters@.len() ==> (#[trigger] d.featured_characters@[i])@
            == uuid_text(s.featured_characters@[i])
    &&& d.directorial_notes == s.directorial_notes
}

/// Writes out a location.
pub fn location_data(l: &Location) -> (d: LocationData)
    ensures
        location_written(*l, d),
{
    LocationData {
        id: uuid_to_string(l.id),
        name: l.name.clone(),
        description: l.description.clone(),
        location_type: l.location_type.name(),
        backdrop_asset: copy_option(&l.backdrop_asset),
        parent_id: match l.parent_id {
            Some(p) => Some(uuid_to_string(p)),
            None => None,
        },
    }
}

/// Writes out a character.
pub fn character_data(c: &Character) -> (d: CharacterData)
    ensures
        character_written(*c, d),
{
    CharacterData {
        id: uuid_to_string(c.id),
        name: c.name.clone(),
        description: c.description.clone(),
        archetype: c.current_archetype.name(),
        sprite_asset: copy_option(&c.sprite_asset),
        portrait_asset: copy_option(&c.portrait_asset),
        is_alive: c.is_alive,
        is_active: c.is_active,
    }
}

/// Writes out a scene.
pub fn scene_data(s: &Scene) -> (d: SceneData)
    ensures
        scene_written(*s, d),
{
    let mut featured: Vec<String> = Vec::new();
    let mut i: usize = 0;
    while i < s.featured_characters.len()
        invariant
            i <= s.featured_characters@.len(),
            featured@.len() == i,
            forall|j: int|
                0 <= j < i ==> (#[trigger] featured@[j])@ == uuid_text(s.featured_characters@[j]),
        decreases s.featured_characters@.len() - i,
    {
        featured.push(uuid_to_string(s.featured_characters[i]));
        i = i + 1;
    }
    SceneData {
        id: uuid_to_string(s.id),
        name: s.name.clone(),
        location_id: uuid_to_string(s.location_id),
        time_context: time_context_debug_text(&s.time_context),
        backdrop_override: copy_option(&s.backdrop_override),
        featured_characters: featured,
        directorial_notes: s.directorial_notes.clone(),
    }
}

fn find_scene_by_id<'a>(scenes: &'a Vec<Scene>, id: u128) -> (r: Option<&'a Scene>)
    ensures
        match r {
            Some(s) => find_first(scenes@, |s: Scene| s.id == id) == Some(*s),
            None => find_first(scenes@, |s: Scene| s.id == id) is None,
        },
{
    let ghost p = |s: Scene| s.id == id;
    let mut i: usize = 0;
    while i < scenes.len()
        invariant
            p == (|s: Scene| s.id == id),
            i <= scenes@.len(),
            find_first(scenes@, p) == crate::prompt::find_from(scenes@, p, i as int),
        decreases scenes@.len() - i,
    {
        if scenes[i].id == id {
            return Some(&scenes[i]);
        }
        i = i + 1;
    }
    None
}

/// `snap` is the world (with its rule system) with its locations,
/// characters and scenes written out in order, and the current scene (the
/// first scene with that ID) when one is named and found.
pub open spec fn snapshot_of<C>(
    world: World,
    rule_system: C,
    locations: Seq<Location>,
    characters: Seq<Character>,
    scenes: Seq<Scene>,
    current_scene_id: Option<u128>,
    snap: PlayerWorldSnapshot<C>,
) -> bool {
    &&& snap.world.id@ == uuid_text(world.id.0)
    &&& snap.world.rule_system == rule_system
    &&& snap.world.name == world.name
    &&& snap.world.description == world.description
    &&& snap.locations@.len() == locations.len()
    &&& forall|i: int|
        0 <= i < locations.len() ==> location_written(locations[i], #[trigger] snap.locations@[i])
    &&& snap.characters@.len() == characters.len()
    &&& forall|i: int|
        0 <= i < characters.len() ==> character_written(
            characters[i],
            #[trigger] snap.characters@[i],
        )
    &&& snap.scenes@.len() == scenes.len()
    &&& forall|i: int|
        0 <= i < scenes.len() ==> scene_written(scenes[i], #[trigger] snap.scenes@[i])
    &&& match current_scene_id {
        Some(id) => match find_first(scenes, |s: Scene| s.id == id) {
            Some(s) => snap.current_scene matches Some(d) && scene_written(s, d),
            None => snap.current_scene is None,
        },
        None => snap.current_scene is None,
    }
}

/// Writes out the world a player's client gets on joining, from what was
/// read of the world, its locations, its characters and the scenes of its
/// acts.
pub fn assemble_player_snapshot<C>(
    world: &World,
    rule_system: C,
    locations: &Vec<Location>,
    characters: &Vec<Character>,
    scenes: &Vec<Scene>,
    current_scene_id: Option<u128>,
) -> (snap: PlayerWorldSnapshot<C>)
    ensures
        snapshot_of(*world, rule_system, locations@, characters@, scenes@, current_scene_id, snap),
{
    let world_data = WorldData {
        id: world.id.to_string(),
        name: world.name.clone(),
        description: world.description.clone(),
        rule_system,
    };
    let mut ls: Vec<LocationData> = Vec::new();
    let mut i: usize = 0;
    while i < locations.len()
        invariant
            i <= locations@.len(),
            ls@.len() == i,
            forall|j: int| 0 <= j < i ==> location_written(locations@[j], #[trigger] ls@[j]),
        decreases locations@.len() - i,
    {
        ls.push(location_data(&locations[i]));
        i = i + 1;
    }
    let mut cs: Vec<CharacterData> = Vec::new();
    let mut i: usize = 0;
    while i < characters.len()
        invariant
            i <= characters@.len(),
            cs@.len() == i,
            forall|j: int| 0 <= j < i ==> character_written(characters@[j], #[trigger] cs@[j]),
        decreases characters@.len() - i,
    {
        cs.push(character_data(&characters[i]));
        i = i + 1;
    }
    let mut ss: Vec<SceneData> = Vec::new();
    let mut i: usize = 0;
    while i < scenes.len()
        invariant
            i <= scenes@.len(),
            ss@.len() == i,
            forall|j: int| 0 <= j < i ==> scene_written(scenes@[j], #[trigger] ss@[j]),
        decreases scenes@.len() - i,
    {
        ss.push(scene_data(&scenes[i]));
        i = i + 1;
    }
    let current_scene = match current_scene_id {
        Some(id) => match find_scene_by_id(scenes, id) {
            Some(sc) => Some(scene_data(sc)),
            None => None,
        },
        None => None,
    };
    PlayerWorldSnapshot {
        world: world_data,
        locations: ls,
        characters: cs,
        scenes: ss,
        current_scene,
    }
}

/// The scenes of a world's acts, act after act, each act's in its order.
pub open spec fn scenes_of_acts(acts: Seq<Vec<Scene>>) -> Seq<Scene>
    decreases acts.len(),
{
    if acts.len() == 0 {
        Seq::empty()
    } else {
        scenes_of_acts(acts.drop_last()) + acts.last()@
    }
}

/// Gathers the scenes of a world's acts, act after act.
fn gather_scenes(act_scenes: Vec<Vec<Scene>>) -> (r: Vec<Scene>)
    ensures
        r@ == scenes_of_acts(act_scenes@),
{
    let ghost all = act_scenes@;
    let n = act_scenes.len();
    let mut left = act_scenes;
    let mut r: Vec<Scene> = Vec::new();
    let mut k: usize = 0;
    while left.len() > 0
        invariant
            n == all.len(),
            k <= all.len(),
            left@ == all.subrange(k as int, all.len() as int),
            r@ == scenes_of_acts(all.take(k as int)),
        decreases left@.len(),
    {
        let mut act = left.remove(0);
        proof {
            assert(act == all[k as int]);
            assert(all.take(k + 1).drop_last() == all.take(k as int));
            assert(left@ == all.subrange(k + 1, all.len() as int));
        }
        r.append(&mut act);
        k = k + 1;
    }
    assert(all.take(k as int) == all);
    r
}

/// The text of the error for a world that was not found.
pub open spec fn world_not_found_text(world_id: u128) -> Seq<char> {
    "World not found: "@ + uuid_text(world_id)
}

/// The snapshot of the world `world_id` from what was read of it: the world
/// with its rule system (none where it was not found, which is the error
/// "World not found: " and its ID), its locations and characters, the
/// scenes of each of its acts (in the acts' order) and the current scene's
/// ID.
pub fn world_snapshot_from<C>(
    world_id: u128,
    world: Option<(World, C)>,
    locations: &Vec<Location>,
    characters: &Vec<Character>,
    act_scenes: Vec<Vec<Scene>>,
    current_scene_id: Option<u128>,
) -> (r: Result<PlayerWorldSnapshot<C>, String>)
    ensures
        match world {
            None => r matches Err(e) && e@ == world_not_found_text(world_id),
            Some((w, c)) => r matches Ok(snap) && snapshot_of(
                w,
                c,
                locations@,
                characters@,
                scenes_of_acts(act_scenes@),
                current_scene_id,
                snap,
            ),
        },
{
    match world {
        None => {
            let id = uuid_to_string(world_id);
            Err(concat_str("World not found: ", id.as_str()))
        },
        Some((w, c)) => {
            let scenes = gather_scenes(act_scenes);
            Ok(assemble_player_snapshot(&w, c, locations, characters, &scenes, current_scene_id))
        },
    }
}

/// The characters of `cs` that are active, in order.
pub open spec fn active_only(cs: Seq<CharacterData>) -> Seq<CharacterData>
    decreases cs.len(),
{
    if cs.len() == 0 {
        Seq::empty()
    } else if cs.last().is_active {
        active_only(cs.drop_last()).push(cs.last())
    } else {
        active_only(cs.drop_last())
    }
}

/// Options for the snapshot sent on joining: the world, the scene being
/// played, and whether inactive characters are sent too.
#[derive(Clone, Copy, Debug)]
pub struct WorldSnapshotBuilder {
    pub world_id: WorldId,
    pub current_scene_id: Option<u128>,
    pub include_inactive_characters: bool,
}

impl WorldSnapshotBuilder {
    /// Options for a world: no current scene, inactive characters left out.
    pub fn new(world_id: WorldId) -> (b: WorldSnapshotBuilder)
        ensures
            b.world_id == world_id,
            b.current_scene_id is None,
            !b.include_inactive_characters,
    {
        WorldSnapshotBuilder { world_id, current_scene_id: None, include_inactive_characters: false }
    }

    /// Names the scene being played.
    pub fn with_current_scene(self, scene_id: u128) -> (b: WorldSnapshotBuilder)
        ensures
            b.world_id == self.world_id,
            b.current_scene_id == Some(scene_id),
            b.include_inactive_characters == self.include_inactive_characters,
    {
        WorldSnapshotBuilder { current_scene_id: Some(scene_id), ..self }
    }

    /// Sends inactive characters too.
    pub fn include_inactive_characters(self) -> (b: WorldSnapshotBuilder)
        ensures
            b.world_id == self.world_id,
            b.current_scene_id == self.current_scene_id,
            b.include_inactive_characters,
    {
        WorldSnapshotBuilder { include_inactive_characters: true, ..self }
    }

    /// Finishes a snapshot assembled for these options: unless inactive
    /// characters are asked for, only the active ones stay, in order.
    pub fn finish<C>(&self, snapshot: PlayerWorldSnapshot<C>) -> (r: PlayerWorldSnapshot<C>)
        ensures
            r.world == snapshot.world,
            r.locations == snapshot.locations,
            r.scenes == snapshot.scenes,
            r.current_scene == snapshot.current_scene,
            r.characters@ == (if self.include_inactive_characters {
                snapshot.characters@
            } else {
                active_only(snapshot.characters@)
            }),
    {
        if self.include_inactive_characters {
            return snapshot;
        }
        let PlayerWorldSnapshot { world, locations, characters, scenes, current_scene } = snapshot;
        let mut kept: Vec<CharacterData> = Vec::new();
        let mut rest = characters;
        let ghost all = rest@;
        let mut i: usize = 0;
        let n = rest.len();
        while rest.len() > 0
            invariant
                n == all.len(),
                i + rest@.len() == n,
                rest@ == all.skip(i as int),
                kept@ == active_only(all.take(i as int)),
            decreases rest@.len(),
        {
            let c = rest.remove(0);
            proof {
                assert(c == all[i as int]);
                assert(all.take(i + 1).drop_last() == all.take(i as int));
                assert(rest@ == all.skip(i + 1));
            }
            if c.is_active {
                kept.push(c);
            }
            i = i + 1;
        }
        assert(all.take(n as int) == all);
        PlayerWorldSnapshot { world, locations, characters: kept, scenes, current_scene }
    }
}


/// Law: writing out a location keeps its place in the hierarchy: it has a
/// parent in the snapshot exactly when it has one, named by the parent's
/// UUID text.
pub proof fn location_keeps_parent(l: Location, d: LocationData)
    requires
        location_written(l, d),
    ensures
        d.parent_id is Some <==> l.parent_id is Some,
        l.parent_id matches Some(p) ==> d.parent_id->0@ == uuid_text(p),
{
}

} // verus!
