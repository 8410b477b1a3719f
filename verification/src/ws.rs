//! The decisions the WebSocket handler makes on a client's message: which
//! error a request gets, who may approve, what a scene update holds, and
//! how a regenerated outcome reads.

use crate::ids::{parse_uuid, uuid_parsed, uuid_text, uuid_to_string, ClientId, SessionId};
use crate::interaction::{
    InteractionTemplate, interaction_type_debug, opt_view, scene_target_name, travel_target_name, InteractionTarget,
    InteractionType,
};
use crate::roles::{
    canonical_to_wire_role, wire_role, SessionParticipantRole,
    client_participant, client_session_participants, client_session_spec, get_client_session,
    get_client_user_id, is_client_dm,
};
use crate::session::{first_dm_index, ParticipantRole, SessionManager};
use crate::text::{append_str, concat_str, str_eq, to_owned_string, trim, trim_spec};
use crate::world::{time_context_text, Character, Location, Scene};
use vstd::prelude::*;

verus! {

/// An error sent to a client: a machine-readable code and a message.
#[derive(Clone, Debug)]
pub struct WsError {
    pub code: String,
    pub message: String,
}

/// `e` has the given code and message.
pub open spec fn ws_error_is(e: WsError, code: Seq<char>, message: Seq<char>) -> bool {
    e.code@ == code && e.message@ == message
}

fn ws_error(code: &str, message: &str) -> (e: WsError)
    ensures
        ws_error_is(e, code@, message@),
{
    WsError { code: to_owned_string(code), message: to_owned_string(message) }
}

/// Where a travel action goes. `None` for an action that is no travel;
/// a travel without a target, or with one that is no UUID, is an error.
pub fn travel_destination(action_type: &str, target: &Option<String>) -> (r: Option<
    Result<u128, WsError>,
>)
    ensures
        action_type@ != "travel"@ ==> r is None,
        action_type@ == "travel"@ ==> match target {
            None => r matches Some(Err(e)) && ws_error_is(
                e,
                "MISSING_TARGET"@,
                "Travel action requires a target location"@,
            ),
            Some(t) => match uuid_parsed(t@) {
                Some(v) => r matches Some(Ok(w)) && w == v,
                None => r matches Some(Err(e)) && ws_error_is(
                    e,
                    "INVALID_LOCATION_ID"@,
                    "Invalid location ID format"@,
                ),
            },
        },
{
    if !str_eq(action_type, "travel") {
        return None;
    }
    match target {
        None => Some(
            Err(ws_error("MISSING_TARGET", "Travel action requires a target location")),
        ),
        Some(t) => match parse_uuid(t.as_str()) {
            Some(v) => Some(Ok(v)),
            None => Some(Err(ws_error("INVALID_LOCATION_ID", "Invalid location ID format"))),
        },
    }
}

/// The session and player of a client that sends an action. A client in
/// no session gets `NOT_IN_SESSION`; a player whose user ID is unknown is
/// named "unknown".
pub fn action_sender(m: &SessionManager, client_id: ClientId) -> (r: Result<
    (SessionId, String),
    WsError,
>)
    ensures
        ({
            let t = uuid_text(client_id.0);
            match client_session_spec(*m, t) {
                None => r matches Err(e) && ws_error_is(
                    e,
                    "NOT_IN_SESSION"@,
                    "You must join a session before performing actions"@,
                ),
                Some(s) => r matches Ok((sid, player)) && sid == SessionId(s) && player@ == (
                match client_participant(*m, t) {
                    Some(p) => p.user_id@,
                    None => "unknown"@,
                }),
            }
        }),
{
    let text = client_id.to_string();
    let sid = match get_client_session(m, text.as_str()) {
        Some(s) => s,
        None => {
            return Err(
                ws_error("NOT_IN_SESSION", "You must join a session before performing actions"),
            );
        },
    };
    let player = match get_client_user_id(m, text.as_str()) {
        Some(u) => u,
        None => to_owned_string("unknown"),
    };
    Ok((sid, player))
}

/// Reads the scene a client asks to change to; a text that is no UUID is
/// `INVALID_SCENE_ID`.
pub fn scene_change_target(scene_id: &str) -> (r: Result<u128, WsError>)
    ensures
        match uuid_parsed(scene_id@) {
            Some(v) => r matches Ok(w) && w == v,
            None => r matches Err(e) && ws_error_is(
                e,
                "INVALID_SCENE_ID"@,
                "Invalid scene ID format"@,
            ),
        },
{
    match parse_uuid(scene_id) {
        Some(v) => Ok(v),
        None => Err(ws_error("INVALID_SCENE_ID", "Invalid scene ID format")),
    }
}

/// The session of a client that asks for a scene change; `NOT_IN_SESSION`
/// when it is in none.
pub fn scene_change_session(m: &SessionManager, client_id: ClientId) -> (r: Result<
    SessionId,
    WsError,
>)
    ensures
        match client_session_spec(*m, uuid_text(client_id.0)) {
            Some(s) => r matches Ok(sid) && sid == SessionId(s),
            None => r matches Err(e) && ws_error_is(
                e,
                "NOT_IN_SESSION"@,
                "You must join a session before requesting scene changes"@,
            ),
        },
{
    let text = client_id.to_string();
    match get_client_session(m, text.as_str()) {
        Some(s) => Ok(s),
        None => Err(
            ws_error(
                "NOT_IN_SESSION",
                "You must join a session before requesting scene changes",
            ),
        ),
    }
}

/// The error for a scene that does not exist.
pub fn scene_not_found(scene_id: &str) -> (e: WsError)
    ensures
        ws_error_is(e, "SCENE_NOT_FOUND"@, "Scene "@ + scene_id@ + " not found"@),
{
    let mut message = to_owned_string("Scene ");
    append_str(&mut message, scene_id);
    append_str(&mut message, " not found");
    WsError { code: to_owned_string("SCENE_NOT_FOUND"), message }
}

/// The client's session and user ID when it may decide on approvals: it
/// must be in a session and be that session's dungeon master; anybody
/// else gets `NOT_AUTHORIZED`.
pub fn authorize_approval(m: &SessionManager, client_id: ClientId) -> (r: Result<
    (SessionId, String),
    WsError,
>)
    ensures
        ({
            let t = uuid_text(client_id.0);
            let is_dm = match client_session_participants(*m, t) {
                Some(ps) => exists|i: int|
                    first_dm_index(ps, i) && Some(#[trigger] ps[i].client_id.0) == uuid_parsed(t),
                None => false,
            };
            if is_dm && client_session_spec(*m, t) is Some && client_participant(*m, t) is Some {
                r matches Ok((sid, user)) && sid == SessionId(client_session_spec(*m, t)->0)
                    && user == client_participant(*m, t)->0.user_id
            } else {
                r matches Err(e) && ws_error_is(
                    e,
                    "NOT_AUTHORIZED"@,
                    "Only the DM can approve responses"@,
                )
            }
        }),
{
    let text = client_id.to_string();
    let session = get_client_session(m, text.as_str());
    let is_dm = is_client_dm(m, text.as_str());
    let dm_id = if is_dm {
        get_client_user_id(m, text.as_str())
    } else {
        None
    };
    match (session, dm_id) {
        (Some(s), Some(u)) => Ok((s, u)),
        _ => Err(ws_error("NOT_AUTHORIZED", "Only the DM can approve responses")),
    }
}

/// The outcome the dungeon master asked to regenerate. Its proposed tool
/// calls (`T` is the message's kind of tool) are none.
#[derive(Clone, Debug)]
pub struct OutcomeDetailData<T> {
    pub flavor_text: String,
    pub scene_direction: String,
    pub proposed_tools: Vec<T>,
}

/// The flavor text of a regenerated outcome: the proposed dialogue
/// (trimmed) marked as regenerated, or a note that no approval was found;
/// followed by the dungeon master's guidance (trimmed) unless it is blank.
pub open spec fn regenerated_flavor(dialogue: Option<Seq<char>>, guidance: Option<Seq<char>>) -> Seq<
    char,
> {
    let base = match dialogue {
        Some(d) => trim_spec(d) + " (regenerated)"@,
        None => "Regenerated outcome (no approval context found)"@,
    };
    match guidance {
        Some(g) => if trim_spec(g).len() == 0 {
            base
        } else {
            base + " — Guidance: "@ + trim_spec(g)
        },
        None => base,
    }
}

/// The regenerated outcome answered to the dungeon master, with the
/// outcome type it is for ("all" when none was named).
pub fn regenerate_outcome<T>(
    proposed_dialogue: Option<&str>,
    guidance: Option<&str>,
    outcome_type: Option<String>,
) -> (r: (String, OutcomeDetailData<T>))
    ensures
        r.0@ == (match outcome_type {
            Some(t) => t@,
            None => "all"@,
        }),
        r.1.flavor_text@ == regenerated_flavor(
            match proposed_dialogue {
                Some(d) => Some(d@),
                None => None,
            },
            match guidance {
                Some(g) => Some(g@),
                None => None,
            },
        ),
        r.1.scene_direction@ == "DM: narrate this regenerated outcome to the table."@,
        r.1.proposed_tools@.len() == 0,
{
    let base = match proposed_dialogue {
        Some(d) => {
            let t = trim(d);
            concat_str(t.as_str(), " (regenerated)")
        },
        None => to_owned_string("Regenerated outcome (no approval context found)"),
    };
    let flavor_text = match guidance {
        Some(g) => {
            let t = trim(g);
            if t.unicode_len() == 0 {
                base
            } else {
                let mut f = base;
                append_str(&mut f, " — Guidance: ");
                append_str(&mut f, t.as_str());
                f
            }
        },
        None => base,
    };
    let kind = match outcome_type {
        Some(t) => t,
        None => to_owned_string("all"),
    };
    (
        kind,
        OutcomeDetailData {
            flavor_text,
            scene_direction: to_owned_string("DM: narrate this regenerated outcome to the table."),
            proposed_tools: Vec::new(),
        },
    )
}

/// A scene as a scene update shows it.
#[derive(Clone, Debug)]
pub struct SceneData {
    pub id: String,
    pub name: String,
    pub location_id: String,
    pub location_name: String,
    pub backdrop_asset: Option<String>,
    pub time_context: String,
    pub directorial_notes: String,
}

/// Where a character stands on screen. Of the places a client knows, the
/// handler uses the centre alone.
#[derive(Clone, Copy, Debug, PartialEq, Eq, Structural)]
pub enum CharacterPosition {
    Center,
}

/// A featured character as a scene update shows it.
#[derive(Clone, Debug)]
pub struct CharacterData {
    pub id: String,
    pub name: String,
    pub sprite_asset: Option<String>,
    pub portrait_asset: Option<String>,
    pub position: CharacterPosition,
    pub is_speaking: bool,
}

/// An interaction as a scene update shows it.
#[derive(Clone, Debug)]
pub struct InteractionData {
    pub id: String,
    pub name: String,
    pub target_name: Option<String>,
    pub interaction_type: String,
    pub is_available: bool,
}

/// The content of a scene update.
#[derive(Clone, Debug)]
pub struct SceneUpdate {
    pub scene: SceneData,
    pub characters: Vec<CharacterData>,
    pub interactions: Vec<InteractionData>,
}

/// The backdrop a scene shows: its own, else its location's.
pub open spec fn scene_backdrop(scene: Scene, location: Location) -> Option<String> {
    match scene.backdrop_override {
        Some(b) => Some(b),
        None => location.backdrop_asset,
    }
}

fn copy_option(o: &Option<String>) -> (r: Option<String>)
    ensures
        r == *o,
{
    match o {
        Some(s) => Some(s.clone()),
        None => None,
    }
}

/// Builds a scene update for a scene, its location, its featured
/// characters and its interactions. After a travel, character and item
/// targets are named with their IDs; on a scene change, by their kind alone.
pub fn scene_update(
    scene: &Scene,
    location: &Location,
    featured: &Vec<Character>,
    interactions: &Vec<InteractionTemplate>,
    after_travel: bool,
) -> (u: SceneUpdate)
    ensures
        u.scene.id@ == uuid_text(scene.id),
        u.scene.name == scene.name,
        u.scene.location_id@ == uuid_text(scene.location_id),
        u.scene.location_name == location.name,
        u.scene.backdrop_asset == scene_backdrop(*scene, *location),
        u.scene.time_context@ == time_context_text(scene.time_context),
        u.scene.directorial_notes == scene.directorial_notes,
        u.characters@.len() == featured@.len(),
        forall|i: int|
            0 <= i < featured@.len() ==> {
                &&& (#[trigger] u.characters@[i]).id@ == uuid_text(featured@[i].id)
                &&& u.characters@[i].name == featured@[i].name
                &&& u.characters@[i].sprite_asset == featured@[i].sprite_asset
                &&& u.characters@[i].portrait_asset == featured@[i].portrait_asset
                &&& u.characters@[i].position == CharacterPosition::Center
                &&& !u.characters@[i].is_speaking
            },
        u.interactions@.len() == interactions@.len(),
        forall|i: int|
            0 <= i < interactions@.len() ==> {
                &&& (#[trigger] u.interactions@[i]).id@ == uuid_text(interactions@[i].id)
                &&& u.interactions@[i].name == interactions@[i].name
                &&& opt_view(u.interactions@[i].target_name) == (if after_travel {
                    travel_target_name(interactions@[i].target)
                } else {
                    scene_target_name(interactions@[i].target)
                })
                &&& u.interactions@[i].interaction_type@ == interaction_type_debug(
                    interactions@[i].interaction_type,
                )
                &&& u.interactions@[i].is_available == interactions@[i].is_available
            },
{
    let backdrop = match &scene.backdrop_override {
        Some(b) => Some(b.clone()),
        None => copy_option(&location.backdrop_asset),
    };
    let data = SceneData {
        id: uuid_to_string(scene.id),
        name: scene.name.clone(),
        location_id: uuid_to_string(scene.location_id),
        location_name: location.name.clone(),
        backdrop_asset: backdrop,
        time_context: scene.time_context.display_text(),
        directorial_notes: scene.directorial_notes.clone(),
    };
    let mut characters: Vec<CharacterData> = Vec::new();
    let mut i: usize = 0;
    while i < featured.len()
        invariant
            i <= featured@.len(),
            characters@.len() == i,
            forall|j: int|
                0 <= j < i ==> {
                    &&& (#[trigger] characters@[j]).id@ == uuid_text(featured@[j].id)
                    &&& characters@[j].name == featured@[j].name
                    &&& characters@[j].sprite_asset == featured@[j].sprite_asset
                    &&& characters@[j].portrait_asset == featured@[j].portrait_asset
                    &&& characters@[j].position == CharacterPosition::Center
                    &&& !characters@[j].is_speaking
                },
        decreases featured@.len() - i,
    {
        let c = &featured[i];
        characters.push(
            CharacterData {
                id: uuid_to_string(c.id),
                name: c.name.clone(),
                sprite_asset: copy_option(&c.sprite_asset),
                portrait_asset: copy_option(&c.portrait_asset),
                position: CharacterPosition::Center,
                is_speaking: false,
            },
        );
        i = i + 1;
    }
    let mut items: Vec<InteractionData> = Vec::new();
    let mut k: usize = 0;
    while k < interactions.len()
        invariant
            k <= interactions@.len(),
            items@.len() == k,
            forall|j: int|
                0 <= j < k ==> {
                    &&& (#[trigger] items@[j]).id@ == uuid_text(interactions@[j].id)
                    &&& items@[j].name == interactions@[j].name
                    &&& opt_view(items@[j].target_name) == (if after_travel {
                        travel_target_name(interactions@[j].target)
                    } else {
                        scene_target_name(interactions@[j].target)
                    })
                    &&& items@[j].interaction_type@ == interaction_type_debug(
                        interactions@[j].interaction_type,
                    )
                    &&& items@[j].is_available == interactions@[j].is_available
                },
        decreases interactions@.len() - k,
    {
        let t = &interactions[k];
        let target_name = if after_travel {
            t.target.travel_name()
        } else {
            t.target.scene_name()
        };
        items.push(
            InteractionData {
                id: uuid_to_string(t.id),
                name: t.name.clone(),
                target_name,
                interaction_type: t.interaction_type.debug_name(),
                is_available: t.is_available,
            },
        );
        k = k + 1;
    }
    SceneUpdate { scene: data, characters, interactions: items }
}

/// The locations of the player characters, each once, in the order they
/// first come up.
pub open spec fn locations_seen(pcs: Seq<(u128, String)>) -> Seq<u128>
    decreases pcs.len(),
{
    if pcs.len() == 0 {
        Seq::empty()
    } else {
        let r = locations_seen(pcs.drop_last());
        if r.contains(pcs.last().0) {
            r
        } else {
            r.push(pcs.last().0)
        }
    }
}

/// The names of the player characters at a location, in order.
pub open spec fn names_at(pcs: Seq<(u128, String)>, loc: u128) -> Seq<String>
    decreases pcs.len(),
{
    if pcs.len() == 0 {
        Seq::empty()
    } else {
        let r = names_at(pcs.drop_last(), loc);
        if pcs.last().0 == loc {
            r.push(pcs.last().1)
        } else {
            r
        }
    }
}

/// Groups the player characters of a session (location, name) by location,
/// to tell the dungeon master where a split party stands: one group per
/// location, in the order the locations first come up, with the names of
/// the characters there in order.
pub fn group_by_location(pcs: &Vec<(u128, String)>) -> (r: Vec<(u128, Vec<String>)>)
    ensures
        r@.len() == locations_seen(pcs@).len(),
        forall|i: int|
            0 <= i < r@.len() ==> (#[trigger] r@[i]).0 == locations_seen(pcs@)[i] && r@[i].1@
                == names_at(pcs@, locations_seen(pcs@)[i]),
{
    let mut r: Vec<(u128, Vec<String>)> = Vec::new();
    let mut i: usize = 0;
    while i < pcs.len()
        invariant
            i <= pcs@.len(),
            r@.len() == locations_seen(pcs@.take(i as int)).len(),
            forall|j: int|
                0 <= j < r@.len() ==> (#[trigger] r@[j]).0 == locations_seen(pcs@.take(i as int))[j]
                    && r@[j].1@ == names_at(pcs@.take(i as int), locations_seen(pcs@.take(i as int))[j]),
        decreases pcs@.len() - i,
    {
        let ghost prev = pcs@.take(i as int);
        let ghost next = pcs@.take(i + 1);
        assert(next.drop_last() == prev);
        let loc = pcs[i].0;
        let name = pcs[i].1.clone();
        let mut j: usize = 0;
        while j < r.len()
            invariant
                j <= r@.len(),
                forall|k: int| 0 <= k < j ==> (#[trigger] r@[k]).0 != loc,
            ensures
                j <= r@.len(),
                j < r@.len() ==> r@[j as int].0 == loc,
                forall|k: int| 0 <= k < j ==> (#[trigger] r@[k]).0 != loc,
            decreases r@.len() - j,
        {
            if r[j].0 == loc {
                break;
            }
            j = j + 1;
        }
        if j < r.len() {
            let ghost old_r = r@;
            let mut group = (0u128, Vec::new());
            std::mem::swap(&mut group, &mut r[j]);
            group.1.push(name);
            r.set(j, group);
            proof {
                let seen = locations_seen(prev);
                assert(old_r[j as int].0 == loc);
                assert(seen[j as int] == loc);
                assert(seen.contains(loc));
                assert(locations_seen(next) == seen);
                assert forall|k: int| 0 <= k < r@.len() implies (#[trigger] r@[k]).0
                    == locations_seen(next)[k] && r@[k].1@ == names_at(
                    next,
                    locations_seen(next)[k],
                ) by {
                    if k != j {
                        assert(r@[k] == old_r[k]);
                        assert(seen[k] != loc) by {
                            lemma_seen_distinct(prev, k, j as int);
                        }
                    }
                }
            }
        } else {
            proof {
                let seen = locations_seen(prev);
                assert(!seen.contains(loc)) by {
                    if seen.contains(loc) {
                        let k = choose|k: int| 0 <= k < seen.len() && seen[k] == loc;
                        assert(r@[k].0 == loc);
                    }
                }
                lemma_names_absent(prev, loc);
            }
            let mut names: Vec<String> = Vec::new();
            names.push(name);
            r.push((loc, names));
            proof {
                let seen = locations_seen(prev);
                assert(locations_seen(next) == seen.push(loc));
                assert forall|k: int| 0 <= k < r@.len() implies (#[trigger] r@[k]).0
                    == locations_seen(next)[k] && r@[k].1@ == names_at(
                    next,
                    locations_seen(next)[k],
                ) by {
                    if k < seen.len() {
                        assert(seen[k] != loc);
                    } else {
                        assert(names_at(prev, loc) == Seq::<String>::empty());
                    }
                }
            }
        }
        i = i + 1;
    }
    assert(pcs@.take(i as int) == pcs@);
    r
}

/// Each location comes up once among the locations seen.
proof fn lemma_seen_distinct(pcs: Seq<(u128, String)>, a: int, b: int)
    requires
        0 <= a < locations_seen(pcs).len(),
        0 <= b < locations_seen(pcs).len(),
        a != b,
    ensures
        locations_seen(pcs)[a] != locations_seen(pcs)[b],
    decreases pcs.len(),
{
    if pcs.len() > 0 {
        let r = locations_seen(pcs.drop_last());
        if a < r.len() && b < r.len() {
            lemma_seen_distinct(pcs.drop_last(), a, b);
        } else if a < r.len() {
            assert(!r.contains(pcs.last().0));
            assert(r[a] == locations_seen(pcs)[a]);
        } else {
            assert(!r.contains(pcs.last().0));
            assert(r[b] == locations_seen(pcs)[b]);
        }
    }
}

/// A location not seen has no characters.
proof fn lemma_names_absent(pcs: Seq<(u128, String)>, loc: u128)
    requires
        !locations_seen(pcs).contains(loc),
    ensures
        names_at(pcs, loc) == Seq::<String>::empty(),
    decreases pcs.len(),
{
    if pcs.len() > 0 {
        let r = locations_seen(pcs.drop_last());
        if r.contains(loc) {
            let k = choose|k: int| 0 <= k < r.len() && r[k] == loc;
            assert(locations_seen(pcs).contains(loc)) by {
                if r.contains(pcs.last().0) {
                    assert(locations_seen(pcs)[k] == loc);
                } else {
                    assert(locations_seen(pcs)[k] == loc);
                }
            }
        }
        if pcs.last().0 == loc {
            assert(locations_seen(pcs).contains(loc)) by {
                if r.contains(pcs.last().0) {
                } else {
                    assert(locations_seen(pcs)[r.len() as int] == loc);
                }
            }
        }
        lemma_names_absent(pcs.drop_last(), loc);
    }
}


/// The error answered to a message that could not be read; `detail` is
/// the reader's explanation.
pub fn parse_error(detail: &str) -> (e: WsError)
    ensures
        ws_error_is(e, "PARSE_ERROR"@, "Invalid message format: "@ + detail@),
{
    WsError { code: to_owned_string("PARSE_ERROR"), message: concat_str("Invalid message format: ", detail) }
}


/// A participant as the session join service describes it.
#[derive(Clone, Debug)]
pub struct ServiceParticipantInfo {
    pub user_id: String,
    pub role: SessionParticipantRole,
    pub character_name: Option<String>,
}

/// A participant as a `SessionJoined` message lists it.
#[derive(Clone, Debug)]
pub struct ParticipantInfo {
    pub user_id: String,
    pub role: ParticipantRole,
    pub character_name: Option<String>,
}

/// Converts the join service's participant to the one sent over the wire.
pub fn from_service_participant(p: ServiceParticipantInfo) -> (r: ParticipantInfo)
    ensures
        r.user_id == p.user_id,
        r.role == wire_role(p.role),
        r.character_name == p.character_name,
{
    ParticipantInfo {
        user_id: p.user_id,
        role: canonical_to_wire_role(p.role),
        character_name: p.character_name,
    }
}

} // verus!
