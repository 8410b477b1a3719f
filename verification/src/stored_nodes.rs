//! Decoding the nodes the graph store keeps for narrative events and player
//! characters. A node's properties are handed over as plain values (`None`
//! where the node lacks the property or holds it with another type); the
//! decoding checks the required ones and parses IDs, timestamps and the
//! JSON list of tags, in the order the store's reader does. What the world
//! model's JSON reader made of the trigger conditions, outcomes and
//! character sheet is handed over too, and a text it could not read is an
//! error in its place in that order.

use crate::ids::{parse_uuid, uuid_parsed};
use crate::stored::{
    ids_from_stored, optional_count_from_stored, optional_count_read, optional_id_from_stored,
    optional_id_read, parsed_ids, trigger_logic_from, TriggerLogic,
};
use crate::text::str_eq;
use chrono::DateTime;
use vstd::prelude::*;

verus! {

/// What `chrono::DateTime::parse_from_rfc3339` gives for a text: the
/// instant as seconds since the Unix epoch and the nanoseconds past that
/// second, or `None` when the text is no RFC 3339 date and time.
pub uninterp spec fn rfc3339_parsed(text: Seq<char>) -> Option<(i64, u32)>;

/// What `serde_json::from_str::<Vec<String>>` gives for a text: the
/// strings of a JSON array of strings, or `None` when the text is not one.
pub uninterp spec fn json_string_list(text: Seq<char>) -> Option<Seq<Seq<char>>>;

/// Parses an RFC 3339 date and time with
/// `chrono::DateTime::parse_from_rfc3339`; the instant is read with
/// `timestamp` and `timestamp_subsec_nanos`. The contract only names the
/// result: the grammar is chrono's.
#[verifier::external_body]
fn parse_rfc3339(text: &str) -> (r: Option<(i64, u32)>)
    ensures
        r == rfc3339_parsed(text@),
{
    match DateTime::parse_from_rfc3339(text) {
        Ok(dt) => Some((dt.timestamp(), dt.timestamp_subsec_nanos())),
        Err(_) => None,
    }
}

/// Parses a JSON array of strings with `serde_json::from_str`. The
/// contract only names the result: the JSON grammar is serde_json's.
#[verifier::external_body]
fn parse_string_list(text: &str) -> (r: Option<Vec<String>>)
    ensures
        match r {
            Some(v) => json_string_list(text@) == Some(v@.map_values(|s: String| s@)),
            None => json_string_list(text@) is None,
        },
{
    match serde_json::from_str::<Vec<String>>(text) {
        Ok(v) => Some(v),
        Err(_) => None,
    }
}

/// The text of an optional string, if any.
pub open spec fn text_view(o: Option<String>) -> Option<Seq<char>> {
    match o {
        Some(s) => Some(s@),
        None => None,
    }
}

/// An instant: seconds since the Unix epoch and nanoseconds past them.
#[derive(Clone, Copy, Debug, PartialEq, Eq, Structural)]
pub struct UtcTime {
    pub seconds: i64,
    pub nanos: u32,
}

/// A property a node must have, or whose text must parse.
#[derive(Clone, Copy, Debug, PartialEq, Eq, Structural)]
pub enum NodeProperty {
    Id,
    WorldId,
    SessionId,
    UserId,
    Name,
    TagsJson,
    TriggersJson,
    OutcomesJson,
    SheetData,
    CurrentLocationId,
    StartingLocationId,
    CreatedAt,
    UpdatedAt,
    LastActiveAt,
}

/// Why a node could not be decoded.
#[derive(Clone, Copy, Debug, PartialEq, Eq, Structural)]
pub enum DecodeError {
    /// A required property is missing.
    Missing(NodeProperty),
    /// An ID property is no UUID.
    BadUuid(NodeProperty),
    /// A timestamp property is no RFC 3339 date and time.
    BadTimestamp(NodeProperty),
    /// A JSON property does not parse.
    BadJson(NodeProperty),
}

/// The text of an optional property, "" where it is absent.
pub open spec fn text_or_empty(o: Option<String>) -> Seq<char> {
    match o {
        Some(s) => s@,
        None => Seq::empty(),
    }
}

/// An optional property that is absent or "" reads as none.
pub open spec fn present_text(o: Option<String>) -> Option<Seq<char>> {
    match o {
        Some(s) => if s@.len() == 0 {
            None
        } else {
            Some(s@)
        },
        None => None,
    }
}

/// The instant an RFC 3339 text stands for.
pub open spec fn instant_of(text: Seq<char>) -> Option<UtcTime> {
    match rfc3339_parsed(text) {
        Some((s, n)) => Some(UtcTime { seconds: s, nanos: n }),
        None => None,
    }
}

fn text_or_empty_exec(o: &Option<String>) -> (r: String)
    ensures
        r@ == text_or_empty(*o),
{
    match o {
        Some(s) => s.clone(),
        None => String::new(),
    }
}

fn present_text_exec(o: &Option<String>) -> (r: Option<String>)
    ensures
        text_view(r) == present_text(*o),
{
    match o {
        Some(s) => if s.unicode_len() == 0 {
            None
        } else {
            Some(s.clone())
        },
        None => None,
    }
}

fn instant(text: &str) -> (r: Option<UtcTime>)
    ensures
        r == instant_of(text@),
{
    match parse_rfc3339(text) {
        Some((s, n)) => Some(UtcTime { seconds: s, nanos: n }),
        None => None,
    }
}

/// The properties of a stored narrative event's node.
#[derive(Clone, Debug)]
pub struct StoredNarrativeEvent {
    pub id: Option<String>,
    pub world_id: Option<String>,
    pub name: Option<String>,
    pub description: Option<String>,
    pub tags_json: Option<String>,
    pub triggers_json: Option<String>,
    pub trigger_logic: Option<String>,
    pub scene_direction: Option<String>,
    pub suggested_opening: Option<String>,
    pub featured_npcs: Option<Vec<String>>,
    pub outcomes_json: Option<String>,
    pub default_outcome: Option<String>,
    pub is_active: Option<bool>,
    pub is_triggered: Option<bool>,
    pub triggered_at: Option<String>,
    pub selected_outcome: Option<String>,
    pub is_repeatable: Option<bool>,
    pub trigger_count: Option<i64>,
    pub delay_turns: Option<i64>,
    pub expires_after_turns: Option<i64>,
    pub scene_id: Option<String>,
    pub location_id: Option<String>,
    pub act_id: Option<String>,
    pub priority: Option<i64>,
    pub is_favorite: Option<bool>,
    pub chain_id: Option<String>,
    pub chain_position: Option<i64>,
    pub created_at: Option<String>,
    pub updated_at: Option<String>,
}

/// A narrative event decoded from the store. Its trigger conditions (`T`)
/// and outcomes (`O`) have the world model's shape.
#[derive(Clone, Debug)]
pub struct NarrativeEvent<T, O> {
    pub id: u128,
    pub world_id: u128,
    pub name: String,
    pub description: String,
    pub tags: Vec<String>,
    pub trigger_conditions: Vec<T>,
    pub trigger_logic: TriggerLogic,
    pub scene_direction: String,
    pub suggested_opening: Option<String>,
    pub featured_npcs: Vec<u128>,
    pub outcomes: Vec<O>,
    pub default_outcome: Option<String>,
    pub is_active: bool,
    pub is_triggered: bool,
    pub triggered_at: Option<UtcTime>,
    pub selected_outcome: Option<String>,
    pub is_repeatable: bool,
    pub trigger_count: u32,
    pub delay_turns: u32,
    pub expires_after_turns: Option<u32>,
    pub scene_id: Option<u128>,
    pub location_id: Option<u128>,
    pub act_id: Option<u128>,
    pub priority: i32,
    pub is_favorite: bool,
    pub chain_id: Option<u128>,
    pub chain_position: Option<u32>,
    pub created_at: UtcTime,
    pub updated_at: UtcTime,
}

/// The tags' stored text: "[]" where absent.
pub open spec fn tags_text(n: StoredNarrativeEvent) -> Seq<char> {
    json_or_empty_list(n.tags_json)
}

/// A stored JSON list's text: "[]" where absent.
pub open spec fn json_or_empty_list(o: Option<String>) -> Seq<char> {
    match o {
        Some(t) => t@,
        None => "[]"@,
    }
}

/// The first reason a narrative event's node does not decode, checked in
/// this order: the ID, world ID, name and both timestamps must be there;
/// the tags must be a JSON list of strings, and the trigger conditions and
/// outcomes must read (`triggers_read`, `outcomes_read`: whether the world
/// model's JSON reader read `json_or_empty_list` of them); the IDs must be
/// UUIDs; the timestamps must be RFC 3339.
pub open spec fn narrative_event_error(
    n: StoredNarrativeEvent,
    triggers_read: bool,
    outcomes_read: bool,
) -> Option<DecodeError> {
    if n.id is None {
        Some(DecodeError::Missing(NodeProperty::Id))
    } else if n.world_id is None {
        Some(DecodeError::Missing(NodeProperty::WorldId))
    } else if n.name is None {
        Some(DecodeError::Missing(NodeProperty::Name))
    } else if n.created_at is None {
        Some(DecodeError::Missing(NodeProperty::CreatedAt))
    } else if n.updated_at is None {
        Some(DecodeError::Missing(NodeProperty::UpdatedAt))
    } else if json_string_list(tags_text(n)) is None {
        Some(DecodeError::BadJson(NodeProperty::TagsJson))
    } else if !triggers_read {
        Some(DecodeError::BadJson(NodeProperty::TriggersJson))
    } else if !outcomes_read {
        Some(DecodeError::BadJson(NodeProperty::OutcomesJson))
    } else if uuid_parsed(n.id->0@) is None {
        Some(DecodeError::BadUuid(NodeProperty::Id))
    } else if uuid_parsed(n.world_id->0@) is None {
        Some(DecodeError::BadUuid(NodeProperty::WorldId))
    } else if instant_of(n.created_at->0@) is None {
        Some(DecodeError::BadTimestamp(NodeProperty::CreatedAt))
    } else if instant_of(n.updated_at->0@) is None {
        Some(DecodeError::BadTimestamp(NodeProperty::UpdatedAt))
    } else {
        None
    }
}

/// `ev` is what a narrative event's node that decodes stands for. Absent
/// texts read as "" (the trigger rule as "All"); a suggested opening,
/// default or selected outcome that is absent or "" is none; an absent
/// flag is false but for `is_active`, which is true; absent counts are 0,
/// and an absent or negative expiry or chain position is none (counts are
/// taken to 32 bits); an optional ID or trigger time that is absent, ""
/// or does not parse is none; featured NPCs that are no UUID are left out.
pub open spec fn narrative_event_decoded<T, O>(
    n: StoredNarrativeEvent,
    triggers: Vec<T>,
    outcomes: Vec<O>,
    ev: NarrativeEvent<T, O>,
) -> bool {
    &&& ev.id == uuid_parsed(n.id->0@)->0
    &&& ev.world_id == uuid_parsed(n.world_id->0@)->0
    &&& ev.name == n.name->0
    &&& ev.description@ == text_or_empty(n.description)
    &&& ev.tags@.map_values(|s: String| s@) == json_string_list(tags_text(n))->0
    &&& ev.trigger_conditions == triggers
    &&& ev.trigger_logic == (match n.trigger_logic {
        Some(t) => trigger_logic_from(t@),
        None => TriggerLogic::All,
    })
    &&& ev.scene_direction@ == text_or_empty(n.scene_direction)
    &&& text_view(ev.suggested_opening) == present_text(n.suggested_opening)
    &&& ev.featured_npcs@ == (match n.featured_npcs {
        Some(v) => parsed_ids(v@),
        None => Seq::empty(),
    })
    &&& ev.outcomes == outcomes
    &&& text_view(ev.default_outcome) == present_text(n.default_outcome)
    &&& ev.is_active == (match n.is_active {
        Some(b) => b,
        None => true,
    })
    &&& ev.is_triggered == (n.is_triggered == Some(true))
    &&& ev.triggered_at == (match present_text(n.triggered_at) {
        Some(t) => instant_of(t),
        None => None,
    })
    &&& text_view(ev.selected_outcome) == present_text(n.selected_outcome)
    &&& ev.is_repeatable == (n.is_repeatable == Some(true))
    &&& ev.trigger_count == (match n.trigger_count {
        Some(v) => v as u32,
        None => 0u32,
    })
    &&& ev.delay_turns == (match n.delay_turns {
        Some(v) => v as u32,
        None => 0u32,
    })
    &&& ev.expires_after_turns == (match n.expires_after_turns {
        Some(v) => optional_count_read(v),
        None => None,
    })
    &&& ev.scene_id == optional_id_read(text_or_empty(n.scene_id))
    &&& ev.location_id == optional_id_read(text_or_empty(n.location_id))
    &&& ev.act_id == optional_id_read(text_or_empty(n.act_id))
    &&& ev.priority == (match n.priority {
        Some(v) => v as i32,
        None => 0i32,
    })
    &&& ev.is_favorite == (n.is_favorite == Some(true))
    &&& ev.chain_id == optional_id_read(text_or_empty(n.chain_id))
    &&& ev.chain_position == (match n.chain_position {
        Some(v) => optional_count_read(v),
        None => None,
    })
    &&& ev.created_at == instant_of(n.created_at->0@)->0
    &&& ev.updated_at == instant_of(n.updated_at->0@)->0
}

fn required(o: &Option<String>, p: NodeProperty) -> (r: Result<String, DecodeError>)
    ensures
        match o {
            Some(s) => r == Ok::<String, DecodeError>(*s),
            None => r == Err::<String, DecodeError>(DecodeError::Missing(p)),
        },
{
    match o {
        Some(s) => Ok(s.clone()),
        None => Err(DecodeError::Missing(p)),
    }
}

fn uuid_of(text: &str, p: NodeProperty) -> (r: Result<u128, DecodeError>)
    ensures
        match uuid_parsed(text@) {
            Some(v) => r == Ok::<u128, DecodeError>(v),
            None => r == Err::<u128, DecodeError>(DecodeError::BadUuid(p)),
        },
{
    match parse_uuid(text) {
        Some(v) => Ok(v),
        None => Err(DecodeError::BadUuid(p)),
    }
}

fn instant_prop(text: &str, p: NodeProperty) -> (r: Result<UtcTime, DecodeError>)
    ensures
        match instant_of(text@) {
            Some(t) => r == Ok::<UtcTime, DecodeError>(t),
            None => r == Err::<UtcTime, DecodeError>(DecodeError::BadTimestamp(p)),
        },
{
    match instant(text) {
        Some(t) => Ok(t),
        None => Err(DecodeError::BadTimestamp(p)),
    }
}

fn optional_id_prop(o: &Option<String>) -> (r: Option<u128>)
    ensures
        r == optional_id_read(text_or_empty(*o)),
{
    let t = text_or_empty_exec(o);
    optional_id_from_stored(t.as_str())
}

fn optional_count_prop(o: Option<i64>) -> (r: Option<u32>)
    ensures
        r == (match o {
            Some(v) => optional_count_read(v),
            None => None,
        }),
{
    match o {
        Some(v) => optional_count_from_stored(v),
        None => None,
    }
}

fn count_prop(o: Option<i64>) -> (r: u32)
    ensures
        r == (match o {
            Some(v) => v as u32,
            None => 0u32,
        }),
{
    match o {
        Some(v) => v as u32,
        None => 0,
    }
}

fn flag(o: Option<bool>) -> (r: bool)
    ensures
        r == (o == Some(true)),
{
    match o {
        Some(b) => b,
        None => false,
    }
}

/// Decodes a narrative event's node. `triggers` and `outcomes` are what
/// the world model's JSON reader made of `json_or_empty_list` of the
/// node's trigger conditions and outcomes (`None` where the text did not
/// read). The first failing check of `narrative_event_error` is the error;
/// else the event as `narrative_event_decoded` states it.
pub fn narrative_event_from_stored<T, O>(
    node: &StoredNarrativeEvent,
    triggers: Option<Vec<T>>,
    outcomes: Option<Vec<O>>,
) -> (r: Result<NarrativeEvent<T, O>, DecodeError>)
    ensures
        match narrative_event_error(*node, triggers is Some, outcomes is Some) {
            Some(e) => r == Err::<NarrativeEvent<T, O>, DecodeError>(e),
            None => r matches Ok(ev) && narrative_event_decoded(
                *node,
                triggers->0,
                outcomes->0,
                ev,
            ),
        },
{
    let id_text = match required(&node.id, NodeProperty::Id) {
        Ok(s) => s,
        Err(e) => {
            return Err(e);
        },
    };
    let world_text = match required(&node.world_id, NodeProperty::WorldId) {
        Ok(s) => s,
        Err(e) => {
            return Err(e);
        },
    };
    let name = match required(&node.name, NodeProperty::Name) {
        Ok(s) => s,
        Err(e) => {
            return Err(e);
        },
    };
    let created_text = match required(&node.created_at, NodeProperty::CreatedAt) {
        Ok(s) => s,
        Err(e) => {
            return Err(e);
        },
    };
    let updated_text = match required(&node.updated_at, NodeProperty::UpdatedAt) {
        Ok(s) => s,
        Err(e) => {
            return Err(e);
        },
    };
    let tags = match &node.tags_json {
        Some(t) => parse_string_list(t.as_str()),
        None => parse_string_list("[]"),
    };
    let tags = match tags {
        Some(v) => v,
        None => {
            return Err(DecodeError::BadJson(NodeProperty::TagsJson));
        },
    };
    let trigger_conditions = match triggers {
        Some(v) => v,
        None => {
            return Err(DecodeError::BadJson(NodeProperty::TriggersJson));
        },
    };
    let outcomes = match outcomes {
        Some(v) => v,
        None => {
            return Err(DecodeError::BadJson(NodeProperty::OutcomesJson));
        },
    };
    let id = match uuid_of(id_text.as_str(), NodeProperty::Id) {
        Ok(v) => v,
        Err(e) => {
            return Err(e);
        },
    };
    let world_id = match uuid_of(world_text.as_str(), NodeProperty::WorldId) {
        Ok(v) => v,
        Err(e) => {
            return Err(e);
        },
    };
    let created_at = match instant_prop(created_text.as_str(), NodeProperty::CreatedAt) {
        Ok(t) => t,
        Err(e) => {
            return Err(e);
        },
    };
    let updated_at = match instant_prop(updated_text.as_str(), NodeProperty::UpdatedAt) {
        Ok(t) => t,
        Err(e) => {
            return Err(e);
        },
    };
    let trigger_logic = match &node.trigger_logic {
        Some(t) => TriggerLogic::from_stored(t.as_str()),
        None => TriggerLogic::All,
    };
    let featured_npcs = match &node.featured_npcs {
        Some(v) => ids_from_stored(v),
        None => Vec::new(),
    };
    let triggered_at = match present_text_exec(&node.triggered_at) {
        Some(t) => instant(t.as_str()),
        None => None,
    };
    Ok(
        NarrativeEvent {
            id,
            world_id,
            name,
            description: text_or_empty_exec(&node.description),
            tags,
            trigger_conditions,
            trigger_logic,
            scene_direction: text_or_empty_exec(&node.scene_direction),
            suggested_opening: present_text_exec(&node.suggested_opening),
            featured_npcs,
            outcomes,
            default_outcome: present_text_exec(&node.default_outcome),
            is_active: match node.is_active {
                Some(b) => b,
                None => true,
            },
            is_triggered: flag(node.is_triggered),
            triggered_at,
            selected_outcome: present_text_exec(&node.selected_outcome),
            is_repeatable: flag(node.is_repeatable),
            trigger_count: count_prop(node.trigger_count),
            delay_turns: count_prop(node.delay_turns),
            expires_after_turns: optional_count_prop(node.expires_after_turns),
            scene_id: optional_id_prop(&node.scene_id),
            location_id: optional_id_prop(&node.location_id),
            act_id: optional_id_prop(&node.act_id),
            priority: match node.priority {
                Some(v) => v as i32,
                None => 0,
            },
            is_favorite: flag(node.is_favorite),
            chain_id: optional_id_prop(&node.chain_id),
            chain_position: optional_count_prop(node.chain_position),
            created_at,
            updated_at,
        },
    )
}

/// The properties of a stored player character's node.
#[derive(Clone, Debug)]
pub struct StoredPlayerCharacter {
    pub id: Option<String>,
    pub session_id: Option<String>,
    pub user_id: Option<String>,
    pub world_id: Option<String>,
    pub name: Option<String>,
    pub description: Option<String>,
    pub sheet_data: Option<String>,
    pub current_location_id: Option<String>,
    pub starting_location_id: Option<String>,
    pub sprite_asset: Option<String>,
    pub portrait_asset: Option<String>,
    pub created_at: Option<String>,
    pub last_active_at: Option<String>,
}

/// A player character decoded from the store. Its character sheet (`S`)
/// has the world model's shape.
#[derive(Clone, Debug)]
pub struct PlayerCharacter<S> {
    pub id: u128,
    pub session_id: u128,
    pub user_id: String,
    pub world_id: u128,
    pub name: String,
    pub description: Option<String>,
    pub sheet_data: Option<S>,
    pub current_location_id: u128,
    pub starting_location_id: u128,
    pub sprite_asset: Option<String>,
    pub portrait_asset: Option<String>,
    pub created_at: UtcTime,
    pub last_active_at: UtcTime,
}

/// The first reason a player character's node does not decode, checked in
/// this order: each required property must be there, and where it is an
/// ID a UUID, where it is a timestamp an RFC 3339 date and time; after the
/// name, a sheet that holds data (`sheet_present`) must read (`sheet_read`:
/// whether the world model's JSON reader read it).
pub open spec fn player_character_error(n: StoredPlayerCharacter, sheet_read: bool) -> Option<
    DecodeError,
> {
    if n.id is None {
        Some(DecodeError::Missing(NodeProperty::Id))
    } else if uuid_parsed(n.id->0@) is None {
        Some(DecodeError::BadUuid(NodeProperty::Id))
    } else if n.session_id is None {
        Some(DecodeError::Missing(NodeProperty::SessionId))
    } else if uuid_parsed(n.session_id->0@) is None {
        Some(DecodeError::BadUuid(NodeProperty::SessionId))
    } else if n.user_id is None {
        Some(DecodeError::Missing(NodeProperty::UserId))
    } else if n.world_id is None {
        Some(DecodeError::Missing(NodeProperty::WorldId))
    } else if uuid_parsed(n.world_id->0@) is None {
        Some(DecodeError::BadUuid(NodeProperty::WorldId))
    } else if n.name is None {
        Some(DecodeError::Missing(NodeProperty::Name))
    } else if sheet_present(text_or_empty(n.sheet_data)) && !sheet_read {
        Some(DecodeError::BadJson(NodeProperty::SheetData))
    } else if n.current_location_id is None {
        Some(DecodeError::Missing(NodeProperty::CurrentLocationId))
    } else if uuid_parsed(n.current_location_id->0@) is None {
        Some(DecodeError::BadUuid(NodeProperty::CurrentLocationId))
    } else if n.starting_location_id is None {
        Some(DecodeError::Missing(NodeProperty::StartingLocationId))
    } else if uuid_parsed(n.starting_location_id->0@) is None {
        Some(DecodeError::BadUuid(NodeProperty::StartingLocationId))
    } else if n.created_at is None {
        Some(DecodeError::Missing(NodeProperty::CreatedAt))
    } else if instant_of(n.created_at->0@) is None {
        Some(DecodeError::BadTimestamp(NodeProperty::CreatedAt))
    } else if n.last_active_at is None {
        Some(DecodeError::Missing(NodeProperty::LastActiveAt))
    } else if instant_of(n.last_active_at->0@) is None {
        Some(DecodeError::BadTimestamp(NodeProperty::LastActiveAt))
    } else {
        None
    }
}

/// Whether a stored character sheet holds data: neither "" nor "{}".
pub open spec fn sheet_present(t: Seq<char>) -> bool {
    t.len() > 0 && t != "{}"@
}

/// `pc` is what a player character's node that decodes stands for: a
/// description or asset that is absent or "" is none; a sheet that is
/// absent, "" or "{}" is none, and another is `sheet`, what was read of it.
pub open spec fn player_character_decoded<S>(
    n: StoredPlayerCharacter,
    sheet: Option<S>,
    pc: PlayerCharacter<S>,
) -> bool {
    &&& pc.id == uuid_parsed(n.id->0@)->0
    &&& pc.session_id == uuid_parsed(n.session_id->0@)->0
    &&& pc.user_id == n.user_id->0
    &&& pc.world_id == uuid_parsed(n.world_id->0@)->0
    &&& pc.name == n.name->0
    &&& text_view(pc.description) == present_text(n.description)
    &&& pc.sheet_data == (if sheet_present(text_or_empty(n.sheet_data)) {
        sheet
    } else {
        None
    })
    &&& pc.current_location_id == uuid_parsed(n.current_location_id->0@)->0
    &&& pc.starting_location_id == uuid_parsed(n.starting_location_id->0@)->0
    &&& text_view(pc.sprite_asset) == present_text(n.sprite_asset)
    &&& text_view(pc.portrait_asset) == present_text(n.portrait_asset)
    &&& pc.created_at == instant_of(n.created_at->0@)->0
    &&& pc.last_active_at == instant_of(n.last_active_at->0@)->0
}

fn required_uuid(o: &Option<String>, p: NodeProperty) -> (r: Result<u128, DecodeError>)
    ensures
        match o {
            None => r == Err::<u128, DecodeError>(DecodeError::Missing(p)),
            Some(t) => match uuid_parsed(t@) {
                Some(v) => r == Ok::<u128, DecodeError>(v),
                None => r == Err::<u128, DecodeError>(DecodeError::BadUuid(p)),
            },
        },
{
    match o {
        None => Err(DecodeError::Missing(p)),
        Some(t) => uuid_of(t.as_str(), p),
    }
}

fn required_instant(o: &Option<String>, p: NodeProperty) -> (r: Result<UtcTime, DecodeError>)
    ensures
        match o {
            None => r == Err::<UtcTime, DecodeError>(DecodeError::Missing(p)),
            Some(t) => match instant_of(t@) {
                Some(v) => r == Ok::<UtcTime, DecodeError>(v),
                None => r == Err::<UtcTime, DecodeError>(DecodeError::BadTimestamp(p)),
            },
        },
{
    match o {
        None => Err(DecodeError::Missing(p)),
        Some(t) => instant_prop(t.as_str(), p),
    }
}

/// Decodes a player character's node. `sheet` is what the world model's
/// JSON reader made of the node's sheet text (`None` where it did not
/// read; it counts only where the sheet holds data). The first failing
/// check of `player_character_error` is the error; else the character as
/// `player_character_decoded` states it.
pub fn player_character_from_stored<S>(node: &StoredPlayerCharacter, sheet: Option<S>) -> (r:
    Result<PlayerCharacter<S>, DecodeError>)
    ensures
        match player_character_error(*node, sheet is Some) {
            Some(e) => r == Err::<PlayerCharacter<S>, DecodeError>(e),
            None => r matches Ok(pc) && player_character_decoded(*node, sheet, pc),
        },
{
    let id = match required_uuid(&node.id, NodeProperty::Id) {
        Ok(v) => v,
        Err(e) => {
            return Err(e);
        },
    };
    let session_id = match required_uuid(&node.session_id, NodeProperty::SessionId) {
        Ok(v) => v,
        Err(e) => {
            return Err(e);
        },
    };
    let user_id = match required(&node.user_id, NodeProperty::UserId) {
        Ok(s) => s,
        Err(e) => {
            return Err(e);
        },
    };
    let world_id = match required_uuid(&node.world_id, NodeProperty::WorldId) {
        Ok(v) => v,
        Err(e) => {
            return Err(e);
        },
    };
    let name = match required(&node.name, NodeProperty::Name) {
        Ok(s) => s,
        Err(e) => {
            return Err(e);
        },
    };
    let sheet_text = text_or_empty_exec(&node.sheet_data);
    let sheet_data = if sheet_text.unicode_len() == 0 || str_eq(sheet_text.as_str(), "{}") {
        None
    } else {
        match sheet {
            Some(v) => Some(v),
            None => {
                return Err(DecodeError::BadJson(NodeProperty::SheetData));
            },
        }
    };
    let current_location_id = match required_uuid(
        &node.current_location_id,
        NodeProperty::CurrentLocationId,
    ) {
        Ok(v) => v,
        Err(e) => {
            return Err(e);
        },
    };
    let starting_location_id = match required_uuid(
        &node.starting_location_id,
        NodeProperty::StartingLocationId,
    ) {
        Ok(v) => v,
        Err(e) => {
            return Err(e);
        },
    };
    let created_at = match required_instant(&node.created_at, NodeProperty::CreatedAt) {
        Ok(t) => t,
        Err(e) => {
            return Err(e);
        },
    };
    let last_active_at = match required_instant(&node.last_active_at, NodeProperty::LastActiveAt) {
        Ok(t) => t,
        Err(e) => {
            return Err(e);
        },
    };
    Ok(
        PlayerCharacter {
            id,
            session_id,
            user_id,
            world_id,
            name,
            description: present_text_exec(&node.description),
            sheet_data,
            current_location_id,
            starting_location_id,
            sprite_asset: present_text_exec(&node.sprite_asset),
            portrait_asset: present_text_exec(&node.portrait_asset),
            created_at,
            last_active_at,
        },
    )
}


/// Law: a decoded narrative event's scene direction is the text of the
/// node's own scene direction ("" when the node has none), whatever the
/// node's description says; so is its description the node's description.
pub proof fn decoded_scene_direction<T, O>(
    n: StoredNarrativeEvent,
    triggers: Vec<T>,
    outcomes: Vec<O>,
    ev: NarrativeEvent<T, O>,
)
    requires
        narrative_event_decoded(n, triggers, outcomes, ev),
    ensures
        ev.scene_direction@ == (match n.scene_direction {
            Some(s) => s@,
            None => Seq::<char>::empty(),
        }),
        ev.description@ == (match n.description {
            Some(s) => s@,
            None => Seq::<char>::empty(),
        }),
{
}


/// Law: what a decoded narrative event takes where its node lacks a
/// property: it is active, its trigger rule is `All`, it has no expiry and
/// no place in a chain; a negative stored expiry or chain position is none
/// too, and any other is kept.
pub proof fn decoded_event_defaults<T, O>(
    n: StoredNarrativeEvent,
    triggers: Vec<T>,
    outcomes: Vec<O>,
    ev: NarrativeEvent<T, O>,
)
    requires
        narrative_event_decoded(n, triggers, outcomes, ev),
    ensures
        n.is_active is None ==> ev.is_active,
        n.is_active matches Some(b) ==> ev.is_active == b,
        n.trigger_logic is None ==> ev.trigger_logic == TriggerLogic::All,
        n.expires_after_turns is None ==> ev.expires_after_turns is None,
        n.expires_after_turns matches Some(v) ==> (v < 0 <==> ev.expires_after_turns is None),
        n.chain_position is None ==> ev.chain_position is None,
        n.chain_position matches Some(v) ==> (v < 0 <==> ev.chain_position is None),
        ev.name == n.name->0,
{
}

} // verus!
