//! The kinds of story events and how the API shows them. Kinds the world
//! model defines (of combat, of outcome, of revealed information, of its
//! importance) are held by the names `{:?}` writes for them; a change of
//! relationship carries its sentiment (`R`) and a custom event its data
//! (`C`) as the world model has them.

use crate::ids::{uuid_text, uuid_to_string};
use crate::story::{DmMarkerType, ItemSource, ItemSourceResponse, MarkerImportance};
use crate::text::to_owned_string;
use vstd::prelude::*;

verus! {

/// What happened in a story event.
#[derive(Clone, Debug)]
pub enum StoryEventType<R, C> {
    LocationChange {
        from_location: Option<u128>,
        to_location: u128,
        character_id: u128,
        travel_method: Option<String>,
    },
    DialogueExchange {
        npc_id: u128,
        npc_name: String,
        player_dialogue: String,
        npc_response: String,
        topics_discussed: Vec<String>,
        tone: Option<String>,
    },
    CombatEvent {
        combat_type: String,
        participants: Vec<u128>,
        enemies: Vec<String>,
        outcome: Option<String>,
        location_id: u128,
        rounds: Option<u32>,
    },
    ChallengeAttempted {
        challenge_id: Option<u128>,
        challenge_name: String,
        character_id: u128,
        skill_used: Option<String>,
        difficulty: Option<String>,
        roll_result: Option<i32>,
        modifier: Option<i32>,
        outcome: String,
    },
    ItemAcquired {
        item_name: String,
        item_description: Option<String>,
        character_id: u128,
        source: ItemSource,
        quantity: u32,
    },
    ItemTransferred {
        item_name: String,
        from_character: Option<u128>,
        to_character: u128,
        quantity: u32,
        reason: Option<String>,
    },
    ItemUsed {
        item_name: String,
        character_id: u128,
        target: Option<String>,
        effect: String,
        consumed: bool,
    },
    RelationshipChanged { from_character: u128, to_character: u128, sentiment: R, reason: String },
    SceneTransition {
        from_scene: Option<u128>,
        to_scene: u128,
        from_scene_name: Option<String>,
        to_scene_name: String,
        trigger_reason: String,
    },
    InformationRevealed {
        info_type: String,
        title: String,
        content: String,
        source: Option<String>,
        importance: String,
        persist_to_journal: bool,
    },
    NpcAction {
        npc_id: u128,
        npc_name: String,
        action_type: String,
        description: String,
        dm_approved: bool,
        dm_modified: bool,
    },
    DmMarker {
        title: String,
        note: String,
        importance: MarkerImportance,
        marker_type: DmMarkerType,
    },
    NarrativeEventTriggered {
        narrative_event_id: u128,
        narrative_event_name: String,
        outcome_branch: Option<String>,
        effects_applied: Vec<String>,
    },
    StatModified {
        character_id: u128,
        stat_name: String,
        previous_value: i32,
        new_value: i32,
        reason: String,
    },
    FlagChanged { flag_name: String, new_value: bool, reason: String },
    SessionStarted {
        session_number: u32,
        session_name: Option<String>,
        players_present: Vec<String>,
    },
    SessionEnded { duration_minutes: u32, summary: String },
    Custom { event_subtype: String, title: String, description: String, data: C },
}

/// A story event's kind as the API shows it: IDs as UUID text and the
/// marker kinds by name.
#[derive(Clone, Debug)]
pub enum StoryEventTypeResponse<R, C> {
    LocationChange {
        from_location: Option<String>,
        to_location: String,
        character_id: String,
        travel_method: Option<String>,
    },
    DialogueExchange {
        npc_id: String,
        npc_name: String,
        player_dialogue: String,
        npc_response: String,
        topics_discussed: Vec<String>,
        tone: Option<String>,
    },
    CombatEvent {
        combat_type: String,
        participants: Vec<String>,
        enemies: Vec<String>,
        outcome: Option<String>,
        location_id: String,
        rounds: Option<u32>,
    },
    ChallengeAttempted {
        challenge_id: Option<String>,
        challenge_name: String,
        character_id: String,
        skill_used: Option<String>,
        difficulty: Option<String>,
        roll_result: Option<i32>,
        modifier: Option<i32>,
        outcome: String,
    },
    ItemAcquired {
        item_name: String,
        item_description: Option<String>,
        character_id: String,
        source: ItemSourceResponse,
        quantity: u32,
    },
    ItemTransferred {
        item_name: String,
        from_character: Option<String>,
        to_character: String,
        quantity: u32,
        reason: Option<String>,
    },
    ItemUsed {
        item_name: String,
        character_id: String,
        target: Option<String>,
        effect: String,
        consumed: bool,
    },
    RelationshipChanged {
        from_character: String,
        to_character: String,
        sentiment: R,
        reason: String,
    },
    SceneTransition {
        from_scene: Option<String>,
        to_scene: String,
        from_scene_name: Option<String>,
        to_scene_name: String,
        trigger_reason: String,
    },
    InformationRevealed {
        info_type: String,
        title: String,
        content: String,
        source: Option<String>,
        importance: String,
        persist_to_journal: bool,
    },
    NpcAction {
        npc_id: String,
        npc_name: String,
        action_type: String,
        description: String,
        dm_approved: bool,
        dm_modified: bool,
    },
    DmMarker { title: String, note: String, importance: String, marker_type: String },
    NarrativeEventTriggered {
        narrative_event_id: String,
        narrative_event_name: String,
        outcome_branch: Option<String>,
        effects_applied: Vec<String>,
    },
    StatModified {
        character_id: String,
        stat_name: String,
        previous_value: i32,
        new_value: i32,
        reason: String,
    },
    FlagChanged { flag_name: String, new_value: bool, reason: String },
    SessionStarted {
        session_number: u32,
        session_name: Option<String>,
        players_present: Vec<String>,
    },
    SessionEnded { duration_minutes: u32, summary: String },
    Custom { event_subtype: String, title: String, description: String, data: C },
}

/// The name `{:?}` writes for a marker's importance.
pub open spec fn importance_name(m: MarkerImportance) -> Seq<char> {
    match m {
        MarkerImportance::Minor => "Minor"@,
        MarkerImportance::Notable => "Notable"@,
        MarkerImportance::Major => "Major"@,
        MarkerImportance::Critical => "Critical"@,
    }
}

/// The name `{:?}` writes for a marker's kind.
pub open spec fn marker_type_name(m: DmMarkerType) -> Seq<char> {
    match m {
        DmMarkerType::Note => "Note"@,
        DmMarkerType::PlotPoint => "PlotPoint"@,
        DmMarkerType::CharacterMoment => "CharacterMoment"@,
        DmMarkerType::WorldEvent => "WorldEvent"@,
        DmMarkerType::PlayerDecision => "PlayerDecision"@,
        DmMarkerType::Foreshadowing => "Foreshadowing"@,
        DmMarkerType::Callback => "Callback"@,
        DmMarkerType::Custom => "Custom"@,
    }
}

fn importance_text(m: MarkerImportance) -> (r: String)
    ensures
        r@ == importance_name(m),
{
    match m {
        MarkerImportance::Minor => to_owned_string("Minor"),
        MarkerImportance::Notable => to_owned_string("Notable"),
        MarkerImportance::Major => to_owned_string("Major"),
        MarkerImportance::Critical => to_owned_string("Critical"),
    }
}

fn marker_type_text(m: DmMarkerType) -> (r: String)
    ensures
        r@ == marker_type_name(m),
{
    match m {
        DmMarkerType::Note => to_owned_string("Note"),
        DmMarkerType::PlotPoint => to_owned_string("PlotPoint"),
        DmMarkerType::CharacterMoment => to_owned_string("CharacterMoment"),
        DmMarkerType::WorldEvent => to_owned_string("WorldEvent"),
        DmMarkerType::PlayerDecision => to_owned_string("PlayerDecision"),
        DmMarkerType::Foreshadowing => to_owned_string("Foreshadowing"),
        DmMarkerType::Callback => to_owned_string("Callback"),
        DmMarkerType::Custom => to_owned_string("Custom"),
    }
}

/// `t` is the UUID text of the optional ID `o`.
pub open spec fn optional_id_written(o: Option<u128>, t: Option<String>) -> bool {
    match (o, t) {
        (None, None) => true,
        (Some(v), Some(s)) => s@ == uuid_text(v),
        _ => false,
    }
}

/// `ts` are the UUID texts of `ids`, in order.
pub open spec fn ids_written(ids: Seq<u128>, ts: Seq<String>) -> bool {
    &&& ts.len() == ids.len()
    &&& forall|i: int| 0 <= i < ids.len() ==> (#[trigger] ts[i])@ == uuid_text(ids[i])
}

/// An item's source as the API shows it: a giver by its ID text.
pub open spec fn item_source_written(s: ItemSource, r: ItemSourceResponse) -> bool {
    match s {
        ItemSource::Gifted { from } => r matches ItemSourceResponse::Gifted { from: t } && t@
            == uuid_text(from),
        ItemSource::Found { location } => r == ItemSourceResponse::Found { location },
        ItemSource::Purchased { from, cost } => r == ItemSourceResponse::Purchased { from, cost },
        ItemSource::Looted { from } => r == ItemSourceResponse::Looted { from },
        ItemSource::Crafted => r == ItemSourceResponse::Crafted,
        ItemSource::Reward { for_what } => r == ItemSourceResponse::Reward { for_what },
        ItemSource::Stolen { from } => r == ItemSourceResponse::Stolen { from },
        ItemSource::Custom { description } => r == ItemSourceResponse::Custom { description },
    }
}

fn optional_id_text(o: Option<u128>) -> (r: Option<String>)
    ensures
        optional_id_written(o, r),
{
    match o {
        Some(v) => Some(uuid_to_string(v)),
        None => None,
    }
}

fn ids_text(ids: &Vec<u128>) -> (r: Vec<String>)
    ensures
        ids_written(ids@, r@),
{
    let mut r: Vec<String> = Vec::new();
    let mut i: usize = 0;
    while i < ids.len()
        invariant
            i <= ids@.len(),
            r@.len() == i,
            forall|j: int| 0 <= j < i ==> (#[trigger] r@[j])@ == uuid_text(ids@[j]),
        decreases ids@.len() - i,
    {
        r.push(uuid_to_string(ids[i]));
        i = i + 1;
    }
    r
}

/// `r` is how the API shows the story event kind `e`: the same kind, each
/// ID as its UUID text, a marker's importance and kind by name, an item's
/// source as `item_source_written` says, and every other field as it is.
pub open spec fn response_of<R, C>(
    e: StoryEventType<R, C>,
    r: StoryEventTypeResponse<R, C>,
) -> bool {
    match e {
        StoryEventType::LocationChange {
            from_location,
            to_location,
            character_id,
            travel_method,
        } => {
            &&& r matches StoryEventTypeResponse::LocationChange {
                from_location: r_from_location,
                to_location: r_to_location,
                character_id: r_character_id,
                travel_method: r_travel_method,
            }
            &&& optional_id_written(from_location, r_from_location)
            &&& r_to_location@ == uuid_text(to_location)
            &&& r_character_id@ == uuid_text(character_id)
            &&& r_travel_method == travel_method
        },
        StoryEventType::DialogueExchange {
            npc_id,
            npc_name,
            player_dialogue,
            npc_response,
            topics_discussed,
            tone,
        } => {
            &&& r matches StoryEventTypeResponse::DialogueExchange {
                npc_id: r_npc_id,
                npc_name: r_npc_name,
                player_dialogue: r_player_dialogue,
                npc_response: r_npc_response,
                topics_discussed: r_topics_discussed,
                tone: r_tone,
            }
            &&& r_npc_id@ == uuid_text(npc_id)
            &&& r_npc_name == npc_name
            &&& r_player_dialogue == player_dialogue
            &&& r_npc_response == npc_response
            &&& r_topics_discussed == topics_discussed
            &&& r_tone == tone
        },
        StoryEventType::CombatEvent {
            combat_type,
            participants,
            enemies,
            outcome,
            location_id,
            rounds,
        } => {
            &&& r matches StoryEventTypeResponse::CombatEvent {
                combat_type: r_combat_type,
                participants: r_participants,
                enemies: r_enemies,
                outcome: r_outcome,
                location_id: r_location_id,
                rounds: r_rounds,
            }
            &&& r_combat_type == combat_type
            &&& ids_written(participants@, r_participants@)
            &&& r_enemies == enemies
            &&& r_outcome == outcome
            &&& r_location_id@ == uuid_text(location_id)
            &&& r_rounds == rounds
        },
        StoryEventType::ChallengeAttempted {
            challenge_id,
            challenge_name,
            character_id,
            skill_used,
            difficulty,
            roll_result,
            modifier,
            outcome,
        } => {
            &&& r matches StoryEventTypeResponse::ChallengeAttempted {
                challenge_id: r_challenge_id,
                challenge_name: r_challenge_name,
                character_id: r_character_id,
                skill_used: r_skill_used,
                difficulty: r_difficulty,
                roll_result: r_roll_result,
                modifier: r_modifier,
                outcome: r_outcome,
            }
            &&& optional_id_written(challenge_id, r_challenge_id)
            &&& r_challenge_name == challenge_name
            &&& r_character_id@ == uuid_text(character_id)
            &&& r_skill_used == skill_used
            &&& r_difficulty == difficulty
            &&& r_roll_result == roll_result
            &&& r_modifier == modifier
            &&& r_outcome == outcome
        },
        StoryEventType::ItemAcquired {
            item_name,
            item_description,
            character_id,
            source,
            quantity,
        } => {
            &&& r matches StoryEventTypeResponse::ItemAcquired {
                item_name: r_item_name,
                item_description: r_item_description,
                character_id: r_character_id,
                source: r_source,
                quantity: r_quantity,
            }
            &&& r_item_name == item_name
            &&& r_item_description == item_description
            &&& r_character_id@ == uuid_text(character_id)
            &&& item_source_written(source, r_source)
            &&& r_quantity == quantity
        },
        StoryEventType::ItemTransferred {
            item_name,
            from_character,
            to_character,
            quantity,
            reason,
        } => {
            &&& r matches StoryEventTypeResponse::ItemTransferred {
                item_name: r_item_name,
                from_character: r_from_character,
                to_character: r_to_character,
                quantity: r_quantity,
                reason: r_reason,
            }
            &&& r_item_name == item_name
            &&& optional_id_written(from_character, r_from_character)
            &&& r_to_character@ == uuid_text(to_character)
            &&& r_quantity == quantity
            &&& r_reason == reason
        },
        StoryEventType::ItemUsed { item_name, character_id, target, effect, consumed } => {
            &&& r matches StoryEventTypeResponse::ItemUsed {
                item_name: r_item_name,
                character_id: r_character_id,
                target: r_target,
                effect: r_effect,
                consumed: r_consumed,
            }
            &&& r_item_name == item_name
            &&& r_character_id@ == uuid_text(character_id)
            &&& r_target == target
            &&& r_effect == effect
            &&& r_consumed == consumed
        },
        StoryEventType::RelationshipChanged { from_character, to_character, sentiment, reason } => {
            &&& r matches StoryEventTypeResponse::RelationshipChanged {
                from_character: r_from_character,
                to_character: r_to_character,
                sentiment: r_sentiment,
                reason: r_reason,
            }
            &&& r_from_character@ == uuid_text(from_character)
            &&& r_to_character@ == uuid_text(to_character)
            &&& r_sentiment == sentiment
            &&& r_reason == reason
        },
        StoryEventType::SceneTransition {
            from_scene,
            to_scene,
            from_scene_name,
            to_scene_name,
            trigger_reason,
        } => {
            &&& r matches StoryEventTypeResponse::SceneTransition {
                from_scene: r_from_scene,
                to_scene: r_to_scene,
                from_scene_name: r_from_scene_name,
                to_scene_name: r_to_scene_name,
                trigger_reason: r_trigger_reason,
            }
            &&& optional_id_written(from_scene, r_from_scene)
            &&& r_to_scene@ == uuid_text(to_scene)
            &&& r_from_scene_name == from_scene_name
            &&& r_to_scene_name == to_scene_name
            &&& r_trigger_reason == trigger_reason
        },
        StoryEventType::InformationRevealed {
            info_type,
            title,
            content,
            source,
            importance,
            persist_to_journal,
        } => {
            &&& r matches StoryEventTypeResponse::InformationRevealed {
                info_type: r_info_type,
                title: r_title,
                content: r_content,
                source: r_source,
                importance: r_importance,
                persist_to_journal: r_persist_to_journal,
            }
            &&& r_info_type == info_type
            &&& r_title == title
            &&& r_content == content
            &&& r_source == source
            &&& r_importance == importance
            &&& r_persist_to_journal == persist_to_journal
        },
        StoryEventType::NpcAction {
            npc_id,
            npc_name,
            action_type,
            description,
            dm_approved,
            dm_modified,
        } => {
            &&& r matches StoryEventTypeResponse::NpcAction {
                npc_id: r_npc_id,
                npc_name: r_npc_name,
                action_type: r_action_type,
                description: r_description,
                dm_approved: r_dm_approved,
                dm_modified: r_dm_modified,
            }
            &&& r_npc_id@ == uuid_text(npc_id)
            &&& r_npc_name == npc_name
            &&& r_action_type == action_type
            &&& r_description == description
            &&& r_dm_approved == dm_approved
            &&& r_dm_modified == dm_modified
        },
        StoryEventType::DmMarker { title, note, importance, marker_type } => {
            &&& r matches StoryEventTypeResponse::DmMarker {
                title: r_title,
                note: r_note,
                importance: r_importance,
                marker_type: r_marker_type,
            }
            &&& r_title == title
            &&& r_note == note
            &&& r_importance@ == importance_name(importance)
            &&& r_marker_type@ == marker_type_name(marker_type)
        },
        StoryEventType::NarrativeEventTriggered {
            narrative_event_id,
            narrative_event_name,
            outcome_branch,
            effects_applied,
        } => {
            &&& r matches StoryEventTypeResponse::NarrativeEventTriggered {
                narrative_event_id: r_narrative_event_id,
                narrative_event_name: r_narrative_event_name,
                outcome_branch: r_outcome_branch,
                effects_applied: r_effects_applied,
            }
            &&& r_narrative_event_id@ == uuid_text(narrative_event_id)
            &&& r_narrative_event_name == narrative_event_name
            &&& r_outcome_branch == outcome_branch
            &&& r_effects_applied == effects_applied
        },
        StoryEventType::StatModified {
            character_id,
            stat_name,
            previous_value,
            new_value,
            reason,
        } => {
            &&& r matches StoryEventTypeResponse::StatModified {
                character_id: r_character_id,
                stat_name: r_stat_name,
                previous_value: r_previous_value,
                new_value: r_new_value,
                reason: r_reason,
            }
            &&& r_character_id@ == uuid_text(character_id)
            &&& r_stat_name == stat_name
            &&& r_previous_value == previous_value
            &&& r_new_value == new_value
            &&& r_reason == reason
        },
        StoryEventType::FlagChanged { flag_name, new_value, reason } => {
            &&& r matches StoryEventTypeResponse::FlagChanged {
                flag_name: r_flag_name,
                new_value: r_new_value,
                reason: r_reason,
            }
            &&& r_flag_name == flag_name
            &&& r_new_value == new_value
            &&& r_reason == reason
        },
        StoryEventType::SessionStarted { session_number, session_name, players_present } => {
            &&& r matches StoryEventTypeResponse::SessionStarted {
                session_number: r_session_number,
                session_name: r_session_name,
                players_present: r_players_present,
            }
            &&& r_session_number == session_number
            &&& r_session_name == session_name
            &&& r_players_present == players_present
        },
        StoryEventType::SessionEnded { duration_minutes, summary } => {
            &&& r matches StoryEventTypeResponse::SessionEnded {
                duration_minutes: r_duration_minutes,
                summary: r_summary,
            }
            &&& r_duration_minutes == duration_minutes
            &&& r_summary == summary
        },
        StoryEventType::Custom { event_subtype, title, description, data } => {
            &&& r matches StoryEventTypeResponse::Custom {
                event_subtype: r_event_subtype,
                title: r_title,
                description: r_description,
                data: r_data,
            }
            &&& r_event_subtype == event_subtype
            &&& r_title == title
            &&& r_description == description
            &&& r_data == data
        },
    }
}

impl<R, C> StoryEventTypeResponse<R, C> {
    /// How the API shows a story event's kind (`response_of`).
    pub fn from_event_type(e: StoryEventType<R, C>) -> (r: StoryEventTypeResponse<R, C>)
        ensures
            response_of(e, r),
    {
        match e {
            StoryEventType::LocationChange {
                from_location,
                to_location,
                character_id,
                travel_method,
            } => StoryEventTypeResponse::LocationChange {
                from_location: optional_id_text(from_location),
                to_location: uuid_to_string(to_location),
                character_id: uuid_to_string(character_id),
                travel_method,
            },
            StoryEventType::DialogueExchange {
                npc_id,
                npc_name,
                player_dialogue,
                npc_response,
                topics_discussed,
                tone,
            } => StoryEventTypeResponse::DialogueExchange {
                npc_id: uuid_to_string(npc_id),
                npc_name,
                player_dialogue,
                npc_response,
                topics_discussed,
                tone,
            },
            StoryEventType::CombatEvent {
                combat_type,
                participants,
                enemies,
                outcome,
                location_id,
                rounds,
            } => StoryEventTypeResponse::CombatEvent {
                combat_type,
                participants: ids_text(&participants),
                enemies,
                outcome,
                location_id: uuid_to_string(location_id),
                rounds,
            },
            StoryEventType::ChallengeAttempted {
                challenge_id,
                challenge_name,
                character_id,
                skill_used,
                difficulty,
                roll_result,
                modifier,
                outcome,
            } => StoryEventTypeResponse::ChallengeAttempted {
                challenge_id: optional_id_text(challenge_id),
                challenge_name,
                character_id: uuid_to_string(character_id),
                skill_used,
                difficulty,
                roll_result,
                modifier,
                outcome,
            },
            StoryEventType::ItemAcquired {
                item_name,
                item_description,
                character_id,
                source,
                quantity,
            } => StoryEventTypeResponse::ItemAcquired {
                item_name,
                item_description,
                character_id: uuid_to_string(character_id),
                source: ItemSourceResponse::from_item_source(source),
                quantity,
            },
            StoryEventType::ItemTransferred {
                item_name,
                from_character,
                to_character,
                quantity,
                reason,
            } => StoryEventTypeResponse::ItemTransferred {
                item_name,
                from_character: optional_id_text(from_character),
                to_character: uuid_to_string(to_character),
                quantity,
                reason,
            },
            StoryEventType::ItemUsed {
                item_name,
                character_id,
                target,
                effect,
                consumed,
            } => StoryEventTypeResponse::ItemUsed {
                item_name,
                character_id: uuid_to_string(character_id),
                target,
                effect,
                consumed,
            },
            StoryEventType::RelationshipChanged {
                from_character,
                to_character,
                sentiment,
                reason,
            } => StoryEventTypeResponse::RelationshipChanged {
                from_character: uuid_to_string(from_character),
                to_character: uuid_to_string(to_character),
                sentiment,
                reason,
            },
            StoryEventType::SceneTransition {
                from_scene,
                to_scene,
                from_scene_name,
                to_scene_name,
                trigger_reason,
            } => StoryEventTypeResponse::SceneTransition {
                from_scene: optional_id_text(from_scene),
                to_scene: uuid_to_string(to_scene),
                from_scene_name,
                to_scene_name,
                trigger_reason,
            },
            StoryEventType::InformationRevealed {
                info_type,
                title,
                content,
                source,
                importance,
                persist_to_journal,
            } => StoryEventTypeResponse::InformationRevealed {
                info_type,
                title,
                content,
                source,
                importance,
                persist_to_journal,
            },
            StoryEventType::NpcAction {
                npc_id,
                npc_name,
                action_type,
                description,
                dm_approved,
                dm_modified,
            } => StoryEventTypeResponse::NpcAction {
                npc_id: uuid_to_string(npc_id),
                npc_name,
                action_type,
                description,
                dm_approved,
                dm_modified,
            },
            StoryEventType::DmMarker {
                title,
                note,
                importance,
                marker_type,
            } => StoryEventTypeResponse::DmMarker {
                title,
                note,
                importance: importance_text(importance),
                marker_type: marker_type_text(marker_type),
            },
            StoryEventType::NarrativeEventTriggered {
                narrative_event_id,
                narrative_event_name,
                outcome_branch,
                effects_applied,
            } => StoryEventTypeResponse::NarrativeEventTriggered {
                narrative_event_id: uuid_to_string(narrative_event_id),
                narrative_event_name,
                outcome_branch,
                effects_applied,
            },
            StoryEventType::StatModified {
                character_id,
                stat_name,
                previous_value,
                new_value,
                reason,
            } => StoryEventTypeResponse::StatModified {
                character_id: uuid_to_string(character_id),
                stat_name,
                previous_value,
                new_value,
                reason,
            },
            StoryEventType::FlagChanged {
                flag_name,
                new_value,
                reason,
            } => StoryEventTypeResponse::FlagChanged {
                flag_name,
                new_value,
                reason,
            },
            StoryEventType::SessionStarted {
                session_number,
                session_name,
                players_present,
            } => StoryEventTypeResponse::SessionStarted {
                session_number,
                session_name,
                players_present,
            },
            StoryEventType::SessionEnded {
                duration_minutes,
                summary,
            } => StoryEventTypeResponse::SessionEnded {
                duration_minutes,
                summary,
            },
            StoryEventType::Custom {
                event_subtype,
                title,
                description,
                data,
            } => StoryEventTypeResponse::Custom {
                event_subtype,
                title,
                description,
                data,
            },
        }
    }
}

} // verus!
