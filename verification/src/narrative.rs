//! Narrative events through the HTTP API: the requests, and how an update
//! changes an event's settings.

use vstd::prelude::*;

verus! {

/// Query of a request listing narrative events.
#[derive(Clone, Debug)]
pub struct ListNarrativeEventsQuery {
    pub act_id: Option<String>,
    pub scene_id: Option<String>,
    pub tags: Option<String>,
}

/// Body of a request creating a narrative event.
#[derive(Clone, Debug)]
pub struct CreateNarrativeEventRequest {
    pub name: String,
    pub description: String,
    pub scene_direction: String,
    pub suggested_opening: Option<String>,
    pub is_repeatable: bool,
    pub delay_turns: u32,
    pub expires_after_turns: Option<u32>,
    pub priority: i32,
    pub is_active: bool,
    pub tags: Vec<String>,
}

/// Whether a new narrative event is active when the request does not say.
pub fn default_true() -> (b: bool)
    ensures
        b,
{
    true
}

/// Body of a request changing a narrative event; what is absent stays.
#[derive(Clone, Debug)]
pub struct UpdateNarrativeEventRequest {
    pub name: Option<String>,
    pub description: Option<String>,
    pub scene_direction: Option<String>,
    pub suggested_opening: Option<String>,
    pub is_repeatable: Option<bool>,
    pub delay_turns: Option<u32>,
    pub expires_after_turns: Option<u32>,
    pub priority: Option<i32>,
    pub is_active: Option<bool>,
    pub tags: Option<Vec<String>>,
}

/// The settings of a narrative event that a request may change.
#[derive(Clone, Debug)]
pub struct NarrativeEventSettings {
    pub name: String,
    pub description: String,
    pub scene_direction: String,
    pub suggested_opening: Option<String>,
    pub is_repeatable: bool,
    pub delay_turns: u32,
    pub expires_after_turns: Option<u32>,
    pub priority: i32,
    pub is_active: bool,
    pub tags: Vec<String>,
}

/// The new value of a setting: the request's when given, else the old.
pub open spec fn given_or<T>(given: Option<T>, old: T) -> T {
    match given {
        Some(v) => v,
        None => old,
    }
}

fn take_or<T>(given: Option<T>, old: T) -> (r: T)
    ensures
        r == given_or(given, old),
{
    match given {
        Some(v) => v,
        None => old,
    }
}

/// Applies a change request to an event's settings: each setting the
/// request gives replaces the old one (an opening or expiry that is given
/// is set; one that is absent stays as it was).
pub fn apply_narrative_update(s: NarrativeEventSettings, req: UpdateNarrativeEventRequest) -> (r:
    NarrativeEventSettings)
    ensures
        r.name == given_or(req.name, s.name),
        r.description == given_or(req.description, s.description),
        r.scene_direction == given_or(req.scene_direction, s.scene_direction),
        r.suggested_opening == (match req.suggested_opening {
            Some(o) => Some(o),
            None => s.suggested_opening,
        }),
        r.is_repeatable == given_or(req.is_repeatable, s.is_repeatable),
        r.delay_turns == given_or(req.delay_turns, s.delay_turns),
        r.expires_after_turns == (match req.expires_after_turns {
            Some(e) => Some(e),
            None => s.expires_after_turns,
        }),
        r.priority == given_or(req.priority, s.priority),
        r.is_active == given_or(req.is_active, s.is_active),
        r.tags == given_or(req.tags, s.tags),
{
    let NarrativeEventSettings {
        name,
        description,
        scene_direction,
        suggested_opening,
        is_repeatable,
        delay_turns,
        expires_after_turns,
        priority,
        is_active,
        tags,
    } = s;
    NarrativeEventSettings {
        name: take_or(req.name, name),
        description: take_or(req.description, description),
        scene_direction: take_or(req.scene_direction, scene_direction),
        suggested_opening: match req.suggested_opening {
            Some(o) => Some(o),
            None => suggested_opening,
        },
        is_repeatable: take_or(req.is_repeatable, is_repeatable),
        delay_turns: take_or(req.delay_turns, delay_turns),
        expires_after_turns: match req.expires_after_turns {
            Some(e) => Some(e),
            None => expires_after_turns,
        },
        priority: take_or(req.priority, priority),
        is_active: take_or(req.is_active, is_active),
        tags: take_or(req.tags, tags),
    }
}

/// The settings of an event a creation request asks for: all as given.
pub fn new_event_settings(req: CreateNarrativeEventRequest) -> (r: NarrativeEventSettings)
    ensures
        r.name == req.name,
        r.description == req.description,
        r.scene_direction == req.scene_direction,
        r.suggested_opening == req.suggested_opening,
        r.is_repeatable == req.is_repeatable,
        r.delay_turns == req.delay_turns,
        r.expires_after_turns == req.expires_after_turns,
        r.priority == req.priority,
        r.is_active == req.is_active,
        r.tags == req.tags,
{
    NarrativeEventSettings {
        name: req.name,
        description: req.description,
        scene_direction: req.scene_direction,
        suggested_opening: req.suggested_opening,
        is_repeatable: req.is_repeatable,
        delay_turns: req.delay_turns,
        expires_after_turns: req.expires_after_turns,
        priority: req.priority,
        is_active: req.is_active,
        tags: req.tags,
    }
}

/// A narrative event as the API shows it.
#[derive(Clone, Debug)]
pub struct NarrativeEventResponse {
    pub id: String,
    pub world_id: String,
    pub name: String,
    pub description: String,
    pub scene_direction: String,
    pub suggested_opening: Option<String>,
    pub trigger_count: u32,
    pub is_active: bool,
    pub is_triggered: bool,
    pub triggered_at: Option<String>,
    pub selected_outcome: Option<String>,
    pub is_repeatable: bool,
    pub delay_turns: u32,
    pub expires_after_turns: Option<u32>,
    pub priority: i32,
    pub is_favorite: bool,
    pub tags: Vec<String>,
    pub scene_id: Option<String>,
    pub location_id: Option<String>,
    pub act_id: Option<String>,
    pub chain_id: Option<String>,
    pub chain_position: Option<u32>,
    pub outcome_count: usize,
    pub trigger_condition_count: usize,
    pub created_at: String,
    pub updated_at: String,
}

} // verus!
