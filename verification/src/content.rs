//! Scenes, acts, player characters, exports, suggestions and workflows
//! through the HTTP API: the requests and answers, and the validation of
//! them before a service is called.

use crate::api::{bad_request, internal_error, not_found, parse_id, ApiError};
use crate::ids::{uuid_parsed, uuid_text, uuid_to_string, SessionId, WorldId};
use crate::snapshot::{scene_data, time_context_debug};
use crate::kinds::{monomyth_stage_from, parse_monomyth_stage, MonomythStage};
use crate::location::non_empty;
use crate::session::SessionManager;
use crate::stored::{ids_from_stored, parsed_ids};
use crate::text::{concat_str, str_eq, to_owned_string};
use crate::world::{Scene, TimeContext};
use std::collections::HashMap;
use vstd::prelude::*;

verus! {

/// Body of a request creating a scene.
#[derive(Clone, Debug)]
pub struct CreateSceneRequest {
    pub name: String,
    pub location_id: String,
    pub time_context: Option<String>,
    pub backdrop_override: Option<String>,
    pub featured_characters: Vec<String>,
    pub directorial_notes: String,
    pub order: u32,
}

/// A scene as the API shows it.
#[derive(Clone, Debug)]
pub struct SceneResponse {
    pub id: String,
    pub act_id: String,
    pub name: String,
    pub location_id: String,
    pub time_context: String,
    pub backdrop_override: Option<String>,
    pub featured_characters: Vec<String>,
    pub directorial_notes: String,
    pub order: u32,
}

impl SceneResponse {
    /// The API's form of a scene: IDs as UUID text and its time as `{:?}`
    /// writes it.
    pub fn from_scene(s: &Scene) -> (r: SceneResponse)
        ensures
            r.id@ == uuid_text(s.id),
            r.act_id@ == uuid_text(s.act_id),
            r.name == s.name,
            r.location_id@ == uuid_text(s.location_id),
            r.time_context@ == time_context_debug(s.time_context),
            r.backdrop_override == s.backdrop_override,
            r.featured_characters@.len() == s.featured_characters@.len(),
            forall|i: int|
                0 <= i < s.featured_characters@.len() ==> (#[trigger] r.featured_characters@[i])@
                    == uuid_text(s.featured_characters@[i]),
            r.directorial_notes == s.directorial_notes,
            r.order == s.order,
    {
        let d = scene_data(s);
        SceneResponse {
            id: d.id,
            act_id: uuid_to_string(s.act_id),
            name: d.name,
            location_id: d.location_id,
            time_context: d.time_context,
            backdrop_override: d.backdrop_override,
            featured_characters: d.featured_characters,
            directorial_notes: d.directorial_notes,
            order: s.order,
        }
    }
}

/// Body of a request replacing a scene's directorial notes.
#[derive(Clone, Debug)]
pub struct UpdateNotesRequest {
    pub notes: String,
}

/// The scene to create, read from a request. The time is a custom one
/// when given; notes are set when not empty.
#[derive(Clone, Debug)]
pub struct NewScene {
    pub act_id: u128,
    pub name: String,
    pub location_id: u128,
    pub time_context: Option<TimeContext>,
    pub directorial_notes: Option<String>,
    pub backdrop_override: Option<String>,
    pub order: u32,
    pub featured_characters: Vec<u128>,
}

/// Reads the scene a creation request asks for. The act and location IDs
/// must be UUIDs ("Invalid act ID", "Invalid location ID"); a featured
/// character ID that is no UUID is left out.
pub fn new_scene(act_id: &str, req: CreateSceneRequest) -> (r: Result<NewScene, ApiError>)
    ensures
        match (uuid_parsed(act_id@), uuid_parsed(req.location_id@)) {
            (None, _) => r matches Err(e) && e.status == bad_request() && e.message@
                == "Invalid act ID"@,
            (Some(_), None) => r matches Err(e) && e.status == bad_request() && e.message@
                == "Invalid location ID"@,
            (Some(a), Some(l)) => r matches Ok(s) && {
                &&& s.act_id == a
                &&& s.location_id == l
                &&& s.name == req.name
                &&& (match req.time_context {
                    Some(t) => s.time_context matches Some(TimeContext::Custom(c)) && c == t,
                    None => s.time_context is None,
                })
                &&& s.directorial_notes == non_empty(req.directorial_notes)
                &&& s.backdrop_override == req.backdrop_override
                &&& s.order == req.order
                &&& s.featured_characters@ == parsed_ids(req.featured_characters@)
            },
        },
{
    let a = match parse_id(act_id, "Invalid act ID") {
        Ok(v) => v,
        Err(e) => {
            return Err(e);
        },
    };
    let l = match parse_id(req.location_id.as_str(), "Invalid location ID") {
        Ok(v) => v,
        Err(e) => {
            return Err(e);
        },
    };
    let featured_characters = ids_from_stored(&req.featured_characters);
    let CreateSceneRequest {
        name,
        location_id: _,
        time_context,
        backdrop_override,
        featured_characters: _,
        directorial_notes,
        order,
    } = req;
    let time_context = match time_context {
        Some(t) => Some(TimeContext::Custom(t)),
        None => None,
    };
    let directorial_notes = if directorial_notes.unicode_len() == 0 {
        None
    } else {
        Some(directorial_notes)
    };
    Ok(
        NewScene {
            act_id: a,
            name,
            location_id: l,
            time_context,
            directorial_notes,
            backdrop_override,
            order,
            featured_characters,
        },
    )
}

/// The IDs a scene change request names: the scene's ("Invalid scene ID")
/// and then its location's ("Invalid location ID").
pub fn scene_update_ids(id: &str, req: &CreateSceneRequest) -> (r: Result<(u128, u128), ApiError>)
    ensures
        match (uuid_parsed(id@), uuid_parsed(req.location_id@)) {
            (None, _) => r matches Err(e) && e.status == bad_request() && e.message@
                == "Invalid scene ID"@,
            (Some(_), None) => r matches Err(e) && e.status == bad_request() && e.message@
                == "Invalid location ID"@,
            (Some(s), Some(l)) => r == Ok::<(u128, u128), ApiError>((s, l)),
        },
{
    let s = match parse_id(id, "Invalid scene ID") {
        Ok(v) => v,
        Err(e) => {
            return Err(e);
        },
    };
    let l = match parse_id(req.location_id.as_str(), "Invalid location ID") {
        Ok(v) => v,
        Err(e) => {
            return Err(e);
        },
    };
    Ok((s, l))
}

/// A stored scene changed by a request (whose location ID read as
/// `location_id`): its name, location, backdrop, notes (even empty ones)
/// and order are replaced, its time only where one is given (as a custom
/// one), and its featured characters by the request's IDs that are UUIDs.
/// Its ID and act stay.
pub fn apply_scene_update(scene: Scene, location_id: u128, req: CreateSceneRequest) -> (r: Scene)
    ensures
        r.id == scene.id,
        r.act_id == scene.act_id,
        r.name == req.name,
        r.location_id == location_id,
        r.backdrop_override == req.backdrop_override,
        r.directorial_notes == req.directorial_notes,
        r.order == req.order,
        r.time_context == (match req.time_context {
            Some(t) => TimeContext::Custom(t),
            None => scene.time_context,
        }),
        r.featured_characters@ == parsed_ids(req.featured_characters@),
{
    let featured_characters = ids_from_stored(&req.featured_characters);
    let time_context = match req.time_context {
        Some(t) => TimeContext::Custom(t),
        None => scene.time_context,
    };
    Scene {
        id: scene.id,
        act_id: scene.act_id,
        name: req.name,
        location_id,
        time_context,
        backdrop_override: req.backdrop_override,
        featured_characters,
        directorial_notes: req.directorial_notes,
        order: req.order,
    }
}

/// Body of a request creating an act.
#[derive(Clone, Debug)]
pub struct CreateActRequest {
    pub name: String,
    pub stage: String,
    pub description: String,
    pub order: u32,
}

/// An act as the API shows it.
#[derive(Clone, Debug)]
pub struct ActResponse {
    pub id: String,
    pub world_id: String,
    pub name: String,
    pub stage: String,
    pub description: String,
    pub order: u32,
}

/// The act to create, read from a request.
#[derive(Clone, Debug)]
pub struct NewAct {
    pub world_id: u128,
    pub name: String,
    pub stage: MonomythStage,
    pub description: Option<String>,
    pub order: u32,
}

/// Reads the act a creation request asks for; the world ID must be a UUID
/// ("Invalid world ID") and an unknown stage reads as `OrdinaryWorld`.
pub fn new_act(world_id: &str, req: CreateActRequest) -> (r: Result<NewAct, ApiError>)
    ensures
        match uuid_parsed(world_id@) {
            None => r matches Err(e) && e.status == bad_request() && e.message@
                == "Invalid world ID"@,
            Some(w) => r matches Ok(a) && a.world_id == w && a.name == req.name && a.stage
                == monomyth_stage_from(req.stage@) && a.description == non_empty(req.description)
                && a.order == req.order,
        },
{
    let w = match parse_id(world_id, "Invalid world ID") {
        Ok(v) => v,
        Err(e) => {
            return Err(e);
        },
    };
    let stage = parse_monomyth_stage(req.stage.as_str());
    let CreateActRequest { name, stage: _, description, order } = req;
    let description = if description.unicode_len() == 0 {
        None
    } else {
        Some(description)
    };
    Ok(NewAct { world_id: w, name, stage, description, order })
}

/// A value of a field of a character sheet.
#[derive(Clone, Debug)]
pub enum FieldValueDto {
    Number(i32),
    Text(String),
    Boolean(bool),
    Resource { current: i32, max: i32 },
    List(Vec<String>),
    SkillEntry { skill_id: String, proficient: bool, bonus: i32 },
}

/// A value of a field of a character sheet, as the sheet keeps it.
#[derive(Clone, Debug)]
pub enum FieldValue {
    Number(i32),
    Text(String),
    Boolean(bool),
    Resource { current: i32, max: i32 },
    List(Vec<String>),
    SkillEntry { skill_id: String, proficient: bool, bonus: i32 },
}

/// The sheet's value for a value sent over the API.
pub open spec fn field_value_of(d: FieldValueDto) -> FieldValue {
    match d {
        FieldValueDto::Number(n) => FieldValue::Number(n),
        FieldValueDto::Text(s) => FieldValue::Text(s),
        FieldValueDto::Boolean(b) => FieldValue::Boolean(b),
        FieldValueDto::Resource { current, max } => FieldValue::Resource { current, max },
        FieldValueDto::List(l) => FieldValue::List(l),
        FieldValueDto::SkillEntry { skill_id, proficient, bonus } => FieldValue::SkillEntry {
            skill_id,
            proficient,
            bonus,
        },
    }
}

/// The API's form of a sheet's value.
pub open spec fn field_value_dto_of(v: FieldValue) -> FieldValueDto {
    match v {
        FieldValue::Number(n) => FieldValueDto::Number(n),
        FieldValue::Text(s) => FieldValueDto::Text(s),
        FieldValue::Boolean(b) => FieldValueDto::Boolean(b),
        FieldValue::Resource { current, max } => FieldValueDto::Resource { current, max },
        FieldValue::List(l) => FieldValueDto::List(l),
        FieldValue::SkillEntry { skill_id, proficient, bonus } => FieldValueDto::SkillEntry {
            skill_id,
            proficient,
            bonus,
        },
    }
}

impl From<FieldValueDto> for FieldValue {
    fn from(d: FieldValueDto) -> (r: FieldValue) {
        match d {
            FieldValueDto::Number(n) => FieldValue::Number(n),
            FieldValueDto::Text(s) => FieldValue::Text(s),
            FieldValueDto::Boolean(b) => FieldValue::Boolean(b),
            FieldValueDto::Resource { current, max } => FieldValue::Resource { current, max },
            FieldValueDto::List(l) => FieldValue::List(l),
            FieldValueDto::SkillEntry { skill_id, proficient, bonus } => FieldValue::SkillEntry {
                skill_id,
                proficient,
                bonus,
            },
        }
    }
}

impl vstd::std_specs::convert::FromSpecImpl<FieldValueDto> for FieldValue {
    open spec fn obeys_from_spec() -> bool {
        true
    }

    open spec fn from_spec(d: FieldValueDto) -> FieldValue {
        field_value_of(d)
    }
}

impl From<FieldValue> for FieldValueDto {
    fn from(v: FieldValue) -> (r: FieldValueDto) {
        match v {
            FieldValue::Number(n) => FieldValueDto::Number(n),
            FieldValue::Text(s) => FieldValueDto::Text(s),
            FieldValue::Boolean(b) => FieldValueDto::Boolean(b),
            FieldValue::Resource { current, max } => FieldValueDto::Resource { current, max },
            FieldValue::List(l) => FieldValueDto::List(l),
            FieldValue::SkillEntry { skill_id, proficient, bonus } => FieldValueDto::SkillEntry {
                skill_id,
                proficient,
                bonus,
            },
        }
    }
}

impl vstd::std_specs::convert::FromSpecImpl<FieldValue> for FieldValueDto {
    open spec fn obeys_from_spec() -> bool {
        true
    }

    open spec fn from_spec(v: FieldValue) -> FieldValueDto {
        field_value_dto_of(v)
    }
}

/// A sheet value survives the trip to the API's form and back, and the
/// API's form survives the trip to the sheet and back.
pub proof fn field_value_round_trip(v: FieldValue, d: FieldValueDto)
    ensures
        field_value_of(field_value_dto_of(v)) == v,
        field_value_dto_of(field_value_of(d)) == d,
{
}

/// The values of a character sheet, by field ID.
#[derive(Clone, Debug)]
pub struct CharacterSheetDataDto {
    pub values: HashMap<String, FieldValueDto>,
}

/// Body of a request creating a player character.
#[derive(Clone, Debug)]
pub struct CreatePlayerCharacterRequestDto {
    pub name: String,
    pub description: Option<String>,
    pub starting_location_id: String,
    pub sheet_data: Option<CharacterSheetDataDto>,
    pub sprite_asset: Option<String>,
    pub portrait_asset: Option<String>,
}

/// Body of a request changing a player character.
#[derive(Clone, Debug)]
pub struct UpdatePlayerCharacterRequestDto {
    pub name: Option<String>,
    pub description: Option<String>,
    pub sheet_data: Option<CharacterSheetDataDto>,
    pub sprite_asset: Option<String>,
    pub portrait_asset: Option<String>,
}

/// A player character as the API shows it.
#[derive(Clone, Debug)]
pub struct PlayerCharacterResponseDto {
    pub id: String,
    pub session_id: String,
    pub user_id: String,
    pub world_id: String,
    pub name: String,
    pub description: Option<String>,
    pub sheet_data: Option<CharacterSheetDataDto>,
    pub current_location_id: String,
    pub starting_location_id: String,
    pub sprite_asset: Option<String>,
    pub portrait_asset: Option<String>,
    pub created_at: String,
    pub last_active_at: String,
}

/// Body of a request moving a player character.
#[derive(Clone, Debug)]
pub struct UpdateLocationRequestDto {
    pub location_id: String,
}

/// Answer to moving a player character: the scene found there, if any.
#[derive(Clone, Debug)]
pub struct UpdateLocationResponseDto {
    pub success: bool,
    pub scene_id: Option<String>,
}

/// What creating a player character in a session needs: the session (a
/// UUID, "Invalid session ID"; it must be active, else "Not Found":
/// "Session not found"), its world, and the starting location (a UUID,
/// "Invalid location ID").
pub fn player_character_context(
    m: &SessionManager,
    session_id: &str,
    req: &CreatePlayerCharacterRequestDto,
) -> (r: Result<(SessionId, WorldId, u128), ApiError>)
    ensures
        match uuid_parsed(session_id@) {
            None => r matches Err(e) && e.status == bad_request() && e.message@
                == "Invalid session ID"@,
            Some(s) => if !m.spec_sessions().contains_key(s) {
                r matches Err(e) && e.status == not_found() && e.message@ == "Session not found"@
            } else {
                match uuid_parsed(req.starting_location_id@) {
                    None => r matches Err(e) && e.status == bad_request() && e.message@
                        == "Invalid location ID"@,
                    Some(l) => r == Ok::<(SessionId, WorldId, u128), ApiError>(
                        (SessionId(s), m.spec_sessions()[s].spec_world_id(), l),
                    ),
                }
            },
        },
{
    let s = match parse_id(session_id, "Invalid session ID") {
        Ok(v) => v,
        Err(e) => {
            return Err(e);
        },
    };
    let world = match m.get_session(SessionId(s)) {
        Some(session) => session.world_id(),
        None => {
            return Err(ApiError::not_found("Session not found"));
        },
    };
    let l = match parse_id(req.starting_location_id.as_str(), "Invalid location ID") {
        Ok(v) => v,
        Err(e) => {
            return Err(e);
        },
    };
    Ok((SessionId(s), world, l))
}

/// Reads the IDs of a request moving a player character: the character's
/// ("Invalid player character ID") and the location's ("Invalid location ID").
pub fn move_ids(pc_id: &str, req: &UpdateLocationRequestDto) -> (r: Result<(u128, u128), ApiError>)
    ensures
        match (uuid_parsed(pc_id@), uuid_parsed(req.location_id@)) {
            (None, _) => r matches Err(e) && e.status == bad_request() && e.message@
                == "Invalid player character ID"@,
            (Some(_), None) => r matches Err(e) && e.status == bad_request() && e.message@
                == "Invalid location ID"@,
            (Some(p), Some(l)) => r == Ok::<(u128, u128), ApiError>((p, l)),
        },
{
    let p = match parse_id(pc_id, "Invalid player character ID") {
        Ok(v) => v,
        Err(e) => {
            return Err(e);
        },
    };
    let l = match parse_id(req.location_id.as_str(), "Invalid location ID") {
        Ok(v) => v,
        Err(e) => {
            return Err(e);
        },
    };
    Ok((p, l))
}

/// Query of a request exporting a world.
#[derive(Clone, Debug)]
pub struct ExportQuery {
    pub format: Option<String>,
}

/// Whether an export is written compressed: only when the format asked
/// for is "compressed".
pub fn export_compressed(q: &ExportQuery) -> (r: bool)
    ensures
        r == (q.format matches Some(f) && f@ == "compressed"@),
{
    match &q.format {
        Some(f) => str_eq(f.as_str(), "compressed"),
        None => false,
    }
}

/// Answer to a suggestion request that was queued.
#[derive(Clone, Debug)]
pub struct SuggestionQueuedResponse {
    pub request_id: String,
    pub status: String,
}

/// The answer for a queued suggestion request.
pub fn suggestion_queued(request_id: String) -> (r: SuggestionQueuedResponse)
    ensures
        r.request_id == request_id,
        r.status@ == "queued"@,
{
    SuggestionQueuedResponse { request_id, status: to_owned_string("queued") }
}

/// What a suggestion is asked for.
#[derive(Clone, Copy, Debug, PartialEq, Eq, Structural)]
pub enum SuggestionType {
    CharacterName,
    CharacterDescription,
    CharacterWants,
    CharacterFears,
    CharacterBackstory,
    LocationName,
    LocationDescription,
    LocationAtmosphere,
    LocationFeatures,
    LocationSecrets,
}

/// The field a suggestion fills, as the queue and the answers name it.
pub open spec fn suggestion_field(t: SuggestionType) -> Seq<char> {
    match t {
        SuggestionType::CharacterName => "character_name"@,
        SuggestionType::CharacterDescription => "character_description"@,
        SuggestionType::CharacterWants => "character_wants"@,
        SuggestionType::CharacterFears => "character_fears"@,
        SuggestionType::CharacterBackstory => "character_backstory"@,
        SuggestionType::LocationName => "location_name"@,
        SuggestionType::LocationDescription => "location_description"@,
        SuggestionType::LocationAtmosphere => "location_atmosphere"@,
        SuggestionType::LocationFeatures => "location_features"@,
        SuggestionType::LocationSecrets => "location_secrets"@,
    }
}

impl SuggestionType {
    /// The field a suggestion fills.
    pub fn field_type(&self) -> (r: String)
        ensures
            r@ == suggestion_field(*self),
    {
        match self {
            SuggestionType::CharacterName => to_owned_string("character_name"),
            SuggestionType::CharacterDescription => to_owned_string("character_description"),
            SuggestionType::CharacterWants => to_owned_string("character_wants"),
            SuggestionType::CharacterFears => to_owned_string("character_fears"),
            SuggestionType::CharacterBackstory => to_owned_string("character_backstory"),
            SuggestionType::LocationName => to_owned_string("location_name"),
            SuggestionType::LocationDescription => to_owned_string("location_description"),
            SuggestionType::LocationAtmosphere => to_owned_string("location_atmosphere"),
            SuggestionType::LocationFeatures => to_owned_string("location_features"),
            SuggestionType::LocationSecrets => to_owned_string("location_secrets"),
        }
    }
}

/// A suggestion request the queue refused: "Internal Server Error"
/// ("Failed to enqueue suggestion: " and the failure).
pub fn enqueue_failed(failure: &str) -> (e: ApiError)
    ensures
        e.status == internal_error(),
        e.message@ == "Failed to enqueue suggestion: "@ + failure@,
{
    ApiError::internal(concat_str("Failed to enqueue suggestion: ", failure))
}

/// A sheet template in a list, without its sections.
#[derive(Clone, Debug)]
pub struct SheetTemplateSummary {
    pub id: String,
    pub name: String,
    pub description: String,
    pub is_default: bool,
    pub section_count: usize,
    pub field_count: usize,
}

/// The sum of a list of counts.
pub open spec fn total(counts: Seq<usize>) -> nat
    decreases counts.len(),
{
    if counts.len() == 0 {
        0
    } else {
        total(counts.drop_last()) + counts.last() as nat
    }
}

/// Summarises a template from the number of fields of each of its sections.
pub fn sheet_template_summary(
    id: String,
    name: String,
    description: String,
    is_default: bool,
    fields_per_section: &Vec<usize>,
) -> (s: SheetTemplateSummary)
    requires
        total(fields_per_section@) <= usize::MAX,
    ensures
        s.id == id,
        s.name == name,
        s.description == description,
        s.is_default == is_default,
        s.section_count == fields_per_section@.len(),
        s.field_count == total(fields_per_section@),
{
    let mut sum: usize = 0;
    let mut i: usize = 0;
    while i < fields_per_section.len()
        invariant
            i <= fields_per_section@.len(),
            sum == total(fields_per_section@.take(i as int)),
            total(fields_per_section@) <= usize::MAX,
        decreases fields_per_section@.len() - i,
    {
        proof {
            assert(fields_per_section@.take(i + 1).drop_last() == fields_per_section@.take(i as int));
            lemma_total_prefix(fields_per_section@, i + 1);
        }
        sum = sum + fields_per_section[i];
        i = i + 1;
    }
    assert(fields_per_section@.take(i as int) == fields_per_section@);
    SheetTemplateSummary {
        id,
        name,
        description,
        is_default,
        section_count: fields_per_section.len(),
        field_count: sum,
    }
}

/// A prefix adds up to no more than the whole list.
proof fn lemma_total_prefix(c: Seq<usize>, k: int)
    requires
        0 <= k <= c.len(),
    ensures
        total(c.take(k)) <= total(c),
    decreases c.len() - k,
{
    if k < c.len() {
        lemma_total_prefix(c, k + 1);
        assert(c.take(k + 1).drop_last() == c.take(k));
    } else {
        assert(c.take(k) == c);
    }
}

/// The largest of a list of orders (0 for none).
pub open spec fn max_order(orders: Seq<u32>) -> u32
    decreases orders.len(),
{
    if orders.len() == 0 {
        0
    } else {
        let m = max_order(orders.drop_last());
        if orders.last() > m {
            orders.last()
        } else {
            m
        }
    }
}

/// The order of a section or field added after those with the orders
/// `orders`: one past the largest.
pub fn next_section_order(orders: &Vec<u32>) -> (r: u32)
    requires
        max_order(orders@) < u32::MAX,
    ensures
        r == max_order(orders@) + 1,
{
    let mut m: u32 = 0;
    let mut i: usize = 0;
    while i < orders.len()
        invariant
            i <= orders@.len(),
            m == max_order(orders@.take(i as int)),
        decreases orders@.len() - i,
    {
        assert(orders@.take(i + 1).drop_last() == orders@.take(i as int));
        if orders[i] > m {
            m = orders[i];
        }
        i = i + 1;
    }
    assert(orders@.take(i as int) == orders@);
    m + 1
}

/// A template may be changed through a world only when it belongs to it:
/// the world ID must be a UUID ("Invalid world ID") and the template's
/// world ("Forbidden": "Template does not belong to this world").
pub fn template_in_world(world_id: &str, template_world: u128) -> (r: Result<u128, ApiError>)
    ensures
        match uuid_parsed(world_id@) {
            None => r matches Err(e) && e.status == bad_request() && e.message@
                == "Invalid world ID"@,
            Some(w) => if w == template_world {
                r == Ok::<u128, ApiError>(w)
            } else {
                r matches Err(e) && e.status == 403 && e.message@
                    == "Template does not belong to this world"@
            },
        },
{
    let w = match parse_id(world_id, "Invalid world ID") {
        Ok(v) => v,
        Err(e) => {
            return Err(e);
        },
    };
    if w == template_world {
        Ok(w)
    } else {
        Err(ApiError { status: 403, message: to_owned_string("Template does not belong to this world") })
    }
}


/// The settings of a challenge that a change request may set by plain
/// values (its kind, difficulty, outcomes and triggers aside).
#[derive(Clone, Debug)]
pub struct ChallengeSettings {
    pub name: String,
    pub description: String,
    pub skill_id: u128,
    pub scene_id: Option<u128>,
    pub prerequisite_challenges: Vec<u128>,
    pub active: bool,
    pub order: u32,
    pub is_favorite: bool,
    pub tags: Vec<String>,
}

/// The plain-value part of a request changing a challenge; what is absent
/// stays.
#[derive(Clone, Debug)]
pub struct ChallengeChanges {
    pub name: Option<String>,
    pub description: Option<String>,
    pub skill_id: Option<String>,
    /// An empty text takes the challenge out of its scene.
    pub scene_id: Option<String>,
    pub prerequisite_challenges: Option<Vec<String>>,
    pub active: Option<bool>,
    pub order: Option<u32>,
    pub is_favorite: Option<bool>,
    pub tags: Option<Vec<String>>,
}

/// Applies a change request to a challenge's settings. A skill ID that is
/// no UUID is "Invalid skill ID"; a non-empty scene ID that is no UUID is
/// "Invalid scene ID" (the skill is checked first). Prerequisites that are
/// no UUID are left out.
pub fn apply_challenge_changes(s: ChallengeSettings, req: ChallengeChanges) -> (r: Result<
    ChallengeSettings,
    ApiError,
>)
    ensures
        req.skill_id matches Some(t) && uuid_parsed(t@) is None ==> (r matches Err(e) && e.status
            == bad_request() && e.message@ == "Invalid skill ID"@),
        !(req.skill_id matches Some(t) && uuid_parsed(t@) is None) && (req.scene_id matches Some(t)
            && t@.len() > 0 && uuid_parsed(t@) is None) ==> (r matches Err(e) && e.status
            == bad_request() && e.message@ == "Invalid scene ID"@),
        !(req.skill_id matches Some(t) && uuid_parsed(t@) is None) && !(req.scene_id matches Some(t)
            && t@.len() > 0 && uuid_parsed(t@) is None) ==> (r matches Ok(n) && {
            &&& n.name == crate::narrative::given_or(req.name, s.name)
            &&& n.description == crate::narrative::given_or(req.description, s.description)
            &&& n.skill_id == (match req.skill_id {
                Some(t) => uuid_parsed(t@)->0,
                None => s.skill_id,
            })
            &&& n.scene_id == (match req.scene_id {
                Some(t) => if t@.len() == 0 {
                    None
                } else {
                    uuid_parsed(t@)
                },
                None => s.scene_id,
            })
            &&& n.prerequisite_challenges@ == (match req.prerequisite_challenges {
                Some(p) => parsed_ids(p@),
                None => s.prerequisite_challenges@,
            })
            &&& n.active == crate::narrative::given_or(req.active, s.active)
            &&& n.order == crate::narrative::given_or(req.order, s.order)
            &&& n.is_favorite == crate::narrative::given_or(req.is_favorite, s.is_favorite)
            &&& n.tags == crate::narrative::given_or(req.tags, s.tags)
        }),
{
    let ChallengeSettings {
        mut name,
        mut description,
        mut skill_id,
        mut scene_id,
        mut prerequisite_challenges,
        mut active,
        mut order,
        mut is_favorite,
        mut tags,
    } = s;
    if let Some(v) = req.name {
        name = v;
    }
    if let Some(v) = req.description {
        description = v;
    }
    if let Some(t) = &req.skill_id {
        skill_id = match parse_id(t.as_str(), "Invalid skill ID") {
            Ok(v) => v,
            Err(e) => {
                return Err(e);
            },
        };
    }
    if let Some(t) = &req.scene_id {
        if t.unicode_len() == 0 {
            scene_id = None;
        } else {
            scene_id = match parse_id(t.as_str(), "Invalid scene ID") {
                Ok(v) => Some(v),
                Err(e) => {
                    return Err(e);
                },
            };
        }
    }
    if let Some(p) = &req.prerequisite_challenges {
        prerequisite_challenges = ids_from_stored(p);
    }
    if let Some(v) = req.active {
        active = v;
    }
    if let Some(v) = req.order {
        order = v;
    }
    if let Some(v) = req.is_favorite {
        is_favorite = v;
    }
    if let Some(v) = req.tags {
        tags = v;
    }
    Ok(
        ChallengeSettings {
            name,
            description,
            skill_id,
            scene_id,
            prerequisite_challenges,
            active,
            order,
            is_favorite,
            tags,
        },
    )
}

} // verus!
