//! Story events (the gameplay timeline): the requests the HTTP API takes
//! and how a listing request picks what to read.

use crate::api::{bad_request, parse_id, parse_optional_id, ApiError};
use crate::ids::uuid_parsed;
use crate::text::{push_char, trim, trim_spec};
use vstd::prelude::*;

verus! {

/// Query of a request listing a world's story events.
#[derive(Clone, Debug)]
pub struct ListStoryEventsQuery {
    pub limit: Option<u32>,
    pub offset: Option<u32>,
    pub session_id: Option<String>,
    pub character_id: Option<String>,
    pub location_id: Option<String>,
    pub visible_only: Option<bool>,
    pub tags: Option<String>,
    pub search: Option<String>,
}

/// Which story events a listing reads.
#[derive(Clone, Debug)]
pub enum StoryEventSource {
    BySession(u128),
    ByCharacter(u128),
    ByLocation(u128),
    ByTags(Vec<String>),
    BySearch(String),
    /// The visible events, at most the limit.
    Visible,
    /// A page of all events.
    Paginated,
}

/// What a listing reads, for which world, and the page it reports.
#[derive(Clone, Debug)]
pub struct StoryEventQueryPlan {
    pub world_id: u128,
    pub source: StoryEventSource,
    pub limit: u32,
    pub offset: u32,
}

/// The pieces of `s` between commas (what `str::split(',')` yields): one
/// more piece than there are commas.
pub open spec fn split_commas(s: Seq<char>) -> Seq<Seq<char>>
    decreases s.len(),
{
    if s.len() == 0 {
        seq![Seq::<char>::empty()]
    } else {
        let r = split_commas(s.drop_last());
        if s.last() == ',' {
            r.push(Seq::<char>::empty())
        } else {
            r.update(r.len() - 1, r.last().push(s.last()))
        }
    }
}

proof fn lemma_split_nonempty(s: Seq<char>)
    ensures
        split_commas(s).len() >= 1,
    decreases s.len(),
{
    if s.len() > 0 {
        lemma_split_nonempty(s.drop_last());
    }
}

/// The tags a comma-separated list names, each trimmed of white space.
pub open spec fn tag_list(s: Seq<char>) -> Seq<Seq<char>> {
    split_commas(s).map_values(|t: Seq<char>| trim_spec(t))
}

/// Splits a comma-separated list of tags and trims each.
pub fn split_tags(s: &str) -> (r: Vec<String>)
    ensures
        r@.len() == tag_list(s@).len(),
        forall|i: int| 0 <= i < r@.len() ==> (#[trigger] r@[i])@ == tag_list(s@)[i],
{
    let n = s.unicode_len();
    let mut pieces: Vec<String> = Vec::new();
    let mut current = String::new();
    let mut i: usize = 0;
    proof {
        assert(s@.take(0) == Seq::<char>::empty());
    }
    while i < n
        invariant
            n == s@.len(),
            i <= n,
            pieces@.len() + 1 == split_commas(s@.take(i as int)).len(),
            forall|j: int|
                0 <= j < pieces@.len() ==> (#[trigger] pieces@[j])@ == trim_spec(
                    split_commas(s@.take(i as int))[j],
                ),
            current@ == split_commas(s@.take(i as int)).last(),
        decreases n - i,
    {
        let c = s.get_char(i);
        proof {
            assert(s@.take(i + 1).drop_last() == s@.take(i as int));
            lemma_split_nonempty(s@.take(i as int));
        }
        if c == ',' {
            let t = trim(current.as_str());
            pieces.push(t);
            current = String::new();
        } else {
            push_char(&mut current, c);
        }
        i = i + 1;
    }
    let t = trim(current.as_str());
    pieces.push(t);
    proof {
        assert(s@.take(n as int) == s@);
        lemma_split_nonempty(s@);
    }
    pieces
}

/// The page size a listing uses: the one asked for (50 when none) but no
/// more than 200.
pub open spec fn page_limit(asked: Option<u32>) -> u32 {
    let l = match asked {
        Some(l) => l,
        None => 50u32,
    };
    if l < 200 {
        l
    } else {
        200
    }
}

/// Decides what a request listing a world's story events reads. The world
/// ID must be a UUID ("Invalid world ID"). The first filter given wins, in
/// this order: session, character, location (each a UUID, else "Invalid
/// session ID" and so on), tags, search text, visible only; without one a
/// page of all events is read.
pub fn plan_story_event_query(world_id: &str, query: ListStoryEventsQuery) -> (r: Result<
    StoryEventQueryPlan,
    ApiError,
>)
    ensures
        uuid_parsed(world_id@) is None ==> (r matches Err(e) && e.status == bad_request()
            && e.message@ == "Invalid world ID"@),
        uuid_parsed(world_id@) matches Some(w) ==> {
            let limit = page_limit(query.limit);
            let offset = match query.offset {
                Some(o) => o,
                None => 0u32,
            };
            let id_error = |t: String, m: Seq<char>|
                uuid_parsed(t@) is None && (r matches Err(e) && e.status == bad_request()
                    && e.message@ == m);
            let planned = |src: StoryEventSource|
                r matches Ok(p) && p.world_id == w && p.limit == limit && p.offset == offset
                    && p.source == src;
            match query.session_id {
                Some(t) => match uuid_parsed(t@) {
                    Some(v) => planned(StoryEventSource::BySession(v)),
                    None => id_error(t, "Invalid session ID"@),
                },
                None => match query.character_id {
                    Some(t) => match uuid_parsed(t@) {
                        Some(v) => planned(StoryEventSource::ByCharacter(v)),
                        None => id_error(t, "Invalid character ID"@),
                    },
                    None => match query.location_id {
                        Some(t) => match uuid_parsed(t@) {
                            Some(v) => planned(StoryEventSource::ByLocation(v)),
                            None => id_error(t, "Invalid location ID"@),
                        },
                        None => match query.tags {
                            Some(t) => r matches Ok(p) && p.world_id == w && p.limit == limit
                                && p.offset == offset && (p.source matches StoryEventSource::ByTags(
                                tags,
                            ) && tags@.len() == tag_list(t@).len() && forall|i: int|
                                0 <= i < tags@.len() ==> (#[trigger] tags@[i])@ == tag_list(t@)[i]),
                            None => match query.search {
                                Some(t) => planned(StoryEventSource::BySearch(t)),
                                None => if query.visible_only == Some(true) {
                                    planned(StoryEventSource::Visible)
                                } else {
                                    planned(StoryEventSource::Paginated)
                                },
                            },
                        },
                    },
                },
            }
        },
{
    let w = match parse_id(world_id, "Invalid world ID") {
        Ok(w) => w,
        Err(e) => {
            return Err(e);
        },
    };
    let asked: u32 = match query.limit {
        Some(l) => l,
        None => 50,
    };
    let limit: u32 = if asked < 200 {
        asked
    } else {
        200
    };
    let offset: u32 = match query.offset {
        Some(o) => o,
        None => 0,
    };
    let source = if let Some(t) = query.session_id {
        match parse_id(t.as_str(), "Invalid session ID") {
            Ok(v) => StoryEventSource::BySession(v),
            Err(e) => {
                return Err(e);
            },
        }
    } else if let Some(t) = query.character_id {
        match parse_id(t.as_str(), "Invalid character ID") {
            Ok(v) => StoryEventSource::ByCharacter(v),
            Err(e) => {
                return Err(e);
            },
        }
    } else if let Some(t) = query.location_id {
        match parse_id(t.as_str(), "Invalid location ID") {
            Ok(v) => StoryEventSource::ByLocation(v),
            Err(e) => {
                return Err(e);
            },
        }
    } else if let Some(t) = query.tags {
        StoryEventSource::ByTags(split_tags(t.as_str()))
    } else if let Some(t) = query.search {
        StoryEventSource::BySearch(t)
    } else if query.visible_only == Some(true) {
        StoryEventSource::Visible
    } else {
        StoryEventSource::Paginated
    };
    Ok(StoryEventQueryPlan { world_id: w, source, limit, offset })
}

/// How much a dungeon master's marker matters.
#[derive(Clone, Copy, Debug, PartialEq, Eq, Structural)]
pub enum MarkerImportanceRequest {
    Minor,
    Notable,
    Major,
    Critical,
}

impl Default for MarkerImportanceRequest {
    fn default() -> (r: MarkerImportanceRequest)
        ensures
            r == MarkerImportanceRequest::Minor,
    {
        MarkerImportanceRequest::Minor
    }
}

/// The kind of a dungeon master's marker.
#[derive(Clone, Copy, Debug, PartialEq, Eq, Structural)]
pub enum DmMarkerTypeRequest {
    Note,
    PlotPoint,
    CharacterMoment,
    WorldEvent,
    PlayerDecision,
    Foreshadowing,
    Callback,
    Custom,
}

impl Default for DmMarkerTypeRequest {
    fn default() -> (r: DmMarkerTypeRequest)
        ensures
            r == DmMarkerTypeRequest::Note,
    {
        DmMarkerTypeRequest::Note
    }
}

/// How much a dungeon master's marker matters, as story events store it.
#[derive(Clone, Copy, Debug, PartialEq, Eq, Structural)]
pub enum MarkerImportance {
    Minor,
    Notable,
    Major,
    Critical,
}

/// The kind of a dungeon master's marker, as story events store it.
#[derive(Clone, Copy, Debug, PartialEq, Eq, Structural)]
pub enum DmMarkerType {
    Note,
    PlotPoint,
    CharacterMoment,
    WorldEvent,
    PlayerDecision,
    Foreshadowing,
    Callback,
    Custom,
}

/// The stored importance a requested one stands for.
pub open spec fn importance_of(req: MarkerImportanceRequest) -> MarkerImportance {
    match req {
        MarkerImportanceRequest::Minor => MarkerImportance::Minor,
        MarkerImportanceRequest::Notable => MarkerImportance::Notable,
        MarkerImportanceRequest::Major => MarkerImportance::Major,
        MarkerImportanceRequest::Critical => MarkerImportance::Critical,
    }
}

/// The request form of a stored importance.
pub open spec fn importance_request_of(m: MarkerImportance) -> MarkerImportanceRequest {
    match m {
        MarkerImportance::Minor => MarkerImportanceRequest::Minor,
        MarkerImportance::Notable => MarkerImportanceRequest::Notable,
        MarkerImportance::Major => MarkerImportanceRequest::Major,
        MarkerImportance::Critical => MarkerImportanceRequest::Critical,
    }
}

/// The stored kind a requested one stands for.
pub open spec fn marker_type_of(req: DmMarkerTypeRequest) -> DmMarkerType {
    match req {
        DmMarkerTypeRequest::Note => DmMarkerType::Note,
        DmMarkerTypeRequest::PlotPoint => DmMarkerType::PlotPoint,
        DmMarkerTypeRequest::CharacterMoment => DmMarkerType::CharacterMoment,
        DmMarkerTypeRequest::WorldEvent => DmMarkerType::WorldEvent,
        DmMarkerTypeRequest::PlayerDecision => DmMarkerType::PlayerDecision,
        DmMarkerTypeRequest::Foreshadowing => DmMarkerType::Foreshadowing,
        DmMarkerTypeRequest::Callback => DmMarkerType::Callback,
        DmMarkerTypeRequest::Custom => DmMarkerType::Custom,
    }
}

/// The request form of a stored kind.
pub open spec fn marker_type_request_of(m: DmMarkerType) -> DmMarkerTypeRequest {
    match m {
        DmMarkerType::Note => DmMarkerTypeRequest::Note,
        DmMarkerType::PlotPoint => DmMarkerTypeRequest::PlotPoint,
        DmMarkerType::CharacterMoment => DmMarkerTypeRequest::CharacterMoment,
        DmMarkerType::WorldEvent => DmMarkerTypeRequest::WorldEvent,
        DmMarkerType::PlayerDecision => DmMarkerTypeRequest::PlayerDecision,
        DmMarkerType::Foreshadowing => DmMarkerTypeRequest::Foreshadowing,
        DmMarkerType::Callback => DmMarkerTypeRequest::Callback,
        DmMarkerType::Custom => DmMarkerTypeRequest::Custom,
    }
}

impl From<MarkerImportanceRequest> for MarkerImportance {
    fn from(req: MarkerImportanceRequest) -> (r: MarkerImportance) {
        match req {
            MarkerImportanceRequest::Minor => MarkerImportance::Minor,
            MarkerImportanceRequest::Notable => MarkerImportance::Notable,
            MarkerImportanceRequest::Major => MarkerImportance::Major,
            MarkerImportanceRequest::Critical => MarkerImportance::Critical,
        }
    }
}

impl vstd::std_specs::convert::FromSpecImpl<MarkerImportanceRequest> for MarkerImportance {
    open spec fn obeys_from_spec() -> bool {
        true
    }

    open spec fn from_spec(req: MarkerImportanceRequest) -> MarkerImportance {
        importance_of(req)
    }
}

impl From<MarkerImportance> for MarkerImportanceRequest {
    fn from(m: MarkerImportance) -> (r: MarkerImportanceRequest) {
        match m {
            MarkerImportance::Minor => MarkerImportanceRequest::Minor,
            MarkerImportance::Notable => MarkerImportanceRequest::Notable,
            MarkerImportance::Major => MarkerImportanceRequest::Major,
            MarkerImportance::Critical => MarkerImportanceRequest::Critical,
        }
    }
}

impl vstd::std_specs::convert::FromSpecImpl<MarkerImportance> for MarkerImportanceRequest {
    open spec fn obeys_from_spec() -> bool {
        true
    }

    open spec fn from_spec(m: MarkerImportance) -> MarkerImportanceRequest {
        importance_request_of(m)
    }
}

impl From<DmMarkerTypeRequest> for DmMarkerType {
    fn from(req: DmMarkerTypeRequest) -> (r: DmMarkerType) {
        match req {
            DmMarkerTypeRequest::Note => DmMarkerType::Note,
            DmMarkerTypeRequest::PlotPoint => DmMarkerType::PlotPoint,
            DmMarkerTypeRequest::CharacterMoment => DmMarkerType::CharacterMoment,
            DmMarkerTypeRequest::WorldEvent => DmMarkerType::WorldEvent,
            DmMarkerTypeRequest::PlayerDecision => DmMarkerType::PlayerDecision,
            DmMarkerTypeRequest::Foreshadowing => DmMarkerType::Foreshadowing,
            DmMarkerTypeRequest::Callback => DmMarkerType::Callback,
            DmMarkerTypeRequest::Custom => DmMarkerType::Custom,
        }
    }
}

impl vstd::std_specs::convert::FromSpecImpl<DmMarkerTypeRequest> for DmMarkerType {
    open spec fn obeys_from_spec() -> bool {
        true
    }

    open spec fn from_spec(req: DmMarkerTypeRequest) -> DmMarkerType {
        marker_type_of(req)
    }
}

impl From<DmMarkerType> for DmMarkerTypeRequest {
    fn from(m: DmMarkerType) -> (r: DmMarkerTypeRequest) {
        match m {
            DmMarkerType::Note => DmMarkerTypeRequest::Note,
            DmMarkerType::PlotPoint => DmMarkerTypeRequest::PlotPoint,
            DmMarkerType::CharacterMoment => DmMarkerTypeRequest::CharacterMoment,
            DmMarkerType::WorldEvent => DmMarkerTypeRequest::WorldEvent,
            DmMarkerType::PlayerDecision => DmMarkerTypeRequest::PlayerDecision,
            DmMarkerType::Foreshadowing => DmMarkerTypeRequest::Foreshadowing,
            DmMarkerType::Callback => DmMarkerTypeRequest::Callback,
            DmMarkerType::Custom => DmMarkerTypeRequest::Custom,
        }
    }
}

impl vstd::std_specs::convert::FromSpecImpl<DmMarkerType> for DmMarkerTypeRequest {
    open spec fn obeys_from_spec() -> bool {
        true
    }

    open spec fn from_spec(m: DmMarkerType) -> DmMarkerTypeRequest {
        marker_type_request_of(m)
    }
}

/// A marker's importance and kind survive the trip from request to store
/// and back, and from store to request and back.
pub proof fn marker_conversions_round_trip(
    i: MarkerImportanceRequest,
    m: MarkerImportance,
    t: DmMarkerTypeRequest,
    d: DmMarkerType,
)
    ensures
        importance_request_of(importance_of(i)) == i,
        importance_of(importance_request_of(m)) == m,
        marker_type_request_of(marker_type_of(t)) == t,
        marker_type_of(marker_type_request_of(d)) == d,
{
}

/// Body of a request creating a dungeon master's marker.
#[derive(Clone, Debug)]
pub struct CreateDmMarkerRequest {
    pub session_id: String,
    pub title: String,
    pub note: String,
    pub importance: MarkerImportanceRequest,
    pub marker_type: DmMarkerTypeRequest,
    pub scene_id: Option<String>,
    pub location_id: Option<String>,
    pub game_time: Option<String>,
    pub tags: Vec<String>,
    pub is_hidden: bool,
}

/// The IDs a marker request names, read.
#[derive(Clone, Copy, Debug)]
pub struct DmMarkerIds {
    pub session_id: u128,
    pub scene_id: Option<u128>,
    pub location_id: Option<u128>,
}

/// Reads the IDs of a marker request: the session's (a UUID, else "Invalid
/// session ID"), then the scene's and the location's when given ("Invalid
/// scene ID", "Invalid location ID").
pub fn dm_marker_ids(req: &CreateDmMarkerRequest) -> (r: Result<DmMarkerIds, ApiError>)
    ensures
        match uuid_parsed(req.session_id@) {
            None => r matches Err(e) && e.status == bad_request() && e.message@
                == "Invalid session ID"@,
            Some(s) => {
                let scene_bad = req.scene_id matches Some(t) && uuid_parsed(t@) is None;
                let loc_bad = req.location_id matches Some(t) && uuid_parsed(t@) is None;
                if scene_bad {
                    r matches Err(e) && e.status == bad_request() && e.message@
                        == "Invalid scene ID"@
                } else if loc_bad {
                    r matches Err(e) && e.status == bad_request() && e.message@
                        == "Invalid location ID"@
                } else {
                    r matches Ok(ids) && ids.session_id == s && ids.scene_id == (match req.scene_id {
                        Some(t) => uuid_parsed(t@),
                        None => None,
                    }) && ids.location_id == (match req.location_id {
                        Some(t) => uuid_parsed(t@),
                        None => None,
                    })
                }
            },
        },
{
    let session_id = match parse_id(req.session_id.as_str(), "Invalid session ID") {
        Ok(v) => v,
        Err(e) => {
            return Err(e);
        },
    };
    let scene_id = match parse_optional_id(&req.scene_id, "Invalid scene ID") {
        Ok(v) => v,
        Err(e) => {
            return Err(e);
        },
    };
    let location_id = match parse_optional_id(&req.location_id, "Invalid location ID") {
        Ok(v) => v,
        Err(e) => {
            return Err(e);
        },
    };
    Ok(DmMarkerIds { session_id, scene_id, location_id })
}

/// Body of a request changing a story event.
#[derive(Clone, Debug)]
pub struct UpdateStoryEventRequest {
    pub summary: Option<String>,
    pub is_hidden: Option<bool>,
    pub tags: Option<Vec<String>>,
}

/// Where an item a character acquired came from.
#[derive(Clone, Debug)]
pub enum ItemSourceResponse {
    Found { location: String },
    Purchased { from: String, cost: Option<String> },
    Gifted { from: String },
    Looted { from: String },
    Crafted,
    Reward { for_what: String },
    Stolen { from: String },
    Custom { description: String },
}

/// Where an item a character acquired came from, as story events keep it.
#[derive(Clone, Debug)]
pub enum ItemSource {
    Found { location: String },
    Purchased { from: String, cost: Option<String> },
    /// Given by the character with this ID.
    Gifted { from: u128 },
    Looted { from: String },
    Crafted,
    Reward { for_what: String },
    Stolen { from: String },
    Custom { description: String },
}

impl ItemSourceResponse {
    /// The API's form of an item's source: the same, with a giver named by
    /// its ID text.
    pub fn from_item_source(s: ItemSource) -> (r: ItemSourceResponse)
        ensures
            match s {
                ItemSource::Found { location } => r == ItemSourceResponse::Found { location },
                ItemSource::Purchased { from, cost } => r == ItemSourceResponse::Purchased {
                    from,
                    cost,
                },
                ItemSource::Gifted { from } => r matches ItemSourceResponse::Gifted { from: t }
                    && t@ == crate::ids::uuid_text(from),
                ItemSource::Looted { from } => r == ItemSourceResponse::Looted { from },
                ItemSource::Crafted => r == ItemSourceResponse::Crafted,
                ItemSource::Reward { for_what } => r == ItemSourceResponse::Reward { for_what },
                ItemSource::Stolen { from } => r == ItemSourceResponse::Stolen { from },
                ItemSource::Custom { description } => r == ItemSourceResponse::Custom {
                    description,
                },
            },
    {
        match s {
            ItemSource::Found { location } => ItemSourceResponse::Found { location },
            ItemSource::Purchased { from, cost } => ItemSourceResponse::Purchased { from, cost },
            ItemSource::Gifted { from } => ItemSourceResponse::Gifted {
                from: crate::ids::uuid_to_string(from),
            },
            ItemSource::Looted { from } => ItemSourceResponse::Looted { from },
            ItemSource::Crafted => ItemSourceResponse::Crafted,
            ItemSource::Reward { for_what } => ItemSourceResponse::Reward { for_what },
            ItemSource::Stolen { from } => ItemSourceResponse::Stolen { from },
            ItemSource::Custom { description } => ItemSourceResponse::Custom { description },
        }
    }
}

/// The visibility a story event gets when it is toggled.
pub fn toggled_visibility(is_hidden: bool) -> (r: bool)
    ensures
        r == !is_hidden,
{
    !is_hidden
}

} // verus!
