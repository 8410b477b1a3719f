//! The asset gallery: requests, generation batches as the API shows them,
//! choosing assets from a finished batch, and the read markers of the
//! generation queue.

use crate::api::{bad_request, ApiError};
use crate::ids::{parse_uuid, uuid_parsed, uuid_text, uuid_to_string};
use crate::kinds::{entity_type_named, lowercase, parse_entity_type, EntityType};
use crate::text::{concat_str, str_eq, to_owned_string, trim, trim_spec};
use vstd::prelude::*;

verus! {

/// Body of a request uploading an asset.
#[derive(Clone, Debug)]
pub struct UploadAssetRequest {
    pub asset_type: String,
    pub file_path: String,
    pub label: Option<String>,
    pub set_active: bool,
}

/// Body of a request relabelling an asset.
#[derive(Clone, Debug)]
pub struct UpdateAssetLabelRequest {
    pub label: Option<String>,
}

/// An asset of the gallery as the API shows it.
#[derive(Clone, Debug)]
pub struct GalleryAssetResponse {
    pub id: String,
    pub entity_type: String,
    pub entity_id: String,
    pub asset_type: String,
    pub file_path: String,
    pub is_active: bool,
    pub label: Option<String>,
    pub is_generated: bool,
    pub created_at: String,
}

/// Body of a request generating assets.
#[derive(Clone, Debug)]
pub struct GenerateAssetRequest {
    pub entity_type: String,
    pub entity_id: String,
    pub asset_type: String,
    pub workflow: String,
    pub prompt: String,
    pub negative_prompt: Option<String>,
    pub count: u8,
    pub style_reference_id: Option<String>,
}

/// How many assets a generation request asks for when it names no count.
pub fn default_count() -> (n: u8)
    ensures
        n == 4,
{
    4
}

/// Where a generation batch stands.
#[derive(Clone, Debug)]
pub enum BatchStatus {
    Queued,
    Generating { progress: u8 },
    ReadyForSelection,
    Completed,
    Failed { error: String },
}

/// The status text and progress the API shows for a batch's status.
pub open spec fn batch_status_shown(s: BatchStatus) -> (Seq<char>, Option<u8>) {
    match s {
        BatchStatus::Queued => ("Queued"@, None),
        BatchStatus::Generating { progress } => ("Generating"@, Some(progress)),
        BatchStatus::ReadyForSelection => ("ReadyForSelection"@, Some(100u8)),
        BatchStatus::Completed => ("Completed"@, Some(100u8)),
        BatchStatus::Failed { error } => ("Failed: "@ + error@, None),
    }
}

/// The status text and progress the API shows for a batch.
pub fn batch_status_fields(s: &BatchStatus) -> (r: (String, Option<u8>))
    ensures
        r.0@ == batch_status_shown(*s).0,
        r.1 == batch_status_shown(*s).1,
{
    match s {
        BatchStatus::Queued => (to_owned_string("Queued"), None),
        BatchStatus::Generating { progress } => (to_owned_string("Generating"), Some(*progress)),
        BatchStatus::ReadyForSelection => (to_owned_string("ReadyForSelection"), Some(100)),
        BatchStatus::Completed => (to_owned_string("Completed"), Some(100)),
        BatchStatus::Failed { error } => (concat_str("Failed: ", error.as_str()), None),
    }
}

/// A generation batch as the API shows it.
#[derive(Clone, Debug)]
pub struct GenerationBatchResponse {
    pub id: String,
    pub entity_type: String,
    pub entity_id: String,
    pub asset_type: String,
    pub workflow: String,
    pub prompt: String,
    pub count: u8,
    pub status: String,
    pub progress: Option<u8>,
    pub asset_count: usize,
    pub requested_at: String,
    pub completed_at: Option<String>,
}

/// A generation batch. Its entity and asset types are held as the texts
/// the world model writes for them, its times as RFC 3339 texts.
#[derive(Clone, Debug)]
pub struct GenerationBatch {
    pub id: u128,
    pub entity_type: String,
    pub entity_id: String,
    pub asset_type: String,
    pub workflow: String,
    pub prompt: String,
    pub count: u8,
    pub status: BatchStatus,
    pub assets: Vec<u128>,
    pub requested_at: String,
    pub completed_at: Option<String>,
}

impl GenerationBatchResponse {
    /// The API's form of a batch: its ID as UUID text, its status as
    /// `batch_status_shown` gives it, and how many assets it made.
    pub fn from_batch(b: GenerationBatch) -> (r: GenerationBatchResponse)
        ensures
            r.id@ == uuid_text(b.id),
            r.entity_type == b.entity_type,
            r.entity_id == b.entity_id,
            r.asset_type == b.asset_type,
            r.workflow == b.workflow,
            r.prompt == b.prompt,
            r.count == b.count,
            r.status@ == batch_status_shown(b.status).0,
            r.progress == batch_status_shown(b.status).1,
            r.asset_count == b.assets@.len(),
            r.requested_at == b.requested_at,
            r.completed_at == b.completed_at,
    {
        let (status, progress) = batch_status_fields(&b.status);
        let asset_count = b.assets.len();
        GenerationBatchResponse {
            id: uuid_to_string(b.id),
            entity_type: b.entity_type,
            entity_id: b.entity_id,
            asset_type: b.asset_type,
            workflow: b.workflow,
            prompt: b.prompt,
            count: b.count,
            status,
            progress,
            asset_count,
            requested_at: b.requested_at,
            completed_at: b.completed_at,
        }
    }
}

/// Body of a request choosing assets from a finished batch.
#[derive(Clone, Debug)]
pub struct SelectFromBatchRequest {
    pub selected_assets: Vec<String>,
    pub discard_others: bool,
    pub labels: Vec<Option<String>>,
}

/// What choosing from a batch does: first set the batch's status (to
/// `Completed`), then label the chosen assets that got a label, in order,
/// then (when asked) delete the batch's other assets. A chosen ID that is
/// no UUID stops the work there with a "Bad Request"; the status and the
/// labels before it are applied.
#[derive(Clone, Debug)]
pub struct SelectionPlan {
    pub batch_status: BatchStatus,
    pub labels: Vec<(u128, String)>,
    pub error: Option<ApiError>,
    pub discard: Vec<u128>,
}

/// The label given to the `i`-th chosen asset, if any.
pub open spec fn label_at(labels: Seq<Option<String>>, i: int) -> Option<String> {
    if 0 <= i < labels.len() {
        labels[i]
    } else {
        None
    }
}

/// The (asset, label) steps for the first `n` chosen assets, all UUIDs.
pub open spec fn label_steps(selected: Seq<String>, labels: Seq<Option<String>>, n: int) -> Seq<(u128, String)>
    decreases n,
{
    if n <= 0 {
        Seq::empty()
    } else {
        let rest = label_steps(selected, labels, n - 1);
        match label_at(labels, n - 1) {
            Some(l) => rest.push((uuid_parsed(selected[n - 1]@)->0, l)),
            None => rest,
        }
    }
}

/// The position of the first chosen ID that is no UUID, if any.
pub open spec fn first_bad(selected: Seq<String>) -> Option<int> {
    if exists|i: int| 0 <= i < selected.len() && uuid_parsed(#[trigger] selected[i]@) is None {
        Some(
            choose|i: int|
                0 <= i < selected.len() && uuid_parsed(#[trigger] selected[i]@) is None && forall|j: int|
                    0 <= j < i ==> uuid_parsed(#[trigger] selected[j]@) is Some,
        )
    } else {
        None
    }
}

/// The batch's assets that were not chosen (compared as UUID text), in order.
pub open spec fn unchosen(batch: Seq<u128>, selected: Seq<String>) -> Seq<u128>
    decreases batch.len(),
{
    if batch.len() == 0 {
        Seq::empty()
    } else {
        let rest = unchosen(batch.drop_last(), selected);
        if exists|j: int| 0 <= j < selected.len() && #[trigger] selected[j]@ == uuid_text(batch.last()) {
            rest
        } else {
            rest.push(batch.last())
        }
    }
}

fn is_chosen(selected: &Vec<String>, text: &str) -> (r: bool)
    ensures
        r == exists|j: int| 0 <= j < selected@.len() && #[trigger] selected@[j]@ == text@,
{
    let mut j: usize = 0;
    while j < selected.len()
        invariant
            j <= selected@.len(),
            forall|k: int| 0 <= k < j ==> #[trigger] selected@[k]@ != text@,
        decreases selected@.len() - j,
    {
        if str_eq(selected[j].as_str(), text) {
            return true;
        }
        j = j + 1;
    }
    false
}

/// Decides what choosing from a batch with the given assets does.
pub fn plan_batch_selection(req: &SelectFromBatchRequest, batch_assets: &Vec<u128>) -> (p: SelectionPlan)
    ensures
        p.batch_status is Completed,
        match first_bad(req.selected_assets@) {
            Some(k) => {
                &&& p.labels@ == label_steps(req.selected_assets@, req.labels@, k)
                &&& p.error matches Some(e) && e.status == bad_request() && e.message@
                    == "Invalid asset ID in selection"@
                &&& p.discard@.len() == 0
            },
            None => {
                &&& p.labels@ == label_steps(
                    req.selected_assets@,
                    req.labels@,
                    req.selected_assets@.len() as int,
                )
                &&& p.error is None
                &&& p.discard@ == (if req.discard_others {
                    unchosen(batch_assets@, req.selected_assets@)
                } else {
                    Seq::<u128>::empty()
                })
            },
        },
{
    let mut labels: Vec<(u128, String)> = Vec::new();
    let mut i: usize = 0;
    while i < req.selected_assets.len()
        invariant
            i <= req.selected_assets@.len(),
            labels@ == label_steps(req.selected_assets@, req.labels@, i as int),
            forall|j: int| 0 <= j < i ==> uuid_parsed(#[trigger] req.selected_assets@[j]@) is Some,
        decreases req.selected_assets@.len() - i,
    {
        let id = match parse_uuid(req.selected_assets[i].as_str()) {
            Some(v) => v,
            None => {
                proof {
                    let s = req.selected_assets@;
                    assert(uuid_parsed(s[i as int]@) is None);
                    let k = first_bad(s)->0;
                    assert(k == i as int) by {
                        if k < i {
                            assert(uuid_parsed(s[k]@) is Some);
                        } else if k > i {
                        }
                    }
                }
                return SelectionPlan {
                    batch_status: BatchStatus::Completed,
                    labels,
                    error: Some(ApiError::bad_request("Invalid asset ID in selection")),
                    discard: Vec::new(),
                };
            },
        };
        if i < req.labels.len() {
            match &req.labels[i] {
                Some(l) => labels.push((id, l.clone())),
                None => {},
            }
        }
        i = i + 1;
    }
    proof {
        assert(first_bad(req.selected_assets@) is None) by {
            if exists|k: int| 0 <= k < req.selected_assets@.len() && uuid_parsed(#[trigger] req.selected_assets@[k]@) is None {
                let k = choose|k: int| 0 <= k < req.selected_assets@.len() && uuid_parsed(#[trigger] req.selected_assets@[k]@) is None;
                assert(uuid_parsed(req.selected_assets@[k]@) is Some);
            }
        }
    }
    let mut discard: Vec<u128> = Vec::new();
    if req.discard_others {
        let mut k: usize = 0;
        while k < batch_assets.len()
            invariant
                k <= batch_assets@.len(),
                discard@ == unchosen(batch_assets@.take(k as int), req.selected_assets@),
            decreases batch_assets@.len() - k,
        {
            assert(batch_assets@.take(k + 1).drop_last() == batch_assets@.take(k as int));
            let text = uuid_to_string(batch_assets[k]);
            if !is_chosen(&req.selected_assets, text.as_str()) {
                discard.push(batch_assets[k]);
            }
            k = k + 1;
        }
        assert(batch_assets@.take(k as int) == batch_assets@);
    }
    SelectionPlan { batch_status: BatchStatus::Completed, labels, error: None, discard }
}

/// Body of a request marking generation queue items as read.
#[derive(Clone, Debug)]
pub struct GenerationReadStateUpdate {
    pub user_id: String,
    /// The world the markers are kept for; blank for the global key.
    pub world_id: String,
    pub read_batches: Vec<String>,
    pub read_suggestions: Vec<String>,
}

/// The user and world key the read markers are stored under: the user of
/// the `X-User-Id` header, else the body's unless blank (then a "Bad
/// Request": "user_id is required"); the body's world ID, or "GLOBAL" when
/// it is blank.
pub fn read_state_keys(header_user: Option<String>, body: &GenerationReadStateUpdate) -> (r: Result<
    (String, String),
    ApiError,
>)
    ensures
        header_user is None && trim_spec(body.user_id@).len() == 0 ==> (r matches Err(e)
            && e.status == bad_request() && e.message@ == "user_id is required"@),
        !(header_user is None && trim_spec(body.user_id@).len() == 0) ==> (r matches Ok((user, world))
            && user == (match header_user {
            Some(u) => u,
            None => body.user_id,
        }) && world@ == (if trim_spec(body.world_id@).len() == 0 {
            "GLOBAL"@
        } else {
            body.world_id@
        })),
{
    let user = match header_user {
        Some(u) => u,
        None => {
            let t = trim(body.user_id.as_str());
            if t.unicode_len() == 0 {
                return Err(ApiError::bad_request("user_id is required"));
            }
            body.user_id.clone()
        },
    };
    let t = trim(body.world_id.as_str());
    let world = if t.unicode_len() == 0 {
        to_owned_string("GLOBAL")
    } else {
        body.world_id.clone()
    };
    Ok((user, world))
}


/// What a read marker is for.
#[derive(Clone, Copy, Debug, PartialEq, Eq, Structural)]
pub enum GenerationReadKind {
    Batch,
    Suggestion,
}

/// The read markers a request sets, in order: each read batch, then each
/// read suggestion.
pub open spec fn read_marks_of(body: GenerationReadStateUpdate) -> Seq<(GenerationReadKind, String)> {
    body.read_batches@.map_values(|id: String| (GenerationReadKind::Batch, id)) + body.read_suggestions@.map_values(
        |id: String| (GenerationReadKind::Suggestion, id),
    )
}

/// The read markers a request sets, in the order they are stored: the
/// read batches first, then the read suggestions.
pub fn read_marks(body: &GenerationReadStateUpdate) -> (r: Vec<(GenerationReadKind, String)>)
    ensures
        r@ == read_marks_of(*body),
{
    let mut r: Vec<(GenerationReadKind, String)> = Vec::new();
    let mut i: usize = 0;
    while i < body.read_batches.len()
        invariant
            i <= body.read_batches@.len(),
            r@ == body.read_batches@.take(i as int).map_values(
                |id: String| (GenerationReadKind::Batch, id),
            ),
        decreases body.read_batches@.len() - i,
    {
        r.push((GenerationReadKind::Batch, body.read_batches[i].clone()));
        assert(body.read_batches@.take(i + 1) == body.read_batches@.take(i as int).push(
            body.read_batches@[i as int],
        ));
        i = i + 1;
    }
    assert(body.read_batches@.take(i as int) == body.read_batches@);
    let ghost first = r@;
    let mut j: usize = 0;
    while j < body.read_suggestions.len()
        invariant
            j <= body.read_suggestions@.len(),
            r@ == first + body.read_suggestions@.take(j as int).map_values(
                |id: String| (GenerationReadKind::Suggestion, id),
            ),
        decreases body.read_suggestions@.len() - j,
    {
        r.push((GenerationReadKind::Suggestion, body.read_suggestions[j].clone()));
        assert(body.read_suggestions@.take(j + 1) == body.read_suggestions@.take(j as int).push(
            body.read_suggestions@[j as int],
        ));
        j = j + 1;
    }
    assert(body.read_suggestions@.take(j as int) == body.read_suggestions@);
    r
}

/// A read marker the store refused: "Internal Server Error" ("Failed to
/// mark batch read: " or "Failed to mark suggestion read: ", and the
/// failure).
pub fn mark_read_failed(kind: GenerationReadKind, failure: &str) -> (e: ApiError)
    ensures
        e.status == 500,
        e.message@ == (match kind {
            GenerationReadKind::Batch => "Failed to mark batch read: "@,
            GenerationReadKind::Suggestion => "Failed to mark suggestion read: "@,
        }) + failure@,
{
    match kind {
        GenerationReadKind::Batch => ApiError::internal(
            concat_str("Failed to mark batch read: ", failure),
        ),
        GenerationReadKind::Suggestion => ApiError::internal(
            concat_str("Failed to mark suggestion read: ", failure),
        ),
    }
}

/// The "Bad Request" for an asset type that names none.
pub fn invalid_asset_type(asset_type: &str) -> (e: ApiError)
    ensures
        e.status == bad_request(),
        e.message@ == "Invalid asset type: "@ + asset_type@,
{
    ApiError { status: 400, message: concat_str("Invalid asset type: ", asset_type) }
}

/// An asset to add to an entity's gallery, read from an upload request.
#[derive(Clone, Debug)]
pub struct NewAsset<A> {
    pub entity_type: EntityType,
    pub entity_id: String,
    pub asset_type: A,
    pub file_path: String,
    pub label: Option<String>,
    /// Whether the asset is made the entity's active one once stored.
    pub activate: bool,
}

/// Reads an upload to the gallery of the entity `entity_id` of the kind
/// `entity_type`: `asset_type` is what the asset-type reader made of the
/// request's text (`None` gives "Invalid asset type: …"); the label and
/// whether to activate the asset are as given.
pub fn plan_upload<A>(
    entity_type: EntityType,
    entity_id: String,
    req: UploadAssetRequest,
    asset_type: Option<A>,
) -> (r: Result<NewAsset<A>, ApiError>)
    ensures
        match asset_type {
            None => r matches Err(e) && e.status == bad_request() && e.message@
                == "Invalid asset type: "@ + req.asset_type@,
            Some(a) => r matches Ok(n) && n.entity_type == entity_type && n.entity_id == entity_id
                && n.asset_type == a && n.file_path == req.file_path && n.label == req.label
                && n.activate == req.set_active,
        },
{
    match asset_type {
        None => Err(invalid_asset_type(req.asset_type.as_str())),
        Some(a) => Ok(
            NewAsset {
                entity_type,
                entity_id,
                asset_type: a,
                file_path: req.file_path,
                label: req.label,
                activate: req.set_active,
            },
        ),
    }
}

/// What a generation request names, read.
#[derive(Clone, Debug)]
pub struct GenerationChecks<A> {
    pub entity_type: EntityType,
    pub asset_type: A,
    pub style_reference: Option<u128>,
}

/// Reads what a generation request names: its entity type (in any case,
/// else "Invalid entity type: …"), its asset type (`asset_type` is what
/// the asset-type reader made of the request's text; `None` gives
/// "Invalid asset type: …") and its style reference (a UUID when given,
/// else "Invalid style reference ID"), checked in that order.
pub fn check_generation_request<A>(req: &GenerateAssetRequest, asset_type: Option<A>) -> (r: Result<
    GenerationChecks<A>,
    ApiError,
>)
    ensures
        match entity_type_named(lowercase(req.entity_type@)) {
            None => r matches Err(e) && e.status == bad_request() && e.message@
                == "Invalid entity type: "@ + req.entity_type@,
            Some(et) => match asset_type {
                None => r matches Err(e) && e.status == bad_request() && e.message@
                    == "Invalid asset type: "@ + req.asset_type@,
                Some(a) => match req.style_reference_id {
                    Some(t) => match uuid_parsed(t@) {
                        None => r matches Err(e) && e.status == bad_request() && e.message@
                            == "Invalid style reference ID"@,
                        Some(v) => r matches Ok(c) && c.entity_type == et && c.asset_type == a
                            && c.style_reference == Some(v),
                    },
                    None => r matches Ok(c) && c.entity_type == et && c.asset_type == a
                        && c.style_reference is None,
                },
            },
        },
{
    let entity_type = match parse_entity_type(req.entity_type.as_str()) {
        Some(t) => t,
        None => {
            return Err(
                ApiError {
                    status: 400,
                    message: concat_str("Invalid entity type: ", req.entity_type.as_str()),
                },
            );
        },
    };
    let asset_type = match asset_type {
        Some(a) => a,
        None => {
            return Err(invalid_asset_type(req.asset_type.as_str()));
        },
    };
    let style_reference = match &req.style_reference_id {
        Some(t) => match parse_uuid(t.as_str()) {
            Some(v) => Some(v),
            None => {
                return Err(ApiError::bad_request("Invalid style reference ID"));
            },
        },
        None => None,
    };
    Ok(GenerationChecks { entity_type, asset_type, style_reference })
}

/// Only a queued batch may be cancelled; another is a "Bad Request".
pub fn check_cancel(status: &BatchStatus) -> (r: Result<(), ApiError>)
    ensures
        (*status matches BatchStatus::Queued) ==> r is Ok,
        !(*status matches BatchStatus::Queued) ==> (r matches Err(e) && e.status == bad_request()
            && e.message@ == "Can only cancel queued batches"@),
{
    match status {
        BatchStatus::Queued => Ok(()),
        _ => Err(ApiError::bad_request("Can only cancel queued batches")),
    }
}


/// Law: the status text a batch shows names its own status: two batches
/// showing the same text have the same status (and, when failed, the same
/// error).
pub proof fn batch_status_text_names_status(a: BatchStatus, b: BatchStatus)
    requires
        batch_status_shown(a).0 == batch_status_shown(b).0,
    ensures
        match (a, b) {
            (BatchStatus::Queued, BatchStatus::Queued) => true,
            (BatchStatus::Generating { .. }, BatchStatus::Generating { .. }) => true,
            (BatchStatus::ReadyForSelection, BatchStatus::ReadyForSelection) => true,
            (BatchStatus::Completed, BatchStatus::Completed) => true,
            (BatchStatus::Failed { error: e1 }, BatchStatus::Failed { error: e2 }) => e1@ == e2@,
            _ => false,
        },
{
    reveal_strlit("Queued");
    reveal_strlit("Generating");
    reveal_strlit("ReadyForSelection");
    reveal_strlit("Completed");
    reveal_strlit("Failed: ");
    let ta = batch_status_shown(a).0;
    let tb = batch_status_shown(b).0;
    assert(ta[0] == tb[0]);
    if let (BatchStatus::Failed { error: e1 }, BatchStatus::Failed { error: e2 }) = (a, b) {
        assert(e1@ == ta.skip(8));
        assert(e2@ == tb.skip(8));
    }
}

} // verus!
