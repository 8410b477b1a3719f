//! Workflow configurations of the image generator: the API's answers on
//! the generation slots, and the decisions of saving, deleting, importing
//! and testing configurations. Prompt mappings and a workflow's analysis
//! are the world model's; here they are type parameters.

use crate::api::{bad_request, not_found, ApiError};
use crate::comfyui::QueueResponse;
use crate::text::{concat_str, position_of};
use vstd::prelude::*;

verus! {

/// The answer for one workflow configuration.
#[derive(Clone, Debug)]
pub struct WorkflowConfigResponse<M> {
    pub id: String,
    pub slot: String,
    pub slot_display_name: String,
    pub name: String,
    pub node_count: usize,
    pub input_count: usize,
    pub prompt_mappings: Vec<M>,
    pub has_primary_prompt: bool,
    pub has_negative_prompt: bool,
    pub created_at: String,
    pub updated_at: String,
}

/// What a generation slot is: its name, how it is shown, its category and
/// the size of the images it makes by default.
#[derive(Clone, Debug)]
pub struct SlotInfo {
    pub slot: String,
    pub display_name: String,
    pub category: String,
    pub default_width: u32,
    pub default_height: u32,
}

/// The answer for a generation slot: what it is, and its configuration if
/// it has one.
#[derive(Clone, Debug)]
pub struct WorkflowSlotStatus<M> {
    pub slot: String,
    pub display_name: String,
    pub category: String,
    pub default_width: u32,
    pub default_height: u32,
    pub configured: bool,
    pub config: Option<WorkflowConfigResponse<M>>,
}

/// The answer for a workflow analysed without being saved.
#[derive(Clone, Debug)]
pub struct WorkflowAnalysisResponse<A, M> {
    pub is_valid: bool,
    pub analysis: A,
    pub suggested_prompt_mappings: Vec<M>,
}

/// Which stored configuration belongs to a slot: the first whose slot has
/// the slot's name (`config_slots` holds the configurations' slots, in
/// order).
pub fn slot_config_index(slot: &str, config_slots: &Vec<String>) -> (r: Option<usize>)
    ensures
        match r {
            Some(i) => i < config_slots@.len() && config_slots@[i as int]@ == slot@ && forall|
                j: int,
            |
                0 <= j < i ==> config_slots@[j]@ != slot@,
            None => forall|j: int| 0 <= j < config_slots@.len() ==> config_slots@[j]@ != slot@,
        },
{
    position_of(config_slots, slot)
}

/// The answer for a slot with the configuration found for it, if any.
pub fn slot_status<M>(info: SlotInfo, config: Option<WorkflowConfigResponse<M>>) -> (r:
    WorkflowSlotStatus<M>)
    ensures
        r.slot == info.slot,
        r.display_name == info.display_name,
        r.category == info.category,
        r.default_width == info.default_width,
        r.default_height == info.default_height,
        r.configured == config is Some,
        r.config == config,
{
    let configured = config.is_some();
    WorkflowSlotStatus {
        slot: info.slot,
        display_name: info.display_name,
        category: info.category,
        default_width: info.default_width,
        default_height: info.default_height,
        configured,
        config,
    }
}

/// A slot name that names no slot: "Bad Request" ("Invalid slot: " and
/// the name).
pub fn invalid_slot(slot: &str) -> (e: ApiError)
    ensures
        e.status == bad_request(),
        e.message@ == "Invalid slot: "@ + slot@,
{
    ApiError { status: 400, message: concat_str("Invalid slot: ", slot) }
}

/// A slot without a configuration: "Not Found" ("No workflow configured
/// for slot: " and the name).
pub fn no_workflow(slot: &str) -> (e: ApiError)
    ensures
        e.status == not_found(),
        e.message@ == "No workflow configured for slot: "@ + slot@,
{
    ApiError { status: 404, message: concat_str("No workflow configured for slot: ", slot) }
}

/// The status of a saved configuration: "OK" where it replaced one,
/// "Created" where the slot had none.
pub fn save_status(is_update: bool) -> (status: u16)
    ensures
        is_update ==> status == 200,
        !is_update ==> status == 201,
{
    if is_update {
        200
    } else {
        201
    }
}

/// How deleting a slot's configuration answers: "No Content" where one was
/// deleted, else `no_workflow`.
pub fn deletion_status(deleted: bool, slot: &str) -> (r: Result<u16, ApiError>)
    ensures
        deleted ==> r == Ok::<u16, ApiError>(204),
        !deleted ==> (r matches Err(e) && e.status == not_found() && e.message@
            == "No workflow configured for slot: "@ + slot@),
{
    if deleted {
        Ok(204)
    } else {
        Err(no_workflow(slot))
    }
}

/// How many workflow configurations an import saved and skipped.
#[derive(Clone, Copy, Debug)]
pub struct ImportWorkflowsResponse {
    pub imported: usize,
    pub skipped: usize,
}

/// Whether an imported configuration is saved: unless its slot already has
/// one and existing ones are kept.
pub fn import_saves(slot_taken: bool, replace_existing: bool) -> (r: bool)
    ensures
        r == (!slot_taken || replace_existing),
{
    !slot_taken || replace_existing
}

/// The import's counts after one more configuration.
pub fn count_import(counts: ImportWorkflowsResponse, saved: bool) -> (r: ImportWorkflowsResponse)
    requires
        counts.imported < usize::MAX,
        counts.skipped < usize::MAX,
    ensures
        saved ==> r.imported == counts.imported + 1 && r.skipped == counts.skipped,
        !saved ==> r.imported == counts.imported && r.skipped == counts.skipped + 1,
{
    if saved {
        ImportWorkflowsResponse { imported: counts.imported + 1, skipped: counts.skipped }
    } else {
        ImportWorkflowsResponse { imported: counts.imported, skipped: counts.skipped + 1 }
    }
}

/// Body of a request testing a workflow.
#[derive(Clone, Debug)]
pub struct TestWorkflowRequest {
    pub prompt: String,
    pub negative_prompt: Option<String>,
}

/// Answer to testing a workflow: where the generator queued it.
#[derive(Clone, Debug)]
pub struct TestWorkflowResponse {
    pub prompt_id: String,
    pub queue_position: u32,
}

/// The answer for a test the generator queued.
pub fn test_workflow_response(q: QueueResponse) -> (r: TestWorkflowResponse)
    ensures
        r.prompt_id == q.prompt_id,
        r.queue_position == q.number,
{
    TestWorkflowResponse { prompt_id: q.prompt_id, queue_position: q.number }
}

} // verus!
