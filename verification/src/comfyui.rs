//! Requests to the ComfyUI image generator and the answers it sends back.

use crate::stored::{strip_suffix_chars, strip_suffix_chars_exec};
use crate::text::to_owned_string;
use std::collections::HashMap;
use vstd::prelude::*;

verus! {

/// Answer to queueing a workflow.
#[derive(Clone, Debug)]
pub struct QueueResponse {
    pub prompt_id: String,
    pub number: u32,
}

/// The history of prompts, by prompt ID.
#[derive(Clone, Debug)]
pub struct HistoryResponse {
    pub prompts: HashMap<String, PromptHistory>,
}

/// What a prompt produced, by output node, and how it ended.
#[derive(Clone, Debug)]
pub struct PromptHistory {
    pub outputs: HashMap<String, NodeOutput>,
    pub status: PromptStatus,
}

/// The images an output node produced, if any.
#[derive(Clone, Debug)]
pub struct NodeOutput {
    pub images: Option<Vec<ImageOutput>>,
}

/// An image on the generator's disk.
#[derive(Clone, Debug)]
pub struct ImageOutput {
    pub filename: String,
    pub subfolder: String,
    /// The folder type ("output", "temp", ...), sent as `type`.
    pub image_type: String,
}

/// How a prompt ended.
#[derive(Clone, Debug)]
pub struct PromptStatus {
    pub status_str: String,
    pub completed: bool,
}

/// The kinds of asset a workflow generates.
#[derive(Clone, Copy, Debug, PartialEq, Eq, Structural)]
pub enum WorkflowType {
    CharacterSprite,
    CharacterPortrait,
    SceneBackdrop,
    Tilesheet,
}

/// The file a kind's default workflow is read from.
pub open spec fn workflow_file_name(t: WorkflowType) -> Seq<char> {
    match t {
        WorkflowType::CharacterSprite => "character_sprite.json"@,
        WorkflowType::CharacterPortrait => "character_portrait.json"@,
        WorkflowType::SceneBackdrop => "scene_backdrop.json"@,
        WorkflowType::Tilesheet => "tilesheet.json"@,
    }
}

impl WorkflowType {
    /// The file the kind's default workflow is read from.
    pub fn workflow_file(&self) -> (r: &'static str)
        ensures
            r@ == workflow_file_name(*self),
    {
        match self {
            WorkflowType::CharacterSprite => "character_sprite.json",
            WorkflowType::CharacterPortrait => "character_portrait.json",
            WorkflowType::SceneBackdrop => "scene_backdrop.json",
            WorkflowType::Tilesheet => "tilesheet.json",
        }
    }
}

/// A request to generate an asset.
#[derive(Clone, Debug)]
pub struct GenerationRequest {
    pub workflow_type: String,
    pub prompt: String,
    pub negative_prompt: Option<String>,
    pub width: u32,
    pub height: u32,
    pub seed: Option<i64>,
}

/// `r` asks the workflow `kind` for an image of the given size, with the
/// given prompt and nothing else set.
pub open spec fn generation_request_is(
    r: GenerationRequest,
    kind: Seq<char>,
    prompt: String,
    width: u32,
    height: u32,
) -> bool {
    &&& r.workflow_type@ == kind
    &&& r.prompt == prompt
    &&& r.negative_prompt is None
    &&& r.width == width
    &&& r.height == height
    &&& r.seed is None
}

impl GenerationRequest {
    /// A 512×512 character sprite.
    pub fn character_sprite(prompt: String) -> (r: GenerationRequest)
        ensures
            generation_request_is(r, "character_sprite"@, prompt, 512, 512),
    {
        GenerationRequest {
            workflow_type: to_owned_string("character_sprite"),
            prompt,
            negative_prompt: None,
            width: 512,
            height: 512,
            seed: None,
        }
    }

    /// A 256×256 character portrait.
    pub fn character_portrait(prompt: String) -> (r: GenerationRequest)
        ensures
            generation_request_is(r, "character_portrait"@, prompt, 256, 256),
    {
        GenerationRequest {
            workflow_type: to_owned_string("character_portrait"),
            prompt,
            negative_prompt: None,
            width: 256,
            height: 256,
            seed: None,
        }
    }

    /// A 1920×1080 scene backdrop.
    pub fn scene_backdrop(prompt: String) -> (r: GenerationRequest)
        ensures
            generation_request_is(r, "scene_backdrop"@, prompt, 1920, 1080),
    {
        GenerationRequest {
            workflow_type: to_owned_string("scene_backdrop"),
            prompt,
            negative_prompt: None,
            width: 1920,
            height: 1080,
            seed: None,
        }
    }

    /// A 512×512 tile sheet.
    pub fn tilesheet(prompt: String) -> (r: GenerationRequest)
        ensures
            generation_request_is(r, "tilesheet"@, prompt, 512, 512),
    {
        GenerationRequest {
            workflow_type: to_owned_string("tilesheet"),
            prompt,
            negative_prompt: None,
            width: 512,
            height: 512,
            seed: None,
        }
    }
}

/// The generator's base URL without trailing slashes, so that paths can be
/// appended with one.
pub fn normalize_base_url(url: &str) -> (r: String)
    ensures
        r@ == strip_suffix_chars(url@, '/'),
{
    strip_suffix_chars_exec(url, '/')
}

} // verus!
