//! Verified core of the WrldBldr engine, the backend of a tabletop
//! role-playing game: game sessions and their conversation history, the
//! decisions taken on WebSocket messages and HTTP requests, the prompt
//! given to the language model, and the codecs used to store world data.
//!
//! Modules:
//! - `ids`, `text`: identifiers as UUIDs, and text helpers with exact contracts;
//! - `world`: the world model (locations, characters, scenes);
//! - `session`, `roles`, `session_api`: sessions, their manager, and how
//!   the application and the HTTP API see them;
//! - `prompt`, `workers`, `ws`, `ws_step`: the language model's prompt, the
//!   background workers' decisions, and the WebSocket handler's step on
//!   each client message with the decisions it takes;
//! - `api`, `interaction`, `kinds`, `story`, `location`, `narrative`,
//!   `content`, `asset`, `sheet`, `skill`, `world_api`, `workflow`,
//!   `character_api`, `rules`: the HTTP API's requests, answers and
//!   validation;
//! - `stored`, `stored_nodes`, `story_types`, `snapshot`, `snapshot_json`:
//!   how data is stored, decoded from the store's nodes, and sent;
//! - `comfyui`, `config`, `health`: the image generator's requests, the
//!   configuration, and the queue health report.

pub mod ids;
pub mod text;
pub mod world;
pub mod session;
pub mod roles;
pub mod prompt;
pub mod workers;
pub mod api;
pub mod interaction;
pub mod ws;
pub mod kinds;
pub mod stored;
pub mod story;
pub mod snapshot;
pub mod snapshot_json;
pub mod comfyui;
pub mod config;
pub mod session_api;
pub mod asset;
pub mod location;
pub mod narrative;
pub mod content;
pub mod health;
pub mod sheet;
pub mod skill;
pub mod world_api;
pub mod workflow;
pub mod character_api;
pub mod rules;
pub mod stored_nodes;
pub mod story_types;
pub mod ws_step;
