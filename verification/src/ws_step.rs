//! What the WebSocket handler does with a client's message, as one step:
//! from the session manager and the message to the reply sent back at
//! once, or to the outside work the handler does next (joining through the
//! join service, enqueueing, loading a scene, asking the challenge
//! services). The step reads the manager and changes nothing in it.
//!
//! Parts of a message that only pass through to a service are type
//! parameters: the world a join names (`W`), a directorial context (`C`),
//! an approval decision (`D`), and a challenge or narrative-event message
//! (`X`), which the challenge and narrative-event services take as it is.

use crate::ids::{uuid_parsed, uuid_text, ClientId, SessionId};
use crate::roles::{
    canonical_role, client_participant, client_session_participants, client_session_spec,
    wire_to_canonical_role, SessionParticipantRole,
};
use crate::session::{first_dm_index, ParticipantRole, SessionManager};
use crate::text::{concat_str, to_owned_string};
use crate::ws::{
    action_sender, authorize_approval, scene_change_session, scene_change_target,
    travel_destination, ws_error_is, WsError,
};
use vstd::prelude::*;

verus! {

/// A message from a client.
#[derive(Clone, Debug)]
pub enum ClientMessage<W, C, D, X> {
    Heartbeat,
    JoinSession { user_id: String, role: ParticipantRole, world_id: W },
    PlayerAction { action_type: String, target: Option<String>, dialogue: Option<String> },
    RequestSceneChange { scene_id: String },
    DirectorialUpdate { context: C },
    ApprovalDecision { request_id: String, decision: D },
    RegenerateOutcome { request_id: String, outcome_type: Option<String>, guidance: Option<String> },
    DiscardChallenge { request_id: String, feedback: Option<String> },
    /// A challenge roll, roll input, trigger, suggestion decision, ad-hoc
    /// challenge, or a decision on a narrative event's suggestion.
    Challenge(X),
}

/// A reply the handler sends back at once.
#[derive(Clone, Debug)]
pub enum ServerReply {
    Pong,
    Error(WsError),
}

/// What the handler does with a message.
#[derive(Clone, Debug)]
pub enum WsStep<W, D, X> {
    /// Send this reply.
    Reply(ServerReply),
    /// Nothing to send.
    Nothing,
    /// Join (or have the join service create) the world's session; a
    /// failure is answered by `join_failed`.
    JoinOrCreate {
        client: String,
        user_id: String,
        role: SessionParticipantRole,
        world_id: W,
    },
    /// Move the player's character to the location, send the scene found
    /// there, and then, unless that answered, enqueue the action as
    /// `EnqueueAction` does.
    Travel {
        session_id: SessionId,
        player_id: String,
        location_id: u128,
        action_type: String,
        target: Option<String>,
        dialogue: Option<String>,
    },
    /// Enqueue the player's action and tell the dungeon master; a failure
    /// is answered by `action_queue_failed`.
    EnqueueAction {
        session_id: SessionId,
        player_id: String,
        action_type: String,
        target: Option<String>,
        dialogue: Option<String>,
    },
    /// Load the scene and broadcast it to the session (`scene_text` is the
    /// ID as the client wrote it).
    ChangeScene { session_id: SessionId, scene_id: u128, scene_text: String },
    /// Enqueue the dungeon master's decision; a failure is answered by
    /// `approval_queue_failed`.
    EnqueueApproval { session_id: SessionId, dm_id: String, request_id: String, decision: D },
    /// Look up the approval and answer with `regenerate_outcome`.
    Regenerate { request_id: String, outcome_type: Option<String>, guidance: Option<String> },
    /// Take the challenge out of the approval and answer that it was
    /// discarded.
    DiscardChallenge { client: String, request_id: String },
    /// Hand the message to the challenge or narrative-event service.
    ToChallengeService { client: String, message: X },
}

/// Whether the client with the ID text `t` is the dungeon master of the
/// session it is in.
pub open spec fn is_session_dm(m: SessionManager, t: Seq<char>) -> bool {
    match client_session_participants(m, t) {
        Some(ps) => exists|i: int|
            first_dm_index(ps, i) && Some(#[trigger] ps[i].client_id.0) == uuid_parsed(t),
        None => false,
    }
}

/// `r` replies with an error of the given code and message.
pub open spec fn replies_error<W, D, X>(
    r: WsStep<W, D, X>,
    code: Seq<char>,
    message: Seq<char>,
) -> bool {
    r matches WsStep::Reply(ServerReply::Error(e)) && ws_error_is(e, code, message)
}

/// One step of the handler on a client's message.
/// - A heartbeat gets a pong.
/// - A join goes to the join service with the client's ID text and the
///   role read as the application's.
/// - A player's action needs the client to be in a session
///   (`NOT_IN_SESSION`); the player is named by its user ID ("unknown"
///   when none is known). A travel needs a target (`MISSING_TARGET`) that
///   is a UUID (`INVALID_LOCATION_ID`); any other action is enqueued.
/// - A scene change needs a scene ID that is a UUID (`INVALID_SCENE_ID`),
///   then a session (`NOT_IN_SESSION`).
/// - A directorial update changes nothing and gets no reply.
/// - An approval decision is enqueued only for the session's dungeon
///   master (`NOT_AUTHORIZED`).
/// - Regenerating, discarding and the challenge messages go to their
///   services.
pub fn client_message_step<W, C, D, X>(
    m: &SessionManager,
    client_id: ClientId,
    msg: ClientMessage<W, C, D, X>,
) -> (r: WsStep<W, D, X>)
    ensures
        ({
            let t = uuid_text(client_id.0);
            match msg {
                ClientMessage::Heartbeat => r matches WsStep::Reply(ServerReply::Pong),
                ClientMessage::JoinSession { user_id, role, world_id } => r matches WsStep::JoinOrCreate {
                    client: c,
                    user_id: u,
                    role: ro,
                    world_id: w,
                } && c@ == t && u == user_id && ro == canonical_role(role) && w == world_id,
                ClientMessage::PlayerAction { action_type, target, dialogue } => match client_session_spec(
                    *m,
                    t,
                ) {
                    None => replies_error(
                        r,
                        "NOT_IN_SESSION"@,
                        "You must join a session before performing actions"@,
                    ),
                    Some(s) => {
                        let player = match client_participant(*m, t) {
                            Some(p) => p.user_id@,
                            None => "unknown"@,
                        };
                        if action_type@ == "travel"@ {
                            match target {
                                None => replies_error(
                                    r,
                                    "MISSING_TARGET"@,
                                    "Travel action requires a target location"@,
                                ),
                                Some(tt) => match uuid_parsed(tt@) {
                                    None => replies_error(
                                        r,
                                        "INVALID_LOCATION_ID"@,
                                        "Invalid location ID format"@,
                                    ),
                                    Some(l) => r matches WsStep::Travel {
                                        session_id: sid,
                                        player_id: p,
                                        location_id: loc,
                                        action_type: a,
                                        target: tg,
                                        dialogue: d,
                                    } && sid == SessionId(s) && p@ == player && loc == l && a
                                        == action_type && tg == target && d == dialogue,
                                },
                            }
                        } else {
                            r matches WsStep::EnqueueAction {
                                session_id: sid,
                                player_id: p,
                                action_type: a,
                                target: tg,
                                dialogue: d,
                            } && sid == SessionId(s) && p@ == player && a == action_type && tg
                                == target && d == dialogue
                        }
                    },
                },
                ClientMessage::RequestSceneChange { scene_id } => match uuid_parsed(scene_id@) {
                    None => replies_error(r, "INVALID_SCENE_ID"@, "Invalid scene ID format"@),
                    Some(sc) => match client_session_spec(*m, t) {
                        None => replies_error(
                            r,
                            "NOT_IN_SESSION"@,
                            "You must join a session before requesting scene changes"@,
                        ),
                        Some(s) => r matches WsStep::ChangeScene {
                            session_id: sid,
                            scene_id: v,
                            scene_text: st,
                        } && sid == SessionId(s) && v == sc && st == scene_id,
                    },
                },
                ClientMessage::DirectorialUpdate { .. } => r matches WsStep::Nothing,
                ClientMessage::ApprovalDecision { request_id, decision } => {
                    if is_session_dm(*m, t) && client_session_spec(*m, t) is Some
                        && client_participant(*m, t) is Some {
                        r matches WsStep::EnqueueApproval {
                            session_id: sid,
                            dm_id: u,
                            request_id: q,
                            decision: d,
                        } && sid == SessionId(client_session_spec(*m, t)->0) && u
                            == client_participant(*m, t)->0.user_id && q == request_id && d
                            == decision
                    } else {
                        replies_error(r, "NOT_AUTHORIZED"@, "Only the DM can approve responses"@)
                    }
                },
                ClientMessage::RegenerateOutcome { request_id, outcome_type, guidance } => r matches WsStep::Regenerate {
                    request_id: q,
                    outcome_type: o,
                    guidance: g,
                } && q == request_id && o == outcome_type && g == guidance,
                ClientMessage::DiscardChallenge { request_id, .. } => r matches WsStep::DiscardChallenge {
                    client: c,
                    request_id: q,
                } && c@ == t && q == request_id,
                ClientMessage::Challenge(x) => r matches WsStep::ToChallengeService {
                    client: c,
                    message: y,
                } && c@ == t && y == x,
            }
        }),
{
    match msg {
        ClientMessage::Heartbeat => WsStep::Reply(ServerReply::Pong),
        ClientMessage::JoinSession { user_id, role, world_id } => WsStep::JoinOrCreate {
            client: client_id.to_string(),
            user_id,
            role: wire_to_canonical_role(role),
            world_id,
        },
        ClientMessage::PlayerAction { action_type, target, dialogue } => {
            let (session_id, player_id) = match action_sender(m, client_id) {
                Ok(v) => v,
                Err(e) => {
                    return WsStep::Reply(ServerReply::Error(e));
                },
            };
            match travel_destination(action_type.as_str(), &target) {
                Some(Err(e)) => WsStep::Reply(ServerReply::Error(e)),
                Some(Ok(location_id)) => WsStep::Travel {
                    session_id,
                    player_id,
                    location_id,
                    action_type,
                    target,
                    dialogue,
                },
                None => WsStep::EnqueueAction {
                    session_id,
                    player_id,
                    action_type,
                    target,
                    dialogue,
                },
            }
        },
        ClientMessage::RequestSceneChange { scene_id } => {
            let scene = match scene_change_target(scene_id.as_str()) {
                Ok(v) => v,
                Err(e) => {
                    return WsStep::Reply(ServerReply::Error(e));
                },
            };
            match scene_change_session(m, client_id) {
                Ok(session_id) => WsStep::ChangeScene {
                    session_id,
                    scene_id: scene,
                    scene_text: scene_id,
                },
                Err(e) => WsStep::Reply(ServerReply::Error(e)),
            }
        },
        ClientMessage::DirectorialUpdate { .. } => WsStep::Nothing,
        ClientMessage::ApprovalDecision { request_id, decision } => {
            match authorize_approval(m, client_id) {
                Ok((session_id, dm_id)) => WsStep::EnqueueApproval {
                    session_id,
                    dm_id,
                    request_id,
                    decision,
                },
                Err(e) => WsStep::Reply(ServerReply::Error(e)),
            }
        },
        ClientMessage::RegenerateOutcome { request_id, outcome_type, guidance } => {
            WsStep::Regenerate { request_id, outcome_type, guidance }
        },
        ClientMessage::DiscardChallenge { request_id, .. } => WsStep::DiscardChallenge {
            client: client_id.to_string(),
            request_id,
        },
        ClientMessage::Challenge(x) => WsStep::ToChallengeService {
            client: client_id.to_string(),
            message: x,
        },
    }
}

fn failure(code: &str, prefix: &str, detail: &str) -> (e: WsError)
    ensures
        ws_error_is(e, code@, prefix@ + detail@),
{
    WsError { code: to_owned_string(code), message: concat_str(prefix, detail) }
}

/// A join the join service refused: `SESSION_ERROR`.
pub fn join_failed(detail: &str) -> (e: WsError)
    ensures
        ws_error_is(e, "SESSION_ERROR"@, "Failed to join session: "@ + detail@),
{
    failure("SESSION_ERROR", "Failed to join session: ", detail)
}

/// An action the player-action queue refused: `QUEUE_ERROR`.
pub fn action_queue_failed(detail: &str) -> (e: WsError)
    ensures
        ws_error_is(e, "QUEUE_ERROR"@, "Failed to queue action: "@ + detail@),
{
    failure("QUEUE_ERROR", "Failed to queue action: ", detail)
}

/// A decision the dungeon-master action queue refused: `QUEUE_ERROR`.
pub fn approval_queue_failed(detail: &str) -> (e: WsError)
    ensures
        ws_error_is(e, "QUEUE_ERROR"@, "Failed to queue approval: "@ + detail@),
{
    failure("QUEUE_ERROR", "Failed to queue approval: ", detail)
}

/// A travel whose location could not be stored: `LOCATION_UPDATE_FAILED`.
pub fn location_update_failed(detail: &str) -> (e: WsError)
    ensures
        ws_error_is(e, "LOCATION_UPDATE_FAILED"@, "Failed to update location: "@ + detail@),
{
    failure("LOCATION_UPDATE_FAILED", "Failed to update location: ", detail)
}

/// A travel whose player's character could not be read: `PC_LOOKUP_FAILED`.
pub fn pc_lookup_failed(detail: &str) -> (e: WsError)
    ensures
        ws_error_is(e, "PC_LOOKUP_FAILED"@, "Failed to find your character: "@ + detail@),
{
    failure("PC_LOOKUP_FAILED", "Failed to find your character: ", detail)
}

/// A travel by a player without a character: `NO_PC`.
pub fn no_pc() -> (e: WsError)
    ensures
        ws_error_is(e, "NO_PC"@, "You must create a character before traveling"@),
{
    WsError {
        code: to_owned_string("NO_PC"),
        message: to_owned_string("You must create a character before traveling"),
    }
}

/// A scene that could not be loaded: `SCENE_LOAD_ERROR`.
pub fn scene_load_error() -> (e: WsError)
    ensures
        ws_error_is(e, "SCENE_LOAD_ERROR"@, "Failed to load scene"@),
{
    WsError {
        code: to_owned_string("SCENE_LOAD_ERROR"),
        message: to_owned_string("Failed to load scene"),
    }
}

} // verus!
