//! The session service seen from the application: its own participant
//! roles and errors, and the queries and changes it makes on the session
//! manager with clients named by their ID text.

use crate::ids::{parse_client_id, uuid_parsed, uuid_text, ClientId, SessionId, WorldId};
use crate::session::{
    client_ids_except, client_index, first_dm_index, has_client, has_dm_in, participant_added,
    player_ids, GameSession, ParticipantRole, SessionError, SessionManager, SessionParticipant,
    WorldSnapshot,
};
use crate::text::{concat_str, to_owned_string};
use std::sync::Arc;
use vstd::prelude::*;

verus! {

/// Role of a participant as the application services name it.
#[derive(Clone, Copy, Debug, PartialEq, Eq, Structural)]
pub enum SessionParticipantRole {
    DungeonMaster,
    Player,
    Spectator,
}

/// The wire role that stands for an application role.
pub open spec fn wire_role(role: SessionParticipantRole) -> ParticipantRole {
    match role {
        SessionParticipantRole::DungeonMaster => ParticipantRole::DungeonMaster,
        SessionParticipantRole::Player => ParticipantRole::Player,
        SessionParticipantRole::Spectator => ParticipantRole::Spectator,
    }
}

/// The application role that stands for a wire role.
pub open spec fn canonical_role(role: ParticipantRole) -> SessionParticipantRole {
    match role {
        ParticipantRole::DungeonMaster => SessionParticipantRole::DungeonMaster,
        ParticipantRole::Player => SessionParticipantRole::Player,
        ParticipantRole::Spectator => SessionParticipantRole::Spectator,
    }
}

/// Converts an application role to the session manager's role.
pub fn to_infra_role(role: SessionParticipantRole) -> (r: ParticipantRole)
    ensures
        r == wire_role(role),
{
    match role {
        SessionParticipantRole::DungeonMaster => ParticipantRole::DungeonMaster,
        SessionParticipantRole::Player => ParticipantRole::Player,
        SessionParticipantRole::Spectator => ParticipantRole::Spectator,
    }
}

/// Converts the session manager's role to an application role.
pub fn from_infra_role(role: ParticipantRole) -> (r: SessionParticipantRole)
    ensures
        r == canonical_role(role),
{
    match role {
        ParticipantRole::DungeonMaster => SessionParticipantRole::DungeonMaster,
        ParticipantRole::Player => SessionParticipantRole::Player,
        ParticipantRole::Spectator => SessionParticipantRole::Spectator,
    }
}

/// Converts a role received over the WebSocket to an application role.
pub fn wire_to_canonical_role(role: ParticipantRole) -> (r: SessionParticipantRole)
    ensures
        r == canonical_role(role),
{
    from_infra_role(role)
}

/// Converts an application role to the role sent over the WebSocket.
pub fn canonical_to_wire_role(role: SessionParticipantRole) -> (r: ParticipantRole)
    ensures
        r == wire_role(role),
{
    to_infra_role(role)
}

/// The two role types name the same three roles: converting one way and
/// back gives the role one started with.
pub proof fn role_round_trip(a: SessionParticipantRole, w: ParticipantRole)
    ensures
        canonical_role(wire_role(a)) == a,
        wire_role(canonical_role(w)) == w,
{
}

/// What the application learns of a participant.
#[derive(Clone, Debug)]
pub struct SessionParticipantInfo {
    pub client_id: String,
    pub user_id: String,
    pub role: SessionParticipantRole,
}

/// Error of the session service as the application sees it.
#[derive(Clone, Debug)]
pub enum AsyncSessionError {
    SessionNotFound(String),
    WorldNotFound(String),
    ClientNotInSession,
    DmAlreadyPresent,
    Internal(String),
}

/// The message of `SessionError::NotFound` for a session.
pub open spec fn session_not_found_text(id: SessionId) -> Seq<char> {
    "Session not found: "@ + uuid_text(id.0)
}

/// Converts a session manager error to the application's error; a
/// missing session keeps the manager's message.
pub fn convert_error(err: SessionError) -> (r: AsyncSessionError)
    ensures
        match err {
            SessionError::NotFound(id) => r matches AsyncSessionError::SessionNotFound(m) && m@
                == session_not_found_text(id),
            SessionError::WorldNotFound(w) => r == AsyncSessionError::WorldNotFound(w),
            SessionError::ClientNotInSession(_) => r == AsyncSessionError::ClientNotInSession,
            SessionError::DmAlreadyPresent => r == AsyncSessionError::DmAlreadyPresent,
            SessionError::Database(e) => r == AsyncSessionError::Internal(e),
        },
{
    match err {
        SessionError::NotFound(id) => {
            let text = id.to_string();
            AsyncSessionError::SessionNotFound(concat_str("Session not found: ", text.as_str()))
        },
        SessionError::WorldNotFound(w) => AsyncSessionError::WorldNotFound(w),
        SessionError::ClientNotInSession(_) => AsyncSessionError::ClientNotInSession,
        SessionError::DmAlreadyPresent => AsyncSessionError::DmAlreadyPresent,
        SessionError::Database(e) => AsyncSessionError::Internal(e),
    }
}

/// The session a client named by its ID text is in, if the text is a
/// UUID and the client is in a session.
pub open spec fn client_session_spec(m: SessionManager, client_id: Seq<char>) -> Option<u128> {
    match uuid_parsed(client_id) {
        Some(c) => if m.spec_clients().contains_key(c) {
            Some(m.spec_clients()[c])
        } else {
            None
        },
        None => None,
    }
}

/// The participants of the session a client is in, when that session is
/// stored.
pub open spec fn client_session_participants(
    m: SessionManager,
    client_id: Seq<char>,
) -> Option<Seq<SessionParticipant>> {
    match client_session_spec(m, client_id) {
        Some(s) => if m.spec_sessions().contains_key(s) {
            Some(m.spec_sessions()[s].spec_participants())
        } else {
            None
        },
        None => None,
    }
}

/// The participant record of a client named by its ID text.
pub open spec fn client_participant(m: SessionManager, client_id: Seq<char>) -> Option<
    SessionParticipant,
> {
    match client_session_participants(m, client_id) {
        Some(ps) => {
            let c = ClientId(uuid_parsed(client_id)->0);
            if has_client(ps, c) {
                Some(ps[client_index(ps, c)])
            } else {
                None
            }
        },
        None => None,
    }
}

/// The session of a client named by its ID text.
pub fn get_client_session(m: &SessionManager, client_id: &str) -> (r: Option<SessionId>)
    ensures
        r == (match client_session_spec(*m, client_id@) {
            Some(s) => Some(SessionId(s)),
            None => None::<SessionId>,
        }),
{
    match parse_client_id(client_id) {
        Some(c) => m.get_client_session(c),
        None => None,
    }
}

/// The participants of the session a client is in, with the client's ID.
fn client_context<'a>(m: &'a SessionManager, client_id: &str) -> (r: Option<
    (ClientId, &'a GameSession),
>)
    ensures
        match r {
            Some((c, s)) => uuid_parsed(client_id@) == Some(c.0)
                && client_session_participants(*m, client_id@) == Some(s.spec_participants()),
            None => client_session_participants(*m, client_id@) is None,
        },
{
    let c = match parse_client_id(client_id) {
        Some(c) => c,
        None => {
            return None;
        },
    };
    let sid = match m.get_client_session(c) {
        Some(s) => s,
        None => {
            return None;
        },
    };
    match m.get_session(sid) {
        Some(s) => Some((c, s)),
        None => None,
    }
}

/// Whether a client named by its ID text is the dungeon master of its
/// session (the session's first dungeon master).
pub fn is_client_dm(m: &SessionManager, client_id: &str) -> (r: bool)
    ensures
        r == (match client_session_participants(*m, client_id@) {
            Some(ps) => exists|i: int|
                first_dm_index(ps, i) && Some(#[trigger] ps[i].client_id.0) == uuid_parsed(
                    client_id@,
                ),
            None => false,
        }),
{
    match client_context(m, client_id) {
        Some((c, session)) => match session.get_dm() {
            Some(dm) => dm.client_id == c,
            None => {
                proof {
                    let ps = session.spec_participants();
                    assert forall|i: int| !first_dm_index(ps, i) by {
                        if first_dm_index(ps, i) {
                            assert(ps[i].role == ParticipantRole::DungeonMaster);
                        }
                    }
                }
                false
            },
        },
        None => false,
    }
}

/// The user ID of a client named by its ID text.
pub fn get_client_user_id(m: &SessionManager, client_id: &str) -> (r: Option<String>)
    ensures
        r == (match client_participant(*m, client_id@) {
            Some(p) => Some(p.user_id),
            None => None::<String>,
        }),
{
    match client_context(m, client_id) {
        Some((c, session)) => match session.participant(c) {
            Some(p) => Some(p.user_id.clone()),
            None => None,
        },
        None => None,
    }
}

/// What the application learns of a client named by its ID text: the ID
/// text as given, the user ID and the role.
pub fn get_participant_info(m: &SessionManager, client_id: &str) -> (r: Option<
    SessionParticipantInfo,
>)
    ensures
        match client_participant(*m, client_id@) {
            Some(p) => r matches Some(info) && info.client_id@ == client_id@ && info.user_id
                == p.user_id && info.role == canonical_role(p.role),
            None => r is None,
        },
{
    match client_context(m, client_id) {
        Some((c, session)) => match session.participant(c) {
            Some(p) => Some(
                SessionParticipantInfo {
                    client_id: to_owned_string(client_id),
                    user_id: p.user_id.clone(),
                    role: from_infra_role(p.role),
                },
            ),
            None => None,
        },
        None => None,
    }
}

/// The world of a session.
pub fn get_session_world_id(m: &SessionManager, session_id: SessionId) -> (r: Option<WorldId>)
    ensures
        r == (if m.spec_sessions().contains_key(session_id.0) {
            Some(m.spec_sessions()[session_id.0].spec_world_id())
        } else {
            None
        }),
{
    match m.get_session(session_id) {
        Some(s) => Some(s.world_id()),
        None => None,
    }
}

/// Whether a session has a dungeon master; false for a missing session.
pub fn session_has_dm(m: &SessionManager, session_id: SessionId) -> (r: bool)
    ensures
        r == (m.spec_sessions().contains_key(session_id.0) && has_dm_in(
            m.spec_sessions()[session_id.0].spec_participants(),
        )),
{
    match m.get_session(session_id) {
        Some(s) => s.has_dm(),
        None => false,
    }
}

/// What the application learns of each participant of a session, in the
/// order they joined; empty for a missing session.
pub fn get_session_participants(m: &SessionManager, session_id: SessionId) -> (r: Vec<
    SessionParticipantInfo,
>)
    ensures
        m.spec_sessions().contains_key(session_id.0) ==> {
            let ps = m.spec_sessions()[session_id.0].spec_participants();
            &&& r@.len() == ps.len()
            &&& forall|i: int|
                0 <= i < ps.len() ==> {
                    &&& (#[trigger] r@[i]).client_id@ == uuid_text(ps[i].client_id.0)
                    &&& r@[i].user_id == ps[i].user_id
                    &&& r@[i].role == canonical_role(ps[i].role)
                }
        },
        !m.spec_sessions().contains_key(session_id.0) ==> r@.len() == 0,
{
    let mut r: Vec<SessionParticipantInfo> = Vec::new();
    let session = match m.get_session(session_id) {
        Some(s) => s,
        None => {
            return r;
        },
    };
    let ps = session.participants();
    let mut i: usize = 0;
    while i < ps.len()
        invariant
            i <= ps@.len(),
            r@.len() == i,
            forall|j: int|
                0 <= j < i ==> {
                    &&& (#[trigger] r@[j]).client_id@ == uuid_text(ps@[j].client_id.0)
                    &&& r@[j].user_id == ps@[j].user_id
                    &&& r@[j].role == canonical_role(ps@[j].role)
                },
        decreases ps@.len() - i,
    {
        let p = &ps[i];
        r.push(
            SessionParticipantInfo {
                client_id: p.client_id.to_string(),
                user_id: p.user_id.clone(),
                role: from_infra_role(p.role),
            },
        );
        i = i + 1;
    }
    r
}

/// Records a line spoken by an NPC in a session's history; fails with
/// `SessionNotFound` (carrying the session's ID text) for a missing session.
pub fn add_to_conversation_history(
    m: &mut SessionManager,
    session_id: SessionId,
    speaker: &str,
    text: &str,
) -> (r: Result<(), AsyncSessionError>)
    ensures
        final(m).spec_clients() == old(m).spec_clients(),
        final(m).spec_worlds() == old(m).spec_worlds(),
        match r {
            Ok(()) => {
                let o = old(m).spec_sessions()[session_id.0];
                let n = final(m).spec_sessions()[session_id.0];
                &&& old(m).spec_sessions().contains_key(session_id.0)
                &&& final(m).spec_sessions() == old(m).spec_sessions().insert(session_id.0, n)
                &&& n.same_frame(o)
                &&& n.spec_participants() == o.spec_participants()
                &&& n.approvals() == o.approvals()
                &&& n.max_history() == o.max_history()
                &&& exists|t: crate::session::ConversationTurn|
                    t.speaker@ == speaker@ && t.content@ == text@ && !t.is_player && n.history()
                        == crate::session::keep_last(o.history().push(t), o.max_history())
            },
            Err(e) => {
                &&& !old(m).spec_sessions().contains_key(session_id.0)
                &&& e matches AsyncSessionError::SessionNotFound(msg) && msg@ == uuid_text(
                    session_id.0,
                )
                &&& final(m).spec_sessions() == old(m).spec_sessions()
            },
        },
{
    match m.get_session_mut(session_id) {
        Some(s) => {
            s.add_npc_response(speaker, text);
            Ok(())
        },
        None => Err(AsyncSessionError::SessionNotFound(session_id.to_string())),
    }
}

/// Puts a client named by its ID text into a session in the given role
/// and hands back the session's world snapshot. A text that is no UUID
/// fails with `Internal("Invalid client ID format")`, with nothing changed;
/// otherwise the outcome is the session manager's, its error converted.
pub fn join_session(
    m: &mut SessionManager,
    session_id: SessionId,
    client_id: &str,
    user_id: String,
    role: SessionParticipantRole,
) -> (r: Result<Arc<WorldSnapshot>, AsyncSessionError>)
    ensures
        old(m).wf() ==> final(m).wf(),
        final(m).spec_worlds() == old(m).spec_worlds(),
        uuid_parsed(client_id@) is None ==> {
            &&& r matches Err(AsyncSessionError::Internal(msg)) && msg@
                == "Invalid client ID format"@
            &&& final(m).spec_sessions() == old(m).spec_sessions()
            &&& final(m).spec_clients() == old(m).spec_clients()
        },
        uuid_parsed(client_id@) matches Some(c) ==> match r {
            Ok(snapshot) => {
                let o = old(m).spec_sessions()[session_id.0];
                let n = final(m).spec_sessions()[session_id.0];
                &&& old(m).join_allowed(session_id, wire_role(role))
                &&& *snapshot == o.spec_snapshot()
                &&& final(m).spec_clients() == old(m).spec_clients().insert(c, session_id.0)
                &&& final(m).spec_sessions() == old(m).spec_sessions().insert(session_id.0, n)
                &&& participant_added(
                    o.spec_participants(),
                    n.spec_participants(),
                    ClientId(c),
                    user_id,
                    wire_role(role),
                )
            },
            Err(e) => {
                &&& !old(m).join_allowed(session_id, wire_role(role))
                &&& if !old(m).spec_sessions().contains_key(session_id.0) {
                    e matches AsyncSessionError::SessionNotFound(msg) && msg@
                        == session_not_found_text(session_id)
                } else {
                    e == AsyncSessionError::DmAlreadyPresent
                }
                &&& final(m).spec_sessions() == old(m).spec_sessions()
                &&& final(m).spec_clients() == old(m).spec_clients()
            },
        },
{
    let c = match parse_client_id(client_id) {
        Some(c) => c,
        None => {
            return Err(AsyncSessionError::Internal(to_owned_string("Invalid client ID format")));
        },
    };
    match m.join_session(session_id, c, user_id, to_infra_role(role)) {
        Ok(snapshot) => Ok(snapshot),
        Err(e) => Err(convert_error(e)),
    }
}

/// The clients a message for a session, but not for the client named by
/// `exclude_client`, goes to. An `exclude_client` that is no UUID fails
/// with `Internal("Invalid exclude client ID")`.
pub fn broadcast_except_targets(
    m: &SessionManager,
    session_id: SessionId,
    exclude_client: &str,
) -> (r: Result<Vec<ClientId>, AsyncSessionError>)
    ensures
        match uuid_parsed(exclude_client@) {
            Some(c) => r matches Ok(v) && v@ == (if m.spec_sessions().contains_key(session_id.0) {
                client_ids_except(m.spec_sessions()[session_id.0].spec_participants(), ClientId(c))
            } else {
                Seq::<ClientId>::empty()
            }),
            None => r matches Err(AsyncSessionError::Internal(msg)) && msg@
                == "Invalid exclude client ID"@,
        },
{
    match parse_client_id(exclude_client) {
        Some(c) => Ok(m.broadcast_to_session_except(session_id, c)),
        None => Err(AsyncSessionError::Internal(to_owned_string("Invalid exclude client ID"))),
    }
}

/// The players (not the dungeon master, not spectators) a message for a
/// session's players goes to; none for a missing session.
pub fn broadcast_to_players_targets(m: &SessionManager, session_id: SessionId) -> (r: Vec<ClientId>)
    ensures
        r@ == (if m.spec_sessions().contains_key(session_id.0) {
            player_ids(m.spec_sessions()[session_id.0].spec_participants())
        } else {
            Seq::<ClientId>::empty()
        }),
{
    match m.get_session(session_id) {
        Some(s) => s.broadcast_to_players(),
        None => Vec::new(),
    }
}

/// The client a message for a session's dungeon master goes to, if the
/// session exists and has one.
pub fn send_to_dm_target(m: &SessionManager, session_id: SessionId) -> (r: Option<ClientId>)
    ensures
        match r {
            Some(c) => m.spec_sessions().contains_key(session_id.0) && exists|i: int|
                first_dm_index(m.spec_sessions()[session_id.0].spec_participants(), i)
                    && m.spec_sessions()[session_id.0].spec_participants()[i].client_id == c,
            None => !(m.spec_sessions().contains_key(session_id.0) && has_dm_in(
                m.spec_sessions()[session_id.0].spec_participants(),
            )),
        },
{
    match m.get_session(session_id) {
        Some(s) => s.send_to_dm(),
        None => None,
    }
}

} // verus!
