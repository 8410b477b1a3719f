//! What the HTTP API tells about sessions: a summary of each, the sessions
//! of a world, and the dungeon master's session of a world.

use crate::api::{bad_request, parse_id, ApiError};
use crate::ids::{uuid_parsed, uuid_text, SessionId, WorldId};
use crate::session::{
    first_dm_index, has_dm_in, player_ids, GameSession, SessionManager, WorldSnapshot,
};
use crate::text::to_owned_string;
use vstd::prelude::*;

verus! {

/// Summary of a session.
#[derive(Clone, Debug)]
pub struct SessionInfo {
    pub session_id: String,
    pub world_id: String,
    pub dm_user_id: String,
    pub active_player_count: usize,
    /// When the session was created, in seconds since the Unix epoch.
    pub created_at: i64,
}

/// Body of a request for the dungeon master's session of a world.
#[derive(Clone, Debug)]
pub struct CreateSessionRequest {
    pub dm_user_id: String,
}

/// Whole seconds (rounded down) in a number of milliseconds.
pub fn millis_to_seconds(ms: i64) -> (r: i64)
    ensures
        r == ms / 1000,
{
    if ms >= 0 {
        ms / 1000
    } else {
        let q = (-(ms + 1)) / 1000;
        assert(ms / 1000 == -q - 1) by (nonlinear_arith)
            requires
                ms < 0,
                q == (-(ms + 1)) / 1000,
        ;
        -q - 1
    }
}

/// `info` summarises `session` under ID `id`: the dungeon master it was
/// created for, else the user ID of its dungeon master, else `fallback`;
/// its number of players and its creation time in seconds.
pub open spec fn summarises(info: SessionInfo, id: SessionId, session: GameSession, fallback: Seq<char>) -> bool {
    let ps = session.spec_participants();
    &&& info.session_id@ == uuid_text(id.0)
    &&& info.world_id@ == uuid_text(session.spec_world_id().0)
    &&& (match session.spec_dm_user_id() {
        Some(u) => info.dm_user_id == u,
        None => if has_dm_in(ps) {
            exists|i: int| first_dm_index(ps, i) && info.dm_user_id == ps[i].user_id
        } else {
            info.dm_user_id@ == fallback
        },
    })
    &&& info.active_player_count == player_ids(ps).len()
    &&& info.created_at == session.spec_created_at() / 1000
}

/// Summarises a session; `fallback` is the dungeon master's user ID given
/// when the session has none.
pub fn session_info(id: SessionId, session: &GameSession, fallback: &str) -> (info: SessionInfo)
    ensures
        summarises(info, id, *session, fallback@),
{
    let dm_user_id = match session.dm_user_id() {
        Some(u) => u.clone(),
        None => match session.get_dm() {
            Some(dm) => dm.user_id.clone(),
            None => to_owned_string(fallback),
        },
    };
    let players = session.broadcast_to_players();
    SessionInfo {
        session_id: id.to_string(),
        world_id: session.world_id().to_string(),
        dm_user_id,
        active_player_count: players.len(),
        created_at: millis_to_seconds(session.created_at()),
    }
}

/// The session `s` is listed: it is active and, when a world is asked
/// for, of that world.
pub open spec fn wanted(m: SessionManager, world: Option<WorldId>, s: u128) -> bool {
    &&& m.spec_sessions().contains_key(s)
    &&& match world {
        Some(w) => m.spec_sessions()[s].spec_world_id() == w,
        None => true,
    }
}

/// `r` lists the wanted sessions of `m`, in the order of `ids`: one summary
/// per wanted session and none for another.
pub open spec fn lists_by(m: SessionManager, world: Option<WorldId>, r: Seq<SessionInfo>, ids: Seq<u128>) -> bool {
    &&& ids.len() == r.len()
    &&& ids.no_duplicates()
    &&& forall|i: int|
        0 <= i < ids.len() ==> wanted(m, world, #[trigger] ids[i]) && summarises(
            r[i],
            SessionId(ids[i]),
            m.spec_sessions()[ids[i]],
            ""@,
        )
    &&& forall|s: u128| #[trigger] wanted(m, world, s) ==> ids.contains(s)
}

/// `r` lists the wanted sessions of `m`, in some order.
pub open spec fn lists(m: SessionManager, world: Option<WorldId>, r: Seq<SessionInfo>) -> bool {
    exists|ids: Seq<u128>| lists_by(m, world, r, ids)
}

fn summaries(m: &SessionManager, world: Option<WorldId>) -> (r: Vec<SessionInfo>)
    ensures
        lists(*m, world, r@),
{
    let ids = m.get_session_ids();
    let mut r: Vec<SessionInfo> = Vec::new();
    let ghost mut out: Seq<u128> = Seq::empty();
    let mut i: usize = 0;
    while i < ids.len()
        invariant
            i <= ids@.len(),
            forall|k: int| 0 <= k < ids@.len() ==> m.spec_sessions().contains_key(#[trigger] ids@[k].0),
            forall|s: u128|
                #[trigger] m.spec_sessions().contains_key(s) ==> exists|k: int|
                    0 <= k < ids@.len() && ids@[k].0 == s,
            forall|a: int, b: int|
                0 <= a < ids@.len() && 0 <= b < ids@.len() && a != b ==> #[trigger] ids@[a]
                    != #[trigger] ids@[b],
            out.len() == r@.len(),
            out.no_duplicates(),
            forall|j: int|
                0 <= j < out.len() ==> wanted(*m, world, #[trigger] out[j]) && summarises(
                    r@[j],
                    SessionId(out[j]),
                    m.spec_sessions()[out[j]],
                    ""@,
                ),
            forall|j: int| 0 <= j < out.len() ==> exists|k: int| 0 <= k < i && #[trigger] out[j] == ids@[k].0,
            forall|k: int| 0 <= k < i && wanted(*m, world, #[trigger] ids@[k].0) ==> out.contains(ids@[k].0),
        decreases ids@.len() - i,
    {
        let sid = ids[i];
        match m.get_session(sid) {
            Some(session) => {
                let keep = match world {
                    Some(w) => session.world_id() == w,
                    None => true,
                };
                if keep {
                    let info = session_info(sid, session, "");
                    proof {
                        assert(!out.contains(sid.0)) by {
                            if out.contains(sid.0) {
                                let j = choose|j: int| 0 <= j < out.len() && out[j] == sid.0;
                                let k = choose|k: int| 0 <= k < i && out[j] == ids@[k].0;
                                assert(ids@[k] == ids@[i as int]);
                            }
                        }
                    }
                    let ghost old_out = out;
                    proof {
                        out = out.push(sid.0);
                    }
                    r.push(info);
                    proof {
                        assert forall|k: int| 0 <= k < i + 1 && wanted(*m, world, #[trigger] ids@[k].0) implies out.contains(ids@[k].0) by {
                            if k == i {
                                assert(out[out.len() - 1] == ids@[k].0);
                            } else {
                                assert(old_out.contains(ids@[k].0));
                                let j = choose|j: int| 0 <= j < old_out.len() && old_out[j] == ids@[k].0;
                                assert(out[j] == ids@[k].0);
                            }
                        }
                        assert forall|j: int| 0 <= j < out.len() implies exists|k: int| 0 <= k < i + 1 && #[trigger] out[j] == ids@[k].0 by {
                            if j == out.len() - 1 {
                                assert(out[j] == ids@[i as int].0);
                            }
                        }
                    }
                }
            },
            None => {},
        }
        i = i + 1;
    }
    proof {
        assert forall|s: u128| #[trigger] wanted(*m, world, s) implies out.contains(s) by {
            let k = choose|k: int| 0 <= k < ids@.len() && ids@[k].0 == s;
            assert(wanted(*m, world, ids@[k].0));
        }
        assert(lists_by(*m, world, r@, out));
    }
    r
}

/// Summaries of all active sessions, one per session in no promised order;
/// a session without a dungeon master names none ("").
pub fn list_sessions(m: &SessionManager) -> (r: Vec<SessionInfo>)
    ensures
        lists(*m, None, r@),
{
    summaries(m, None)
}

/// Summaries of the active sessions of a world; none when the world ID is
/// no UUID.
pub fn list_world_sessions(m: &SessionManager, world_id: &str) -> (r: Vec<SessionInfo>)
    ensures
        uuid_parsed(world_id@) is None ==> r@.len() == 0,
        uuid_parsed(world_id@) matches Some(w) ==> lists(*m, Some(WorldId(w)), r@),
{
    match crate::ids::parse_uuid(world_id) {
        Some(w) => summaries(m, Some(WorldId(w))),
        None => Vec::new(),
    }
}

/// The summary of a world's existing session, for the dungeon master
/// `dm_user_id` (named when the session has no dungeon master yet).
/// A world ID that is no UUID is a "Bad Request"; `None` when the world has
/// no session yet, which the caller then creates.
pub fn existing_dm_session(m: &SessionManager, world_id: &str, dm_user_id: &str) -> (r: Result<
    Option<SessionInfo>,
    ApiError,
>)
    ensures
        match uuid_parsed(world_id@) {
            None => r matches Err(e) && e.status == bad_request(),
            Some(w) => {
                let found = m.spec_worlds().contains_key(w) && m.spec_sessions().contains_key(
                    m.spec_worlds()[w],
                );
                if found {
                    let s = m.spec_worlds()[w];
                    r matches Ok(Some(info)) && summarises(
                        info,
                        SessionId(s),
                        m.spec_sessions()[s],
                        dm_user_id@,
                    )
                } else {
                    r matches Ok(None)
                }
            },
        },
{
    let w = match parse_id(world_id, "Invalid world ID") {
        Ok(w) => w,
        Err(e) => {
            return Err(e);
        },
    };
    match m.find_session_for_world(WorldId(w)) {
        Some(sid) => match m.get_session(sid) {
            Some(session) => Ok(Some(session_info(sid, session, dm_user_id))),
            None => Ok(None),
        },
        None => Ok(None),
    }
}

/// The summary of a session just created for a dungeon master: no players
/// yet, and the dungeon master as given.
pub fn new_session_info(id: SessionId, session: &GameSession, dm_user_id: String) -> (info: SessionInfo)
    ensures
        info.session_id@ == uuid_text(id.0),
        info.world_id@ == uuid_text(session.spec_world_id().0),
        info.dm_user_id == dm_user_id,
        info.active_player_count == 0,
        info.created_at == session.spec_created_at() / 1000,
{
    SessionInfo {
        session_id: id.to_string(),
        world_id: session.world_id().to_string(),
        dm_user_id,
        active_player_count: 0,
        created_at: millis_to_seconds(session.created_at()),
    }
}


/// Creates the dungeon master's session of a world that has none, from
/// the world's snapshot, and records `dm_user_id` as the dungeon master it
/// was created for; the answer (with the new session's ID) names that
/// dungeon master and no players.
/// The manager stays consistent unless the random ID was already taken.
pub fn create_dm_session(
    m: &mut SessionManager,
    world_id: WorldId,
    world_snapshot: WorldSnapshot,
    dm_user_id: String,
) -> (r: (SessionId, SessionInfo))
    ensures
        ({
            let s = r.0.0;
            &&& old(m).wf() && !old(m).spec_sessions().contains_key(s) ==> final(m).wf()
            &&& final(m).spec_sessions().contains_key(s)
            &&& final(m).spec_worlds() == old(m).spec_worlds().insert(world_id.0, s)
            &&& final(m).spec_clients() == old(m).spec_clients()
            &&& final(m).spec_sessions() == old(m).spec_sessions().insert(
                s,
                final(m).spec_sessions()[s],
            )
            &&& final(m).spec_sessions()[s].spec_world_id() == world_id
            &&& final(m).spec_sessions()[s].spec_snapshot() == world_snapshot
            &&& final(m).spec_sessions()[s].spec_participants().len() == 0
            &&& final(m).spec_sessions()[s].spec_dm_user_id() == Some(dm_user_id)
            &&& summarises(r.1, r.0, final(m).spec_sessions()[s], dm_user_id@)
        }),
{
    let sid = m.create_session(world_id, world_snapshot);
    m.record_session_dm(sid, dm_user_id.clone());
    let session = m.get_session(sid).unwrap();
    (sid, session_info(sid, session, dm_user_id.as_str()))
}


/// Law: once a world's dungeon-master session is created for a dungeon
/// master, every later summary of it names that dungeon master, whoever
/// asks: `m1` holds the session with its dungeon master recorded, `m2`
/// still holds it with the same frame (as joins, leaves, turns and
/// approvals keep it), and `info` summarises it in `m2`.
pub proof fn dm_session_names_creator(
    m1: SessionManager,
    m2: SessionManager,
    s: SessionId,
    creator: String,
    info: SessionInfo,
    fallback: Seq<char>,
)
    requires
        m1.spec_sessions().contains_key(s.0),
        m1.spec_sessions()[s.0].spec_dm_user_id() == Some(creator),
        m2.spec_sessions().contains_key(s.0),
        m2.spec_sessions()[s.0].same_frame(m1.spec_sessions()[s.0]),
        summarises(info, s, m2.spec_sessions()[s.0], fallback),
    ensures
        info.dm_user_id == creator,
        info.session_id@ == uuid_text(s.0),
        info.world_id@ == uuid_text(m1.spec_sessions()[s.0].spec_world_id().0),
{
    m2.spec_sessions()[s.0].lemma_same_frame(m1.spec_sessions()[s.0]);
}

} // verus!
