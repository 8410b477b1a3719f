//! Game sessions: who takes part, the conversation history kept for the
//! language model, the approvals waiting for the dungeon master, and the
//! manager that maps clients and worlds to sessions.

use crate::ids::{random_uuid, ClientId, SessionId, WorldId};
use crate::text::str_eq;
use crate::world::{Character, Location, Scene, World};
use std::collections::HashMap;
use std::sync::Arc;
use vstd::std_specs::iter::IteratorSpec;
use vstd::prelude::*;

verus! {

broadcast use vstd::std_specs::hash::group_hash_axioms;

/// The current time in milliseconds since the Unix epoch, read with
/// `chrono::Utc::now`. Nothing is claimed of the value: it is the clock's.
#[verifier::external_body]
pub(crate) fn now_millis() -> (t: i64) {
    chrono::Utc::now().timestamp_millis()
}

/// Shares a world snapshot with `Arc::clone`: the new handle points at the
/// same snapshot.
#[verifier::external_body]
fn share_snapshot(a: &Arc<WorldSnapshot>) -> (r: Arc<WorldSnapshot>)
    ensures
        *r == **a,
{
    Arc::clone(a)
}

/// Role of a participant in a session, as sent over the wire.
#[derive(Clone, Copy, Debug, PartialEq, Eq, Structural)]
pub enum ParticipantRole {
    DungeonMaster,
    Player,
    Spectator,
}

/// One turn of the conversation kept for the language model's context.
#[derive(Clone, Debug)]
pub struct ConversationTurn {
    /// Name of the speaker (character name or "Player").
    pub speaker: String,
    /// Content of the dialogue or action.
    pub content: String,
    /// When the turn happened, in milliseconds since the Unix epoch.
    pub timestamp: i64,
    /// Whether this was a player action (true) or an NPC response (false).
    pub is_player: bool,
}

impl ConversationTurn {
    /// A turn stamped with the current time.
    pub fn new(speaker: String, content: String, is_player: bool) -> (t: ConversationTurn)
        ensures
            t.speaker == speaker,
            t.content == content,
            t.is_player == is_player,
    {
        ConversationTurn { speaker, content, timestamp: now_millis(), is_player }
    }
}

/// A participant of a game session. The channel that reaches the client is
/// kept by the transport layer, keyed by `client_id`.
#[derive(Clone, Debug)]
pub struct SessionParticipant {
    pub client_id: ClientId,
    pub user_id: String,
    pub role: ParticipantRole,
    pub joined_at: i64,
}

/// A tool call that the language model proposes with an NPC response.
#[derive(Clone, Debug)]
pub struct ProposedTool {
    pub id: String,
    pub name: String,
    pub description: String,
    /// The call's arguments as JSON text.
    pub arguments: String,
}

/// A response of the language model waiting for the dungeon master's decision.
#[derive(Clone, Debug)]
pub struct PendingApproval {
    /// Request ID matching the ApprovalRequired message.
    pub request_id: String,
    /// Name of the NPC responding.
    pub npc_name: String,
    /// The dialogue as the language model proposed it.
    pub proposed_dialogue: String,
    /// Internal reasoning of the model.
    pub internal_reasoning: String,
    /// Proposed tool calls.
    pub proposed_tools: Vec<ProposedTool>,
    /// Number of rejection retries already used.
    pub retry_count: u32,
    /// When approval was requested, in milliseconds since the Unix epoch.
    pub requested_at: i64,
}

impl PendingApproval {
    /// A fresh approval request, with no retries used yet.
    pub fn new(
        request_id: String,
        npc_name: String,
        proposed_dialogue: String,
        internal_reasoning: String,
        proposed_tools: Vec<ProposedTool>,
    ) -> (a: PendingApproval)
        ensures
            a.request_id == request_id,
            a.npc_name == npc_name,
            a.proposed_dialogue == proposed_dialogue,
            a.internal_reasoning == internal_reasoning,
            a.proposed_tools == proposed_tools,
            a.retry_count == 0,
    {
        PendingApproval {
            request_id,
            npc_name,
            proposed_dialogue,
            internal_reasoning,
            proposed_tools,
            retry_count: 0,
            requested_at: now_millis(),
        }
    }
}

/// The world as it stood when the session started.
#[derive(Clone, Debug)]
pub struct WorldSnapshot {
    pub world: World,
    pub locations: Vec<Location>,
    pub characters: Vec<Character>,
    pub scenes: Vec<Scene>,
    pub current_scene_id: Option<String>,
}

/// The last `n` elements of `s` (all of `s` when it is shorter).
pub open spec fn keep_last<A>(s: Seq<A>, n: nat) -> Seq<A> {
    if s.len() > n {
        s.skip(s.len() - n)
    } else {
        s
    }
}

/// Some participant of `ps` is the client `c`.
pub open spec fn has_client(ps: Seq<SessionParticipant>, c: ClientId) -> bool {
    exists|i: int| 0 <= i < ps.len() && #[trigger] ps[i].client_id == c
}

/// `n` is `o` after client `c` joined as `user` with `role`: a participant
/// already there under `c` is replaced in place, otherwise the newcomer is
/// appended; every other participant stays where it was.
pub open spec fn participant_added(
    o: Seq<SessionParticipant>,
    n: Seq<SessionParticipant>,
    c: ClientId,
    user: String,
    role: ParticipantRole,
) -> bool {
    let k = if has_client(o, c) {
        client_index(o, c)
    } else {
        o.len() as int
    };
    &&& n.len() == (if has_client(o, c) {
        o.len()
    } else {
        o.len() + 1
    })
    &&& 0 <= k < n.len()
    &&& forall|j: int| 0 <= j < o.len() && j != k ==> #[trigger] n[j] == o[j]
    &&& n[k].client_id == c
    &&& n[k].user_id == user
    &&& n[k].role == role
}

/// No client takes part twice.
pub open spec fn unique_clients(ps: Seq<SessionParticipant>) -> bool {
    forall|i: int, j: int|
        0 <= i < ps.len() && 0 <= j < ps.len() && i != j ==> #[trigger] ps[i].client_id
            != #[trigger] ps[j].client_id
}

/// Some participant of `ps` is a dungeon master.
pub open spec fn has_dm_in(ps: Seq<SessionParticipant>) -> bool {
    exists|i: int| 0 <= i < ps.len() && #[trigger] ps[i].role == ParticipantRole::DungeonMaster
}

/// At most one participant of `ps` is a dungeon master.
pub open spec fn at_most_one_dm(ps: Seq<SessionParticipant>) -> bool {
    forall|i: int, j: int|
        0 <= i < ps.len() && 0 <= j < ps.len() && #[trigger] ps[i].role
            == ParticipantRole::DungeonMaster && #[trigger] ps[j].role
            == ParticipantRole::DungeonMaster ==> i == j
}

/// No two pending approvals share a request ID.
pub open spec fn unique_requests(a: Seq<PendingApproval>) -> bool {
    forall|i: int, j: int|
        0 <= i < a.len() && 0 <= j < a.len() && i != j ==> #[trigger] a[i].request_id@
            != #[trigger] a[j].request_id@
}

/// Some pending approval of `a` has the request ID `id`.
pub open spec fn has_request(a: Seq<PendingApproval>, id: Seq<char>) -> bool {
    exists|i: int| 0 <= i < a.len() && #[trigger] a[i].request_id@ == id
}

/// The client IDs of `ps`, in order.
pub open spec fn client_ids(ps: Seq<SessionParticipant>) -> Seq<ClientId>
    decreases ps.len(),
{
    if ps.len() == 0 {
        Seq::empty()
    } else {
        client_ids(ps.drop_last()).push(ps.last().client_id)
    }
}

/// The client IDs of `ps` other than `ex`, in order.
pub open spec fn client_ids_except(ps: Seq<SessionParticipant>, ex: ClientId) -> Seq<ClientId>
    decreases ps.len(),
{
    if ps.len() == 0 {
        Seq::empty()
    } else if ps.last().client_id != ex {
        client_ids_except(ps.drop_last(), ex).push(ps.last().client_id)
    } else {
        client_ids_except(ps.drop_last(), ex)
    }
}

/// The client IDs of the players of `ps` (dungeon master and spectators
/// left out), in order.
pub open spec fn player_ids(ps: Seq<SessionParticipant>) -> Seq<ClientId>
    decreases ps.len(),
{
    if ps.len() == 0 {
        Seq::empty()
    } else if ps.last().role == ParticipantRole::Player {
        player_ids(ps.drop_last()).push(ps.last().client_id)
    } else {
        player_ids(ps.drop_last())
    }
}

/// The position of client `c` in `ps` (meaningful when `has_client(ps, c)`).
pub open spec fn client_index(ps: Seq<SessionParticipant>, c: ClientId) -> int {
    choose|i: int| 0 <= i < ps.len() && #[trigger] ps[i].client_id == c
}

/// The position of request `id` in `a` (meaningful when `has_request(a, id)`).
pub open spec fn request_index(a: Seq<PendingApproval>, id: Seq<char>) -> int {
    choose|i: int| 0 <= i < a.len() && #[trigger] a[i].request_id@ == id
}

/// Index of the first dungeon master of `ps`, if any.
pub open spec fn first_dm_index(ps: Seq<SessionParticipant>, i: int) -> bool {
    &&& 0 <= i < ps.len()
    &&& ps[i].role == ParticipantRole::DungeonMaster
    &&& forall|j: int| 0 <= j < i ==> #[trigger] ps[j].role != ParticipantRole::DungeonMaster
}

/// An active game session.
pub struct GameSession {
    id: SessionId,
    world_id: WorldId,
    world_snapshot: Arc<WorldSnapshot>,
    participants: Vec<SessionParticipant>,
    created_at: i64,
    current_scene_id: Option<String>,
    /// The dungeon master the session was created for, once recorded.
    dm_user_id: Option<String>,
    conversation_history: Vec<ConversationTurn>,
    max_history_length: usize,
    pending_approvals: Vec<PendingApproval>,
}

impl GameSession {
    /// A session's invariant: no client twice, no request ID twice, and a
    /// history no longer than its (positive) limit.
    #[verifier::type_invariant]
    spec fn inv(self) -> bool {
        &&& unique_clients(self.participants@)
        &&& unique_requests(self.pending_approvals@)
        &&& self.max_history_length > 0
        &&& self.conversation_history@.len() <= self.max_history_length
    }

    pub closed spec fn spec_id(self) -> SessionId {
        self.id
    }

    pub closed spec fn spec_world_id(self) -> WorldId {
        self.world_id
    }

    pub closed spec fn spec_snapshot(self) -> WorldSnapshot {
        *self.world_snapshot
    }

    pub closed spec fn spec_participants(self) -> Seq<SessionParticipant> {
        self.participants@
    }

    pub closed spec fn spec_created_at(self) -> i64 {
        self.created_at
    }

    pub closed spec fn spec_current_scene_id(self) -> Option<String> {
        self.current_scene_id
    }

    pub closed spec fn spec_dm_user_id(self) -> Option<String> {
        self.dm_user_id
    }

    /// The conversation history, oldest turn first.
    pub closed spec fn history(self) -> Seq<ConversationTurn> {
        self.conversation_history@
    }

    /// The most turns the history keeps.
    pub closed spec fn max_history(self) -> nat {
        self.max_history_length as nat
    }

    /// The approvals waiting for the dungeon master, oldest first.
    pub closed spec fn approvals(self) -> Seq<PendingApproval> {
        self.pending_approvals@
    }

    /// Default maximum history length (30 turns, about 15 exchanges).
    pub open spec fn default_max_history_length() -> nat {
        30
    }

    /// A new session for a world, with a fresh random ID, no participants,
    /// an empty history limited to 30 turns and no pending approvals.
    pub fn new(world_id: WorldId, world_snapshot: WorldSnapshot) -> (s: GameSession)
        ensures
            s.spec_world_id() == world_id,
            s.spec_snapshot() == world_snapshot,
            s.spec_participants() == Seq::<SessionParticipant>::empty(),
            s.spec_current_scene_id() is None,
            s.spec_dm_user_id() is None,
            s.history() == Seq::<ConversationTurn>::empty(),
            s.max_history() == Self::default_max_history_length(),
            s.approvals() == Seq::<PendingApproval>::empty(),
    {
        GameSession {
            id: SessionId::new(),
            world_id,
            world_snapshot: Arc::new(world_snapshot),
            participants: Vec::new(),
            created_at: now_millis(),
            current_scene_id: None,
            dm_user_id: None,
            conversation_history: Vec::new(),
            max_history_length: 30,
            pending_approvals: Vec::new(),
        }
    }

    pub fn id(&self) -> (r: SessionId)
        ensures
            r == self.spec_id(),
    {
        self.id
    }

    pub fn world_id(&self) -> (r: WorldId)
        ensures
            r == self.spec_world_id(),
    {
        self.world_id
    }

    pub fn world_snapshot(&self) -> (r: &Arc<WorldSnapshot>)
        ensures
            **r == self.spec_snapshot(),
    {
        &self.world_snapshot
    }

    pub fn participants(&self) -> (r: &Vec<SessionParticipant>)
        ensures
            r@ == self.spec_participants(),
            unique_clients(r@),
    {
        proof {
            use_type_invariant(self);
        }
        &self.participants
    }

    pub fn created_at(&self) -> (r: i64)
        ensures
            r == self.spec_created_at(),
    {
        self.created_at
    }

    pub fn current_scene_id(&self) -> (r: &Option<String>)
        ensures
            *r == self.spec_current_scene_id(),
    {
        &self.current_scene_id
    }

    /// Records the scene the session is in now.
    pub fn set_current_scene_id(&mut self, scene_id: Option<String>)
        ensures
            final(self).spec_current_scene_id() == scene_id,
            final(self).spec_id() == old(self).spec_id(),
            final(self).spec_world_id() == old(self).spec_world_id(),
            final(self).spec_snapshot() == old(self).spec_snapshot(),
            final(self).spec_dm_user_id() == old(self).spec_dm_user_id(),
            final(self).spec_participants() == old(self).spec_participants(),
            final(self).history() == old(self).history(),
            final(self).max_history() == old(self).max_history(),
            final(self).approvals() == old(self).approvals(),
    {
        proof {
            use_type_invariant(&*self);
        }
        self.current_scene_id = scene_id;
    }

    /// The dungeon master the session was created for, if recorded.
    pub fn dm_user_id(&self) -> (r: &Option<String>)
        ensures
            *r == self.spec_dm_user_id(),
    {
        &self.dm_user_id
    }

    /// Records the dungeon master the session was created for.
    pub fn set_dm_user_id(&mut self, user: Option<String>)
        ensures
            final(self).spec_dm_user_id() == user,
            final(self).spec_id() == old(self).spec_id(),
            final(self).spec_world_id() == old(self).spec_world_id(),
            final(self).spec_snapshot() == old(self).spec_snapshot(),
            final(self).spec_created_at() == old(self).spec_created_at(),
            final(self).spec_current_scene_id() == old(self).spec_current_scene_id(),
            final(self).spec_participants() == old(self).spec_participants(),
            final(self).history() == old(self).history(),
            final(self).max_history() == old(self).max_history(),
            final(self).approvals() == old(self).approvals(),
    {
        proof {
            use_type_invariant(&*self);
        }
        self.dm_user_id = user;
    }

    /// Index of the participant that is client `c`, if any.
    fn find_participant(&self, c: ClientId) -> (r: Option<usize>)
        ensures
            match r {
                Some(i) => i < self.participants@.len() && self.participants@[i as int].client_id
                    == c,
                None => !has_client(self.participants@, c),
            },
    {
        let mut i: usize = 0;
        while i < self.participants.len()
            invariant
                i <= self.participants@.len(),
                forall|j: int| 0 <= j < i ==> #[trigger] self.participants@[j].client_id != c,
            decreases self.participants@.len() - i,
        {
            if self.participants[i].client_id == c {
                return Some(i);
            }
            i = i + 1;
        }
        None
    }
}


impl GameSession {
    /// The session's fixed parts and its scene are as in `other`.
    pub closed spec fn same_frame(self, other: GameSession) -> bool {
        &&& self.id == other.id
        &&& self.world_id == other.world_id
        &&& self.world_snapshot == other.world_snapshot
        &&& self.created_at == other.created_at
        &&& self.current_scene_id == other.current_scene_id
        &&& self.dm_user_id == other.dm_user_id
    }

    /// Two sessions with the same frame have the same ID, world, creation
    /// time, scene and recorded dungeon master.
    pub proof fn lemma_same_frame(self, other: GameSession)
        requires
            self.same_frame(other),
        ensures
            self.spec_id() == other.spec_id(),
            self.spec_world_id() == other.spec_world_id(),
            self.spec_snapshot() == other.spec_snapshot(),
            self.spec_created_at() == other.spec_created_at(),
            self.spec_current_scene_id() == other.spec_current_scene_id(),
            self.spec_dm_user_id() == other.spec_dm_user_id(),
    {
    }

    /// Adds a participant; a client already present is replaced, as a map
    /// keyed by client ID would do.
    pub fn add_participant(&mut self, client_id: ClientId, user_id: String, role: ParticipantRole)
        ensures
            final(self).same_frame(*old(self)),
            final(self).history() == old(self).history(),
            final(self).max_history() == old(self).max_history(),
            final(self).approvals() == old(self).approvals(),
            participant_added(
                old(self).spec_participants(),
                final(self).spec_participants(),
                client_id,
                user_id,
                role,
            ),
    {
        proof {
            use_type_invariant(&*self);
        }
        let participant = SessionParticipant { client_id, user_id, role, joined_at: now_millis() };
        match self.find_participant(client_id) {
            Some(i) => {
                proof {
                    let o = self.participants@;
                    assert(o[client_index(o, client_id)].client_id == client_id);
                    assert(client_index(o, client_id) == i);
                }
                let mut ps = Vec::new();
                std::mem::swap(&mut ps, &mut self.participants);
                ps.set(i, participant);
                self.participants = ps;
            },
            None => {
                let mut ps = Vec::new();
                std::mem::swap(&mut ps, &mut self.participants);
                ps.push(participant);
                self.participants = ps;
            },
        }
    }

    /// Removes a participant and hands it back; `None` when the client is
    /// not in the session.
    pub fn remove_participant(&mut self, client_id: ClientId) -> (r: Option<SessionParticipant>)
        ensures
            final(self).same_frame(*old(self)),
            final(self).history() == old(self).history(),
            final(self).max_history() == old(self).max_history(),
            final(self).approvals() == old(self).approvals(),
            ({
                let o = old(self).spec_participants();
                match r {
                    Some(p) => has_client(o, client_id) && p == o[client_index(o, client_id)]
                        && final(self).spec_participants() == o.remove(client_index(o, client_id)),
                    None => !has_client(o, client_id) && final(self).spec_participants() == o,
                }
            }),
            r is None ==> *final(self) == *old(self),
    {
        proof {
            use_type_invariant(&*self);
        }
        match self.find_participant(client_id) {
            Some(i) => {
                proof {
                    let o = self.participants@;
                    assert(o[client_index(o, client_id)].client_id == client_id);
                    assert(client_index(o, client_id) == i);
                }
                let ghost o = self.participants@;
                let mut ps = Vec::new();
                std::mem::swap(&mut ps, &mut self.participants);
                let p = ps.remove(i);
                proof {
                    let n = ps@;
                    assert forall|a: int, b: int|
                        0 <= a < n.len() && 0 <= b < n.len() && a != b implies #[trigger] n[a].client_id
                        != #[trigger] n[b].client_id by {
                        let a2 = if a < i { a } else { a + 1 };
                        let b2 = if b < i { b } else { b + 1 };
                        assert(n[a] == o[a2]);
                        assert(n[b] == o[b2]);
                    }
                }
                self.participants = ps;
                Some(p)
            },
            None => None,
        }
    }

    /// The participant that is client `client_id`, if it takes part.
    pub fn participant(&self, client_id: ClientId) -> (r: Option<&SessionParticipant>)
        ensures
            match r {
                Some(p) => has_client(self.spec_participants(), client_id) && *p
                    == self.spec_participants()[client_index(self.spec_participants(), client_id)],
                None => !has_client(self.spec_participants(), client_id),
            },
    {
        proof {
            use_type_invariant(self);
        }
        match self.find_participant(client_id) {
            Some(i) => {
                proof {
                    let o = self.participants@;
                    assert(o[client_index(o, client_id)].client_id == client_id);
                }
                Some(&self.participants[i])
            },
            None => None,
        }
    }

    /// Whether a dungeon master takes part.
    pub fn has_dm(&self) -> (r: bool)
        ensures
            r == has_dm_in(self.spec_participants()),
    {
        match self.get_dm() {
            Some(_) => true,
            None => false,
        }
    }

    /// The dungeon master, if one takes part (the first to have joined).
    pub fn get_dm(&self) -> (r: Option<&SessionParticipant>)
        ensures
            match r {
                Some(p) => exists|i: int|
                    first_dm_index(self.spec_participants(), i) && self.spec_participants()[i]
                        == *p,
                None => !has_dm_in(self.spec_participants()),
            },
    {
        let mut i: usize = 0;
        while i < self.participants.len()
            invariant
                i <= self.participants@.len(),
                forall|j: int| 0 <= j < i ==> #[trigger] self.participants@[j].role
                    != ParticipantRole::DungeonMaster,
            decreases self.participants@.len() - i,
        {
            if self.participants[i].role == ParticipantRole::DungeonMaster {
                let r = &self.participants[i];
                assert(first_dm_index(self.spec_participants(), i as int)
                    && self.spec_participants()[i as int] == *r);
                return Some(r);
            }
            i = i + 1;
        }
        None
    }

    /// Number of participants.
    pub fn participant_count(&self) -> (r: usize)
        ensures
            r == self.spec_participants().len(),
    {
        self.participants.len()
    }

    /// Whether nobody takes part.
    pub fn is_empty(&self) -> (r: bool)
        ensures
            r == (self.spec_participants().len() == 0),
    {
        self.participants.len() == 0
    }
}


impl GameSession {
    /// Appends a turn and drops the oldest turns beyond the limit: the
    /// history becomes the last turns of the old history and the new turn,
    /// as many as the limit allows, in order.
    pub fn add_turn(&mut self, turn: ConversationTurn)
        ensures
            final(self).same_frame(*old(self)),
            final(self).spec_participants() == old(self).spec_participants(),
            final(self).approvals() == old(self).approvals(),
            final(self).max_history() == old(self).max_history(),
            final(self).history() == keep_last(old(self).history().push(turn), old(self).max_history()),
    {
        proof {
            use_type_invariant(&*self);
        }
        let mut h = Vec::new();
        std::mem::swap(&mut h, &mut self.conversation_history);
        h.push(turn);
        if h.len() > self.max_history_length {
            let excess = h.len() - self.max_history_length;
            let tail = h.split_off(excess);
            self.conversation_history = tail;
        } else {
            self.conversation_history = h;
        }
    }

    /// Adds a player's action to the history.
    pub fn add_player_action(&mut self, character_name: &str, action: &str)
        ensures
            final(self).same_frame(*old(self)),
            final(self).spec_participants() == old(self).spec_participants(),
            final(self).approvals() == old(self).approvals(),
            final(self).max_history() == old(self).max_history(),
            exists|t: ConversationTurn|
                t.speaker@ == character_name@ && t.content@ == action@ && t.is_player
                    && final(self).history() == keep_last(
                    old(self).history().push(t),
                    old(self).max_history(),
                ),
    {
        let turn = ConversationTurn::new(
            crate::text::to_owned_string(character_name),
            crate::text::to_owned_string(action),
            true,
        );
        let ghost t = turn;
        self.add_turn(turn);
    }

    /// Adds an NPC's response to the history.
    pub fn add_npc_response(&mut self, npc_name: &str, dialogue: &str)
        ensures
            final(self).same_frame(*old(self)),
            final(self).spec_participants() == old(self).spec_participants(),
            final(self).approvals() == old(self).approvals(),
            final(self).max_history() == old(self).max_history(),
            exists|t: ConversationTurn|
                t.speaker@ == npc_name@ && t.content@ == dialogue@ && !t.is_player
                    && final(self).history() == keep_last(
                    old(self).history().push(t),
                    old(self).max_history(),
                ),
    {
        let turn = ConversationTurn::new(
            crate::text::to_owned_string(npc_name),
            crate::text::to_owned_string(dialogue),
            false,
        );
        let ghost t = turn;
        self.add_turn(turn);
    }

    /// The most recent `max_turns` turns, oldest first; the whole history
    /// when `max_turns` is 0.
    pub fn get_recent_history(&self, max_turns: usize) -> (r: &[ConversationTurn])
        ensures
            r@ == (if max_turns == 0 {
                self.history()
            } else {
                keep_last(self.history(), max_turns as nat)
            }),
    {
        let len = self.conversation_history.len();
        if max_turns == 0 || len <= max_turns {
            self.conversation_history.as_slice()
        } else {
            let start = len - max_turns;
            let (_, tail) = self.conversation_history.as_slice().split_at(start);
            tail
        }
    }

    /// The whole history, oldest first.
    pub fn get_full_history(&self) -> (r: &[ConversationTurn])
        ensures
            r@ == self.history(),
    {
        self.conversation_history.as_slice()
    }

    /// Forgets the whole history.
    pub fn clear_history(&mut self)
        ensures
            final(self).same_frame(*old(self)),
            final(self).spec_participants() == old(self).spec_participants(),
            final(self).approvals() == old(self).approvals(),
            final(self).max_history() == old(self).max_history(),
            final(self).history() == Seq::<ConversationTurn>::empty(),
    {
        proof {
            use_type_invariant(&*self);
        }
        self.conversation_history = Vec::new();
    }

    /// Sets the history limit and drops the oldest turns beyond it. The
    /// limit must be positive: a zero limit would keep no turn at all.
    pub fn set_max_history_length(&mut self, max_length: usize)
        requires
            max_length > 0,
        ensures
            final(self).same_frame(*old(self)),
            final(self).spec_participants() == old(self).spec_participants(),
            final(self).approvals() == old(self).approvals(),
            final(self).max_history() == max_length,
            final(self).history() == keep_last(old(self).history(), max_length as nat),
    {
        proof {
            use_type_invariant(&*self);
        }
        let mut h = Vec::new();
        std::mem::swap(&mut h, &mut self.conversation_history);
        if h.len() > max_length {
            let excess = h.len() - max_length;
            let tail = h.split_off(excess);
            h = tail;
        }
        self.max_history_length = max_length;
        self.conversation_history = h;
    }

    /// Number of turns in the history.
    pub fn history_length(&self) -> (r: usize)
        ensures
            r == self.history().len(),
    {
        self.conversation_history.len()
    }

    /// The clients a message for the whole session goes to. The transport
    /// layer delivers the message.
    pub fn broadcast(&self) -> (r: Vec<ClientId>)
        ensures
            r@ == client_ids(self.spec_participants()),
    {
        let mut r: Vec<ClientId> = Vec::new();
        let mut i: usize = 0;
        while i < self.participants.len()
            invariant
                i <= self.participants@.len(),
                r@ == client_ids(self.participants@.take(i as int)),
            decreases self.participants@.len() - i,
        {
            assert(self.participants@.take(i + 1).drop_last() == self.participants@.take(i as int));
            r.push(self.participants[i].client_id);
            i = i + 1;
        }
        assert(self.participants@.take(i as int) == self.participants@);
        r
    }

    /// The clients a message for everybody but `exclude` goes to.
    pub fn broadcast_except(&self, exclude: ClientId) -> (r: Vec<ClientId>)
        ensures
            r@ == client_ids_except(self.spec_participants(), exclude),
    {
        let mut r: Vec<ClientId> = Vec::new();
        let mut i: usize = 0;
        while i < self.participants.len()
            invariant
                i <= self.participants@.len(),
                r@ == client_ids_except(self.participants@.take(i as int), exclude),
            decreases self.participants@.len() - i,
        {
            assert(self.participants@.take(i + 1).drop_last() == self.participants@.take(i as int));
            if self.participants[i].client_id != exclude {
                r.push(self.participants[i].client_id);
            }
            i = i + 1;
        }
        assert(self.participants@.take(i as int) == self.participants@);
        r
    }

    /// The client a message for the dungeon master goes to, if one takes part.
    pub fn send_to_dm(&self) -> (r: Option<ClientId>)
        ensures
            match r {
                Some(c) => exists|i: int|
                    first_dm_index(self.spec_participants(), i) && self.spec_participants()[i].client_id
                        == c,
                None => !has_dm_in(self.spec_participants()),
            },
    {
        match self.get_dm() {
            Some(dm) => Some(dm.client_id),
            None => None,
        }
    }

    /// The clients a message for the players (not the dungeon master, not
    /// spectators) goes to.
    pub fn broadcast_to_players(&self) -> (r: Vec<ClientId>)
        ensures
            r@ == player_ids(self.spec_participants()),
    {
        let mut r: Vec<ClientId> = Vec::new();
        let mut i: usize = 0;
        while i < self.participants.len()
            invariant
                i <= self.participants@.len(),
                r@ == player_ids(self.participants@.take(i as int)),
            decreases self.participants@.len() - i,
        {
            assert(self.participants@.take(i + 1).drop_last() == self.participants@.take(i as int));
            if self.participants[i].role == ParticipantRole::Player {
                r.push(self.participants[i].client_id);
            }
            i = i + 1;
        }
        assert(self.participants@.take(i as int) == self.participants@);
        r
    }
}


impl GameSession {
    /// Index of the approval with request ID `request_id`, if any.
    fn find_approval(&self, request_id: &str) -> (r: Option<usize>)
        ensures
            match r {
                Some(i) => i < self.approvals().len() && self.approvals()[i as int].request_id@
                    == request_id@ && i == request_index(self.approvals(), request_id@),
                None => !has_request(self.approvals(), request_id@),
            },
    {
        proof {
            use_type_invariant(self);
        }
        let mut i: usize = 0;
        while i < self.pending_approvals.len()
            invariant
                i <= self.pending_approvals@.len(),
                unique_requests(self.pending_approvals@),
                forall|j: int|
                    0 <= j < i ==> #[trigger] self.pending_approvals@[j].request_id@
                        != request_id@,
            decreases self.pending_approvals@.len() - i,
        {
            if str_eq(self.pending_approvals[i].request_id.as_str(), request_id) {
                proof {
                    let a = self.pending_approvals@;
                    let k = request_index(a, request_id@);
                    assert(a[i as int].request_id@ == request_id@);
                    assert(a[k].request_id@ == request_id@);
                }
                return Some(i);
            }
            i = i + 1;
        }
        None
    }

    /// Stores an approval waiting for the dungeon master; one with the same
    /// request ID is replaced, as a map keyed by request ID would do.
    pub fn add_pending_approval(&mut self, approval: PendingApproval)
        ensures
            final(self).same_frame(*old(self)),
            final(self).spec_participants() == old(self).spec_participants(),
            final(self).history() == old(self).history(),
            final(self).max_history() == old(self).max_history(),
            final(self).approvals() == (if has_request(old(self).approvals(), approval.request_id@) {
                old(self).approvals().update(
                    request_index(old(self).approvals(), approval.request_id@),
                    approval,
                )
            } else {
                old(self).approvals().push(approval)
            }),
    {
        proof {
            use_type_invariant(&*self);
        }
        match self.find_approval(approval.request_id.as_str()) {
            Some(i) => {
                let mut a = Vec::new();
                std::mem::swap(&mut a, &mut self.pending_approvals);
                a.set(i, approval);
                self.pending_approvals = a;
            },
            None => {
                let mut a = Vec::new();
                std::mem::swap(&mut a, &mut self.pending_approvals);
                a.push(approval);
                self.pending_approvals = a;
            },
        }
    }

    /// The approval with request ID `request_id`, if one waits.
    pub fn get_pending_approval(&self, request_id: &str) -> (r: Option<&PendingApproval>)
        ensures
            match r {
                Some(a) => has_request(self.approvals(), request_id@) && *a
                    == self.approvals()[request_index(self.approvals(), request_id@)],
                None => !has_request(self.approvals(), request_id@),
            },
    {
        match self.find_approval(request_id) {
            Some(i) => Some(&self.pending_approvals[i]),
            None => None,
        }
    }

    /// Removes the approval with request ID `request_id` and hands it back.
    pub fn remove_pending_approval(&mut self, request_id: &str) -> (r: Option<PendingApproval>)
        ensures
            final(self).same_frame(*old(self)),
            final(self).spec_participants() == old(self).spec_participants(),
            final(self).history() == old(self).history(),
            final(self).max_history() == old(self).max_history(),
            match r {
                Some(a) => has_request(old(self).approvals(), request_id@) && a == old(
                    self,
                ).approvals()[request_index(old(self).approvals(), request_id@)]
                    && final(self).approvals() == old(self).approvals().remove(
                    request_index(old(self).approvals(), request_id@),
                ),
                None => !has_request(old(self).approvals(), request_id@) && final(self).approvals()
                    == old(self).approvals(),
            },
    {
        proof {
            use_type_invariant(&*self);
        }
        match self.find_approval(request_id) {
            Some(i) => {
                let ghost o = self.pending_approvals@;
                let mut a = Vec::new();
                std::mem::swap(&mut a, &mut self.pending_approvals);
                let r = a.remove(i);
                proof {
                    let n = a@;
                    assert forall|x: int, y: int|
                        0 <= x < n.len() && 0 <= y < n.len() && x != y implies #[trigger] n[x].request_id@
                        != #[trigger] n[y].request_id@ by {
                        let x2 = if x < i { x } else { x + 1 };
                        let y2 = if y < i { y } else { y + 1 };
                        assert(n[x] == o[x2]);
                        assert(n[y] == o[y2]);
                    }
                }
                self.pending_approvals = a;
                Some(r)
            },
            None => None,
        }
    }
}


/// Error of a session operation.
#[derive(Clone, Debug)]
pub enum SessionError {
    NotFound(SessionId),
    WorldNotFound(String),
    ClientNotInSession(ClientId),
    DmAlreadyPresent,
    Database(String),
}

/// Looks a session up for change with `HashMap::get_mut`: the reference
/// points at the stored session, and what is written through it is what
/// the map holds afterwards.
#[verifier::external_body]
fn sessions_get_mut<'a>(m: &'a mut HashMap<u128, GameSession>, k: u128) -> (r: Option<
    &'a mut GameSession,
>)
    ensures
        match r {
            Some(v) => old(m)@.contains_key(k) && *v == old(m)@[k] && final(m)@ == old(m)@.insert(
                k,
                *final(v),
            ),
            None => !old(m)@.contains_key(k) && final(m)@ == old(m)@,
        },
{
    m.get_mut(&k)
}

/// Manages the active game sessions.
pub struct SessionManager {
    /// Active sessions by session ID.
    sessions: HashMap<u128, GameSession>,
    /// The session each client is in.
    client_sessions: HashMap<u128, u128>,
    /// The session of each world that has one.
    world_sessions: HashMap<u128, u128>,
}

impl SessionManager {
    /// The active sessions, keyed by session ID.
    pub closed spec fn spec_sessions(self) -> Map<u128, GameSession> {
        self.sessions@
    }

    /// The session of each connected client.
    pub closed spec fn spec_clients(self) -> Map<u128, u128> {
        self.client_sessions@
    }

    /// The session found for each world.
    pub closed spec fn spec_worlds(self) -> Map<u128, u128> {
        self.world_sessions@
    }

    /// The manager's consistency: sessions are stored under their own ID;
    /// a client is mapped only to an existing session it takes part in; a
    /// world is mapped only to an existing session of that world; and no
    /// session has two dungeon masters.
    pub closed spec fn wf(self) -> bool {
        &&& forall|s: u128| #[trigger]
            self.sessions@.contains_key(s) ==> self.sessions@[s].spec_id() == SessionId(s)
        &&& forall|c: u128| #[trigger]
            self.client_sessions@.contains_key(c) ==> {
                let s = self.client_sessions@[c];
                &&& self.sessions@.contains_key(s)
                &&& has_client(self.sessions@[s].spec_participants(), ClientId(c))
            }
        &&& forall|w: u128| #[trigger]
            self.world_sessions@.contains_key(w) ==> {
                let s = self.world_sessions@[w];
                &&& self.sessions@.contains_key(s)
                &&& self.sessions@[s].spec_world_id() == WorldId(w)
            }
        &&& forall|s: u128| #[trigger]
            self.sessions@.contains_key(s) ==> at_most_one_dm(self.sessions@[s].spec_participants())
    }

    /// An empty manager.
    pub fn new() -> (m: SessionManager)
        ensures
            m.wf(),
            m.spec_sessions() == Map::<u128, GameSession>::empty(),
            m.spec_clients() == Map::<u128, u128>::empty(),
            m.spec_worlds() == Map::<u128, u128>::empty(),
    {
        SessionManager {
            sessions: HashMap::new(),
            client_sessions: HashMap::new(),
            world_sessions: HashMap::new(),
        }
    }
}


/// Every client of `o` other than `c` is still in `n` after `c` joined.
proof fn lemma_added_keeps_clients(
    o: Seq<SessionParticipant>,
    n: Seq<SessionParticipant>,
    c: ClientId,
    user: String,
    role: ParticipantRole,
)
    requires
        participant_added(o, n, c, user, role),
    ensures
        has_client(n, c),
        forall|d: ClientId| d != c && has_client(o, d) ==> #[trigger] has_client(n, d),
{
    let k = if has_client(o, c) {
        client_index(o, c)
    } else {
        o.len() as int
    };
    assert(n[k].client_id == c);
    assert forall|d: ClientId| d != c && has_client(o, d) implies #[trigger] has_client(n, d) by {
        let i = client_index(o, d);
        assert(o[i].client_id == d);
        if has_client(o, c) {
            assert(o[k].client_id == c);
        }
        assert(i != k);
        assert(n[i] == o[i]);
    }
}

/// A join keeps "at most one dungeon master" unless a second one joins.
proof fn lemma_added_keeps_one_dm(
    o: Seq<SessionParticipant>,
    n: Seq<SessionParticipant>,
    c: ClientId,
    user: String,
    role: ParticipantRole,
)
    requires
        participant_added(o, n, c, user, role),
        at_most_one_dm(o),
        role == ParticipantRole::DungeonMaster ==> !has_dm_in(o),
    ensures
        at_most_one_dm(n),
{
    let k = if has_client(o, c) {
        client_index(o, c)
    } else {
        o.len() as int
    };
    assert forall|i: int, j: int|
        0 <= i < n.len() && 0 <= j < n.len() && #[trigger] n[i].role
            == ParticipantRole::DungeonMaster && #[trigger] n[j].role
            == ParticipantRole::DungeonMaster implies i == j by {
        if i != k && j != k {
            assert(n[i] == o[i]);
            assert(n[j] == o[j]);
        } else if i == k && j != k {
            assert(n[j] == o[j]);
            assert(o[j].role == ParticipantRole::DungeonMaster);
        } else if j == k && i != k {
            assert(n[i] == o[i]);
            assert(o[i].role == ParticipantRole::DungeonMaster);
        }
    }
}

/// Removing client `c` from `o` keeps every other client and keeps "at most
/// one dungeon master".
proof fn lemma_removed_keeps(o: Seq<SessionParticipant>, c: ClientId)
    requires
        has_client(o, c),
        unique_clients(o),
    ensures
        forall|d: ClientId|
            d != c && has_client(o, d) ==> #[trigger] has_client(
                o.remove(client_index(o, c)),
                d,
            ),
        at_most_one_dm(o) ==> at_most_one_dm(o.remove(client_index(o, c))),
{
    let k = client_index(o, c);
    let n = o.remove(k);
    assert(o[k].client_id == c);
    assert forall|d: ClientId| d != c && has_client(o, d) implies #[trigger] has_client(n, d) by {
        let i = client_index(o, d);
        assert(o[i].client_id == d);
        assert(i != k);
        if i < k {
            assert(n[i] == o[i]);
        } else {
            assert(n[i - 1] == o[i]);
        }
    }
    if at_most_one_dm(o) {
        assert forall|i: int, j: int|
            0 <= i < n.len() && 0 <= j < n.len() && #[trigger] n[i].role
                == ParticipantRole::DungeonMaster && #[trigger] n[j].role
                == ParticipantRole::DungeonMaster implies i == j by {
            let i2 = if i < k {
                i
            } else {
                i + 1
            };
            let j2 = if j < k {
                j
            } else {
                j + 1
            };
            assert(n[i] == o[i2]);
            assert(n[j] == o[j2]);
        }
    }
}

impl SessionManager {
    /// A session may be joined: it exists, and a dungeon master joins only
    /// where none takes part yet.
    pub open spec fn join_allowed(self, session_id: SessionId, role: ParticipantRole) -> bool {
        &&& self.spec_sessions().contains_key(session_id.0)
        &&& !(role == ParticipantRole::DungeonMaster && has_dm_in(
            self.spec_sessions()[session_id.0].spec_participants(),
        ))
    }

    /// Creates a session for a world under a fresh random ID and makes it the
    /// world's session. The manager stays consistent unless the random ID
    /// was already taken.
    pub fn create_session(&mut self, world_id: WorldId, world_snapshot: WorldSnapshot) -> (sid:
        SessionId)
        ensures
            old(self).wf() && !old(self).spec_sessions().contains_key(sid.0) ==> final(self).wf(),
            final(self).spec_sessions().contains_key(sid.0),
            final(self).spec_sessions() == old(self).spec_sessions().insert(
                sid.0,
                final(self).spec_sessions()[sid.0],
            ),
            ({
                let s = final(self).spec_sessions()[sid.0];
                &&& s.spec_id() == sid
                &&& s.spec_world_id() == world_id
                &&& s.spec_snapshot() == world_snapshot
                &&& s.spec_participants() == Seq::<SessionParticipant>::empty()
                &&& s.spec_current_scene_id() is None
                &&& s.spec_dm_user_id() is None
                &&& s.history() == Seq::<ConversationTurn>::empty()
                &&& s.max_history() == GameSession::default_max_history_length()
                &&& s.approvals() == Seq::<PendingApproval>::empty()
            }),
            final(self).spec_clients() == old(self).spec_clients(),
            final(self).spec_worlds() == old(self).spec_worlds().insert(world_id.0, sid.0),
    {
        let session = GameSession::new(world_id, world_snapshot);
        let sid = session.id;
        self.world_sessions.insert(world_id.0, sid.0);
        self.sessions.insert(sid.0, session);
        sid
    }

    /// Records the dungeon master a session was created for, where none is
    /// recorded yet; a session that does not exist, or that has one, is
    /// left as it is. Everything else stays.
    pub fn record_session_dm(&mut self, session_id: SessionId, dm_user_id: String)
        ensures
            old(self).wf() ==> final(self).wf(),
            final(self).spec_clients() == old(self).spec_clients(),
            final(self).spec_worlds() == old(self).spec_worlds(),
            (old(self).spec_sessions().contains_key(session_id.0) && old(
                self,
            ).spec_sessions()[session_id.0].spec_dm_user_id() is None) ==> {
                let o = old(self).spec_sessions()[session_id.0];
                let n = final(self).spec_sessions()[session_id.0];
                &&& final(self).spec_sessions() == old(self).spec_sessions().insert(session_id.0, n)
                &&& n.spec_dm_user_id() == Some(dm_user_id)
                &&& n.spec_id() == o.spec_id()
                &&& n.spec_world_id() == o.spec_world_id()
                &&& n.spec_snapshot() == o.spec_snapshot()
                &&& n.spec_created_at() == o.spec_created_at()
                &&& n.spec_current_scene_id() == o.spec_current_scene_id()
                &&& n.spec_participants() == o.spec_participants()
                &&& n.history() == o.history()
                &&& n.max_history() == o.max_history()
                &&& n.approvals() == o.approvals()
            },
            !(old(self).spec_sessions().contains_key(session_id.0) && old(
                self,
            ).spec_sessions()[session_id.0].spec_dm_user_id() is None) ==> final(self).spec_sessions()
                == old(self).spec_sessions(),
    {
        let ghost m1 = *self;
        match sessions_get_mut(&mut self.sessions, session_id.0) {
            Some(session) => {
                if session.dm_user_id().is_none() {
                    session.set_dm_user_id(Some(dm_user_id));
                } else {
                    proof {
                        assert(m1.spec_sessions().insert(session_id.0, *session) == m1.spec_sessions());
                    }
                }
            },
            None => {},
        }
        proof {
            if m1.wf() {
                lemma_same_ids_keep_wf(m1, *self, session_id.0);
            }
        }
    }

    /// The session of a world, if it has one.
    pub fn find_session_for_world(&self, world_id: WorldId) -> (r: Option<SessionId>)
        ensures
            r == (if self.spec_worlds().contains_key(world_id.0) {
                Some(SessionId(self.spec_worlds()[world_id.0]))
            } else {
                None
            }),
    {
        match self.world_sessions.get(&world_id.0) {
            Some(s) => Some(SessionId(*s)),
            None => None,
        }
    }

    /// Puts a client into a session and hands back the session's world
    /// snapshot. Fails with `NotFound` when the session does not exist and
    /// with `DmAlreadyPresent` when a second dungeon master tries to join;
    /// nothing changes then. A session is made by `create_session`: the
    /// join takes no world or snapshot that one could be made from.
    pub fn join_session(
        &mut self,
        session_id: SessionId,
        client_id: ClientId,
        user_id: String,
        role: ParticipantRole,
    ) -> (r: Result<Arc<WorldSnapshot>, SessionError>)
        ensures
            old(self).wf() ==> final(self).wf(),
            final(self).spec_worlds() == old(self).spec_worlds(),
            match r {
                Ok(snapshot) => {
                    let o = old(self).spec_sessions()[session_id.0];
                    let n = final(self).spec_sessions()[session_id.0];
                    &&& old(self).join_allowed(session_id, role)
                    &&& *snapshot == o.spec_snapshot()
                    &&& final(self).spec_clients() == old(self).spec_clients().insert(
                        client_id.0,
                        session_id.0,
                    )
                    &&& final(self).spec_sessions() == old(self).spec_sessions().insert(
                        session_id.0,
                        n,
                    )
                    &&& n.same_frame(o)
                    &&& n.history() == o.history()
                    &&& n.max_history() == o.max_history()
                    &&& n.approvals() == o.approvals()
                    &&& participant_added(
                        o.spec_participants(),
                        n.spec_participants(),
                        client_id,
                        user_id,
                        role,
                    )
                },
                Err(e) => {
                    &&& !old(self).join_allowed(session_id, role)
                    &&& e == (if !old(self).spec_sessions().contains_key(session_id.0) {
                        SessionError::NotFound(session_id)
                    } else {
                        SessionError::DmAlreadyPresent
                    })
                    &&& final(self).spec_sessions() == old(self).spec_sessions()
                    &&& final(self).spec_clients() == old(self).spec_clients()
                },
            },
    {
        let ghost old_self = *self;
        let session = match sessions_get_mut(&mut self.sessions, session_id.0) {
            Some(s) => s,
            None => {
                return Err(SessionError::NotFound(session_id));
            },
        };
        if role == ParticipantRole::DungeonMaster && session.has_dm() {
            return Err(SessionError::DmAlreadyPresent);
        }
        let ghost o = *session;
        session.add_participant(client_id, user_id, role);
        let snapshot = share_snapshot(&session.world_snapshot);
        proof {
            use_type_invariant(&*session);
        }
        let ghost n = *session;
        self.client_sessions.insert(client_id.0, session_id.0);
        proof {
            if old_self.wf() {
                lemma_added_keeps_clients(
                    o.spec_participants(),
                    n.spec_participants(),
                    client_id,
                    user_id,
                    role,
                );
                lemma_added_keeps_one_dm(
                    o.spec_participants(),
                    n.spec_participants(),
                    client_id,
                    user_id,
                    role,
                );
                assert forall|w: u128| #[trigger]
                    self.world_sessions@.contains_key(w) implies {
                    let s = self.world_sessions@[w];
                    &&& self.sessions@.contains_key(s)
                    &&& self.sessions@[s].spec_world_id() == WorldId(w)
                } by {
                    let s = self.world_sessions@[w];
                    assert(old_self.world_sessions@.contains_key(w));
                    assert(old_self.sessions@.contains_key(s));
                }
                assert forall|c: u128| #[trigger]
                    self.client_sessions@.contains_key(c) implies {
                    let s = self.client_sessions@[c];
                    &&& self.sessions@.contains_key(s)
                    &&& has_client(self.sessions@[s].spec_participants(), ClientId(c))
                } by {
                    if c != client_id.0 {
                        let s = self.client_sessions@[c];
                        assert(old_self.client_sessions@.contains_key(c));
                        assert(old_self.sessions@.contains_key(s));
                        if s == session_id.0 {
                            assert(has_client(o.spec_participants(), ClientId(c)));
                        }
                    }
                }
                assert forall|s: u128| #[trigger]
                    self.sessions@.contains_key(s) implies self.sessions@[s].spec_id()
                    == SessionId(s) by {
                    assert(old_self.sessions@.contains_key(s));
                }
                assert forall|s: u128| #[trigger]
                    self.sessions@.contains_key(s) implies at_most_one_dm(
                    self.sessions@[s].spec_participants(),
                ) by {
                    assert(old_self.sessions@.contains_key(s));
                }
            }
        }
        Ok(snapshot)
    }
}


impl SessionManager {
    /// Takes a client out of its session and hands back the session's ID
    /// and the participant that left. A session left empty is dropped,
    /// together with its world's entry. `None` when the client is in no
    /// session.
    pub fn leave_session(&mut self, client_id: ClientId) -> (r: Option<(SessionId, SessionParticipant)>)
        ensures
            old(self).wf() ==> final(self).wf(),
            final(self).spec_clients() == old(self).spec_clients().remove(client_id.0),
            ({
                let oc = old(self).spec_clients();
                let os = old(self).spec_sessions();
                let s = oc[client_id.0];
                let found = oc.contains_key(client_id.0) && os.contains_key(s) && has_client(
                    os[s].spec_participants(),
                    client_id,
                );
                let ps = os[s].spec_participants();
                let rest = ps.remove(client_index(ps, client_id));
                if found {
                    &&& r == Some((SessionId(s), ps[client_index(ps, client_id)]))
                    &&& if rest.len() == 0 {
                        &&& final(self).spec_sessions() == os.remove(s)
                        &&& final(self).spec_worlds() == old(self).spec_worlds().remove(
                            os[s].spec_world_id().0,
                        )
                    } else {
                        let n = final(self).spec_sessions()[s];
                        &&& final(self).spec_sessions() == os.insert(s, n)
                        &&& final(self).spec_worlds() == old(self).spec_worlds()
                        &&& n.spec_participants() == rest
                        &&& n.same_frame(os[s])
                        &&& n.history() == os[s].history()
                        &&& n.max_history() == os[s].max_history()
                        &&& n.approvals() == os[s].approvals()
                    }
                } else {
                    &&& r is None
                    &&& final(self).spec_sessions() == os
                    &&& final(self).spec_worlds() == old(self).spec_worlds()
                }
            }),
    {
        let ghost old_self = *self;
        let sid = match self.client_sessions.remove(&client_id.0) {
            Some(s) => s,
            None => {
                return None;
            },
        };
        let session = match sessions_get_mut(&mut self.sessions, sid) {
            Some(s) => s,
            None => {
                return None;
            },
        };
        proof {
            use_type_invariant(&*session);
        }
        let ghost o = *session;
        let participant = match session.remove_participant(client_id) {
            Some(p) => p,
            None => {
                return None;
            },
        };
        let empty = session.is_empty();
        let world = session.world_id;
        let ghost n = *session;
        proof {
            if old_self.wf() {
                lemma_removed_keeps(o.spec_participants(), client_id);
            }
        }
        if empty {
            self.sessions.remove(&sid);
            self.world_sessions.remove(&world.0);
        }
        proof {
            if old_self.wf() {
                assert forall|c: u128| #[trigger]
                    self.client_sessions@.contains_key(c) implies {
                    let s = self.client_sessions@[c];
                    &&& self.sessions@.contains_key(s)
                    &&& has_client(self.sessions@[s].spec_participants(), ClientId(c))
                } by {
                    let s = self.client_sessions@[c];
                    assert(old_self.client_sessions@.contains_key(c));
                    assert(old_self.sessions@.contains_key(s));
                    if s == sid {
                        assert(has_client(o.spec_participants(), ClientId(c)));
                        assert(has_client(n.spec_participants(), ClientId(c)));
                        let i = client_index(n.spec_participants(), ClientId(c));
                        assert(n.spec_participants()[i].client_id == ClientId(c));
                    }
                }
                assert forall|w: u128| #[trigger]
                    self.world_sessions@.contains_key(w) implies {
                    let s = self.world_sessions@[w];
                    &&& self.sessions@.contains_key(s)
                    &&& self.sessions@[s].spec_world_id() == WorldId(w)
                } by {
                    let s = self.world_sessions@[w];
                    assert(old_self.world_sessions@.contains_key(w));
                    assert(old_self.sessions@.contains_key(s));
                }
                assert forall|s: u128| #[trigger]
                    self.sessions@.contains_key(s) implies self.sessions@[s].spec_id()
                    == SessionId(s) by {
                    assert(old_self.sessions@.contains_key(s));
                }
                assert forall|s: u128| #[trigger]
                    self.sessions@.contains_key(s) implies at_most_one_dm(
                    self.sessions@[s].spec_participants(),
                ) by {
                    assert(old_self.sessions@.contains_key(s));
                }
            }
        }
        Some((SessionId(sid), participant))
    }

    /// The session with a given ID.
    pub fn get_session(&self, session_id: SessionId) -> (r: Option<&GameSession>)
        ensures
            match r {
                Some(s) => self.spec_sessions().contains_key(session_id.0) && *s
                    == self.spec_sessions()[session_id.0],
                None => !self.spec_sessions().contains_key(session_id.0),
            },
    {
        self.sessions.get(&session_id.0)
    }

    /// The session with a given ID, for change. What is written through the
    /// reference is what the manager holds afterwards; keeping the manager
    /// consistent is then the caller's part.
    pub fn get_session_mut(&mut self, session_id: SessionId) -> (r: Option<&mut GameSession>)
        ensures
            final(self).spec_clients() == old(self).spec_clients(),
            final(self).spec_worlds() == old(self).spec_worlds(),
            match r {
                Some(s) => {
                    &&& old(self).spec_sessions().contains_key(session_id.0)
                    &&& *s == old(self).spec_sessions()[session_id.0]
                    &&& final(self).spec_sessions() == old(self).spec_sessions().insert(session_id.0, *final(s))
                },
                None => {
                    &&& !old(self).spec_sessions().contains_key(session_id.0)
                    &&& final(self).spec_sessions() == old(self).spec_sessions()
                },
            },
    {
        sessions_get_mut(&mut self.sessions, session_id.0)
    }

    /// The session a client is in, if any.
    pub fn get_client_session(&self, client_id: ClientId) -> (r: Option<SessionId>)
        ensures
            r == (if self.spec_clients().contains_key(client_id.0) {
                Some(SessionId(self.spec_clients()[client_id.0]))
            } else {
                None
            }),
    {
        match self.client_sessions.get(&client_id.0) {
            Some(s) => Some(SessionId(*s)),
            None => None,
        }
    }

    /// The clients a message for a whole session goes to (none when the
    /// session does not exist).
    pub fn broadcast_to_session(&self, session_id: SessionId) -> (r: Vec<ClientId>)
        ensures
            r@ == (if self.spec_sessions().contains_key(session_id.0) {
                client_ids(self.spec_sessions()[session_id.0].spec_participants())
            } else {
                Seq::<ClientId>::empty()
            }),
    {
        match self.sessions.get(&session_id.0) {
            Some(s) => s.broadcast(),
            None => Vec::new(),
        }
    }

    /// The clients a message for a session, but not for `exclude`, goes to.
    pub fn broadcast_to_session_except(&self, session_id: SessionId, exclude: ClientId) -> (r: Vec<
        ClientId,
    >)
        ensures
            r@ == (if self.spec_sessions().contains_key(session_id.0) {
                client_ids_except(self.spec_sessions()[session_id.0].spec_participants(), exclude)
            } else {
                Seq::<ClientId>::empty()
            }),
    {
        match self.sessions.get(&session_id.0) {
            Some(s) => s.broadcast_except(exclude),
            None => Vec::new(),
        }
    }

    /// Number of active sessions.
    pub fn session_count(&self) -> (r: usize)
        ensures
            r == self.spec_sessions().len(),
    {
        self.sessions.len()
    }

    /// Number of clients that are in a session.
    pub fn client_count(&self) -> (r: usize)
        ensures
            r == self.spec_clients().len(),
    {
        self.client_sessions.len()
    }
}


/// Putting back a session under its ID with the same frame (ID, world,
/// snapshot) and participants keeps the manager consistent.
pub proof fn lemma_replace_session_keeps_wf(m1: SessionManager, m2: SessionManager, s: u128)
    requires
        m1.wf(),
        m1.spec_sessions().contains_key(s),
        m2.spec_sessions() == m1.spec_sessions().insert(s, m2.spec_sessions()[s]),
        m2.spec_sessions()[s].same_frame(m1.spec_sessions()[s]),
        m2.spec_sessions()[s].spec_participants() == m1.spec_sessions()[s].spec_participants(),
        m2.spec_clients() == m1.spec_clients(),
        m2.spec_worlds() == m1.spec_worlds(),
    ensures
        m2.wf(),
{
    assert forall|c: u128| #[trigger]
        m2.client_sessions@.contains_key(c) implies {
        let t = m2.client_sessions@[c];
        &&& m2.sessions@.contains_key(t)
        &&& has_client(m2.sessions@[t].spec_participants(), ClientId(c))
    } by {
        assert(m1.client_sessions@.contains_key(c));
    }
    assert forall|w: u128| #[trigger]
        m2.world_sessions@.contains_key(w) implies {
        let t = m2.world_sessions@[w];
        &&& m2.sessions@.contains_key(t)
        &&& m2.sessions@[t].spec_world_id() == WorldId(w)
    } by {
        assert(m1.world_sessions@.contains_key(w));
    }
    assert forall|t: u128| #[trigger]
        m2.sessions@.contains_key(t) implies m2.sessions@[t].spec_id() == SessionId(t) by {
        assert(m1.sessions@.contains_key(t));
    }
    assert forall|t: u128| #[trigger]
        m2.sessions@.contains_key(t) implies at_most_one_dm(m2.sessions@[t].spec_participants()) by {
        assert(m1.sessions@.contains_key(t));
    }
}


/// Putting back a session under its ID with the same ID, world and
/// participants keeps the manager consistent.
proof fn lemma_same_ids_keep_wf(m1: SessionManager, m2: SessionManager, s: u128)
    requires
        m1.wf(),
        m2.spec_sessions() == m1.spec_sessions() || (m1.spec_sessions().contains_key(s)
            && m2.spec_sessions() == m1.spec_sessions().insert(s, m2.spec_sessions()[s])
            && m2.spec_sessions()[s].spec_id() == m1.spec_sessions()[s].spec_id()
            && m2.spec_sessions()[s].spec_world_id() == m1.spec_sessions()[s].spec_world_id()
            && m2.spec_sessions()[s].spec_participants() == m1.spec_sessions()[s].spec_participants()),
        m2.spec_clients() == m1.spec_clients(),
        m2.spec_worlds() == m1.spec_worlds(),
    ensures
        m2.wf(),
{
    assert forall|c: u128| #[trigger]
        m2.client_sessions@.contains_key(c) implies {
        let t = m2.client_sessions@[c];
        &&& m2.sessions@.contains_key(t)
        &&& has_client(m2.sessions@[t].spec_participants(), ClientId(c))
    } by {
        assert(m1.client_sessions@.contains_key(c));
    }
    assert forall|w: u128| #[trigger]
        m2.world_sessions@.contains_key(w) implies {
        let t = m2.world_sessions@[w];
        &&& m2.sessions@.contains_key(t)
        &&& m2.sessions@[t].spec_world_id() == WorldId(w)
    } by {
        assert(m1.world_sessions@.contains_key(w));
    }
    assert forall|t: u128| #[trigger]
        m2.sessions@.contains_key(t) implies m2.sessions@[t].spec_id() == SessionId(t) by {
        assert(m1.sessions@.contains_key(t));
    }
    assert forall|t: u128| #[trigger]
        m2.sessions@.contains_key(t) implies at_most_one_dm(m2.sessions@[t].spec_participants()) by {
        assert(m1.sessions@.contains_key(t));
    }
}

/// Consistency depends on the three maps alone.
pub proof fn lemma_same_maps_keep_wf(m1: SessionManager, m2: SessionManager)
    requires
        m1.wf(),
        m2.spec_sessions() == m1.spec_sessions(),
        m2.spec_clients() == m1.spec_clients(),
        m2.spec_worlds() == m1.spec_worlds(),
    ensures
        m2.wf(),
{
}


impl SessionManager {
    /// The IDs of the active sessions, each once, in the map's order.
    pub fn get_session_ids(&self) -> (r: Vec<SessionId>)
        ensures
            r@.len() == self.spec_sessions().dom().len(),
            forall|i: int| 0 <= i < r@.len() ==> self.spec_sessions().contains_key(#[trigger] r@[i].0),
            forall|s: u128|
                #[trigger] self.spec_sessions().contains_key(s) ==> exists|i: int|
                    0 <= i < r@.len() && r@[i].0 == s,
            forall|i: int, j: int|
                0 <= i < r@.len() && 0 <= j < r@.len() && i != j ==> #[trigger] r@[i]
                    != #[trigger] r@[j],
    {
        let mut r: Vec<SessionId> = Vec::new();
        let ghost ks = vstd::std_specs::hash::spec_keys_iter(&self.sessions).remaining();
        for k in it: self.sessions.keys()
            invariant
                r@.len() == it.index(),
                it.seq() == ks,
                forall|j: int| 0 <= j < it.index() ==> #[trigger] r@[j].0 == *it.seq()[j],
        {
            r.push(SessionId(*k));
        }
        proof {
            let u = ks.map_values(|x: &u128| *x);
            assert(ks.unref() == u);
            assert(u.to_set() == self.sessions@.dom());
            assert(u.no_duplicates());
            assert forall|i: int| 0 <= i < r@.len() implies self.spec_sessions().contains_key(
                #[trigger] r@[i].0,
            ) by {
                assert(u[i] == r@[i].0);
                assert(u.contains(u[i]));
            }
            assert forall|s: u128| #[trigger]
                self.spec_sessions().contains_key(s) implies exists|i: int|
                0 <= i < r@.len() && r@[i].0 == s by {
                assert(u.to_set().contains(s));
                let i = choose|i: int| 0 <= i < u.len() && u[i] == s;
                assert(r@[i].0 == s);
            }
            assert forall|i: int, j: int|
                0 <= i < r@.len() && 0 <= j < r@.len() && i != j implies #[trigger] r@[i]
                != #[trigger] r@[j] by {
                assert(u[i] == r@[i].0);
                assert(u[j] == r@[j].0);
            }
        }
        r
    }
}


/// The history keeps the latest turns: after a turn is added it is the
/// newest one kept, no more than the limit are kept, and what is kept is
/// the end of the whole conversation, in order.
pub proof fn history_keeps_latest(h: Seq<ConversationTurn>, t: ConversationTurn, n: nat)
    requires
        n > 0,
    ensures
        keep_last(h.push(t), n).len() <= n,
        keep_last(h.push(t), n).last() == t,
        keep_last(h.push(t), n) == h.push(t).skip(h.push(t).len() - keep_last(h.push(t), n).len()),
{
    let all = h.push(t);
    let k = keep_last(all, n);
    if all.len() > n {
        assert(k.last() == all.last());
    }
    assert(k == all.skip(all.len() - k.len()));
}

/// A consistent manager never has two dungeon masters in a session.
pub proof fn one_dm_per_session(m: SessionManager, s: u128)
    requires
        m.wf(),
        m.spec_sessions().contains_key(s),
    ensures
        at_most_one_dm(m.spec_sessions()[s].spec_participants()),
{
}

/// A consistent manager maps a client only to a session it takes part in.
pub proof fn client_in_its_session(m: SessionManager, c: u128)
    requires
        m.wf(),
        m.spec_clients().contains_key(c),
    ensures
        m.spec_sessions().contains_key(m.spec_clients()[c]),
        has_client(m.spec_sessions()[m.spec_clients()[c]].spec_participants(), ClientId(c)),
{
}

/// A second dungeon master may not join a session that has one.
pub proof fn second_dm_refused(m: SessionManager, session_id: SessionId)
    requires
        m.spec_sessions().contains_key(session_id.0),
        has_dm_in(m.spec_sessions()[session_id.0].spec_participants()),
    ensures
        !m.join_allowed(session_id, ParticipantRole::DungeonMaster),
{
}

/// After a client joined a session (as `join_session` states it; the
/// session's clients are distinct, as in every session), the manager
/// finds the client in that session, with the user ID and role it joined
/// with.
pub proof fn join_then_lookup(
    m1: SessionManager,
    m2: SessionManager,
    session_id: SessionId,
    client_id: ClientId,
    user_id: String,
    role: ParticipantRole,
)
    requires
        unique_clients(m1.spec_sessions()[session_id.0].spec_participants()),
        m2.spec_clients() == m1.spec_clients().insert(client_id.0, session_id.0),
        m2.spec_sessions() == m1.spec_sessions().insert(
            session_id.0,
            m2.spec_sessions()[session_id.0],
        ),
        participant_added(
            m1.spec_sessions()[session_id.0].spec_participants(),
            m2.spec_sessions()[session_id.0].spec_participants(),
            client_id,
            user_id,
            role,
        ),
    ensures
        m2.spec_clients().contains_key(client_id.0),
        m2.spec_clients()[client_id.0] == session_id.0,
        m2.spec_sessions().contains_key(session_id.0),
        ({
            let ps = m2.spec_sessions()[session_id.0].spec_participants();
            &&& has_client(ps, client_id)
            &&& ps[client_index(ps, client_id)].user_id == user_id
            &&& ps[client_index(ps, client_id)].role == role
        }),
{
    let o = m1.spec_sessions()[session_id.0].spec_participants();
    let ps = m2.spec_sessions()[session_id.0].spec_participants();
    lemma_added_keeps_clients(o, ps, client_id, user_id, role);
    let k = if has_client(o, client_id) {
        client_index(o, client_id)
    } else {
        o.len() as int
    };
    let i = client_index(ps, client_id);
    assert(ps[k].client_id == client_id);
    assert(ps[i].client_id == client_id);
    assert(i == k) by {
        if i != k {
            if i < o.len() {
                assert(ps[i] == o[i]);
                assert(o[i].client_id == client_id);
                if has_client(o, client_id) {
                    assert(o[k].client_id == client_id);
                }
            }
        }
    }
}

/// A client that left is in no session any more.
pub proof fn leave_forgets_client(m1: SessionManager, m2: SessionManager, client_id: ClientId)
    requires
        m2.spec_clients() == m1.spec_clients().remove(client_id.0),
    ensures
        !m2.spec_clients().contains_key(client_id.0),
{
}

} // verus!

