//! What the background workers decide: recording a response that waits for
//! the dungeon master's approval (once per request), and what to do with an
//! action the dungeon master queued.

use crate::ids::{parse_uuid, uuid_parsed, uuid_text, uuid_to_string, ClientId, SessionId};
use crate::prompt::QueueError;
use crate::session::{
    first_dm_index, has_dm_in, has_request, player_ids, PendingApproval, ProposedTool,
    SessionManager,
};
use crate::text::{append_str, to_owned_string};
use vstd::prelude::*;

verus! {

/// A language model response queued for the dungeon master's approval.
#[derive(Clone, Debug)]
pub struct ApprovalItem {
    /// The queue item's ID; its UUID text is the approval's request ID.
    pub id: u128,
    pub session_id: SessionId,
    pub npc_name: String,
    pub proposed_dialogue: String,
    pub internal_reasoning: String,
    pub proposed_tools: Vec<ProposedTool>,
}

/// The notice sent to the dungeon master that a response waits for approval.
#[derive(Clone, Debug)]
pub struct ApprovalRequired {
    /// The dungeon master's client, when the session has one.
    pub dm: Option<ClientId>,
    pub request_id: String,
    pub npc_name: String,
    pub proposed_dialogue: String,
    pub internal_reasoning: String,
    pub proposed_tools: Vec<ProposedTool>,
}

/// The item's approval is already waiting in its session (or there is no
/// session to put it in).
pub open spec fn approval_known(m: SessionManager, item: ApprovalItem) -> bool {
    let s = item.session_id.0;
    m.spec_sessions().contains_key(s) && has_request(
        m.spec_sessions()[s].approvals(),
        uuid_text(item.id),
    )
}

/// `m2` is `m1` with the item's approval added to its session.
pub open spec fn approval_recorded(m1: SessionManager, m2: SessionManager, item: ApprovalItem) -> bool {
    let s = item.session_id.0;
    let o = m1.spec_sessions()[s];
    let n = m2.spec_sessions()[s];
    &&& m1.spec_sessions().contains_key(s)
    &&& !has_request(o.approvals(), uuid_text(item.id))
    &&& m2.spec_sessions() == m1.spec_sessions().insert(s, n)
    &&& m2.spec_clients() == m1.spec_clients()
    &&& m2.spec_worlds() == m1.spec_worlds()
    &&& n.same_frame(o)
    &&& n.spec_participants() == o.spec_participants()
    &&& n.history() == o.history()
    &&& n.max_history() == o.max_history()
    &&& n.approvals().len() == o.approvals().len() + 1
    &&& n.approvals().take(o.approvals().len() as int) == o.approvals()
    &&& {
        let a = n.approvals().last();
        &&& a.request_id@ == uuid_text(item.id)
        &&& a.npc_name == item.npc_name
        &&& a.proposed_dialogue == item.proposed_dialogue
        &&& a.internal_reasoning == item.internal_reasoning
        &&& a.proposed_tools@ == item.proposed_tools@
        &&& a.retry_count == 0
    }
}

fn copy_tools(tools: &Vec<ProposedTool>) -> (r: Vec<ProposedTool>)
    ensures
        r@ == tools@,
{
    let mut r: Vec<ProposedTool> = Vec::new();
    let mut i: usize = 0;
    while i < tools.len()
        invariant
            i <= tools@.len(),
            r@ == tools@.take(i as int),
        decreases tools@.len() - i,
    {
        let t = &tools[i];
        r.push(
            ProposedTool {
                id: t.id.clone(),
                name: t.name.clone(),
                description: t.description.clone(),
                arguments: t.arguments.clone(),
            },
        );
        assert(tools@.take(i + 1) == tools@.take(i as int).push(tools@[i as int]));
        i = i + 1;
    }
    assert(tools@.take(i as int) == tools@);
    r
}

/// Records a response waiting for approval in its session and hands back
/// the notice for the dungeon master. An approval already waiting, or one
/// whose session is gone, is left alone and gives no notice, so running
/// the worker again over the same queue notifies nobody twice.
pub fn record_pending_approval(sessions: &mut SessionManager, item: &ApprovalItem) -> (r: Option<
    ApprovalRequired,
>)
    ensures
        old(sessions).wf() ==> final(sessions).wf(),
        recording_step(*old(sessions), *final(sessions), *item, r is Some),
        !old(sessions).spec_sessions().contains_key(item.session_id.0) || approval_known(
            *old(sessions),
            *item,
        ) ==> {
            &&& r is None
            &&& final(sessions).spec_sessions() == old(sessions).spec_sessions()
            &&& final(sessions).spec_clients() == old(sessions).spec_clients()
            &&& final(sessions).spec_worlds() == old(sessions).spec_worlds()
        },
        old(sessions).spec_sessions().contains_key(item.session_id.0) && !approval_known(
            *old(sessions),
            *item,
        ) ==> {
            let ps = final(sessions).spec_sessions()[item.session_id.0].spec_participants();
            &&& approval_recorded(*old(sessions), *final(sessions), *item)
            &&& r matches Some(n) && {
                &&& n.request_id@ == uuid_text(item.id)
                &&& n.npc_name == item.npc_name
                &&& n.proposed_dialogue == item.proposed_dialogue
                &&& n.internal_reasoning == item.internal_reasoning
                &&& n.proposed_tools@ == item.proposed_tools@
                &&& match n.dm {
                    Some(c) => exists|i: int| first_dm_index(ps, i) && ps[i].client_id == c,
                    None => !has_dm_in(ps),
                }
            }
        },
{
    let ghost old_m = *sessions;
    let approval_id = uuid_to_string(item.id);
    let session = match sessions.get_session_mut(item.session_id) {
        Some(s) => s,
        None => {
            proof {
                if old_m.wf() {
                    crate::session::lemma_same_maps_keep_wf(old_m, *sessions);
                }
            }
            return None;
        },
    };
    if session.get_pending_approval(approval_id.as_str()).is_some() {
        proof {
            assert(old_m.spec_sessions().insert(item.session_id.0, *session)
                == old_m.spec_sessions());
        }
        proof {
            if old_m.wf() {
                crate::session::lemma_same_maps_keep_wf(old_m, *sessions);
            }
        }
        return None;
    }
    let approval = PendingApproval::new(
        approval_id.clone(),
        item.npc_name.clone(),
        item.proposed_dialogue.clone(),
        item.internal_reasoning.clone(),
        copy_tools(&item.proposed_tools),
    );
    let ghost o = *session;
    session.add_pending_approval(approval);
    let dm = session.send_to_dm();
    let ghost n = *session;
    proof {
        assert(n.approvals().take(o.approvals().len() as int) == o.approvals());
    }
    let notice = ApprovalRequired {
        dm,
        request_id: approval_id,
        npc_name: item.npc_name.clone(),
        proposed_dialogue: item.proposed_dialogue.clone(),
        internal_reasoning: item.internal_reasoning.clone(),
        proposed_tools: copy_tools(&item.proposed_tools),
    };
    proof {
        if old_m.wf() {
            crate::session::lemma_replace_session_keeps_wf(old_m, *sessions, item.session_id.0);
        }
    }
    Some(notice)
}

/// One run of the recording step on `item` took `m1` to `m2`, and sent a
/// notice when `notified`: where the session is gone or the approval
/// already waits, nothing changes and nobody is notified; else the
/// approval is recorded and announced.
pub open spec fn recording_step(
    m1: SessionManager,
    m2: SessionManager,
    item: ApprovalItem,
    notified: bool,
) -> bool {
    if !m1.spec_sessions().contains_key(item.session_id.0) || approval_known(m1, item) {
        &&& !notified
        &&& m2.spec_sessions() == m1.spec_sessions()
        &&& m2.spec_clients() == m1.spec_clients()
        &&& m2.spec_worlds() == m1.spec_worlds()
    } else {
        notified && approval_recorded(m1, m2, item)
    }
}

/// One move between two states of the sessions: a run of the recording
/// step on `item` (when `recording`), which notified when `notified`; or
/// any other change, which notifies nobody and keeps the item's approval
/// waiting where it was waiting.
pub open spec fn approval_move(
    m1: SessionManager,
    m2: SessionManager,
    item: ApprovalItem,
    recording: bool,
    notified: bool,
) -> bool {
    if recording {
        recording_step(m1, m2, item, notified)
    } else {
        !notified && (approval_known(m1, item) ==> approval_known(m2, item))
    }
}

/// Once the approval waits, it keeps waiting and nobody is notified of it
/// again.
proof fn lemma_known_stays(
    ms: Seq<SessionManager>,
    rs: Seq<bool>,
    ns: Seq<bool>,
    item: ApprovalItem,
    k: int,
)
    requires
        ms.len() == ns.len() + 1,
        rs.len() == ns.len(),
        forall|i: int|
            0 <= i < ns.len() ==> approval_move(ms[i], #[trigger] ms[i + 1], item, rs[i], ns[i]),
        0 <= k <= ns.len(),
        approval_known(ms[k], item),
    ensures
        forall|i: int| k <= i < ns.len() ==> !#[trigger] ns[i],
    decreases ns.len() - k,
{
    if k < ns.len() {
        assert(approval_move(ms[k], ms[k + 1], item, rs[k], ns[k]));
        assert(approval_known(ms[k + 1], item));
        lemma_known_stays(ms, rs, ns, item, k + 1);
    }
}

/// Law: over any number of runs of the recording step on one item, with
/// any other changes to the sessions between them that keep the approval
/// waiting once it waits, the approval is announced to the dungeon master
/// at most once; when it is, the approval was recorded in that same run.
pub proof fn approval_announced_at_most_once(
    ms: Seq<SessionManager>,
    rs: Seq<bool>,
    ns: Seq<bool>,
    item: ApprovalItem,
)
    requires
        ms.len() == ns.len() + 1,
        rs.len() == ns.len(),
        forall|i: int|
            0 <= i < ns.len() ==> approval_move(ms[i], #[trigger] ms[i + 1], item, rs[i], ns[i]),
    ensures
        forall|i: int| 0 <= i < ns.len() && ns[i] ==> approval_recorded(ms[i], ms[i + 1], item),
        forall|i: int, j: int| 0 <= i < ns.len() && 0 <= j < ns.len() && ns[i] && ns[j] ==> i == j,
{
    assert forall|i: int| 0 <= i < ns.len() && ns[i] implies approval_recorded(
        ms[i],
        ms[i + 1],
        item,
    ) by {
        assert(approval_move(ms[i], ms[i + 1], item, rs[i], ns[i]));
    }
    assert forall|i: int, j: int| 0 <= i < ns.len() && 0 <= j < ns.len() && ns[i] && ns[j] implies i
        == j by {
        if i != j {
            let a = if i < j {
                i
            } else {
                j
            };
            assert(approval_move(ms[a], ms[a + 1], item, rs[a], ns[a]));
            approval_notified_once(ms[a], ms[a + 1], item);
            lemma_known_stays(ms, rs, ns, item, a + 1);
        }
    }
}

/// Running the recording step a second time over the same item finds the
/// approval waiting and changes nothing: each approval is announced once.
pub proof fn approval_notified_once(m1: SessionManager, m2: SessionManager, item: ApprovalItem)
    requires
        approval_recorded(m1, m2, item),
    ensures
        approval_known(m2, item),
{
    let s = item.session_id.0;
    let n = m2.spec_sessions()[s];
    let k = n.approvals().len() - 1;
    assert(n.approvals()[k].request_id@ == uuid_text(item.id));
}

/// An action the dungeon master queued.
#[derive(Clone, Debug)]
pub enum DMAction<D> {
    /// A decision on a response waiting for approval.
    ApprovalDecision { request_id: String, decision: D },
    /// A line the dungeon master speaks for an NPC.
    DirectNPCControl { npc_id: String, dialogue: String },
    TriggerEvent { event_id: String },
    TransitionScene { scene_id: String },
}

/// A queued dungeon master action with its session.
#[derive(Clone, Debug)]
pub struct DMActionItem<D> {
    pub session_id: SessionId,
    pub dm_id: String,
    pub action: DMAction<D>,
}

/// What the worker does for a dungeon master action.
#[derive(Clone, Debug)]
pub enum DmActionStep<D> {
    /// Hand the decision on the approval with this queue item ID to the
    /// approval service.
    ProcessDecision { approval_id: u128, decision: D },
    /// Send the NPC's line (spoken by "NPC") to these players.
    Broadcast { targets: Vec<ClientId>, text: String },
    /// Nothing to do.
    Nothing,
}

/// The text of the error for a session that is gone.
pub open spec fn session_missing_text(id: SessionId) -> Seq<char> {
    "Session "@ + uuid_text(id.0) + " not found"@
}

/// Decides what the worker does for a dungeon master action. A decision
/// whose request ID is no UUID fails with `NotFound(request ID)`; one for a
/// session that is gone fails with `Backend("Session … not found")`. An
/// NPC line goes to the session's players (to nobody when the session is
/// gone). Triggering events and changing scenes do nothing yet.
pub fn plan_dm_action<D>(sessions: &SessionManager, item: DMActionItem<D>) -> (r: Result<
    DmActionStep<D>,
    QueueError,
>)
    ensures
        match item.action {
            DMAction::ApprovalDecision { request_id, decision } => match uuid_parsed(
                request_id@,
            ) {
                None => r == Err::<DmActionStep<D>, QueueError>(QueueError::NotFound(request_id)),
                Some(a) => if sessions.spec_sessions().contains_key(item.session_id.0) {
                    r == Ok::<DmActionStep<D>, QueueError>(
                        DmActionStep::ProcessDecision { approval_id: a, decision },
                    )
                } else {
                    r matches Err(QueueError::Backend(msg)) && msg@ == session_missing_text(
                        item.session_id,
                    )
                },
            },
            DMAction::DirectNPCControl { npc_id, dialogue } => if sessions.spec_sessions().contains_key(
                item.session_id.0,
            ) {
                r matches Ok(DmActionStep::Broadcast { targets, text }) && targets@ == player_ids(
                    sessions.spec_sessions()[item.session_id.0].spec_participants(),
                ) && text == dialogue
            } else {
                r matches Ok(DmActionStep::Nothing)
            },
            _ => r matches Ok(DmActionStep::Nothing),
        },
{
    let session_id = item.session_id;
    match item.action {
        DMAction::ApprovalDecision { request_id, decision } => {
            let a = match parse_uuid(request_id.as_str()) {
                Some(a) => a,
                None => {
                    return Err(QueueError::NotFound(request_id));
                },
            };
            match sessions.get_session(session_id) {
                Some(_) => Ok(DmActionStep::ProcessDecision { approval_id: a, decision }),
                None => {
                    let mut msg = to_owned_string("Session ");
                    let id = session_id.to_string();
                    append_str(&mut msg, id.as_str());
                    append_str(&mut msg, " not found");
                    Err(QueueError::Backend(msg))
                },
            }
        },
        DMAction::DirectNPCControl { npc_id: _, dialogue } => match sessions.get_session(
            session_id,
        ) {
            Some(s) => Ok(DmActionStep::Broadcast { targets: s.broadcast_to_players(), text: dialogue }),
            None => Ok(DmActionStep::Nothing),
        },
        DMAction::TriggerEvent { event_id: _ } => Ok(DmActionStep::Nothing),
        DMAction::TransitionScene { scene_id: _ } => Ok(DmActionStep::Nothing),
    }
}

} // verus!
