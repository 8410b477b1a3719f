//! The queue health report: how many items each queue holds and is
//! working on, and how many pending items each session has.

use crate::ids::{uuid_text, SessionId};
use crate::text::{str_eq, to_owned_string};
use vstd::prelude::*;

verus! {

/// The key a pending item is counted under: its session's ID text, or
/// "GLOBAL" for an item of no session.
pub open spec fn session_key(s: Option<SessionId>) -> Seq<char> {
    match s {
        Some(id) => uuid_text(id.0),
        None => "GLOBAL"@,
    }
}

/// Writes the key a pending item is counted under.
pub fn session_key_text(s: Option<SessionId>) -> (r: String)
    ensures
        r@ == session_key(s),
{
    match s {
        Some(id) => id.to_string(),
        None => to_owned_string("GLOBAL"),
    }
}

/// The keys of `ks`, each once, in the order they first come up.
pub open spec fn keys_seen(ks: Seq<Seq<char>>) -> Seq<Seq<char>>
    decreases ks.len(),
{
    if ks.len() == 0 {
        Seq::empty()
    } else {
        let r = keys_seen(ks.drop_last());
        if r.contains(ks.last()) {
            r
        } else {
            r.push(ks.last())
        }
    }
}

/// How often `k` comes up in `ks`.
pub open spec fn occurrences(ks: Seq<Seq<char>>, k: Seq<char>) -> nat
    decreases ks.len(),
{
    if ks.len() == 0 {
        0
    } else {
        occurrences(ks.drop_last(), k) + if ks.last() == k {
            1nat
        } else {
            0nat
        }
    }
}

proof fn lemma_seen_unique(ks: Seq<Seq<char>>, a: int, b: int)
    requires
        0 <= a < keys_seen(ks).len(),
        0 <= b < keys_seen(ks).len(),
        a != b,
    ensures
        keys_seen(ks)[a] != keys_seen(ks)[b],
    decreases ks.len(),
{
    if ks.len() > 0 {
        let r = keys_seen(ks.drop_last());
        if a < r.len() && b < r.len() {
            lemma_seen_unique(ks.drop_last(), a, b);
        } else if a < r.len() {
            assert(r[a] == keys_seen(ks)[a]);
        } else {
            assert(r[b] == keys_seen(ks)[b]);
        }
    }
}

proof fn lemma_unseen_zero(ks: Seq<Seq<char>>, k: Seq<char>)
    requires
        !keys_seen(ks).contains(k),
    ensures
        occurrences(ks, k) == 0,
    decreases ks.len(),
{
    if ks.len() > 0 {
        let r = keys_seen(ks.drop_last());
        if r.contains(k) {
            let i = choose|i: int| 0 <= i < r.len() && r[i] == k;
            assert(keys_seen(ks)[i] == k);
        }
        if ks.last() == k {
            if !r.contains(k) {
                assert(keys_seen(ks)[r.len() as int] == k);
            }
        }
        lemma_unseen_zero(ks.drop_last(), k);
    }
}

proof fn lemma_occurrences_bound(ks: Seq<Seq<char>>, k: Seq<char>)
    ensures
        occurrences(ks, k) <= ks.len(),
    decreases ks.len(),
{
    if ks.len() > 0 {
        lemma_occurrences_bound(ks.drop_last(), k);
    }
}

/// Counts the pending items per key: one entry per key, in the order the
/// keys first come up, with how often it comes up.
pub fn count_by_key(keys: &Vec<String>) -> (r: Vec<(String, usize)>)
    ensures
        ({
            let ks = keys@.map_values(|s: String| s@);
            &&& r@.len() == keys_seen(ks).len()
            &&& forall|i: int|
                0 <= i < r@.len() ==> (#[trigger] r@[i]).0@ == keys_seen(ks)[i] && r@[i].1
                    == occurrences(ks, keys_seen(ks)[i])
        }),
{
    let ghost ks = keys@.map_values(|s: String| s@);
    let mut r: Vec<(String, usize)> = Vec::new();
    let mut i: usize = 0;
    while i < keys.len()
        invariant
            ks == keys@.map_values(|s: String| s@),
            i <= keys@.len(),
            r@.len() == keys_seen(ks.take(i as int)).len(),
            forall|j: int|
                0 <= j < r@.len() ==> (#[trigger] r@[j]).0@ == keys_seen(ks.take(i as int))[j]
                    && r@[j].1 == occurrences(ks.take(i as int), keys_seen(ks.take(i as int))[j]),
        decreases keys@.len() - i,
    {
        let ghost prev = ks.take(i as int);
        let ghost next = ks.take(i + 1);
        assert(next.drop_last() == prev);
        assert(next.last() == keys@[i as int]@);
        let key = &keys[i];
        let mut j: usize = 0;
        while j < r.len()
            invariant
                j <= r@.len(),
                forall|k: int| 0 <= k < j ==> (#[trigger] r@[k]).0@ != key@,
            ensures
                j <= r@.len(),
                j < r@.len() ==> r@[j as int].0@ == key@,
                forall|k: int| 0 <= k < j ==> (#[trigger] r@[k]).0@ != key@,
            decreases r@.len() - j,
        {
            if str_eq(r[j].0.as_str(), key.as_str()) {
                break;
            }
            j = j + 1;
        }
        if j < r.len() {
            let ghost old_r = r@;
            proof {
                lemma_occurrences_bound(prev, key@);
                assert(old_r[j as int].1 == occurrences(prev, keys_seen(prev)[j as int]));
            }
            let mut entry = (String::new(), 0usize);
            std::mem::swap(&mut entry, &mut r[j]);
            entry.1 = entry.1 + 1;
            r.set(j, entry);
            proof {
                let seen = keys_seen(prev);
                assert(seen[j as int] == key@);
                assert(seen.contains(key@));
                assert(keys_seen(next) == seen);
                assert forall|k: int| 0 <= k < r@.len() implies (#[trigger] r@[k]).0@
                    == keys_seen(next)[k] && r@[k].1 == occurrences(next, keys_seen(next)[k]) by {
                    if k != j {
                        assert(r@[k] == old_r[k]);
                        lemma_seen_unique(prev, k, j as int);
                    }
                }
            }
        } else {
            proof {
                let seen = keys_seen(prev);
                assert(!seen.contains(key@)) by {
                    if seen.contains(key@) {
                        let k = choose|k: int| 0 <= k < seen.len() && seen[k] == key@;
                        assert(r@[k].0@ == key@);
                    }
                }
                lemma_unseen_zero(prev, key@);
            }
            r.push((key.clone(), 1));
            proof {
                let seen = keys_seen(prev);
                assert(keys_seen(next) == seen.push(key@));
                assert forall|k: int| 0 <= k < r@.len() implies (#[trigger] r@[k]).0@
                    == keys_seen(next)[k] && r@[k].1 == occurrences(next, keys_seen(next)[k]) by {
                    if k < seen.len() {
                        assert(seen[k] != key@);
                    }
                }
            }
        }
        i = i + 1;
    }
    assert(ks.take(i as int) == ks);
    r
}

/// The sessions that have pending approvals, keyed by their ID text, with
/// how many; sessions with none are left out.
pub open spec fn approvals_shown(s: Seq<(SessionId, usize)>) -> Seq<(Seq<char>, usize)>
    decreases s.len(),
{
    if s.len() == 0 {
        Seq::empty()
    } else {
        let r = approvals_shown(s.drop_last());
        if s.last().1 > 0 {
            r.push((uuid_text(s.last().0.0), s.last().1))
        } else {
            r
        }
    }
}

/// Keys the pending-approval counts of sessions by their ID text, leaving
/// out sessions with none pending.
pub fn approvals_by_session(pending: &Vec<(SessionId, usize)>) -> (r: Vec<(String, usize)>)
    ensures
        r@.len() == approvals_shown(pending@).len(),
        forall|i: int|
            0 <= i < r@.len() ==> (#[trigger] r@[i]).0@ == approvals_shown(pending@)[i].0 && r@[i].1
                == approvals_shown(pending@)[i].1,
{
    let mut r: Vec<(String, usize)> = Vec::new();
    let mut i: usize = 0;
    while i < pending.len()
        invariant
            i <= pending@.len(),
            r@.len() == approvals_shown(pending@.take(i as int)).len(),
            forall|j: int|
                0 <= j < r@.len() ==> (#[trigger] r@[j]).0@ == approvals_shown(
                    pending@.take(i as int),
                )[j].0 && r@[j].1 == approvals_shown(pending@.take(i as int))[j].1,
        decreases pending@.len() - i,
    {
        assert(pending@.take(i + 1).drop_last() == pending@.take(i as int));
        let (id, n) = pending[i];
        if n > 0 {
            r.push((id.to_string(), n));
        }
        i = i + 1;
    }
    assert(pending@.take(i as int) == pending@);
    r
}

/// How many items the queues hold and are working on, as read; a read
/// that failed counts as 0.
#[derive(Clone, Copy, Debug)]
pub struct QueueDepths {
    pub player_actions_pending: usize,
    pub llm_pending: usize,
    pub llm_processing: usize,
    pub approvals_pending: usize,
    pub asset_pending: usize,
    pub asset_processing: usize,
}

/// The keys of the pending items of three queues (`session_key_text` of
/// each item's session, in the order listed; an empty list where listing
/// failed), and the pending-approval count of each session.
#[derive(Clone, Debug)]
pub struct QueueKeys {
    pub player_actions: Vec<String>,
    pub llm_requests: Vec<String>,
    pub asset_generation: Vec<String>,
    pub approvals: Vec<(SessionId, usize)>,
}

/// One queue in the health report.
#[derive(Clone, Debug)]
pub struct QueueReport {
    pub pending: usize,
    pub processing: usize,
    pub by_session: Vec<(String, usize)>,
}

/// The queue health report.
#[derive(Clone, Debug)]
pub struct QueueHealth {
    pub status: String,
    pub player_actions: QueueReport,
    pub llm_requests: QueueReport,
    pub approvals: QueueReport,
    pub asset_generation: QueueReport,
    pub total_pending: usize,
    pub total_processing: usize,
}

/// `r` counts the keys `keys` per key, as `count_by_key` does.
pub open spec fn counted(keys: Seq<String>, r: Seq<(String, usize)>) -> bool {
    let ks = keys.map_values(|s: String| s@);
    &&& r.len() == keys_seen(ks).len()
    &&& forall|i: int|
        0 <= i < r.len() ==> (#[trigger] r[i]).0@ == keys_seen(ks)[i] && r[i].1 == occurrences(
            ks,
            keys_seen(ks)[i],
        )
}

/// The health report: always "healthy"; each queue's pending and
/// processing counts (player actions and approvals are never reported as
/// processing); the pending items counted per session; and the totals.
pub fn queue_health(d: QueueDepths, keys: &QueueKeys) -> (r: QueueHealth)
    requires
        d.player_actions_pending + d.llm_pending + d.approvals_pending + d.asset_pending
            <= usize::MAX,
        d.llm_processing + d.asset_processing <= usize::MAX,
    ensures
        r.status@ == "healthy"@,
        r.player_actions.pending == d.player_actions_pending,
        r.player_actions.processing == 0,
        counted(keys.player_actions@, r.player_actions.by_session@),
        r.llm_requests.pending == d.llm_pending,
        r.llm_requests.processing == d.llm_processing,
        counted(keys.llm_requests@, r.llm_requests.by_session@),
        r.approvals.pending == d.approvals_pending,
        r.approvals.processing == 0,
        r.approvals.by_session@.len() == approvals_shown(keys.approvals@).len(),
        forall|i: int|
            0 <= i < r.approvals.by_session@.len() ==> (#[trigger] r.approvals.by_session@[i]).0@
                == approvals_shown(keys.approvals@)[i].0 && r.approvals.by_session@[i].1
                == approvals_shown(keys.approvals@)[i].1,
        r.asset_generation.pending == d.asset_pending,
        r.asset_generation.processing == d.asset_processing,
        counted(keys.asset_generation@, r.asset_generation.by_session@),
        r.total_pending == d.player_actions_pending + d.llm_pending + d.approvals_pending
            + d.asset_pending,
        r.total_processing == d.llm_processing + d.asset_processing,
{
    QueueHealth {
        status: to_owned_string("healthy"),
        player_actions: QueueReport {
            pending: d.player_actions_pending,
            processing: 0,
            by_session: count_by_key(&keys.player_actions),
        },
        llm_requests: QueueReport {
            pending: d.llm_pending,
            processing: d.llm_processing,
            by_session: count_by_key(&keys.llm_requests),
        },
        approvals: QueueReport {
            pending: d.approvals_pending,
            processing: 0,
            by_session: approvals_by_session(&keys.approvals),
        },
        asset_generation: QueueReport {
            pending: d.asset_pending,
            processing: d.asset_processing,
            by_session: count_by_key(&keys.asset_generation),
        },
        total_pending: d.player_actions_pending + d.llm_pending + d.approvals_pending
            + d.asset_pending,
        total_processing: d.llm_processing + d.asset_processing,
    }
}

} // verus!
