//! The session registry: a concurrent keyed store of battle sessions with
//! admission control, copy-based updates, idle eviction and the advisory
//! thinking flag.

use vstd::prelude::*;
use vstd::string::StringExecFns;

use crate::battle::dto::{AiBattleError, AiBattleResult, AiBattleSession, AiDifficulty};
use crate::session::store::{
    session_store_contents, store_contains, store_entries, store_get, store_insert, store_len,
    store_new, store_remove, store_update,
};

verus! {

/// A pushed sequence holds an element exactly when the sequence already
/// did, or the element is the pushed one.
proof fn lemma_push_contains(s: Seq<u128>, v: u128, x: u128)
    ensures
        s.push(v).contains(x) <==> (s.contains(x) || x == v),
{
    if s.contains(x) {
        let w = choose|w: int| 0 <= w < s.len() && s[w] == x;
        assert(s.push(v)[w] == x);
    }
    if x == v {
        assert(s.push(v)[s.len() as int] == x);
    }
    if s.push(v).contains(x) && x != v {
        let w = choose|w: int| 0 <= w < s.push(v).len() && s.push(v)[w] == x;
        assert(w < s.len());
        assert(s[w] == x);
    }
}

/// The sessions whose opponent reply is in flight.
pub open spec fn thinking_sessions(m: Map<u128, AiBattleSession>) -> Set<u128> {
    m.dom().filter(|k: u128| m[k].ai_thinking)
}

/// The sessions playing at the given difficulty.
pub open spec fn sessions_at(m: Map<u128, AiBattleSession>, d: AiDifficulty) -> Set<u128> {
    m.dom().filter(|k: u128| m[k].ai_difficulty == d)
}

/// How many of the first `n` listed entries satisfy a predicate.
spec fn seq_count_matching(
    entries: Seq<(u128, AiBattleSession)>,
    pred: spec_fn(AiBattleSession) -> bool,
    n: int,
) -> int
    decreases n,
{
    if n <= 0 {
        0
    } else {
        seq_count_matching(entries, pred, n - 1) + if pred(entries[n - 1].1) {
            1int
        } else {
            0int
        }
    }
}

/// The keys of the first `n` listed entries.
spec fn prefix_keys(entries: Seq<(u128, AiBattleSession)>, n: int) -> Set<u128>
    decreases n,
{
    if n <= 0 {
        Set::empty()
    } else {
        prefix_keys(entries, n - 1).insert(entries[n - 1].0)
    }
}

/// The listed prefix holds exactly the keys of its entries, finitely many.
proof fn lemma_prefix_keys_members(entries: Seq<(u128, AiBattleSession)>, n: int)
    requires
        0 <= n,
    ensures
        prefix_keys(entries, n).finite(),
        forall|k: u128| prefix_keys(entries, n).contains(k) <==> exists|i: int|
            0 <= i < n && (#[trigger] entries[i]).0 == k,
    decreases n,
{
    if n > 0 {
        lemma_prefix_keys_members(entries, n - 1);
        assert forall|k: u128| prefix_keys(entries, n).contains(k) <==> exists|i: int|
            0 <= i < n && (#[trigger] entries[i]).0 == k by {
            if prefix_keys(entries, n).contains(k) {
                if k == entries[n - 1].0 {
                    assert(entries[n - 1].0 == k);
                } else {
                    let i = choose|i: int| 0 <= i < n - 1 && (#[trigger] entries[i]).0 == k;
                }
            }
            if exists|i: int| 0 <= i < n && (#[trigger] entries[i]).0 == k {
                let i = choose|i: int| 0 <= i < n && (#[trigger] entries[i]).0 == k;
                if i < n - 1 {
                    assert(prefix_keys(entries, n - 1).contains(k));
                }
            }
        }
    }
}

/// Counting the matching entries of a duplicate-free listing counts the
/// set of matching listed keys.
proof fn lemma_prefix_count(
    m: Map<u128, AiBattleSession>,
    entries: Seq<(u128, AiBattleSession)>,
    pred: spec_fn(AiBattleSession) -> bool,
    n: int,
    s: Set<u128>,
)
    requires
        0 <= n <= entries.len(),
        forall|i: int, j: int| 0 <= i < j < entries.len() ==> entries[i].0 != entries[j].0,
        forall|i: int| 0 <= i < entries.len() ==> m.contains_key((#[trigger] entries[i]).0)
            && m[entries[i].0] == entries[i].1,
        forall|k: u128| #[trigger] s.contains(k) <==> (prefix_keys(entries, n).contains(k)
            && pred(m[k])),
    ensures
        s.finite(),
        s.len() == seq_count_matching(entries, pred, n),
    decreases n,
{
    lemma_prefix_keys_members(entries, n);
    if n <= 0 {
        assert(s =~= Set::empty());
    } else {
        let key = entries[n - 1].0;
        let prev = Set::new(
            |k: u128| prefix_keys(entries, n - 1).contains(k) && pred(m[k]),
        );
        lemma_prefix_keys_members(entries, n - 1);
        lemma_prefix_count(m, entries, pred, n - 1, prev);
        assert(!prev.contains(key)) by {
            if prefix_keys(entries, n - 1).contains(key) {
                let i = choose|i: int| 0 <= i < n - 1 && (#[trigger] entries[i]).0 == key;
            }
        }
        if pred(entries[n - 1].1) {
            assert(s =~= prev.insert(key)) by {
                assert(m[key] == entries[n - 1].1);
            }
            vstd::set::axiom_set_insert_len::<u128>(prev, key);
        } else {
            assert(s =~= prev) by {
                assert(m[key] == entries[n - 1].1);
            }
        }
    }
}

/// The per-difficulty session counts.
#[derive(Debug, Clone, Copy, PartialEq, Eq)]
pub struct DifficultyCounts {
    pub easy: usize,
    pub medium: usize,
    pub hard: usize,
}

/// A snapshot of the registry's load: the live count against the ceiling,
/// how many opponents are computing, and the difficulty distribution.
#[derive(Debug)]
pub struct SessionStats {
    pub total_sessions: usize,
    pub max_sessions: usize,
    pub ai_thinking_count: usize,
    pub difficulty_counts: DifficultyCounts,
}

/// The registry of live battle sessions. Its view is the map from session
/// identifier to session.
#[derive(Debug)]
pub struct AiBattleSessionManager {
    sessions: crate::session::store::SessionStore,
    max_sessions: usize,
    session_timeout_minutes: i64,
}

impl View for AiBattleSessionManager {
    type V = Map<u128, AiBattleSession>;

    closed spec fn view(&self) -> Map<u128, AiBattleSession> {
        session_store_contents(self.sessions)
    }
}

impl AiBattleSessionManager {
    /// The admission ceiling: no session is created beyond this count.
    pub closed spec fn spec_max_sessions(&self) -> usize {
        self.max_sessions
    }

    /// How many minutes a session may sit idle before the sweep takes it.
    pub closed spec fn spec_timeout_minutes(&self) -> i64 {
        self.session_timeout_minutes
    }

    /// A registry is well formed when it holds finitely many sessions and
    /// every session sits under its own identifier and is itself well
    /// formed.
    pub open spec fn wf(&self) -> bool {
        &&& self@.dom().finite()
        &&& forall|k: u128| self@.contains_key(k) ==> (#[trigger] self@[k]).id == k
            && self@[k].wf()
    }

    /// Opens an empty registry with the default thirty-minute idle
    /// timeout.
    pub fn new(max_sessions: usize) -> (r: Self)
        ensures
            r@ == Map::<u128, AiBattleSession>::empty(),
            r.spec_max_sessions() == max_sessions,
            r.spec_timeout_minutes() == 30,
            r.wf(),
    {
        Self { sessions: store_new(), max_sessions, session_timeout_minutes: 30 }
    }

    /// Opens an empty registry with the given idle timeout in minutes.
    pub fn with_timeout(max_sessions: usize, timeout_minutes: i64) -> (r: Self)
        ensures
            r@ == Map::<u128, AiBattleSession>::empty(),
            r.spec_max_sessions() == max_sessions,
            r.spec_timeout_minutes() == timeout_minutes,
            r.wf(),
    {
        Self { sessions: store_new(), max_sessions, session_timeout_minutes: timeout_minutes }
    }

    /// Creates a session at the given difficulty, unless the registry is
    /// already at its admission ceiling. In the vanishingly rare case that
    /// the fresh identifier is already taken, nothing is overwritten and
    /// the collision is reported, so a success always raises the live
    /// count by exactly one.
    pub fn create_session(&mut self, difficulty: AiDifficulty) -> (r: AiBattleResult<u128>)
        requires
            old(self).wf(),
        ensures
            final(self).wf(),
            final(self).spec_max_sessions() == old(self).spec_max_sessions(),
            final(self).spec_timeout_minutes() == old(self).spec_timeout_minutes(),
            old(self)@.dom().finite(),
            old(self)@.dom().len() >= old(self).spec_max_sessions() ==> (r matches Err(
                AiBattleError::MaxSessionsReached { max },
            ) && max == old(self).spec_max_sessions()) && final(self)@ == old(self)@,
            r matches Ok(id) ==> old(self)@.dom().len() < old(self).spec_max_sessions()
                && !old(self)@.contains_key(id) && final(self)@.dom().len() == old(
                self,
            )@.dom().len() + 1 && exists|s: AiBattleSession|
                {
                    &&& (#[trigger] s.is_initial(difficulty))
                    &&& s.wf()
                    &&& s.id == id
                    &&& final(self)@ == old(self)@.insert(id, s)
                },
            old(self)@.dom().len() < old(self).spec_max_sessions() ==> (r is Ok || (r matches Err(
                AiBattleError::InternalError { details },
            ) && details@ == "session identifier collision"@ && final(self)@ == old(self)@)),
    {
        let count = store_len(&self.sessions);
        if count >= self.max_sessions {
            return Err(AiBattleError::MaxSessionsReached { max: self.max_sessions });
        }
        let session = AiBattleSession::new(difficulty);
        let session_id = session.id;
        if store_contains(&self.sessions, session_id) {
            return Err(
                AiBattleError::InternalError {
                    details: String::from_str("session identifier collision"),
                },
            );
        }
        store_insert(&mut self.sessions, session_id, session);
        proof {
            assert(self@.dom() =~= old(self)@.dom().insert(session_id));
            vstd::set::axiom_set_insert_len::<u128>(old(self)@.dom(), session_id);
        }
        Ok(session_id)
    }

    /// Hands out an independent copy of the session under the identifier.
    pub fn get_session(&self, session_id: u128) -> (r: AiBattleResult<AiBattleSession>)
        ensures
            self@.contains_key(session_id) ==> (r matches Ok(s) && s == self@[session_id]),
            !self@.contains_key(session_id) ==> (r matches Err(
                AiBattleError::GameNotFound { game_id },
            ) && game_id == session_id),
    {
        match store_get(&self.sessions, session_id) {
            Some(session) => Ok(session),
            None => Err(AiBattleError::GameNotFound { game_id: session_id }),
        }
    }

    /// Writes a mutated copy back under its identifier; fails when the
    /// session has meanwhile been removed.
    pub fn update_session(&mut self, session: AiBattleSession) -> (r: AiBattleResult<()>)
        requires
            old(self).wf(),
            session.wf(),
        ensures
            final(self).wf(),
            final(self).spec_max_sessions() == old(self).spec_max_sessions(),
            final(self).spec_timeout_minutes() == old(self).spec_timeout_minutes(),
            old(self)@.contains_key(session.id) ==> r is Ok && final(self)@ == old(
                self,
            )@.insert(session.id, session),
            !old(self)@.contains_key(session.id) ==> (r matches Err(
                AiBattleError::GameNotFound { game_id },
            ) && game_id == session.id) && final(self)@ == old(self)@,
    {
        let session_id = session.id;
        if store_update(&mut self.sessions, session_id, session) {
            Ok(())
        } else {
            Err(AiBattleError::GameNotFound { game_id: session_id })
        }
    }

    /// Removes and returns the session under the identifier.
    pub fn remove_session(&mut self, session_id: u128) -> (r: AiBattleResult<AiBattleSession>)
        requires
            old(self).wf(),
        ensures
            final(self).wf(),
            final(self).spec_max_sessions() == old(self).spec_max_sessions(),
            final(self).spec_timeout_minutes() == old(self).spec_timeout_minutes(),
            old(self)@.contains_key(session_id) ==> (r matches Ok(s) && s == old(
                self,
            )@[session_id]) && final(self)@ == old(self)@.remove(session_id),
            !old(self)@.contains_key(session_id) ==> (r matches Err(
                AiBattleError::GameNotFound { game_id },
            ) && game_id == session_id) && final(self)@ == old(self)@,
    {
        match store_remove(&mut self.sessions, session_id) {
            Some(session) => Ok(session),
            None => Err(AiBattleError::GameNotFound { game_id: session_id }),
        }
    }

    /// Hands out an independent copy of every live session, each exactly
    /// once, in no promised order.
    pub fn list_sessions(&self) -> (r: Vec<AiBattleSession>)
        requires
            self.wf(),
        ensures
            self@.dom().finite(),
            r@.len() == self@.dom().len(),
            forall|i: int| 0 <= i < r@.len() ==> self@.contains_key((#[trigger] r@[i]).id)
                && self@[r@[i].id] == r@[i],
            forall|i: int, j: int| 0 <= i < j < r@.len() ==> r@[i].id != r@[j].id,
    {
        let mut entries = store_entries(&self.sessions);
        let ghost orig = entries@;
        let mut sessions: Vec<AiBattleSession> = Vec::new();
        loop
            invariant_except_break
                self.wf(),
                entries@.len() + sessions@.len() == orig.len(),
                entries@ == orig.take(entries@.len() as int),
                forall|j: int| 0 <= j < orig.len() ==> self@.contains_key((#[trigger] orig[j]).0)
                    && self@[orig[j].0] == orig[j].1,
                forall|j1: int, j2: int| 0 <= j1 < j2 < orig.len() ==> orig[j1].0 != orig[j2].0,
                forall|j: int| 0 <= j < sessions@.len() ==> (#[trigger] sessions@[j]) == orig[orig.len()
                    - 1 - j].1,
            ensures
                entries@.len() == 0,
                sessions@.len() == orig.len(),
                forall|j: int| 0 <= j < sessions@.len() ==> (#[trigger] sessions@[j]) == orig[orig.len()
                    - 1 - j].1,
            decreases entries@.len(),
        {
            match entries.pop() {
                Some((_, session)) => {
                    proof {
                        assert(orig.take(entries@.len() as int + 1).last() == orig[entries@.len() as int]);
                        assert(orig.take(entries@.len() as int + 1).drop_last() =~= orig.take(
                            entries@.len() as int,
                        ));
                    }
                    sessions.push(session);
                },
                None => {
                    break;
                },
            }
        }
        proof {
            assert forall|j1: int, j2: int| 0 <= j1 < j2 < sessions@.len() implies sessions@[j1].id
                != sessions@[j2].id by {
                assert(sessions@[j1] == orig[orig.len() - 1 - j1].1);
                assert(sessions@[j2] == orig[orig.len() - 1 - j2].1);
                assert(orig[orig.len() - 1 - j1].1.id == orig[orig.len() - 1 - j1].0);
                assert(orig[orig.len() - 1 - j2].1.id == orig[orig.len() - 1 - j2].0);
            }
            assert forall|i: int| 0 <= i < sessions@.len() implies self@.contains_key(
                (#[trigger] sessions@[i]).id,
            ) && self@[sessions@[i].id] == sessions@[i] by {
                assert(sessions@[i] == orig[orig.len() - 1 - i].1);
                assert(orig[orig.len() - 1 - i].1.id == orig[orig.len() - 1 - i].0);
            }
        }
        sessions
    }

    /// How many sessions are live.
    pub fn session_count(&self) -> (r: usize)
        ensures
            r == self@.dom().len(),
    {
        store_len(&self.sessions)
    }

    /// Removes every session whose last activity lies before `cutoff_ms`,
    /// and returns how many were removed.
    pub fn cleanup_sessions_older_than(&mut self, cutoff_ms: i64) -> (r: usize)
        requires
            old(self).wf(),
        ensures
            final(self).wf(),
            final(self).spec_max_sessions() == old(self).spec_max_sessions(),
            final(self).spec_timeout_minutes() == old(self).spec_timeout_minutes(),
            old(self)@.dom().finite(),
            final(self)@.dom().finite(),
            forall|k: u128| final(self)@.contains_key(k) <==> (old(self)@.contains_key(k) && (
            #[trigger] old(self)@[k]).last_move_at >= cutoff_ms),
            forall|k: u128| final(self)@.contains_key(k) ==> (#[trigger] final(self)@[k]) == old(
                self,
            )@[k],
            r == old(self)@.dom().len() - final(self)@.dom().len(),
    {
        let entries = store_entries(&self.sessions);
        let ghost pre = self@;
        let mut expired: Vec<u128> = Vec::new();
        let mut i: usize = 0;
        while i < entries.len()
            invariant
                i <= entries@.len(),
                forall|j: int| 0 <= j < entries@.len() ==> pre.contains_key(
                    (#[trigger] entries@[j]).0,
                ) && pre[entries@[j].0] == entries@[j].1,
                forall|j1: int, j2: int| 0 <= j1 < j2 < entries@.len() ==> entries@[j1].0
                    != entries@[j2].0,
                forall|k: u128| pre.contains_key(k) ==> exists|j: int|
                    0 <= j < entries@.len() && (#[trigger] entries@[j]).0 == k,
                forall|j: int| 0 <= j < expired@.len() ==> pre.contains_key(
                    (#[trigger] expired@[j]),
                ) && pre[expired@[j]].last_move_at < cutoff_ms,
                forall|j1: int, j2: int| 0 <= j1 < j2 < expired@.len() ==> expired@[j1]
                    != expired@[j2],
                forall|j: int| 0 <= j < i ==> (pre[(#[trigger] entries@[j]).0].last_move_at
                    < cutoff_ms <==> expired@.contains(entries@[j].0)),
                forall|k: u128| expired@.contains(k) ==> exists|j: int|
                    0 <= j < i && (#[trigger] entries@[j]).0 == k,
            decreases entries@.len() - i,
        {
            let (key, session) = &entries[i];
            if session.last_move_at < cutoff_ms {
                let ghost prev = expired@;
                expired.push(*key);
                proof {
                    assert forall|j: int| 0 <= j < i + 1 implies (pre[(
                    #[trigger] entries@[j]).0].last_move_at < cutoff_ms <==> expired@.contains(
                        entries@[j].0,
                    )) by {
                        lemma_push_contains(prev, entries@[i as int].0, entries@[j].0);
                        if j < i {
                            if expired@.contains(entries@[j].0) && !prev.contains(entries@[j].0) {
                                assert(entries@[j].0 == entries@[i as int].0);
                            }
                        }
                    }
                    assert forall|k: u128| expired@.contains(k) implies exists|j: int|
                        0 <= j < i + 1 && (#[trigger] entries@[j]).0 == k by {
                        lemma_push_contains(prev, entries@[i as int].0, k);
                        if !prev.contains(k) {
                            assert(entries@[i as int].0 == k);
                        }
                    }
                    assert forall|j1: int, j2: int| 0 <= j1 < j2 < expired@.len() implies expired@[j1]
                        != expired@[j2] by {
                        if j2 == expired@.len() - 1 {
                            assert(prev.contains(prev[j1]));
                            assert(pre[entries@[i as int].0].last_move_at < cutoff_ms);
                            if prev[j1] == entries@[i as int].0 {
                                let jw = choose|jw: int|
                                    0 <= jw < i && (#[trigger] entries@[jw]).0 == prev[j1];
                            }
                        }
                    }
                }
            } else {
                proof {
                    assert forall|j: int| 0 <= j < i + 1 implies (pre[(
                    #[trigger] entries@[j]).0].last_move_at < cutoff_ms <==> expired@.contains(
                        entries@[j].0,
                    )) by {
                        if j == i {
                            if expired@.contains(entries@[j].0) {
                                let jw = choose|jw: int|
                                    0 <= jw < i && (#[trigger] entries@[jw]).0 == entries@[j].0;
                            }
                        }
                    }
                }
            }
            i += 1;
        }
        let ghost expired_seq = expired@;
        let mut removed_count: usize = 0;
        let mut j: usize = 0;
        while j < expired.len()
            invariant
                self.wf(),
                self.spec_max_sessions() == old(self).spec_max_sessions(),
                self.spec_timeout_minutes() == old(self).spec_timeout_minutes(),
                j <= expired@.len(),
                expired@ == expired_seq,
                removed_count == j,
                pre.dom().finite(),
                self@.dom().finite(),
                forall|w: int| 0 <= w < expired@.len() ==> pre.contains_key(
                    (#[trigger] expired@[w]),
                ),
                forall|w1: int, w2: int| 0 <= w1 < w2 < expired@.len() ==> expired@[w1]
                    != expired@[w2],
                forall|k: u128| self@.contains_key(k) <==> (pre.contains_key(k)
                    && !expired@.take(j as int).contains(k)),
                forall|k: u128| self@.contains_key(k) ==> (#[trigger] self@[k]) == pre[k],
                self@.dom().len() == pre.dom().len() - j,
            decreases expired@.len() - j,
        {
            let key = expired[j];
            proof {
                assert(expired@.take(expired@.len() as int) =~= expired@);
                assert(!expired@.take(j as int).contains(key)) by {
                    if expired@.take(j as int).contains(key) {
                        let w = choose|w: int|
                            0 <= w < j && expired@.take(j as int)[w] == key;
                        assert(expired@[w] == expired@[j as int]);
                    }
                }
                assert(self@.contains_key(key));
                assert(self@.remove(key).dom() =~= self@.dom().remove(key));
                vstd::set::axiom_set_remove_len::<u128>(self@.dom(), key);
            }
            let _ = store_remove(&mut self.sessions, key);
            removed_count += 1;
            proof {
                assert forall|k: u128| self@.contains_key(k) <==> (pre.contains_key(k)
                    && !expired@.take(j + 1).contains(k)) by {
                    if expired@.take(j + 1).contains(k) {
                        let w = choose|w: int| 0 <= w < j + 1 && #[trigger] expired@.take(j + 1)[w] == k;
                        if w < j {
                            assert(expired@.take(j as int)[w] == k);
                            assert(expired@.take(j as int).contains(k));
                        }
                    }
                    if expired@.take(j as int).contains(k) {
                        let w = choose|w: int| 0 <= w < j && #[trigger] expired@.take(j as int)[w] == k;
                        assert(expired@.take(j + 1)[w] == k);
                        assert(expired@.take(j + 1).contains(k));
                    }
                    if k == key {
                        assert(expired@.take(j + 1)[j as int] == key);
                        assert(expired@.take(j + 1).contains(key));
                    }
                }
            }
            j += 1;
        }
        proof {
            assert(expired@.take(expired@.len() as int) =~= expired@);
            assert forall|k: u128| self@.contains_key(k) <==> (pre.contains_key(k) && (
            #[trigger] pre[k]).last_move_at >= cutoff_ms) by {
                if pre.contains_key(k) {
                    let j0 = choose|j0: int|
                        0 <= j0 < entries@.len() && (#[trigger] entries@[j0]).0 == k;
                    assert(pre[entries@[j0].0].last_move_at < cutoff_ms <==> expired@.contains(
                        entries@[j0].0,
                    ));
                }
            }
        }
        removed_count
    }

    /// The registry's admission ceiling.
    pub fn max_session_count(&self) -> (r: usize)
        ensures
            r == self.spec_max_sessions(),
    {
        self.max_sessions
    }

    /// The registry's idle timeout in minutes.
    pub fn timeout_minutes(&self) -> (r: i64)
        ensures
            r == self.spec_timeout_minutes(),
    {
        self.session_timeout_minutes
    }

    /// Takes a snapshot of the registry's load: the live session count,
    /// the ceiling, how many opponent replies are in flight, and how the
    /// difficulties are distributed.
    pub fn get_stats(&self) -> (r: SessionStats)
        requires
            self.wf(),
        ensures
            r.total_sessions == self@.dom().len(),
            r.max_sessions == self.spec_max_sessions(),
            r.ai_thinking_count == thinking_sessions(self@).len(),
            r.difficulty_counts.easy == sessions_at(self@, AiDifficulty::Easy).len(),
            r.difficulty_counts.medium == sessions_at(self@, AiDifficulty::Medium).len(),
            r.difficulty_counts.hard == sessions_at(self@, AiDifficulty::Hard).len(),
    {
        let ghost thinking_pred = |s: AiBattleSession| s.ai_thinking;
        let ghost easy_pred = |s: AiBattleSession| s.ai_difficulty == AiDifficulty::Easy;
        let ghost medium_pred = |s: AiBattleSession| s.ai_difficulty == AiDifficulty::Medium;
        let ghost hard_pred = |s: AiBattleSession| s.ai_difficulty == AiDifficulty::Hard;
        let entries = store_entries(&self.sessions);
        let total_sessions = entries.len();
        let mut ai_thinking_count: usize = 0;
        let mut easy: usize = 0;
        let mut medium: usize = 0;
        let mut hard: usize = 0;
        let mut i: usize = 0;
        while i < entries.len()
            invariant
                i <= entries@.len(),
                forall|j1: int, j2: int| 0 <= j1 < j2 < entries@.len() ==> entries@[j1].0
                    != entries@[j2].0,
                forall|j: int| 0 <= j < entries@.len() ==> self@.contains_key(
                    (#[trigger] entries@[j]).0,
                ) && self@[entries@[j].0] == entries@[j].1,
                thinking_pred == (|s: AiBattleSession| s.ai_thinking),
                easy_pred == (|s: AiBattleSession| s.ai_difficulty == AiDifficulty::Easy),
                medium_pred == (|s: AiBattleSession| s.ai_difficulty == AiDifficulty::Medium),
                hard_pred == (|s: AiBattleSession| s.ai_difficulty == AiDifficulty::Hard),
                ai_thinking_count == seq_count_matching(entries@, thinking_pred, i as int),
                easy == seq_count_matching(entries@, easy_pred, i as int),
                medium == seq_count_matching(entries@, medium_pred, i as int),
                hard == seq_count_matching(entries@, hard_pred, i as int),
                ai_thinking_count <= i && easy <= i && medium <= i && hard <= i,
            decreases entries@.len() - i,
        {
            let (_, session) = &entries[i];
            if session.ai_thinking {
                ai_thinking_count += 1;
            }
            match session.ai_difficulty {
                AiDifficulty::Easy => { easy += 1; },
                AiDifficulty::Medium => { medium += 1; },
                AiDifficulty::Hard => { hard += 1; },
            }
            proof {
                assert(seq_count_matching(entries@, thinking_pred, i as int + 1)
                    == seq_count_matching(entries@, thinking_pred, i as int) + if thinking_pred(
                    entries@[i as int].1,
                ) {
                    1int
                } else {
                    0int
                });
                assert(seq_count_matching(entries@, easy_pred, i as int + 1)
                    == seq_count_matching(entries@, easy_pred, i as int) + if easy_pred(
                    entries@[i as int].1,
                ) {
                    1int
                } else {
                    0int
                });
                assert(seq_count_matching(entries@, medium_pred, i as int + 1)
                    == seq_count_matching(entries@, medium_pred, i as int) + if medium_pred(
                    entries@[i as int].1,
                ) {
                    1int
                } else {
                    0int
                });
                assert(seq_count_matching(entries@, hard_pred, i as int + 1)
                    == seq_count_matching(entries@, hard_pred, i as int) + if hard_pred(
                    entries@[i as int].1,
                ) {
                    1int
                } else {
                    0int
                });
            }
            i += 1;
        }
        proof {
            let es = entries@;
            let n = es.len() as int;
            lemma_prefix_keys_members(es, n);
            assert forall|k: u128| prefix_keys(es, n).contains(k) <==> self@.dom().contains(
                k,
            ) by {
                if self@.dom().contains(k) {
                    let j = choose|j: int| 0 <= j < es.len() && (#[trigger] es[j]).0 == k;
                }
            }
            lemma_prefix_count(self@, es, thinking_pred, n, thinking_sessions(self@));
            lemma_prefix_count(self@, es, easy_pred, n, sessions_at(self@, AiDifficulty::Easy));
            lemma_prefix_count(
                self@,
                es,
                medium_pred,
                n,
                sessions_at(self@, AiDifficulty::Medium),
            );
            lemma_prefix_count(self@, es, hard_pred, n, sessions_at(self@, AiDifficulty::Hard));
        }
        SessionStats {
            total_sessions,
            max_sessions: self.max_sessions,
            ai_thinking_count,
            difficulty_counts: DifficultyCounts { easy, medium, hard },
        }
    }

    /// Whether a session lives under the identifier.
    pub fn session_exists(&self, session_id: u128) -> (r: bool)
        ensures
            r == self@.contains_key(session_id),
    {
        store_contains(&self.sessions, session_id)
    }

    /// Sets or clears the advisory flag that marks an opponent reply in
    /// flight for the session.
    pub fn set_ai_thinking(&mut self, session_id: u128, thinking: bool) -> (r: AiBattleResult<()>)
        requires
            old(self).wf(),
        ensures
            final(self).wf(),
            final(self).spec_max_sessions() == old(self).spec_max_sessions(),
            final(self).spec_timeout_minutes() == old(self).spec_timeout_minutes(),
            old(self)@.contains_key(session_id) ==> r is Ok && final(self)@ == old(
                self,
            )@.insert(
                session_id,
                AiBattleSession { ai_thinking: thinking, ..old(self)@[session_id] },
            ),
            !old(self)@.contains_key(session_id) ==> (r matches Err(
                AiBattleError::GameNotFound { game_id },
            ) && game_id == session_id) && final(self)@ == old(self)@,
    {
        match store_get(&self.sessions, session_id) {
            Some(session) => {
                let mut session = session;
                session.ai_thinking = thinking;
                let _ = store_update(&mut self.sessions, session_id, session);
                Ok(())
            },
            None => Err(AiBattleError::GameNotFound { game_id: session_id }),
        }
    }

    /// Whether an opponent reply is in flight for the session.
    pub fn is_ai_thinking(&self, session_id: u128) -> (r: AiBattleResult<bool>)
        ensures
            self@.contains_key(session_id) ==> r == Ok::<bool, AiBattleError>(
                self@[session_id].ai_thinking,
            ),
            !self@.contains_key(session_id) ==> (r matches Err(
                AiBattleError::GameNotFound { game_id },
            ) && game_id == session_id),
    {
        match store_get(&self.sessions, session_id) {
            Some(session) => Ok(session.ai_thinking),
            None => Err(AiBattleError::GameNotFound { game_id: session_id }),
        }
    }
}

} // verus!
