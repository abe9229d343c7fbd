//! The session registry: the sessions that are alive, found by their
//! identifier, with the sweep that evicts the idle ones.

use vstd::prelude::*;
use vstd::string::*;
use crate::text::same_text;
use crate::types::Session;

verus! {

/// No two sessions of `s` share an identifier.
pub open spec fn distinct_ids(s: Seq<Session>) -> bool {
    forall|i: int, j: int| 0 <= i < j < s.len() ==> s[i].id@ != s[j].id@
}

/// The session of `s` with identifier `id`, if there is one.
pub open spec fn find(s: Seq<Session>, id: Seq<char>) -> Option<Session> {
    if exists|i: int| 0 <= i < s.len() && s[i].id@ == id {
        Some(s[choose|i: int| 0 <= i < s.len() && s[i].id@ == id])
    } else {
        None
    }
}

/// The sessions of `s` other than the one with identifier `id`, in their
/// order.
pub open spec fn without(s: Seq<Session>, id: Seq<char>) -> Seq<Session> {
    s.filter(|x: Session| x.id@ != id)
}

/// `s` after `session` has been registered: it takes the place of any
/// session with the same identifier and stands last.
pub open spec fn with_session(s: Seq<Session>, session: Session) -> Seq<Session> {
    without(s, session.id@).push(session)
}

/// Whether a session has been idle for more than `timeout` at time `now`.
pub open spec fn expired(session: Session, now: u64, timeout: u64) -> bool {
    now > session.last_activity && now - session.last_activity > timeout
}

/// The sessions of `s` that a sweep at time `now` leaves, in their order.
pub open spec fn survivors(s: Seq<Session>, now: u64, timeout: u64) -> Seq<Session> {
    s.filter(|x: Session| !expired(x, now, timeout))
}

/// The sessions of `s` that a sweep at time `now` evicts, in their order.
pub open spec fn evicted(s: Seq<Session>, now: u64, timeout: u64) -> Seq<Session> {
    s.filter(|x: Session| expired(x, now, timeout))
}

/// A session after activity at time `now`: its last activity moves to
/// `now`, and never backwards.
pub open spec fn refreshed(session: Session, now: u64) -> Session {
    Session {
        last_activity: if now > session.last_activity {
            now
        } else {
            session.last_activity
        },
        ..session
    }
}

/// `s` after activity on the session with identifier `id` at time `now`.
pub open spec fn touched(s: Seq<Session>, id: Seq<char>, now: u64) -> Seq<Session> {
    Seq::new(
        s.len(),
        |i: int|
            if s[i].id@ == id {
                refreshed(s[i], now)
            } else {
                s[i]
            },
    )
}

/// The identifiers of the sessions of `s`, in their order.
pub open spec fn ids_of(s: Seq<Session>) -> Seq<Seq<char>> {
    Seq::new(s.len(), |i: int| s[i].id@)
}

/// The texts held by a list of strings.
pub open spec fn texts(v: Seq<String>) -> Seq<Seq<char>> {
    Seq::new(v.len(), |i: int| v[i]@)
}

/// In a list without duplicate identifiers, the session found under an
/// identifier is the one that carries it.
pub proof fn lemma_find_at(s: Seq<Session>, i: int)
    requires
        distinct_ids(s),
        0 <= i < s.len(),
    ensures
        find(s, s[i].id@) == Some(s[i]),
{
    let id = s[i].id@;
    let k = choose|k: int| 0 <= k < s.len() && s[k].id@ == id;
    if k < i {
        assert(s[k].id@ != s[i].id@);
    } else if i < k {
        assert(s[i].id@ != s[k].id@);
    }
}

/// A registered session is found under its identifier, whatever was
/// registered before; and once the identifier is removed, nothing is found
/// under it.
pub proof fn law_register_find_remove(s: Seq<Session>, session: Session)
    ensures
        find(with_session(s, session), session.id@) == Some(session),
        find(with_session(s, session), session.id@)->Some_0.client_id == session.client_id,
        find(without(with_session(s, session), session.id@), session.id@) is None,
        find(without(s, session.id@), session.id@) is None,
{
    broadcast use vstd::seq_lib::group_filter_ensures;

    let id = session.id@;
    let rest = without(s, id);
    let all = with_session(s, session);
    assert(all[rest.len() as int] == session);
    let k = choose|k: int| 0 <= k < all.len() && all[k].id@ == id;
    if k < rest.len() {
        assert(all[k] == rest[k]);
        assert(rest[k].id@ != id);
    }
    let gone = without(all, id);
    assert forall|i: int| 0 <= i < gone.len() implies gone[i].id@ != id by {
        assert(gone[i].id@ != id);
    }
    assert forall|i: int| 0 <= i < rest.len() implies rest[i].id@ != id by {
        assert(rest[i].id@ != id);
    }
}

/// Removing an identifier under which nothing is found changes nothing.
pub proof fn lemma_without_unknown(s: Seq<Session>, id: Seq<char>)
    requires
        find(s, id) is None,
    ensures
        without(s, id) == s,
    decreases s.len(),
{
    reveal(Seq::filter);
    if s.len() > 0 {
        let front = s.drop_last();
        assert(s.last().id@ != id);
        assert forall|i: int| 0 <= i < front.len() implies front[i].id@ != id by {
            assert(s[i].id@ != id);
        }
        lemma_without_unknown(front, id);
        assert(front.push(s.last()) =~= s);
    }
}

/// Once an identifier is removed, nothing is found under it.
pub proof fn lemma_without_absent(s: Seq<Session>, id: Seq<char>)
    ensures
        find(without(s, id), id) is None,
{
    broadcast use vstd::seq_lib::group_filter_ensures;

    let rest = without(s, id);
    assert forall|i: int| 0 <= i < rest.len() implies rest[i].id@ != id by {
        assert(rest[i].id@ != id);
    }
}

/// A sweep evicts exactly the sessions that have been idle for more than
/// the timeout: each of those is gone afterwards, and every other session
/// is still there as it was.
pub proof fn law_sweep_evicts_exactly_expired(s: Seq<Session>, now: u64, timeout: u64, i: int)
    requires
        distinct_ids(s),
        0 <= i < s.len(),
    ensures
        expired(s[i], now, timeout) ==> find(survivors(s, now, timeout), s[i].id@) is None,
        !expired(s[i], now, timeout) ==> find(survivors(s, now, timeout), s[i].id@) == Some(s[i]),
{
    broadcast use vstd::seq_lib::group_filter_ensures;

    let left = survivors(s, now, timeout);
    let pred = |x: Session| !expired(x, now, timeout);
    lemma_filter_keeps_distinct(s, pred);
    if expired(s[i], now, timeout) {
        if exists|k: int| 0 <= k < left.len() && left[k].id@ == s[i].id@ {
            let k = choose|k: int| 0 <= k < left.len() && left[k].id@ == s[i].id@;
            assert(pred(left[k]));
            lemma_filter_source(s, pred, k);
            let j = choose|j: int| 0 <= j < s.len() && s[j] == left[k];
            if j < i {
                assert(s[j].id@ != s[i].id@);
            } else if i < j {
                assert(s[i].id@ != s[j].id@);
            }
        }
    } else {
        assert(left.contains(s[i]));
        let k = choose|k: int| 0 <= k < left.len() && left[k] == s[i];
        lemma_find_at(left, k);
    }
}

/// Where the passes of the sweep come no more than `interval` apart, a
/// session that has been idle for too long at time `since`, and is left
/// alone from then on, is gone with the first pass at or after `since`,
/// and that pass comes no later than `since + interval`. A pass at which
/// the session has not been idle for too long leaves it as it is.
pub proof fn law_sweep_within_one_interval(
    s: Seq<Session>,
    i: int,
    timeout: u64,
    interval: u64,
    since: u64,
    previous_pass: u64,
    pass: u64,
)
    requires
        distinct_ids(s),
        0 <= i < s.len(),
        expired(s[i], since, timeout),
        previous_pass <= since <= pass,
        pass - previous_pass <= interval,
    ensures
        pass <= since + interval,
        find(survivors(s, pass, timeout), s[i].id@) is None,
        !expired(s[i], previous_pass, timeout) ==> find(
            survivors(s, previous_pass, timeout),
            s[i].id@,
        ) == Some(s[i]),
{
    law_sweep_evicts_exactly_expired(s, pass, timeout, i);
    law_sweep_evicts_exactly_expired(s, previous_pass, timeout, i);
}

/// Every element that a filter keeps comes from the filtered list.
pub proof fn lemma_filter_source(s: Seq<Session>, pred: spec_fn(Session) -> bool, k: int)
    requires
        0 <= k < s.filter(pred).len(),
    ensures
        exists|j: int| 0 <= j < s.len() && s[j] == s.filter(pred)[k],
{
    broadcast use Seq::lemma_filter_contains_rev;

    assert(s.filter(pred).contains(s.filter(pred)[k]));
    assert(s.contains(s.filter(pred)[k]));
}

/// Filtering a list without duplicate identifiers leaves none.
pub proof fn lemma_filter_keeps_distinct(s: Seq<Session>, pred: spec_fn(Session) -> bool)
    requires
        distinct_ids(s),
    ensures
        distinct_ids(s.filter(pred)),
    decreases s.len(),
{
    reveal(Seq::filter);
    if s.len() > 0 {
        let front = s.drop_last();
        lemma_filter_keeps_distinct(front, pred);
        let kept = front.filter(pred);
        if pred(s.last()) {
            assert forall|i: int, j: int| 0 <= i < j < kept.push(s.last()).len() implies kept.push(
                s.last(),
            )[i].id@ != kept.push(s.last())[j].id@ by {
                if j == kept.len() {
                    lemma_filter_source(front, pred, i);
                    let k = choose|k: int| 0 <= k < front.len() && front[k] == kept[i];
                    assert(s[k].id@ != s[s.len() - 1].id@);
                }
            }
        }
    }
}

/// The sessions that are alive, each under its own identifier.
pub struct SessionRegistry {
    sessions: Vec<Session>,
}

impl SessionRegistry {
    /// The registered sessions, oldest registration first.
    pub closed spec fn entries(self) -> Seq<Session> {
        self.sessions@
    }

    /// No two registered sessions share an identifier.
    #[verifier::type_invariant]
    pub open spec fn wf(self) -> bool {
        distinct_ids(self.entries())
    }

    /// An empty registry.
    pub fn new() -> (r: Self)
        ensures
            r.entries() == Seq::<Session>::empty(),
            r.wf(),
    {
        SessionRegistry { sessions: Vec::new() }
    }

    /// How many sessions are registered.
    pub fn count(&self) -> (r: usize)
        ensures
            r == self.entries().len(),
    {
        self.sessions.len()
    }

    /// Where the session with identifier `id` stands, if it is registered.
    fn position(&self, id: &str) -> (r: Option<usize>)
        ensures
            match r {
                Some(i) => i < self.entries().len() && self.entries()[i as int].id@ == id@
                    && find(self.entries(), id@) == Some(self.entries()[i as int]),
                None => find(self.entries(), id@) is None,
            },
    {
        proof {
            use_type_invariant(self);
        }
        let mut i: usize = 0;
        while i < self.sessions.len()
            invariant
                i <= self.sessions@.len(),
                distinct_ids(self.sessions@),
                forall|k: int| 0 <= k < i ==> self.sessions@[k].id@ != id@,
            decreases self.sessions.len() - i,
        {
            if same_text(self.sessions[i].id.as_str(), id) {
                proof {
                    lemma_find_at(self.sessions@, i as int);
                }
                return Some(i);
            }
            i += 1;
        }
        None
    }

    /// The session with identifier `id`, if it is registered.
    pub fn get(&self, id: &str) -> (r: Option<Session>)
        ensures
            r == find(self.entries(), id@),
    {
        match self.position(id) {
            Some(i) => Some(self.sessions[i].clone()),
            None => None,
        }
    }

    /// Whether a session with identifier `id` is registered.
    pub fn contains(&self, id: &str) -> (r: bool)
        ensures
            r == find(self.entries(), id@) is Some,
    {
        self.position(id).is_some()
    }

    /// Every registered session, oldest registration first.
    pub fn get_all(&self) -> (r: Vec<Session>)
        ensures
            r@ == self.entries(),
    {
        let mut out: Vec<Session> = Vec::new();
        let mut i: usize = 0;
        while i < self.sessions.len()
            invariant
                i <= self.sessions@.len(),
                out@ == self.sessions@.take(i as int),
            decreases self.sessions.len() - i,
        {
            out.push(self.sessions[i].clone());
            assert(self.sessions@.take(i + 1) =~= self.sessions@.take(i as int).push(
                self.sessions@[i as int],
            ));
            i += 1;
        }
        assert(self.sessions@.take(i as int) =~= self.sessions@);
        out
    }

    /// The identifiers of the registered sessions, oldest registration
    /// first.
    pub fn ids(&self) -> (r: Vec<String>)
        ensures
            texts(r@) == ids_of(self.entries()),
    {
        let mut out: Vec<String> = Vec::new();
        let mut i: usize = 0;
        while i < self.sessions.len()
            invariant
                i <= self.sessions@.len(),
                texts(out@) == ids_of(self.sessions@.take(i as int)),
            decreases self.sessions.len() - i,
        {
            out.push(self.sessions[i].id.clone());
            assert(self.sessions@.take(i + 1) =~= self.sessions@.take(i as int).push(
                self.sessions@[i as int],
            ));
            assert(texts(out@) =~= texts(out@.drop_last()).push(self.sessions@[i as int].id@));
            assert(ids_of(self.sessions@.take(i + 1)) =~= ids_of(self.sessions@.take(i as int)).push(
                self.sessions@[i as int].id@,
            ));
            i += 1;
        }
        assert(self.sessions@.take(i as int) =~= self.sessions@);
        out
    }

    /// Registers `session`. A session that was registered under the same
    /// identifier is replaced.
    pub fn insert(&mut self, session: Session)
        ensures
            final(self).entries() == with_session(old(self).entries(), session),
    {
        proof {
            use_type_invariant(&*self);
        }
        let mut before: Vec<Session> = Vec::new();
        std::mem::swap(&mut before, &mut self.sessions);
        let ghost pred = |x: Session| x.id@ != session.id@;
        let mut kept: Vec<Session> = Vec::new();
        let mut i: usize = 0;
        assert(before@.take(0).filter(pred) =~= Seq::<Session>::empty()) by {
            reveal(Seq::filter);
        }
        while i < before.len()
            invariant
                i <= before@.len(),
                kept@ == before@.take(i as int).filter(pred),
                pred == |x: Session| x.id@ != session.id@,
            decreases before.len() - i,
        {
            proof {
                assert(before@.take(i + 1) =~= before@.take(i as int).push(before@[i as int]));
                before@.take(i as int).lemma_filter_push(before@[i as int], pred);
            }
            if !same_text(before[i].id.as_str(), session.id.as_str()) {
                kept.push(before[i].clone());
            }
            i += 1;
        }
        assert(before@.take(i as int) =~= before@);
        proof {
            broadcast use vstd::seq_lib::group_filter_ensures;

            lemma_filter_keeps_distinct(before@, pred);
            assert forall|k: int| 0 <= k < kept@.len() implies kept@[k].id@ != session.id@ by {
                assert(pred(kept@[k]));
            }
        }
        kept.push(session);
        self.sessions = kept;
    }

    /// Removes the session with identifier `id` and tells whether there
    /// was one. Removing an identifier that is not registered changes
    /// nothing.
    pub fn remove(&mut self, id: &str) -> (r: bool)
        ensures
            final(self).entries() == without(old(self).entries(), id@),
            r == find(old(self).entries(), id@) is Some,
            !r ==> final(self).entries() == old(self).entries(),
    {
        proof {
            use_type_invariant(&*self);
        }
        let found = self.position(id).is_some();
        let mut before: Vec<Session> = Vec::new();
        std::mem::swap(&mut before, &mut self.sessions);
        let ghost pred = |x: Session| x.id@ != id@;
        let mut kept: Vec<Session> = Vec::new();
        let mut i: usize = 0;
        assert(before@.take(0).filter(pred) =~= Seq::<Session>::empty()) by {
            reveal(Seq::filter);
        }
        while i < before.len()
            invariant
                i <= before@.len(),
                kept@ == before@.take(i as int).filter(pred),
                !found ==> kept@ == before@.take(i as int),
                !found ==> forall|k: int| 0 <= k < before@.len() ==> before@[k].id@ != id@,
                pred == |x: Session| x.id@ != id@,
            decreases before.len() - i,
        {
            proof {
                assert(before@.take(i + 1) =~= before@.take(i as int).push(before@[i as int]));
                before@.take(i as int).lemma_filter_push(before@[i as int], pred);
            }
            if !same_text(before[i].id.as_str(), id) {
                kept.push(before[i].clone());
            }
            i += 1;
        }
        assert(before@.take(i as int) =~= before@);
        proof {
            lemma_filter_keeps_distinct(before@, pred);
        }
        self.sessions = kept;
        found
    }

    /// Records activity at time `now` on the session with identifier `id`
    /// and tells whether there is such a session. The session's last
    /// activity never moves backwards.
    pub fn touch(&mut self, id: &str, now: u64) -> (r: bool)
        ensures
            final(self).entries() == touched(old(self).entries(), id@, now),
            r == find(old(self).entries(), id@) is Some,
    {
        proof {
            use_type_invariant(&*self);
        }
        match self.position(id) {
            Some(i) => {
                let mut sessions: Vec<Session> = Vec::new();
                std::mem::swap(&mut sessions, &mut self.sessions);
                let ghost before = sessions@;
                let mut session = sessions[i].clone();
                if now > session.last_activity {
                    session.last_activity = now;
                }
                sessions.set(i, session);
                proof {
                    assert forall|k: int| 0 <= k < before.len() implies sessions@[k] == touched(
                        before,
                        id@,
                        now,
                    )[k] by {
                        if k != i {
                            if k < i {
                                assert(before[k].id@ != before[i as int].id@);
                            } else {
                                assert(before[i as int].id@ != before[k].id@);
                            }
                        }
                    }
                    assert(sessions@ =~= touched(before, id@, now));
                }
                self.sessions = sessions;
                true
            },
            None => {
                proof {
                    let before = self.sessions@;
                    assert forall|k: int| 0 <= k < before.len() implies before[k].id@ != id@ by {
                        if before[k].id@ == id@ {
                            assert(find(before, id@) is Some);
                        }
                    }
                    assert(before =~= touched(before, id@, now));
                }
                false
            },
        }
    }

    /// Evicts every session that has been idle for more than `timeout` at
    /// time `now`, and returns the identifiers of the evicted sessions.
    /// The other sessions stay as they are.
    pub fn sweep(&mut self, now: u64, timeout: u64) -> (r: Vec<String>)
        ensures
            final(self).entries() == survivors(old(self).entries(), now, timeout),
            texts(r@) == ids_of(evicted(old(self).entries(), now, timeout)),
    {
        proof {
            use_type_invariant(&*self);
        }
        let mut before: Vec<Session> = Vec::new();
        std::mem::swap(&mut before, &mut self.sessions);
        let ghost stay = |x: Session| !expired(x, now, timeout);
        let ghost go = |x: Session| expired(x, now, timeout);
        let mut kept: Vec<Session> = Vec::new();
        let mut gone: Vec<String> = Vec::new();
        let mut i: usize = 0;
        assert(before@.take(0).filter(stay) =~= Seq::<Session>::empty()) by {
            reveal(Seq::filter);
        }
        assert(before@.take(0).filter(go) =~= Seq::<Session>::empty()) by {
            reveal(Seq::filter);
        }
        assert(texts(gone@) =~= ids_of(before@.take(0).filter(go)));
        while i < before.len()
            invariant
                i <= before@.len(),
                kept@ == before@.take(i as int).filter(stay),
                texts(gone@) == ids_of(before@.take(i as int).filter(go)),
                stay == |x: Session| !expired(x, now, timeout),
                go == |x: Session| expired(x, now, timeout),
            decreases before.len() - i,
        {
            proof {
                assert(before@.take(i + 1) =~= before@.take(i as int).push(before@[i as int]));
                before@.take(i as int).lemma_filter_push(before@[i as int], stay);
                before@.take(i as int).lemma_filter_push(before@[i as int], go);
            }
            let last = before[i].last_activity;
            if now > last && now - last > timeout {
                gone.push(before[i].id.clone());
                assert(texts(gone@) =~= texts(gone@.drop_last()).push(before@[i as int].id@));
                assert(ids_of(before@.take(i + 1).filter(go)) =~= ids_of(
                    before@.take(i as int).filter(go),
                ).push(before@[i as int].id@));
            } else {
                kept.push(before[i].clone());
            }
            i += 1;
        }
        assert(before@.take(i as int) =~= before@);
        proof {
            lemma_filter_keeps_distinct(before@, stay);
        }
        self.sessions = kept;
        gone
    }

    /// Removes every session and returns the identifiers that were
    /// registered.
    pub fn clear(&mut self) -> (r: Vec<String>)
        ensures
            final(self).entries() == Seq::<Session>::empty(),
            texts(r@) == ids_of(old(self).entries()),
    {
        let ids = self.ids();
        self.sessions = Vec::new();
        ids
    }
}

} // verus!
