use vstd::prelude::*;

verus! {

/// A request sent to the CSMS whose response has not come yet.
#[derive(Debug)]
pub struct PendingRequest {
    pub message_id: String,
    /// When the request was sent, in the caller's time units.
    pub sent_at: u64,
    /// How long after `sent_at` the request expires.
    pub timeout: u64,
}

/// How a pending request ended.
#[derive(Debug)]
pub enum Outcome {
    /// A `CallResult` arrived; its payload as JSON text.
    Response(String),
    /// A `CallError` arrived.
    Failed { code: String, description: String, details: String },
    /// No response came within the timeout.
    Timeout,
    /// The transport closed while the request was outstanding.
    ConnectionLost,
}

/// The single resolution of one pending request.
#[derive(Debug)]
pub struct Resolution {
    pub message_id: String,
    pub outcome: Outcome,
}

#[derive(Debug, PartialEq, Eq, Structural)]
pub enum CorrelationError {
    /// The message ID is already pending.
    DuplicateId,
    /// No pending request has the message ID.
    Unknown,
}

/// In-flight requests keyed by message ID, in registration order.
#[derive(Debug)]
pub struct CorrelationTable {
    entries: Vec<PendingRequest>,
}

pub open spec fn has_id(s: Seq<PendingRequest>, id: Seq<char>) -> bool {
    exists|i: int| 0 <= i < s.len() && #[trigger] s[i].message_id@ == id
}

/// No two pending requests share a message ID.
pub open spec fn unique_ids(s: Seq<PendingRequest>) -> bool {
    forall|i: int, j: int|
        0 <= i < s.len() && 0 <= j < s.len() && i != j ==> #[trigger] s[i].message_id@
            != #[trigger] s[j].message_id@
}

pub open spec fn is_expired(p: PendingRequest, now: int) -> bool {
    p.sent_at + p.timeout <= now
}

/// The requests of `s` that have not expired at `now`, in order.
pub open spec fn unexpired(s: Seq<PendingRequest>, now: int) -> Seq<PendingRequest>
    decreases s.len(),
{
    if s.len() == 0 {
        Seq::empty()
    } else if is_expired(s.last(), now) {
        unexpired(s.drop_last(), now)
    } else {
        unexpired(s.drop_last(), now).push(s.last())
    }
}

/// The message IDs of the requests of `s` that have expired at `now`, in order.
pub open spec fn expired_ids(s: Seq<PendingRequest>, now: int) -> Seq<Seq<char>>
    decreases s.len(),
{
    if s.len() == 0 {
        Seq::empty()
    } else if is_expired(s.last(), now) {
        expired_ids(s.drop_last(), now).push(s.last().message_id@)
    } else {
        expired_ids(s.drop_last(), now)
    }
}

pub open spec fn pending_ids(s: Seq<PendingRequest>) -> Seq<Seq<char>> {
    s.map_values(|p: PendingRequest| p.message_id@)
}

pub open spec fn resolution_ids(r: Seq<Resolution>) -> Seq<Seq<char>> {
    r.map_values(|x: Resolution| x.message_id@)
}

pub open spec fn all_outcomes_are(r: Seq<Resolution>, o: Outcome) -> bool {
    forall|i: int| 0 <= i < r.len() ==> #[trigger] r[i].outcome == o
}

impl View for CorrelationTable {
    type V = Seq<PendingRequest>;

    closed spec fn view(&self) -> Seq<PendingRequest> {
        self.entries@
    }
}

impl CorrelationTable {
    pub open spec fn wf(&self) -> bool {
        unique_ids(self@)
    }

    pub fn new() -> (r: Self)
        ensures
            r@ == Seq::<PendingRequest>::empty(),
            r.wf(),
    {
        CorrelationTable { entries: Vec::new() }
    }

    pub fn len(&self) -> (r: usize)
        ensures
            r == self@.len(),
    {
        self.entries.len()
    }

    /// The position of the request with this message ID.
    fn find(&self, message_id: &String) -> (r: Option<usize>)
        ensures
            match r {
                Some(i) => i < self@.len() && self@[i as int].message_id@ == message_id@,
                None => !has_id(self@, message_id@),
            },
    {
        let mut i: usize = 0;
        while i < self.entries.len()
            invariant
                i <= self@.len(),
                self@ == self.entries@,
                forall|j: int| 0 <= j < i ==> self@[j].message_id@ != message_id@,
            decreases self@.len() - i,
        {
            if self.entries[i].message_id == *message_id {
                return Some(i);
            }
            i = i + 1;
        }
        None
    }

    /// Whether no two pending requests share a message ID.
    pub fn has_unique_ids(&self) -> (r: bool)
        ensures
            r == self.wf(),
    {
        let n = self.entries.len();
        let mut i: usize = 0;
        while i < n
            invariant
                n == self@.len(),
                self@ == self.entries@,
                i <= n,
                forall|a: int, b: int|
                    0 <= a < i && 0 <= b < n && a != b ==> #[trigger] self@[a].message_id@
                        != #[trigger] self@[b].message_id@,
            decreases n - i,
        {
            let mut j: usize = 0;
            while j < n
                invariant
                    n == self@.len(),
                    self@ == self.entries@,
                    i < n,
                    j <= n,
                    forall|a: int, b: int|
                        0 <= a < i && 0 <= b < n && a != b ==> #[trigger] self@[a].message_id@
                            != #[trigger] self@[b].message_id@,
                    forall|b: int|
                        0 <= b < j && b != i ==> self@[i as int].message_id@
                            != #[trigger] self@[b].message_id@,
                decreases n - j,
            {
                if j != i && self.entries[i].message_id == self.entries[j].message_id {
                    return false;
                }
                j = j + 1;
            }
            i = i + 1;
        }
        true
    }

    /// Whether a request with this message ID is pending.
    pub fn contains(&self, message_id: &String) -> (r: bool)
        ensures
            r == has_id(self@, message_id@),
    {
        self.find(message_id).is_some()
    }

    /// Starts tracking a request sent at `now` that expires `timeout` later.
    pub fn register(&mut self, message_id: String, now: u64, timeout: u64) -> (r: Result<
        (),
        CorrelationError,
    >)
        requires
            old(self).wf(),
        ensures
            final(self).wf(),
            has_id(old(self)@, message_id@) ==> r == Err::<(), _>(CorrelationError::DuplicateId)
                && final(self)@ == old(self)@,
            !has_id(old(self)@, message_id@) ==> r is Ok && final(self)@ == old(self)@.push(
                PendingRequest { message_id, sent_at: now, timeout },
            ),
    {
        if self.find(&message_id).is_some() {
            return Err(CorrelationError::DuplicateId);
        }
        let ghost before = self@;
        self.entries.push(PendingRequest { message_id, sent_at: now, timeout });
        proof {
            assert forall|i: int, j: int|
                0 <= i < self@.len() && 0 <= j < self@.len() && i != j implies #[trigger] self@[i].message_id@
                    != #[trigger] self@[j].message_id@ by {
                if i < before.len() && j < before.len() {
                    assert(before[i] == self@[i] && before[j] == self@[j]);
                } else if i < before.len() {
                    assert(before[i] == self@[i]);
                } else if j < before.len() {
                    assert(before[j] == self@[j]);
                }
            }
        }
        Ok(())
    }

    /// Completes and removes the request with this message ID.
    pub fn resolve(&mut self, message_id: &String, outcome: Outcome) -> (r: Result<
        Resolution,
        CorrelationError,
    >)
        requires
            old(self).wf(),
        ensures
            final(self).wf(),
            !has_id(old(self)@, message_id@) ==> r == Err::<Resolution, _>(
                CorrelationError::Unknown,
            ) && final(self)@ == old(self)@,
            has_id(old(self)@, message_id@) ==> exists|i: int|
                0 <= i < old(self)@.len() && old(self)@[i].message_id@ == message_id@
                    && final(self)@ == old(self)@.remove(i) && r == Ok::<_, CorrelationError>(
                    Resolution { message_id: old(self)@[i].message_id, outcome },
                ),
    {
        match self.find(message_id) {
            None => Err(CorrelationError::Unknown),
            Some(i) => {
                let ghost before = self@;
                let entry = self.entries.remove(i);
                proof {
                    lemma_remove_keeps_unique(before, i as int);
                }
                Ok(Resolution { message_id: entry.message_id, outcome })
            },
        }
    }

    /// Resolves with a timeout every request whose `sent_at + timeout` has been
    /// reached at `now`, and removes them; the others stay, in order.
    pub fn expire(&mut self, now: u64) -> (r: Vec<Resolution>)
        requires
            old(self).wf(),
        ensures
            final(self).wf(),
            final(self)@ == unexpired(old(self)@, now as int),
            resolution_ids(r@) == expired_ids(old(self)@, now as int),
            all_outcomes_are(r@, Outcome::Timeout),
    {
        let ghost all = self@;
        let mut rest: Vec<PendingRequest> = Vec::new();
        core::mem::swap(&mut rest, &mut self.entries);
        let mut out: Vec<Resolution> = Vec::new();
        let ghost mut k: int = 0;
        while rest.len() > 0
            invariant
                0 <= k <= all.len(),
                rest@ == all.subrange(k, all.len() as int),
                self@ == unexpired(all.subrange(0, k), now as int),
                resolution_ids(out@) == expired_ids(all.subrange(0, k), now as int),
                all_outcomes_are(out@, Outcome::Timeout),
            decreases rest@.len(),
        {
            let e = rest.remove(0);
            proof {
                assert(e == all[k]);
                assert(all.subrange(0, k + 1).drop_last() =~= all.subrange(0, k));
                assert(all.subrange(0, k + 1).last() == e);
            }
            let ghost out0 = out@;
            if e.sent_at as u128 + e.timeout as u128 <= now as u128 {
                out.push(Resolution { message_id: e.message_id, outcome: Outcome::Timeout });
                proof {
                    assert(resolution_ids(out@) =~= resolution_ids(out@.drop_last()).push(
                        out@.last().message_id@,
                    ));
                    assert(out@.drop_last() =~= out0);
                }
            } else {
                self.entries.push(e);
            }
            proof {
                k = k + 1;
            }
        }
        proof {
            assert(all.subrange(0, k) =~= all);
            lemma_unexpired_keeps_unique(all, now as int);
        }
        out
    }

    /// Resolves every pending request as lost with the connection and empties
    /// the table.
    pub fn disconnect(&mut self) -> (r: Vec<Resolution>)
        ensures
            final(self)@ == Seq::<PendingRequest>::empty(),
            final(self).wf(),
            resolution_ids(r@) == pending_ids(old(self)@),
            all_outcomes_are(r@, Outcome::ConnectionLost),
    {
        let ghost all = self@;
        let mut rest: Vec<PendingRequest> = Vec::new();
        core::mem::swap(&mut rest, &mut self.entries);
        let mut out: Vec<Resolution> = Vec::new();
        while rest.len() > 0
            invariant
                self@ == Seq::<PendingRequest>::empty(),
                out@.len() <= all.len(),
                rest@ == all.subrange(out@.len() as int, all.len() as int),
                resolution_ids(out@) == pending_ids(all.subrange(0, out@.len() as int)),
                all_outcomes_are(out@, Outcome::ConnectionLost),
            decreases rest@.len(),
        {
            let e = rest.remove(0);
            let ghost n = out@.len() as int;
            proof {
                assert(e == all[n]);
            }
            let ghost out0 = out@;
            out.push(Resolution { message_id: e.message_id, outcome: Outcome::ConnectionLost });
            proof {
                assert(resolution_ids(out@) =~= resolution_ids(out0).push(all[n].message_id@));
                assert(pending_ids(all.subrange(0, n + 1)) =~= pending_ids(all.subrange(0, n)).push(
                    all[n].message_id@,
                ));
                assert(resolution_ids(out@) =~= pending_ids(all.subrange(0, n + 1)));
            }
        }
        proof {
            assert(all.subrange(0, all.len() as int) =~= all);
        }
        out
    }
}

proof fn lemma_remove_keeps_unique(s: Seq<PendingRequest>, i: int)
    requires
        unique_ids(s),
        0 <= i < s.len(),
    ensures
        unique_ids(s.remove(i)),
{
    let t = s.remove(i);
    assert forall|a: int, b: int|
        0 <= a < t.len() && 0 <= b < t.len() && a != b implies #[trigger] t[a].message_id@
            != #[trigger] t[b].message_id@ by {
        let sa = if a < i { a } else { a + 1 };
        let sb = if b < i { b } else { b + 1 };
        assert(t[a] == s[sa] && t[b] == s[sb]);
    }
}

/// Every request that survives expiry was pending before.
proof fn lemma_unexpired_from(s: Seq<PendingRequest>, now: int)
    ensures
        forall|a: int|
            0 <= a < unexpired(s, now).len() ==> exists|b: int|
                0 <= b < s.len() && #[trigger] unexpired(s, now)[a] == s[b],
        forall|a: int|
            0 <= a < unexpired(s, now).len() ==> !is_expired(#[trigger] unexpired(s, now)[a], now),
    decreases s.len(),
{
    if s.len() > 0 {
        lemma_unexpired_from(s.drop_last(), now);
        let u = unexpired(s, now);
        let p = unexpired(s.drop_last(), now);
        assert forall|a: int| 0 <= a < u.len() implies exists|b: int|
            0 <= b < s.len() && #[trigger] u[a] == s[b] by {
            if a < p.len() {
                assert(u[a] == p[a]);
                let b = choose|b: int| 0 <= b < s.drop_last().len() && p[a] == s.drop_last()[b];
                assert(u[a] == s[b]);
            } else {
                assert(u[a] == s[s.len() - 1]);
            }
        }
        assert forall|a: int| 0 <= a < u.len() implies !is_expired(#[trigger] u[a], now) by {
            if a < p.len() {
                assert(u[a] == p[a]);
            }
        }
    }
}

spec fn expired_in(s: Seq<PendingRequest>, now: int, id: Seq<char>) -> bool {
    exists|b: int| 0 <= b < s.len() && is_expired(s[b], now) && s[b].message_id@ == id
}

/// Every expired ID names a pending request that has expired.
proof fn lemma_expired_ids_from(s: Seq<PendingRequest>, now: int)
    ensures
        forall|k: int|
            0 <= k < expired_ids(s, now).len() ==> expired_in(s, now, #[trigger] expired_ids(s, now)[k]),
    decreases s.len(),
{
    if s.len() > 0 {
        let d = s.drop_last();
        lemma_expired_ids_from(d, now);
        let e = expired_ids(s, now);
        let p = expired_ids(d, now);
        assert forall|k: int| 0 <= k < e.len() implies expired_in(s, now, #[trigger] e[k]) by {
            if k < p.len() {
                assert(e[k] == p[k]);
                assert(expired_in(d, now, p[k]));
                let b = choose|b: int|
                    0 <= b < d.len() && is_expired(d[b], now) && d[b].message_id@ == p[k];
                assert(s[b] == d[b]);
                assert(0 <= b < s.len() && is_expired(s[b], now) && e[k] == s[b].message_id@);
            } else {
                assert(is_expired(s.last(), now));
                assert(e[k] == s.last().message_id@);
                assert(s.last() == s[s.len() - 1]);
            }
        }
    } else {
        assert(expired_ids(s, now).len() == 0);
    }
}

/// A pending request is resolved at most once. Resolving request `i` removes
/// it, so its message ID is no longer pending; expiry removes every request it
/// resolves as timed out; disconnection empties the table. A later response,
/// expiry or disconnection therefore finds nothing left to resolve under that
/// ID.
pub proof fn lemma_single_resolution(s: Seq<PendingRequest>, i: int, now: int)
    requires
        unique_ids(s),
        0 <= i < s.len(),
    ensures
        !has_id(s.remove(i), s[i].message_id@),
        forall|k: int|
            0 <= k < expired_ids(s, now).len() ==> !has_id(
                unexpired(s, now),
                #[trigger] expired_ids(s, now)[k],
            ),
{
    let t = s.remove(i);
    assert forall|a: int| 0 <= a < t.len() implies #[trigger] t[a].message_id@ != s[i].message_id@ by {
        let sa = if a < i { a } else { a + 1 };
        assert(t[a] == s[sa]);
    }
    lemma_unexpired_from(s, now);
    lemma_expired_ids_from(s, now);
    let u = unexpired(s, now);
    let e = expired_ids(s, now);
    assert forall|k: int| 0 <= k < e.len() implies !has_id(u, #[trigger] e[k]) by {
        assert(expired_in(s, now, e[k]));
        let b = choose|b: int| 0 <= b < s.len() && is_expired(s[b], now) && s[b].message_id@ == e[k];
        assert forall|a: int| 0 <= a < u.len() implies #[trigger] u[a].message_id@ != e[k] by {
            let c = choose|c: int| 0 <= c < s.len() && u[a] == s[c];
            assert(!is_expired(u[a], now));
            assert(b != c);
        }
    }
}

proof fn lemma_unexpired_keeps_unique(s: Seq<PendingRequest>, now: int)
    requires
        unique_ids(s),
    ensures
        unique_ids(unexpired(s, now)),
    decreases s.len(),
{
    if s.len() > 0 {
        let d = s.drop_last();
        assert(unique_ids(d)) by {
            assert forall|i: int, j: int|
                0 <= i < d.len() && 0 <= j < d.len() && i != j implies #[trigger] d[i].message_id@
                    != #[trigger] d[j].message_id@ by {
                assert(d[i] == s[i] && d[j] == s[j]);
            }
        }
        lemma_unexpired_keeps_unique(d, now);
        lemma_unexpired_from(d, now);
        let p = unexpired(d, now);
        let u = unexpired(s, now);
        if !is_expired(s.last(), now) {
            assert forall|i: int, j: int|
                0 <= i < u.len() && 0 <= j < u.len() && i != j implies #[trigger] u[i].message_id@
                    != #[trigger] u[j].message_id@ by {
                if i < p.len() && j < p.len() {
                    assert(u[i] == p[i] && u[j] == p[j]);
                } else if i < p.len() {
                    let b = choose|b: int| 0 <= b < d.len() && #[trigger] p[i] == d[b];
                    assert(u[i] == s[b]);
                    assert(u[j] == s[s.len() - 1]);
                } else {
                    let b = choose|b: int| 0 <= b < d.len() && #[trigger] p[j] == d[b];
                    assert(u[j] == s[b]);
                    assert(u[i] == s[s.len() - 1]);
                }
            }
        }
    }
}

proof fn lemma_expired_ids_cover(s: Seq<PendingRequest>, i: int, now: int)
    requires
        0 <= i < s.len(),
        is_expired(s[i], now),
    ensures
        expired_ids(s, now).contains(s[i].message_id@),
    decreases s.len(),
{
    let e = expired_ids(s, now);
    if i == s.len() - 1 {
        assert(e[e.len() - 1] == s[i].message_id@);
    } else {
        let d = s.drop_last();
        assert(d[i] == s[i]);
        lemma_expired_ids_cover(d, i, now);
        let p = expired_ids(d, now);
        let k = choose|k: int| 0 <= k < p.len() && p[k] == s[i].message_id@;
        assert(e[k] == p[k]);
    }
}

/// A request whose deadline `sent_at + timeout` is reached at `now` is
/// resolved by expiry as timed out and is pending no longer.
pub proof fn lemma_expires_at_deadline(s: Seq<PendingRequest>, i: int, now: int)
    requires
        unique_ids(s),
        0 <= i < s.len(),
        s[i].sent_at + s[i].timeout <= now,
    ensures
        expired_ids(s, now).contains(s[i].message_id@),
        !has_id(unexpired(s, now), s[i].message_id@),
{
    lemma_expired_ids_cover(s, i, now);
    let e = expired_ids(s, now);
    let k = choose|k: int| 0 <= k < e.len() && e[k] == s[i].message_id@;
    lemma_single_resolution(s, i, now);
    assert(!has_id(unexpired(s, now), e[k]));
}

} // verus!
