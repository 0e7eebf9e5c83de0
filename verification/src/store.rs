//! The session store: persisted session records and the four operations the
//! middleware performs on them — create, fetch, refresh and sweep.
//!
//! The store is modelled as an in-memory table with unique identifiers, the
//! same contract the relational backend is held to. Every operation takes the
//! current time as an argument; a session lives for a fixed TTL from its
//! creation or last refresh, and a sweep deletes every row whose expiry lies
//! more than a fixed grace window in the past, giving in-flight requests room
//! to complete after their session has expired before the row is purged.

use vstd::prelude::*;

use crate::api_error::ApiErrorType;
use crate::token::{DBId, SessionId};

verus! {

/// Fixed lifetime, in seconds, granted to a session on creation and on every
/// refresh.
pub const SESSION_TTL_SECONDS: i64 = 3600;

/// Grace window, in seconds, that an expired row outlives its expiry before
/// a sweep purges it.
pub const SWEEP_GRACE_SECONDS: i64 = 1200;

/// The mathematical model of a session row.
#[verifier::ext_equal]
pub struct SessionView {
    pub id: Seq<u8>,
    pub account_id: Seq<u8>,
    pub expires_at: int,
}

/// A session row: a unique 128-bit identifier, the account it belongs to,
/// and an absolute expiry time in seconds since the epoch.
#[derive(Debug)]
pub struct Session {
    pub id: SessionId,
    pub account_id: DBId,
    pub expires_at: i64,
}

impl View for Session {
    type V = SessionView;

    open spec fn view(&self) -> SessionView {
        SessionView { id: self.id@, account_id: self.account_id@, expires_at: self.expires_at as int }
    }
}

impl Session {
    /// Both identifiers are 16 bytes.
    pub open spec fn wf(&self) -> bool {
        self.id.wf() && self.account_id.wf()
    }

    /// An owned copy of this row.
    pub fn duplicate(&self) -> (r: Session)
        ensures
            r@ == self@,
            r.wf() == self.wf(),
    {
        Session {
            id: self.id.duplicate(),
            account_id: self.account_id.duplicate(),
            expires_at: self.expires_at,
        }
    }
}

/// Whether some row in `ss` has identifier `id`.
pub open spec fn contains_id(ss: Seq<SessionView>, id: Seq<u8>) -> bool {
    exists|i: int| 0 <= i < ss.len() && ss[i].id == id
}

/// The index of the row with identifier `id` (meaningful when one exists and
/// identifiers are unique).
pub open spec fn index_of_id(ss: Seq<SessionView>, id: Seq<u8>) -> int {
    choose|i: int| 0 <= i < ss.len() && ss[i].id == id
}

/// The row with identifier `id`.
pub open spec fn session_with_id(ss: Seq<SessionView>, id: Seq<u8>) -> SessionView {
    ss[index_of_id(ss, id)]
}

/// No two rows share an identifier.
pub open spec fn unique_ids(ss: Seq<SessionView>) -> bool {
    forall|i: int, j: int| 0 <= i < j < ss.len() ==> (#[trigger] ss[i]).id != (#[trigger] ss[j]).id
}

/// Every row has 16-byte identifiers.
pub open spec fn rows_wf(ss: Seq<SessionView>) -> bool {
    forall|i: int| 0 <= i < ss.len()
        ==> (#[trigger] ss[i]).id.len() == 16 && ss[i].account_id.len() == 16
}

/// In a table with unique identifiers, a row determines its index.
proof fn lemma_id_determines_index(ss: Seq<SessionView>, i: int, j: int)
    requires
        unique_ids(ss),
        0 <= i < ss.len(),
        0 <= j < ss.len(),
        ss[i].id == ss[j].id,
    ensures
        i == j,
{
    if i < j {
        assert(ss[i].id != ss[j].id);
    } else if j < i {
        assert(ss[j].id != ss[i].id);
    }
}

/// Whether a sweep at time `now` keeps a row: a row is purged only once its
/// expiry lies more than the grace window in the past.
pub open spec fn row_survives(s: SessionView, now: int) -> bool {
    s.expires_at + SWEEP_GRACE_SECONDS >= now
}

/// The rows a sweep at time `now` keeps: exactly the surviving rows, in
/// their original order.
pub open spec fn swept_sessions(ss: Seq<SessionView>, now: int) -> Seq<SessionView>
    decreases ss.len(),
{
    if ss.len() == 0 {
        Seq::empty()
    } else {
        let rest = swept_sessions(ss.drop_last(), now);
        if row_survives(ss.last(), now) {
            rest.push(ss.last())
        } else {
            rest
        }
    }
}

/// Appending one row commutes with sweeping: the row is kept exactly when it
/// survives.
proof fn lemma_swept_push(ss: Seq<SessionView>, x: SessionView, now: int)
    ensures
        swept_sessions(ss.push(x), now) == if row_survives(x, now) {
            swept_sessions(ss, now).push(x)
        } else {
            swept_sessions(ss, now)
        },
{
    assert(ss.push(x).drop_last() =~= ss);
    assert(ss.push(x).last() == x);
}

/// The session table.
pub struct SessionStore {
    sessions: Vec<Session>,
}

impl View for SessionStore {
    type V = Seq<SessionView>;

    closed spec fn view(&self) -> Seq<SessionView> {
        Seq::new(self.sessions@.len(), |i: int| self.sessions@[i]@)
    }
}

impl SessionStore {
    /// The store's invariant: identifiers are unique and well-formed.
    pub open spec fn wf(&self) -> bool {
        unique_ids(self@) && rows_wf(self@)
    }

    /// An empty session table.
    pub fn new() -> (r: SessionStore)
        ensures
            r.wf(),
            r@ == Seq::<SessionView>::empty(),
    {
        let r = SessionStore { sessions: Vec::new() };
        proof {
            assert(r@ =~= Seq::<SessionView>::empty());
        }
        r
    }

    /// The number of live rows.
    pub fn len(&self) -> (r: usize)
        ensures
            r == self@.len(),
    {
        self.sessions.len()
    }

    fn find_index(&self, id: &SessionId) -> (r: Option<usize>)
        ensures
            match r {
                Some(i) => i < self@.len() && self@[i as int].id == id@,
                None => !contains_id(self@, id@),
            },
    {
        let n = self.sessions.len();
        let mut i: usize = 0;
        while i < n
            invariant
                i <= n,
                n == self@.len(),
                forall|j: int| 0 <= j < i ==> (#[trigger] self@[j]).id != id@,
            decreases n - i,
        {
            if self.sessions[i].id.same_as(id) {
                return Some(i);
            }
            i = i + 1;
        }
        None
    }

    /// Inserts a new record with the given identifier and a TTL-derived
    /// expiry. An identifier collision is a persistence failure, reported as
    /// `DbError`; nothing is overwritten.
    pub fn create(&mut self, account_id: &DBId, id: SessionId, now: i64) -> (r: Result<
        i64,
        ApiErrorType,
    >)
        requires
            old(self).wf(),
            account_id.wf(),
            id.wf(),
            now <= i64::MAX - SESSION_TTL_SECONDS,
        ensures
            final(self).wf(),
            match r {
                Ok(exp) => {
                    &&& !contains_id(old(self)@, id@)
                    &&& exp == now + SESSION_TTL_SECONDS
                    &&& final(self)@ == old(self)@.push(
                        SessionView { id: id@, account_id: account_id@, expires_at: exp as int },
                    )
                },
                Err(e) => e is DbError && contains_id(old(self)@, id@) && final(self)@ == old(
                    self,
                )@,
            },
    {
        match self.find_index(&id) {
            Some(_) => Err(ApiErrorType::DbError),
            None => {
                let expires_at = now + SESSION_TTL_SECONDS;
                let row = Session { id, account_id: account_id.duplicate(), expires_at };
                let ghost prior = self@;
                self.sessions.push(row);
                proof {
                    assert(self@ =~= prior.push(
                        SessionView {
                            id: id@,
                            account_id: account_id@,
                            expires_at: expires_at as int,
                        },
                    ));
                    assert forall|i: int, j: int| 0 <= i < j < self@.len() implies (
                    #[trigger] self@[i]).id != (#[trigger] self@[j]).id by {
                        if j == self@.len() - 1 {
                            assert(!contains_id(prior, id@));
                            assert(prior[i].id != id@);
                        }
                    }
                }
                Ok(expires_at)
            },
        }
    }

    /// Point lookup by identifier. `None` means no such row; it is the
    /// caller's business to treat that as `Unauthorized`.
    pub fn fetch(&self, id: &SessionId) -> (r: Option<Session>)
        requires
            self.wf(),
        ensures
            match r {
                Some(s) => {
                    &&& contains_id(self@, id@)
                    &&& s@ == session_with_id(self@, id@)
                    &&& s.wf()
                },
                None => !contains_id(self@, id@),
            },
    {
        match self.find_index(id) {
            Some(i) => {
                let row = self.sessions[i].duplicate();
                proof {
                    lemma_id_determines_index(self@, i as int, index_of_id(self@, id@));
                }
                Some(row)
            },
            None => None,
        }
    }

    /// Atomically resets the row's expiry to `now` plus the TTL and returns
    /// the updated row. A vanished row is a hard failure (`DbError`), not a
    /// silent no-op.
    pub fn refresh(&mut self, id: &SessionId, now: i64) -> (r: Result<Session, ApiErrorType>)
        requires
            old(self).wf(),
            id.wf(),
            now <= i64::MAX - SESSION_TTL_SECONDS,
        ensures
            final(self).wf(),
            match r {
                Ok(s) => {
                    &&& contains_id(old(self)@, id@)
                    &&& s.wf()
                    &&& s@.id == id@
                    &&& s@.account_id == session_with_id(old(self)@, id@).account_id
                    &&& s@.expires_at == now + SESSION_TTL_SECONDS
                    &&& final(self)@ == old(self)@.update(index_of_id(old(self)@, id@), s@)
                },
                Err(e) => e is DbError && !contains_id(old(self)@, id@) && final(self)@ == old(
                    self,
                )@,
            },
    {
        let idx = match self.find_index(id) {
            Some(i) => i,
            None => {
                return Err(ApiErrorType::DbError);
            },
        };
        let account_id = self.sessions[idx].account_id.duplicate();
        let updated = Session {
            id: id.duplicate(),
            account_id,
            expires_at: now + SESSION_TTL_SECONDS,
        };
        let result = updated.duplicate();
        let ghost prior = self@;
        self.sessions[idx] = updated;
        proof {
            lemma_id_determines_index(prior, idx as int, index_of_id(prior, id@));
            assert(self@ =~= prior.update(idx as int, result@));
            assert forall|i: int, j: int| 0 <= i < j < self@.len() implies (#[trigger] self@[i]).id
                != (#[trigger] self@[j]).id by {
                assert(prior[i].id != prior[j].id);
            }
        }
        Ok(result)
    }

    /// Deletes every row whose expiry lies more than the grace window before
    /// `now` and keeps every other row untouched, in order.
    pub fn sweep(&mut self, now: i64)
        requires
            old(self).wf(),
            now >= i64::MIN + SWEEP_GRACE_SECONDS,
        ensures
            final(self).wf(),
            final(self)@ == swept_sessions(old(self)@, now as int),
    {
        let threshold = now - SWEEP_GRACE_SECONDS;
        let ghost whole = self@;
        let n = self.sessions.len();
        let mut kept: Vec<Session> = Vec::new();
        proof {
            assert(whole.take(0) =~= Seq::<SessionView>::empty());
        }
        let mut i: usize = 0;
        while i < n
            invariant
                i <= n,
                n == whole.len(),
                self@ == whole,
                self.wf(),
                threshold as int == now as int - SWEEP_GRACE_SECONDS,
                Seq::new(kept@.len(), |k: int| kept@[k]@) == swept_sessions(
                    whole.take(i as int),
                    now as int,
                ),
                forall|k: int| 0 <= k < kept@.len() ==> (#[trigger] kept@[k]).wf(),
                forall|k: int| 0 <= k < kept@.len()
                    ==> exists|x: int| 0 <= x < i && (#[trigger] kept@[k])@ == whole[x],
                forall|a: int, b: int| 0 <= a < b < kept@.len()
                    ==> (#[trigger] kept@[a])@.id != (#[trigger] kept@[b])@.id,
            decreases n - i,
        {
            let ghost kept_view = Seq::new(kept@.len(), |k: int| kept@[k]@);
            proof {
                lemma_swept_push(whole.take(i as int), whole[i as int], now as int);
                assert(whole.take(i as int + 1) =~= whole.take(i as int).push(whole[i as int]));
                assert(whole[i as int] == self.sessions@[i as int]@);
            }
            let row = &self.sessions[i];
            if row.expires_at >= threshold {
                let copy = row.duplicate();
                kept.push(copy);
                proof {
                    assert(row_survives(whole[i as int], now as int));
                    assert(Seq::new(kept@.len(), |k: int| kept@[k]@) =~= kept_view.push(
                        whole[i as int],
                    ));
                    assert forall|a: int, b: int| 0 <= a < b < kept@.len() implies (
                    #[trigger] kept@[a])@.id != (#[trigger] kept@[b])@.id by {
                        if b == kept@.len() - 1 {
                            let x = choose|x: int| 0 <= x < i && kept@[a]@ == whole[x];
                            assert(whole[x].id != whole[i as int].id);
                        }
                    }
                }
            } else {
                proof {
                    assert(!row_survives(whole[i as int], now as int));
                }
            }
            i = i + 1;
        }
        proof {
            assert(whole.take(n as int) =~= whole);
        }
        self.sessions = kept;
        proof {
            assert(self@ =~= swept_sessions(whole, now as int));
        }
    }
}

/// A refresh sets the expiry to exactly `now` plus the TTL: relative to any
/// prior expiry that predates that instant — that is, whenever the clock has
/// advanced since the expiry was last set — the refreshed expiry is a strict
/// increase, and it exceeds `now` by exactly the TTL constant.
pub proof fn lemma_refresh_strictly_extends(
    before: Seq<SessionView>,
    after: Seq<SessionView>,
    id: Seq<u8>,
    now: int,
)
    requires
        unique_ids(before),
        contains_id(before, id),
        session_with_id(before, id).expires_at < now + SESSION_TTL_SECONDS,
        after == before.update(
            index_of_id(before, id),
            SessionView {
                id: id,
                account_id: session_with_id(before, id).account_id,
                expires_at: now + SESSION_TTL_SECONDS,
            },
        ),
    ensures
        contains_id(after, id),
        session_with_id(after, id).expires_at == now + SESSION_TTL_SECONDS,
        session_with_id(after, id).expires_at > session_with_id(before, id).expires_at,
        session_with_id(after, id).expires_at - now == SESSION_TTL_SECONDS,
{
    let idx = index_of_id(before, id);
    assert(0 <= idx < before.len() && before[idx].id == id);
    assert(after[idx].id == id);
    assert(contains_id(after, id));
    assert(unique_ids(after)) by {
        assert forall|i: int, j: int| 0 <= i < j < after.len() implies (#[trigger] after[i]).id != (
        #[trigger] after[j]).id by {
            assert(before[i].id != before[j].id);
        }
    }
    lemma_id_determines_index(after, index_of_id(after, id), idx);
}

/// A sweep at time `now` removes every row whose expiry lies more than the
/// grace window in the past and keeps every newer row, whatever mix of
/// expired and live rows the table holds.
pub proof fn lemma_sweep_exact(ss: Seq<SessionView>, now: int)
    ensures
        forall|i: int|
            0 <= i < ss.len() && row_survives(#[trigger] ss[i], now) ==> swept_sessions(
                ss,
                now,
            ).contains(ss[i]),
        forall|k: int|
            0 <= k < swept_sessions(ss, now).len() ==> row_survives(
                #[trigger] swept_sessions(ss, now)[k],
                now,
            ) && ss.contains(swept_sessions(ss, now)[k]),
    decreases ss.len(),
{
    if ss.len() > 0 {
        let prefix = ss.drop_last();
        lemma_sweep_exact(prefix, now);
        let swept = swept_sessions(ss, now);
        let swept_prefix = swept_sessions(prefix, now);
        assert forall|i: int|
            0 <= i < ss.len() && row_survives(#[trigger] ss[i], now) implies swept.contains(
            ss[i],
        ) by {
            if i < ss.len() - 1 {
                assert(prefix[i] == ss[i]);
                assert(swept_prefix.contains(ss[i]));
                let w = choose|w: int| 0 <= w < swept_prefix.len() && swept_prefix[w] == ss[i];
                assert(swept[w] == ss[i]);
            } else {
                assert(swept[swept.len() - 1] == ss[i]);
            }
        }
        assert forall|k: int| 0 <= k < swept.len() implies row_survives(#[trigger] swept[k], now)
            && ss.contains(swept[k]) by {
            if k < swept_prefix.len() {
                assert(swept[k] == swept_prefix[k]);
                let w = choose|w: int| 0 <= w < prefix.len() && prefix[w] == swept_prefix[k];
                assert(ss[w] == swept[k]);
            } else {
                assert(swept[k] == ss[ss.len() - 1]);
            }
        }
    }
}

} // verus!
