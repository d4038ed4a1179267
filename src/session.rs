use vstd::prelude::*;
use vstd::utf8::encode_utf8;

use crate::auth::AuthUser;

verus! {

/// A session opened by a sign-in: the account it belongs to, the account's
/// password hash at sign-in time, and when it lapses unless used again.
pub struct Session {
    pub token: u64,
    pub account_id: i32,
    pub auth_hash: Vec<u8>,
    pub expires_at: i64,
}

/// Who a request is made by.
#[derive(Clone, Copy, Debug, PartialEq, Eq, Structural)]
pub enum Principal {
    Authenticated(i32),
    Anonymous,
}

/// The session under `token`: the last one issued with it.
pub open spec fn session_for(s: Seq<Session>, token: u64) -> Option<Session>
    decreases s.len(),
{
    if s.len() == 0 {
        None
    } else if s.last().token == token {
        Some(s.last())
    } else {
        session_for(s.drop_last(), token)
    }
}

/// A session is valid while it has not lapsed and its account still exists
/// with the password hash it was opened with.
pub open spec fn session_valid(x: Session, account: Option<AuthUser>, now: int) -> bool {
    &&& x.expires_at > now
    &&& account matches Some(a)
    &&& a.id == x.account_id
    &&& encode_utf8(a.password@) == x.auth_hash@
}

/// Whom `token` stands for at time `now`, given the account stored under
/// the session's account id. Every failure is the same `Anonymous`.
pub open spec fn resolution(s: Seq<Session>, token: u64, account: Option<AuthUser>, now: int) -> Principal {
    match session_for(s, token) {
        Some(x) => if session_valid(x, account, now) {
            Principal::Authenticated(x.account_id)
        } else {
            Principal::Anonymous
        },
        None => Principal::Anonymous,
    }
}

/// Which sessions a pass over the store drops.
pub enum Cut {
    /// Those under a token: a sign-out.
    Token(u64),
    /// Those lapsed by a time: the sweep of expired sessions.
    LapsedBy(i64),
}

pub open spec fn dropped(x: Session, cut: Cut) -> bool {
    match cut {
        Cut::Token(t) => x.token == t,
        Cut::LapsedBy(now) => x.expires_at <= now,
    }
}

/// The sessions of `s` that `cut` keeps, in their order.
pub open spec fn retained(s: Seq<Session>, cut: Cut) -> Seq<Session>
    decreases s.len(),
{
    if s.len() == 0 {
        s
    } else if dropped(s.last(), cut) {
        retained(s.drop_last(), cut)
    } else {
        retained(s.drop_last(), cut).push(s.last())
    }
}

/// The sessions of `s` but those under `token`.
pub open spec fn without(s: Seq<Session>, token: u64) -> Seq<Session> {
    retained(s, Cut::Token(token))
}

/// The sessions of `s` that have not lapsed at time `now`.
pub open spec fn unexpired(s: Seq<Session>, now: i64) -> Seq<Session> {
    retained(s, Cut::LapsedBy(now))
}

/// `now + window`, held at the largest time where it would overflow.
pub open spec fn slid_expiry(now: i64, window: i64) -> i64 {
    if now + window > i64::MAX {
        i64::MAX
    } else if now + window < i64::MIN {
        i64::MIN
    } else {
        (now + window) as i64
    }
}

fn slide(now: i64, window: i64) -> (r: i64)
    ensures
        r == slid_expiry(now, window),
{
    if window > 0 && now > i64::MAX - window {
        i64::MAX
    } else if window < 0 && now < i64::MIN - window {
        i64::MIN
    } else {
        now + window
    }
}

/// The open sessions, with the inactivity window that each use extends
/// a session by.
pub struct SessionManager {
    sessions: Vec<Session>,
    inactivity_window: i64,
}

impl View for SessionManager {
    type V = Seq<Session>;

    closed spec fn view(&self) -> Seq<Session> {
        self.sessions@
    }
}

fn same_bytes(a: &[u8], b: &[u8]) -> (r: bool)
    ensures
        r == (a@ == b@),
{
    if a.len() != b.len() {
        return false;
    }
    // Every byte is looked at, whatever the first difference.
    let mut diff: u8 = 0;
    let mut i: usize = 0;
    assert(a@.subrange(0, 0) =~= b@.subrange(0, 0));
    while i < a.len()
        invariant
            a@.len() == b@.len(),
            i <= a@.len(),
            (diff == 0) == (a@.subrange(0, i as int) == b@.subrange(0, i as int)),
        decreases a@.len() - i,
    {
        let x = a[i];
        let y = b[i];
        let next = diff | (x ^ y);
        assert((next == 0) == (diff == 0 && x == y)) by (bit_vector)
            requires
                next == diff | (x ^ y),
        ;
        assert(a@.subrange(0, i + 1) == a@.subrange(0, i as int).push(x));
        assert(b@.subrange(0, i + 1) == b@.subrange(0, i as int).push(y));
        proof {
            if a@.subrange(0, i as int).push(x) == b@.subrange(0, i as int).push(y) {
                assert(a@.subrange(0, i as int).push(x)[i as int] == x);
                assert(a@.subrange(0, i as int) =~= a@.subrange(0, i as int).push(x).drop_last());
                assert(b@.subrange(0, i as int) =~= b@.subrange(0, i as int).push(y).drop_last());
            }
        }
        diff = next;
        i = i + 1;
    }
    assert(a@.subrange(0, a@.len() as int) =~= a@);
    assert(b@.subrange(0, b@.len() as int) =~= b@);
    diff == 0
}

/// `i` is the last position of a session under `token` in `s`.
pub open spec fn last_index_of(s: Seq<Session>, token: u64, i: int) -> bool {
    &&& 0 <= i < s.len()
    &&& s[i].token == token
    &&& forall|j: int| i < j < s.len() ==> #[trigger] s[j].token != token
}

proof fn lemma_session_for_last_index(s: Seq<Session>, token: u64, i: int)
    requires
        last_index_of(s, token, i),
    ensures
        session_for(s, token) == Some(s[i]),
    decreases s.len(),
{
    if i < s.len() - 1 {
        assert(s.last().token != token);
        lemma_session_for_last_index(s.drop_last(), token, i);
    }
}

proof fn lemma_session_for_absent(s: Seq<Session>, token: u64)
    requires
        forall|j: int| 0 <= j < s.len() ==> #[trigger] s[j].token != token,
    ensures
        session_for(s, token) is None,
    decreases s.len(),
{
    if s.len() > 0 {
        assert(s.last().token != token);
        lemma_session_for_absent(s.drop_last(), token);
    }
}

proof fn lemma_session_for_update(s: Seq<Session>, token: u64, i: int, x: Session, other: u64)
    requires
        last_index_of(s, token, i),
        x.token == token,
    ensures
        session_for(s.update(i, x), token) == Some(x),
        other != token ==> session_for(s.update(i, x), other) == session_for(s, other),
    decreases s.len(),
{
    let u = s.update(i, x);
    if i == s.len() - 1 {
        assert(u.drop_last() =~= s.drop_last());
    } else {
        assert(u.drop_last() =~= s.drop_last().update(i, x));
        assert(u.last() == s.last());
        lemma_session_for_update(s.drop_last(), token, i, x, other);
    }
}

/// A revoked token has no session left.
proof fn lemma_without_drops_token(s: Seq<Session>, token: u64)
    ensures
        session_for(without(s, token), token) is None,
        forall|j: int|
            0 <= j < without(s, token).len() ==> #[trigger] without(s, token)[j].token != token,
    decreases s.len(),
{
    if s.len() > 0 {
        lemma_without_drops_token(s.drop_last(), token);
        let w = without(s.drop_last(), token);
        if s.last().token != token {
            assert forall|j: int| 0 <= j < w.push(s.last()).len() implies #[trigger] w.push(
                s.last(),
            )[j].token != token by {
                if j < w.len() {
                    assert(w.push(s.last())[j] == w[j]);
                }
            }
            assert(w.push(s.last()).drop_last() =~= w);
        }
        lemma_session_for_absent(without(s, token), token);
    }
}

/// Revoking a token leaves the sessions under every other token as they were.
pub proof fn lemma_revoke_keeps_other_tokens(s: Seq<Session>, token: u64, other: u64)
    requires
        other != token,
    ensures
        session_for(without(s, token), other) == session_for(s, other),
    decreases s.len(),
{
    if s.len() > 0 {
        lemma_revoke_keeps_other_tokens(s.drop_last(), token, other);
        if s.last().token != token {
            assert(without(s.drop_last(), token).push(s.last()).drop_last() =~= without(
                s.drop_last(),
                token,
            ));
        }
    }
}

proof fn lemma_without_twice(s: Seq<Session>, token: u64)
    ensures
        without(without(s, token), token) == without(s, token),
    decreases s.len(),
{
    if s.len() > 0 {
        lemma_without_twice(s.drop_last(), token);
        let w = without(s.drop_last(), token);
        if s.last().token != token {
            assert(w.push(s.last()).drop_last() =~= w);
        }
    }
}

/// After a sweep at time `now`, every session left lapses later than `now`.
proof fn lemma_unexpired_later(s: Seq<Session>, now: i64)
    ensures
        forall|j: int|
            0 <= j < unexpired(s, now).len() ==> #[trigger] unexpired(s, now)[j].expires_at > now,
    decreases s.len(),
{
    if s.len() > 0 {
        lemma_unexpired_later(s.drop_last(), now);
        let w = unexpired(s.drop_last(), now);
        if s.last().expires_at > now {
            assert forall|j: int| 0 <= j < w.push(s.last()).len() implies #[trigger] w.push(
                s.last(),
            )[j].expires_at > now by {
                if j < w.len() {
                    assert(w.push(s.last())[j] == w[j]);
                }
            }
        }
    }
}

proof fn lemma_session_for_in(s: Seq<Session>, token: u64)
    ensures
        session_for(s, token) matches Some(x) ==> x.token == token && exists|j: int|
            0 <= j < s.len() && #[trigger] s[j] == x,
    decreases s.len(),
{
    if s.len() > 0 && s.last().token != token {
        lemma_session_for_in(s.drop_last(), token);
        if let Some(x) = session_for(s, token) {
            let j = choose|j: int| 0 <= j < s.drop_last().len() && #[trigger] s.drop_last()[j] == x;
            assert(s[j] == x);
        }
    } else if s.len() > 0 {
        assert(s[s.len() - 1] == s.last());
    }
}

/// Signing out: once its token is revoked, a session no longer stands for
/// anyone, whatever account and time it is checked against.
pub proof fn lemma_revoked_token_is_anonymous(
    s: Seq<Session>,
    token: u64,
    account: Option<AuthUser>,
    now: int,
)
    ensures
        resolution(without(s, token), token, account, now) == Principal::Anonymous,
{
    lemma_without_drops_token(s, token);
}

/// Revoking a token a second time changes nothing and cannot fail.
pub proof fn lemma_revoke_idempotent(s: Seq<Session>, token: u64)
    ensures
        without(without(s, token), token) == without(s, token),
{
    lemma_without_twice(s, token);
}

/// After the sweep at time `now`, a token whose sessions had all lapsed by
/// then stands for nobody, without having been revoked.
pub proof fn lemma_swept_token_is_anonymous(
    s: Seq<Session>,
    token: u64,
    account: Option<AuthUser>,
    now: i64,
    later: int,
)
    requires
        forall|j: int| 0 <= j < s.len() && #[trigger] s[j].token == token ==> s[j].expires_at <= now,
    ensures
        resolution(unexpired(s, now), token, account, later) == Principal::Anonymous,
{
    lemma_unexpired_later(s, now);
    lemma_unexpired_subset(s, now);
    lemma_session_for_in(unexpired(s, now), token);
    if let Some(x) = session_for(unexpired(s, now), token) {
        let j = choose|j: int|
            0 <= j < unexpired(s, now).len() && #[trigger] unexpired(s, now)[j] == x;
        assert(unexpired(s, now)[j].expires_at > now);
        let k = choose|k: int| 0 <= k < s.len() && #[trigger] s[k] == unexpired(s, now)[j];
        assert(s[k].token == token);
    }
}

proof fn lemma_unexpired_subset(s: Seq<Session>, now: i64)
    ensures
        forall|j: int|
            0 <= j < unexpired(s, now).len() ==> exists|k: int|
                0 <= k < s.len() && #[trigger] s[k] == #[trigger] unexpired(s, now)[j],
    decreases s.len(),
{
    if s.len() > 0 {
        lemma_unexpired_subset(s.drop_last(), now);
        let w = unexpired(s.drop_last(), now);
        let u = unexpired(s, now);
        assert forall|j: int| 0 <= j < u.len() implies exists|k: int|
            0 <= k < s.len() && #[trigger] s[k] == #[trigger] u[j] by {
            if s.last().expires_at > now && j == w.len() {
                assert(s[s.len() - 1] == u[j]);
            } else {
                assert(u[j] == w[j]);
                let k = choose|k: int|
                    0 <= k < s.drop_last().len() && #[trigger] s.drop_last()[k] == #[trigger] w[j];
                assert(s[k] == u[j]);
            }
        }
    }
}

impl SessionManager {
    pub closed spec fn window(&self) -> i64 {
        self.inactivity_window
    }

    pub fn new(inactivity_window: i64) -> (r: SessionManager)
        ensures
            r@ == Seq::<Session>::empty(),
            r.window() == inactivity_window,
    {
        SessionManager { sessions: Vec::new(), inactivity_window }
    }

    /// The account the session under `token` belongs to, if any, so that the
    /// caller can load that account before resolving the token.
    pub fn account_id_of(&self, token: u64) -> (r: Option<i32>)
        ensures
            r == (match session_for(self@, token) {
                Some(x) => Some(x.account_id),
                None => None,
            }),
    {
        match self.find(token) {
            Some(i) => Some(self.sessions[i].account_id),
            None => None,
        }
    }

    fn find(&self, token: u64) -> (r: Option<usize>)
        ensures
            match r {
                Some(i) => last_index_of(self@, token, i as int) && session_for(self@, token)
                    == Some(self@[i as int]),
                None => session_for(self@, token) is None,
            },
    {
        let mut i: usize = self.sessions.len();
        while i > 0
            invariant
                i <= self.sessions@.len(),
                forall|j: int| i <= j < self.sessions@.len() ==> #[trigger] self.sessions@[j].token
                    != token,
            decreases i,
        {
            if self.sessions[i - 1].token == token {
                proof {
                    lemma_session_for_last_index(self@, token, i - 1);
                }
                return Some(i - 1);
            }
            i = i - 1;
        }
        proof {
            lemma_session_for_absent(self@, token);
        }
        None
    }

    /// Opens a session under `token`, a fresh random value that the caller
    /// draws, bound to `account` and its current password hash.
    pub fn issue(&mut self, token: u64, account: &AuthUser, now: i64)
        ensures
            final(self).window() == old(self).window(),
            final(self)@.len() == old(self)@.len() + 1,
            final(self)@.drop_last() == old(self)@,
            final(self)@.last().token == token,
            final(self)@.last().account_id == account.id,
            final(self)@.last().auth_hash@ == encode_utf8(account.password@),
            final(self)@.last().expires_at == slid_expiry(now, old(self).window()),
    {
        let expires_at = slide(now, self.inactivity_window);
        let auth_hash = account.password.as_str().as_bytes_vec();
        self.sessions.push(Session { token, account_id: account.id, auth_hash, expires_at });
        assert(self@.drop_last() =~= old(self)@);
    }

    /// Whom `token` stands for at time `now`. `account` is the account stored
    /// under the session's account id, if there is one. A valid session is
    /// extended by the inactivity window; nothing else changes.
    pub fn resolve(&mut self, token: u64, account: Option<&AuthUser>, now: i64) -> (r: Principal)
        ensures
            r == resolution(
                old(self)@,
                token,
                match account {
                    Some(a) => Some(*a),
                    None => None,
                },
                now as int,
            ),
            final(self).window() == old(self).window(),
            r is Anonymous ==> final(self)@ == old(self)@,
            r is Authenticated ==> (session_for(old(self)@, token) matches Some(x) && session_for(
                final(self)@,
                token,
            ) == Some(
                Session { expires_at: slid_expiry(now, old(self).window()), ..x },
            )),
            forall|other: u64|
                other != token ==> #[trigger] session_for(final(self)@, other) == session_for(
                    old(self)@,
                    other,
                ),
    {
        let i = match self.find(token) {
            Some(i) => i,
            None => return Principal::Anonymous,
        };
        let user = match account {
            Some(a) => a,
            None => return Principal::Anonymous,
        };
        let valid = self.sessions[i].expires_at > now && user.id == self.sessions[i].account_id
            && same_bytes(user.session_auth_hash(), self.sessions[i].auth_hash.as_slice());
        if !valid {
            return Principal::Anonymous;
        }
        let ghost before = self@;
        let mut taken = Session { token: 0, account_id: 0, auth_hash: Vec::new(), expires_at: 0 };
        self.sessions.set_and_swap(i, &mut taken);
        taken.expires_at = slide(now, self.inactivity_window);
        let account_id = taken.account_id;
        self.sessions.set(i, taken);
        proof {
            assert(self@ =~= before.update(i as int, self@[i as int]));
            assert forall|other: u64| other != token implies #[trigger] session_for(self@, other)
                == session_for(before, other) by {
                lemma_session_for_update(before, token, i as int, self@[i as int], other);
            }
            lemma_session_for_update(before, token, i as int, self@[i as int], token);
        }
        Principal::Authenticated(account_id)
    }

    fn retain(&mut self, cut: &Cut)
        ensures
            final(self)@ == retained(old(self)@, *cut),
            final(self).window() == old(self).window(),
    {
        let mut rest: Vec<Session> = Vec::new();
        std::mem::swap(&mut rest, &mut self.sessions);
        let ghost all = rest@;
        // Take the sessions from the back, keeping what the cut keeps, then
        // put the kept ones back in their order.
        let mut reversed: Vec<Session> = Vec::new();
        while rest.len() > 0
            invariant
                retained(all, *cut) == retained(rest@, *cut) + reversed@.reverse(),
                self.inactivity_window == old(self).inactivity_window,
            decreases rest@.len(),
        {
            let ghost before = rest@;
            let x = rest.pop().unwrap();
            assert(before.drop_last() =~= rest@);
            let keep = match cut {
                Cut::Token(t) => x.token != *t,
                Cut::LapsedBy(now) => x.expires_at > *now,
            };
            if keep {
                let ghost r = reversed@;
                reversed.push(x);
                assert(reversed@.reverse() =~= seq![x] + r.reverse());
                assert(retained(before, *cut) == retained(rest@, *cut).push(x));
                assert(retained(rest@, *cut).push(x) + r.reverse() =~= retained(rest@, *cut)
                    + reversed@.reverse());
            }
        }
        assert(retained(rest@, *cut) =~= Seq::<Session>::empty());
        assert(retained(all, *cut) =~= reversed@.reverse());
        while reversed.len() > 0
            invariant
                retained(all, *cut) == self.sessions@ + reversed@.reverse(),
                self.inactivity_window == old(self).inactivity_window,
            decreases reversed@.len(),
        {
            let ghost r = reversed@;
            let y = reversed.pop().unwrap();
            assert(r.reverse() =~= seq![y] + reversed@.reverse());
            self.sessions.push(y);
            assert(self.sessions@ + reversed@.reverse() =~= (self.sessions@.drop_last() + seq![y])
                + reversed@.reverse());
            assert(self.sessions@.drop_last() + r.reverse() =~= self.sessions@ + reversed@.reverse());
        }
        assert(self.sessions@ + reversed@.reverse() =~= self.sessions@);
    }

    /// Closes every session under `token`. A token with no session is no error.
    pub fn revoke(&mut self, token: u64)
        ensures
            final(self)@ == without(old(self)@, token),
            session_for(final(self)@, token) is None,
            final(self).window() == old(self).window(),
    {
        self.retain(&Cut::Token(token));
        proof {
            lemma_without_drops_token(old(self)@, token);
        }
    }

    /// The sweep that the reaper runs on its interval: drops every session
    /// lapsed by `now`.
    pub fn delete_expired(&mut self, now: i64)
        ensures
            final(self)@ == unexpired(old(self)@, now),
            forall|j: int| 0 <= j < final(self)@.len() ==> #[trigger] final(self)@[j].expires_at > now,
            final(self).window() == old(self).window(),
    {
        self.retain(&Cut::LapsedBy(now));
        proof {
            lemma_unexpired_later(old(self)@, now);
        }
    }
}

} // verus!
