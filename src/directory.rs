//! An in-memory directory of users, sessions and room memberships: the
//! lookups and the idempotent join that the core asks of its record store.

use vstd::prelude::*;
use crate::auth::{check_session, resolve_user, session_live, AuthError};
use crate::records::{Membership, SessionRecord, UserRecord};

verus! {

pub open spec fn has_user(us: Seq<UserRecord>, id: i32) -> bool {
    exists|i: int| 0 <= i < us.len() && #[trigger] us[i].id == id
}

pub open spec fn user_with(us: Seq<UserRecord>, id: i32) -> UserRecord {
    us[choose|i: int| 0 <= i < us.len() && #[trigger] us[i].id == id]
}

pub open spec fn has_token(ss: Seq<SessionRecord>, t: Seq<char>) -> bool {
    exists|i: int| 0 <= i < ss.len() && #[trigger] ss[i].token@ == t
}

pub open spec fn session_with(ss: Seq<SessionRecord>, t: Seq<char>) -> SessionRecord {
    ss[choose|i: int| 0 <= i < ss.len() && #[trigger] ss[i].token@ == t]
}

pub open spec fn ids_unique(us: Seq<UserRecord>) -> bool {
    forall|i: int, j: int| 0 <= i < us.len() && 0 <= j < us.len() && us[i].id == us[j].id ==> i == j
}

pub open spec fn tokens_unique(ss: Seq<SessionRecord>) -> bool {
    forall|i: int, j: int|
        0 <= i < ss.len() && 0 <= j < ss.len() && ss[i].token@ == ss[j].token@ ==> i == j
}

pub open spec fn same_pair(m: Membership, user: i32, room: i32) -> bool {
    m.user == user && m.room == room
}

pub open spec fn pairs_unique(rows: Seq<Membership>) -> bool {
    forall|i: int, j: int|
        0 <= i < rows.len() && 0 <= j < rows.len() && same_pair(rows[i], rows[j].user, rows[j].room)
            ==> i == j
}

/// Whether some row records `user` in `room`.
pub open spec fn in_room(rows: Seq<Membership>, user: i32, room: i32) -> bool {
    exists|i: int| 0 <= i < rows.len() && #[trigger] same_pair(rows[i], user, room)
}

/// Number of rows for the pair `(user, room)`.
pub open spec fn row_count(rows: Seq<Membership>, user: i32, room: i32) -> nat
    decreases rows.len(),
{
    if rows.len() == 0 {
        0
    } else {
        row_count(rows.drop_last(), user, room) + if same_pair(rows.last(), user, room) {
            1nat
        } else {
            0nat
        }
    }
}

/// The rows after `user` joins `room` at `now`: unchanged when already a member.
pub open spec fn join_rows(rows: Seq<Membership>, user: i32, room: i32, now: i64) -> Seq<Membership> {
    if in_room(rows, user, room) {
        rows
    } else {
        rows.push(Membership { user, room, joined: now })
    }
}

/// What authenticating `token` at `now` gives against these records.
pub open spec fn auth_outcome(ss: Seq<SessionRecord>, us: Seq<UserRecord>, token: Seq<char>, now: i64) -> Result<
    UserRecord,
    AuthError,
> {
    if !has_token(ss, token) {
        Err(AuthError::TokenNotFound)
    } else if !session_live(session_with(ss, token), now) {
        Err(AuthError::SessionExpired)
    } else if !has_user(us, session_with(ss, token).user) {
        Err(AuthError::UserMissing)
    } else {
        Ok(user_with(us, session_with(ss, token).user))
    }
}

pub struct Directory {
    users: Vec<UserRecord>,
    sessions: Vec<SessionRecord>,
    rows: Vec<Membership>,
}

impl Directory {
    pub closed spec fn users(&self) -> Seq<UserRecord> {
        self.users@
    }

    pub closed spec fn sessions(&self) -> Seq<SessionRecord> {
        self.sessions@
    }

    pub closed spec fn rows(&self) -> Seq<Membership> {
        self.rows@
    }

    /// User ids, session tokens and membership pairs are each unique.
    pub open spec fn wf(&self) -> bool {
        ids_unique(self.users()) && tokens_unique(self.sessions()) && pairs_unique(self.rows())
    }

    pub fn new() -> (d: Self)
        ensures
            d.wf(),
            d.users() == Seq::<UserRecord>::empty(),
            d.sessions() == Seq::<SessionRecord>::empty(),
            d.rows() == Seq::<Membership>::empty(),
    {
        Directory { users: Vec::new(), sessions: Vec::new(), rows: Vec::new() }
    }

    fn find_user(&self, id: i32) -> (r: Option<usize>)
        ensures
            r is None ==> !has_user(self.users(), id),
            r matches Some(i) ==> i < self.users().len() && self.users()[i as int].id == id,
    {
        let mut i: usize = 0;
        while i < self.users.len()
            invariant
                i <= self.users@.len(),
                forall|k: int| 0 <= k < i ==> self.users@[k].id != id,
            decreases self.users@.len() - i,
        {
            if self.users[i].id == id {
                return Some(i);
            }
            i = i + 1;
        }
        None
    }

    fn find_session(&self, token: &str) -> (r: Option<usize>)
        ensures
            r is None ==> !has_token(self.sessions(), token@),
            r matches Some(i) ==> i < self.sessions().len() && self.sessions()[i as int].token@ == token@,
    {
        let wanted = token.to_owned();
        let mut i: usize = 0;
        while i < self.sessions.len()
            invariant
                i <= self.sessions@.len(),
                wanted@ == token@,
                forall|k: int| 0 <= k < i ==> self.sessions@[k].token@ != token@,
            decreases self.sessions@.len() - i,
        {
            if self.sessions[i].token == wanted {
                return Some(i);
            }
            i = i + 1;
        }
        None
    }

    /// Adds a user unless one with the same id exists; says whether it was added.
    pub fn add_user(&mut self, user: UserRecord) -> (added: bool)
        requires
            old(self).wf(),
        ensures
            final(self).wf(),
            added == !has_user(old(self).users(), user.id),
            final(self).users() == if added {
                old(self).users().push(user)
            } else {
                old(self).users()
            },
            final(self).sessions() == old(self).sessions(),
            final(self).rows() == old(self).rows(),
    {
        if self.find_user(user.id).is_some() {
            false
        } else {
            self.users.push(user);
            true
        }
    }

    /// Adds a session unless one with the same token exists; says whether it was added.
    pub fn add_session(&mut self, session: SessionRecord) -> (added: bool)
        requires
            old(self).wf(),
        ensures
            final(self).wf(),
            added == !has_token(old(self).sessions(), session.token@),
            final(self).sessions() == if added {
                old(self).sessions().push(session)
            } else {
                old(self).sessions()
            },
            final(self).users() == old(self).users(),
            final(self).rows() == old(self).rows(),
    {
        if self.find_session(session.token.as_str()).is_some() {
            false
        } else {
            self.sessions.push(session);
            true
        }
    }

    pub fn lookup_user(&self, id: i32) -> (r: Option<&UserRecord>)
        requires
            self.wf(),
        ensures
            r is None <==> !has_user(self.users(), id),
            r matches Some(u) ==> *u == user_with(self.users(), id),
    {
        match self.find_user(id) {
            None => None,
            Some(i) => {
                let ghost k = choose|k: int| 0 <= k < self.users@.len() && #[trigger] self.users@[k].id == id;
                assert(k == i);
                Some(&self.users[i])
            },
        }
    }

    pub fn lookup_session(&self, token: &str) -> (r: Option<&SessionRecord>)
        requires
            self.wf(),
        ensures
            r is None <==> !has_token(self.sessions(), token@),
            r matches Some(s) ==> *s == session_with(self.sessions(), token@),
    {
        match self.find_session(token) {
            None => None,
            Some(i) => {
                let ghost k = choose|k: int|
                    0 <= k < self.sessions@.len() && #[trigger] self.sessions@[k].token@ == token@;
                assert(k == i);
                Some(&self.sessions[i])
            },
        }
    }

    /// Resolves a bearer token to its user at time `now`.
    pub fn auth(&self, token: &str, now: i64) -> (r: Result<&UserRecord, AuthError>)
        requires
            self.wf(),
        ensures
            match r {
                Ok(u) => auth_outcome(self.sessions(), self.users(), token@, now) == Ok::<
                    UserRecord,
                    AuthError,
                >(*u),
                Err(e) => auth_outcome(self.sessions(), self.users(), token@, now) == Err::<
                    UserRecord,
                    AuthError,
                >(e),
            },
    {
        let id = match check_session(self.lookup_session(token), now) {
            Ok(id) => id,
            Err(e) => {
                return Err(e);
            },
        };
        match self.lookup_user(id) {
            None => Err(AuthError::UserMissing),
            Some(u) => Ok(u),
        }
    }

    /// All membership rows.
    pub fn memberships(&self) -> (r: &Vec<Membership>)
        ensures
            r@ == self.rows(),
    {
        &self.rows
    }

    /// Whether a row records `user` in `room`.
    pub fn user_in_room(&self, user: i32, room: i32) -> (b: bool)
        ensures
            b == in_room(self.rows(), user, room),
    {
        let mut i: usize = 0;
        while i < self.rows.len()
            invariant
                i <= self.rows@.len(),
                forall|k: int| 0 <= k < i ==> !same_pair(self.rows@[k], user, room),
            decreases self.rows@.len() - i,
        {
            if self.rows[i].user == user && self.rows[i].room == room {
                assert(same_pair(self.rows@[i as int], user, room));
                return true;
            }
            i = i + 1;
        }
        false
    }

    /// Records that `user` joined `room` at `now`; joining again changes nothing.
    pub fn join_room(&mut self, user: i32, room: i32, now: i64)
        requires
            old(self).wf(),
        ensures
            final(self).wf(),
            final(self).rows() == join_rows(old(self).rows(), user, room, now),
            row_count(final(self).rows(), user, room) == 1,
            final(self).users() == old(self).users(),
            final(self).sessions() == old(self).sessions(),
    {
        if !self.user_in_room(user, room) {
            self.rows.push(Membership { user, room, joined: now });
            proof {
                let rows = self.rows@;
                assert(same_pair(rows[rows.len() - 1], user, room));
                assert forall|i: int, j: int|
                    0 <= i < rows.len() && 0 <= j < rows.len() && same_pair(rows[i], rows[j].user, rows[j].room)
                        implies i == j by {
                    if i < rows.len() - 1 && j == rows.len() - 1 {
                        assert(same_pair(old(self).rows@[i], user, room));
                    }
                    if j < rows.len() - 1 && i == rows.len() - 1 {
                        assert(same_pair(old(self).rows@[j], user, room));
                    }
                }
            }
        }
        proof {
            lemma_row_count(self.rows@, user, room);
        }
    }
}

/// Authenticating the token of a stored session: while the session is live it
/// yields the session's own user (or `UserMissing` if that user is gone); once
/// `now` reaches the expiry it fails with `SessionExpired`.
pub proof fn lemma_authenticate_session(
    ss: Seq<SessionRecord>,
    us: Seq<UserRecord>,
    token: Seq<char>,
    now: i64,
    i: int,
)
    requires
        tokens_unique(ss),
        ids_unique(us),
        0 <= i < ss.len(),
        ss[i].token@ == token,
    ensures
        now < ss[i].expired && has_user(us, ss[i].user) ==> (auth_outcome(ss, us, token, now) matches Ok(
            u,
        ) && u.id == ss[i].user && us.contains(u)),
        now < ss[i].expired && !has_user(us, ss[i].user) ==> auth_outcome(ss, us, token, now) == Err::<
            UserRecord,
            AuthError,
        >(AuthError::UserMissing),
        now >= ss[i].expired ==> auth_outcome(ss, us, token, now) == Err::<UserRecord, AuthError>(
            AuthError::SessionExpired,
        ),
{
    assert(has_token(ss, token));
    let k = choose|k: int| 0 <= k < ss.len() && #[trigger] ss[k].token@ == token;
    assert(k == i);
    if has_user(us, ss[i].user) {
        let j = choose|j: int| 0 <= j < us.len() && #[trigger] us[j].id == ss[i].user;
        assert(us.contains(us[j]));
    }
}

/// A token that no session has fails with `TokenNotFound`, whatever the time.
pub proof fn lemma_authenticate_unknown(ss: Seq<SessionRecord>, us: Seq<UserRecord>, token: Seq<char>, now: i64)
    requires
        !has_token(ss, token),
    ensures
        auth_outcome(ss, us, token, now) == Err::<UserRecord, AuthError>(AuthError::TokenNotFound),
{
}

/// Joining the same room twice is the same as joining it once, and leaves
/// exactly one row for the pair.
pub proof fn lemma_join_twice(rows: Seq<Membership>, user: i32, room: i32, first: i64, second: i64)
    requires
        pairs_unique(rows),
    ensures
        join_rows(join_rows(rows, user, room, first), user, room, second) == join_rows(rows, user, room, first),
        row_count(join_rows(join_rows(rows, user, room, first), user, room, second), user, room) == 1,
{
    let once = join_rows(rows, user, room, first);
    if !in_room(rows, user, room) {
        assert(same_pair(once[once.len() - 1], user, room));
        assert forall|i: int, j: int|
            0 <= i < once.len() && 0 <= j < once.len() && same_pair(once[i], once[j].user, once[j].room)
                implies i == j by {
            if i < once.len() - 1 && j == once.len() - 1 {
                assert(same_pair(rows[i], user, room));
            }
            if j < once.len() - 1 && i == once.len() - 1 {
                assert(same_pair(rows[j], user, room));
            }
        }
    }
    assert(in_room(once, user, room));
    lemma_row_count(once, user, room);
}

/// With unique pairs, a pair has one row if it is recorded and none otherwise.
pub proof fn lemma_row_count(rows: Seq<Membership>, user: i32, room: i32)
    requires
        pairs_unique(rows),
    ensures
        row_count(rows, user, room) == if in_room(rows, user, room) {
            1nat
        } else {
            0nat
        },
    decreases rows.len(),
{
    if rows.len() > 0 {
        let p = rows.drop_last();
        assert(pairs_unique(p)) by {
            assert forall|i: int, j: int|
                0 <= i < p.len() && 0 <= j < p.len() && same_pair(p[i], p[j].user, p[j].room) implies i == j by {
                assert(p[i] == rows[i] && p[j] == rows[j]);
            }
        }
        lemma_row_count(p, user, room);
        let n = rows.len() - 1;
        if same_pair(rows.last(), user, room) {
            assert(same_pair(rows[n], user, room));
            if in_room(p, user, room) {
                let i = choose|i: int| 0 <= i < p.len() && #[trigger] same_pair(p[i], user, room);
                assert(same_pair(rows[i], rows[n].user, rows[n].room));
            }
        } else {
            if in_room(rows, user, room) {
                let i = choose|i: int| 0 <= i < rows.len() && #[trigger] same_pair(rows[i], user, room);
                assert(i != n);
                assert(same_pair(p[i], user, room));
            }
            if in_room(p, user, room) {
                let i = choose|i: int| 0 <= i < p.len() && #[trigger] same_pair(p[i], user, room);
                assert(same_pair(rows[i], user, room));
            }
        }
    }
}

} // verus!
