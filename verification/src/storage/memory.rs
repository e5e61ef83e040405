//! The in-memory store: two tables of rows with the uniqueness
//! constraints of the schema, modeled exactly by a spec-level view so
//! that every operation's effect is stated as a function of the state.

use vstd::prelude::*;

use crate::storage::error::StorageError;
use crate::storage::session::{session_live, Session, SessionId, SessionView, MAX_AGE};
use crate::storage::user::{lower_of, to_lowercase, User, UserId, UserView};

verus! {

/// Spec-level state of the store: the rows of both tables, the next
/// row identifiers, and whether each table's schema exists.
#[verifier::ext_equal]
pub ghost struct StoreView {
    pub users_ready: bool,
    pub sessions_ready: bool,
    pub users: Seq<UserView>,
    pub sessions: Seq<SessionView>,
    pub next_user_id: i64,
    pub next_session_id: i64,
}

impl StoreView {
    /// The same state with both schemas created.
    pub open spec fn with_ready(self) -> StoreView {
        StoreView { users_ready: true, sessions_ready: true, ..self }
    }

    /// Well-formedness: emails and tokens are unique, session times
    /// are non-negative, identifiers stay in range.
    pub open spec fn wf(self) -> bool {
        &&& forall|i: int, j: int|
            0 <= i < j < self.users.len() ==> self.users[i].email != self.users[j].email
        &&& forall|i: int, j: int|
            0 <= i < j < self.sessions.len() ==> self.sessions[i].token != self.sessions[j].token
        &&& forall|i: int| 0 <= i < self.sessions.len() ==> 0 <= self.sessions[i].created_at
        &&& 1 <= self.next_user_id
        &&& 1 <= self.next_session_id
    }
}

/// Index of the first user whose email is `email`, or the length of
/// `users` when there is none.
pub open spec fn user_email_idx(users: Seq<UserView>, email: Seq<char>) -> int
    decreases users.len(),
{
    if users.len() == 0 {
        0
    } else if users[0].email == email {
        0
    } else {
        1 + user_email_idx(users.drop_first(), email)
    }
}

/// The first user stored under `email`, if any.
pub open spec fn spec_find_user(users: Seq<UserView>, email: Seq<char>) -> Option<UserView> {
    if user_email_idx(users, email) < users.len() {
        Some(users[user_email_idx(users, email)])
    } else {
        None
    }
}

/// Index of the first session whose token is `token`, or the length
/// of `sessions` when there is none.
pub open spec fn session_token_idx(sessions: Seq<SessionView>, token: Seq<char>) -> int
    decreases sessions.len(),
{
    if sessions.len() == 0 {
        0
    } else if sessions[0].token == token {
        0
    } else {
        1 + session_token_idx(sessions.drop_first(), token)
    }
}

/// The session stored under `token`, if any.
pub open spec fn spec_find_session(sessions: Seq<SessionView>, token: Seq<char>) -> Option<
    SessionView,
> {
    if session_token_idx(sessions, token) < sessions.len() {
        Some(sessions[session_token_idx(sessions, token)])
    } else {
        None
    }
}

/// The first-match index is in `[0, len]`; at it stands the match, and
/// before it none.
pub proof fn lemma_user_email_idx(users: Seq<UserView>, email: Seq<char>)
    ensures
        0 <= user_email_idx(users, email) <= users.len(),
        user_email_idx(users, email) < users.len() ==> users[user_email_idx(users, email)].email
            == email,
        forall|j: int| 0 <= j < user_email_idx(users, email) ==> users[j].email != email,
    decreases users.len(),
{
    if users.len() > 0 && users[0].email != email {
        lemma_user_email_idx(users.drop_first(), email);
        assert forall|j: int| 0 <= j < user_email_idx(users, email) implies users[j].email
            != email by {
            if j > 0 {
                assert(users[j] == users.drop_first()[j - 1]);
            }
        }
    }
}

/// Pushing a user under an email no earlier row holds puts the first
/// (and only) match at the end.
pub proof fn lemma_push_fresh_user_idx(users: Seq<UserView>, nu: UserView)
    requires
        user_email_idx(users, nu.email) == users.len(),
    ensures
        user_email_idx(users.push(nu), nu.email) == users.len(),
{
    lemma_user_email_idx(users, nu.email);
    lemma_user_email_idx(users.push(nu), nu.email);
    let p = users.push(nu);
    let idx = user_email_idx(p, nu.email);
    assert(p[users.len() as int].email == nu.email);
    if idx < users.len() {
        assert(p[idx] == users[idx]);
        assert(false);
    } else if idx > users.len() {
        assert(p[users.len() as int].email != nu.email);
        assert(false);
    }
}

/// The same, for session tokens.
pub proof fn lemma_session_token_idx(sessions: Seq<SessionView>, token: Seq<char>)
    ensures
        0 <= session_token_idx(sessions, token) <= sessions.len(),
        session_token_idx(sessions, token) < sessions.len() ==> sessions[session_token_idx(
            sessions,
            token,
        )].token == token,
        forall|j: int|
            0 <= j < session_token_idx(sessions, token) ==> sessions[j].token != token,
    decreases sessions.len(),
{
    if sessions.len() > 0 && sessions[0].token != token {
        lemma_session_token_idx(sessions.drop_first(), token);
        assert forall|j: int| 0 <= j < session_token_idx(sessions, token) implies sessions[j].token
            != token by {
            if j > 0 {
                assert(sessions[j] == sessions.drop_first()[j - 1]);
            }
        }
    }
}

/// The concrete store.  It exclusively owns both tables; every other
/// component reads or writes them through these operations.
pub struct MemoryStorage {
    users: Vec<User>,
    sessions: Vec<Session>,
    next_user_id: i64,
    next_session_id: i64,
    users_ready: bool,
    sessions_ready: bool,
}

impl View for MemoryStorage {
    type V = StoreView;

    closed spec fn view(&self) -> StoreView {
        StoreView {
            users_ready: self.users_ready,
            sessions_ready: self.sessions_ready,
            users: self.users.deep_view(),
            sessions: self.sessions.deep_view(),
            next_user_id: self.next_user_id,
            next_session_id: self.next_session_id,
        }
    }
}

impl MemoryStorage {
    /// An empty store whose schema is not yet set up.
    pub fn new() -> (r: MemoryStorage)
        ensures
            r@ == (StoreView {
                users_ready: false,
                sessions_ready: false,
                users: Seq::<UserView>::empty(),
                sessions: Seq::<SessionView>::empty(),
                next_user_id: 1,
                next_session_id: 1,
            }),
            r@.wf(),
    {
        let r = MemoryStorage {
            users: Vec::new(),
            sessions: Vec::new(),
            next_user_id: 1,
            next_session_id: 1,
            users_ready: false,
            sessions_ready: false,
        };
        proof {
            assert(r@ =~= StoreView {
                users_ready: false,
                sessions_ready: false,
                users: Seq::<UserView>::empty(),
                sessions: Seq::<SessionView>::empty(),
                next_user_id: 1,
                next_session_id: 1,
            });
        }
        r
    }

    /// Create the users table.  Idempotent.
    pub fn setup_users(&mut self)
        ensures
            final(self)@ == (StoreView { users_ready: true, ..old(self)@ }),
    {
        self.users_ready = true;
        proof {
            assert(final(self)@ =~= StoreView { users_ready: true, ..old(self)@ });
        }
    }

    /// Create the sessions table.  Idempotent.
    pub fn setup_sessions(&mut self)
        ensures
            final(self)@ == (StoreView { sessions_ready: true, ..old(self)@ }),
    {
        self.sessions_ready = true;
        proof {
            assert(final(self)@ =~= StoreView { sessions_ready: true, ..old(self)@ });
        }
    }

    /// Index of the first user row stored under `email` (compared
    /// exactly), or the number of rows when there is none.
    fn user_index(&self, email: &String) -> (r: usize)
        ensures
            r as int == user_email_idx(self@.users, email@),
    {
        proof {
            lemma_user_email_idx(self@.users, email@);
        }
        let n = self.users.len();
        let mut i: usize = 0;
        while i < n
            invariant
                i <= n,
                n == self.users.len(),
                forall|j: int| 0 <= j < i ==> self@.users[j].email != email@,
            decreases n - i,
        {
            if self.users[i].email == *email {
                proof {
                    assert(self@.users[i as int].email == email@);
                    let users = self@.users;
                    lemma_user_email_idx(users, email@);
                    let idx = user_email_idx(users, email@);
                    if idx < i as int {
                        assert(users[idx].email != email@);
                        assert(false);
                    } else if idx > i as int {
                        assert(users[i as int].email != email@);
                        assert(false);
                    }
                }
                return i;
            }
            i += 1;
        }
        proof {
            lemma_user_email_idx(self@.users, email@);
        }
        i
    }

    /// Index of the first session row stored under `token`, or the
    /// number of rows when there is none.
    fn session_index(&self, token: &String) -> (r: usize)
        ensures
            r as int == session_token_idx(self@.sessions, token@),
    {
        proof {
            lemma_session_token_idx(self@.sessions, token@);
        }
        let n = self.sessions.len();
        let mut i: usize = 0;
        while i < n
            invariant
                i <= n,
                n == self.sessions.len(),
                forall|j: int| 0 <= j < i ==> self@.sessions[j].token != token@,
            decreases n - i,
        {
            if self.sessions[i].token == *token {
                proof {
                    assert(self@.sessions[i as int].token == token@);
                    let sessions = self@.sessions;
                    lemma_session_token_idx(sessions, token@);
                    let idx = session_token_idx(sessions, token@);
                    if idx < i as int {
                        assert(sessions[idx].token != token@);
                        assert(false);
                    } else if idx > i as int {
                        assert(sessions[i as int].token != token@);
                        assert(false);
                    }
                }
                return i;
            }
            i += 1;
        }
        proof {
            lemma_session_token_idx(self@.sessions, token@);
        }
        i
    }

    /// Insert a new user with the email lower-cased.  Fails with
    /// `Conflict` when the email is already taken, and with `Backend`
    /// when the schema is missing or no identifier is left.
    pub fn create_user(
        &mut self,
        email: &str,
        username: Option<String>,
        password_hash: &str,
        now: i64,
    ) -> (r: Result<UserId, StorageError>)
        requires
            old(self)@.wf(),
        ensures
            final(self)@.wf(),
            ({
                let (post, res) = spec_create_user(
                    old(self)@,
                    lower_of(email@),
                    username.deep_view(),
                    password_hash@,
                    now,
                );
                final(self)@ == post && r == res
            }),
    {
        let email_l = to_lowercase(email);
        if !self.users_ready || self.next_user_id == i64::MAX {
            return Err(StorageError::Backend);
        }
        let idx = self.user_index(&email_l);
        if idx < self.users.len() {
            return Err(StorageError::Conflict);
        }
        let id = self.next_user_id;
        self.next_user_id = self.next_user_id + 1;
        let row = User {
            id,
            email: email_l,
            username,
            password_hash: password_hash.to_owned(),
            created_at: now,
        };
        self.users.push(row);
        proof {
            let (post, res) = spec_create_user(
                old(self)@,
                lower_of(email@),
                username.deep_view(),
                password_hash@,
                now,
            );
            assert(final(self)@.users =~= post.users);
            assert(final(self)@ =~= post);
            lemma_user_email_idx(old(self)@.users, lower_of(email@));
            let fin = final(self)@;
            assert forall|i: int, j: int| 0 <= i < j < fin.users.len() implies fin.users[i].email
                != fin.users[j].email by {
                if j == fin.users.len() - 1 {
                    assert(fin.users[i].email != lower_of(email@));
                }
            }
        }
        Ok(id)
    }

    /// Case-insensitive lookup: the user stored under the lower-cased
    /// email, or absence when no row matches.
    pub fn find_user_by_email(&self, email: &str) -> (r: Result<Option<User>, StorageError>)
        ensures
            match r {
                Ok(Some(u)) => spec_find_user_by_email(self@, email@) == Ok::<
                    Option<UserView>,
                    StorageError,
                >(Some(u@)),
                Ok(None) => spec_find_user_by_email(self@, email@) == Ok::<
                    Option<UserView>,
                    StorageError,
                >(None),
                Err(e) => spec_find_user_by_email(self@, email@) == Err::<
                    Option<UserView>,
                    StorageError,
                >(e),
            },
    {
        if !self.users_ready {
            return Err(StorageError::Backend);
        }
        let email_l = to_lowercase(email);
        let idx = self.user_index(&email_l);
        if idx < self.users.len() {
            Ok(Some(clone_user(&self.users[idx])))
        } else {
            Ok(None)
        }
    }

    /// Insert a session row.  Fails with `Conflict` when the token is
    /// already taken, and with `Backend` when the schema is missing
    /// or no identifier is left.
    pub fn create_session(&mut self, user_id: UserId, token: &str, now: i64) -> (r: Result<
        SessionId,
        StorageError,
    >)
        requires
            old(self)@.wf(),
            0 <= now,
        ensures
            final(self)@.wf(),
            ({
                let (post, res) = spec_create_session(old(self)@, user_id, token@, now);
                final(self)@ == post && r == res
            }),
    {
        if !self.sessions_ready || self.next_session_id == i64::MAX {
            return Err(StorageError::Backend);
        }
        let token_s = token.to_owned();
        let idx = self.session_index(&token_s);
        if idx < self.sessions.len() {
            return Err(StorageError::Conflict);
        }
        let id = self.next_session_id;
        self.next_session_id = self.next_session_id + 1;
        let row = Session { id, user_id, token: token_s, created_at: now };
        self.sessions.push(row);
        proof {
            let (post, res) = spec_create_session(old(self)@, user_id, token@, now);
            assert(final(self)@.sessions =~= post.sessions);
            assert(final(self)@ =~= post);
            lemma_session_token_idx(old(self)@.sessions, token@);
            let fin = final(self)@;
            assert forall|i: int, j: int| 0 <= i < j < fin.sessions.len() implies fin.sessions[i].token
                != fin.sessions[j].token by {
                if j == fin.sessions.len() - 1 {
                    assert(fin.sessions[i].token != token@);
                }
            }
        }
        Ok(id)
    }

    /// The live session stored under `token`: absence when no row
    /// matches or when the matching row is older than the maximum
    /// lifetime (expired rows are not deleted here).
    pub fn find_session_by_token(&self, token: &str, now: i64) -> (r: Result<
        Option<Session>,
        StorageError,
    >)
        requires
            self@.wf(),
            0 <= now,
        ensures
            match r {
                Ok(Some(s)) => spec_find_session_by_token(self@, token@, now) == Ok::<
                    Option<SessionView>,
                    StorageError,
                >(Some(s@)),
                Ok(None) => spec_find_session_by_token(self@, token@, now) == Ok::<
                    Option<SessionView>,
                    StorageError,
                >(None),
                Err(e) => spec_find_session_by_token(self@, token@, now) == Err::<
                    Option<SessionView>,
                    StorageError,
                >(e),
            },
    {
        if !self.sessions_ready {
            return Err(StorageError::Backend);
        }
        let token_s = token.to_owned();
        let idx = self.session_index(&token_s);
        if idx < self.sessions.len() {
            let row = &self.sessions[idx];
            if now - row.created_at <= MAX_AGE {
                Ok(Some(clone_session(row)))
            } else {
                Ok(None)
            }
        } else {
            Ok(None)
        }
    }

    /// Store a user row under its email, replacing any row already
    /// stored under exactly that email.
    pub fn add_user(&mut self, user: User) -> (r: Result<(), ()>)
        requires
            old(self)@.wf(),
        ensures
            final(self)@.wf(),
            r is Ok,
            final(self)@ == spec_add_user(old(self)@, user@),
    {
        let idx = self.user_index(&user.email);
        proof {
            lemma_user_email_idx(old(self)@.users, user@.email);
        }
        if idx < self.users.len() {
            self.users[idx] = user;
            proof {
                assert(final(self)@.users =~= spec_add_user(old(self)@, user@).users);
                assert(final(self)@ =~= spec_add_user(old(self)@, user@));
            }
        } else {
            self.users.push(user);
            proof {
                assert(final(self)@.users =~= spec_add_user(old(self)@, user@).users);
                assert(final(self)@ =~= spec_add_user(old(self)@, user@));
            }
        }
        proof {
            let post = final(self)@;
            lemma_user_email_idx(old(self)@.users, user@.email);
            assert forall|i: int, j: int| 0 <= i < j < post.users.len() implies post.users[i].email
                != post.users[j].email by {
                assert(forall|k: int|
                    0 <= k < old(self)@.users.len() && k != user_email_idx(
                        old(self)@.users,
                        user@.email,
                    ) ==> old(self)@.users[k].email != user@.email);
            }
        }
        Ok(())
    }

    /// Remove and return the user row stored under exactly `email`,
    /// or fail when there is none.  Deletion is exposed as an
    /// extension point; the rest of the flow only ever compensates a
    /// user insert whose session could not be issued.
    pub fn remove_user(&mut self, email: &str) -> (r: Result<User, ()>)
        requires
            old(self)@.wf(),
        ensures
            final(self)@.wf(),
            ({
                let (post, res) = spec_remove_user(old(self)@, email@);
                &&& final(self)@ == post
                &&& match (r, res) {
                    (Ok(u), Ok(v)) => u@ == v,
                    (Err(a), Err(b)) => a == b,
                    _ => false,
                }
            }),
    {
        let email_s = email.to_owned();
        let idx = self.user_index(&email_s);
        if idx < self.users.len() {
            let u = self.users.remove(idx);
            proof {
                let (post, res) = spec_remove_user(old(self)@, email@);
                assert(final(self)@.users =~= post.users);
                assert(final(self)@ =~= post);
            }
            Ok(u)
        } else {
            Err(())
        }
    }
}

/// Copy a user row field by field.
fn clone_user(u: &User) -> (r: User)
    ensures
        r@ == u@,
{
    User {
        id: u.id,
        email: u.email.clone(),
        username: match &u.username {
            Some(s) => Some(s.clone()),
            None => None,
        },
        password_hash: u.password_hash.clone(),
        created_at: u.created_at,
    }
}

/// Copy a session row field by field.
fn clone_session(s: &Session) -> (r: Session)
    ensures
        r@ == s@,
{
    Session { id: s.id, user_id: s.user_id, token: s.token.clone(), created_at: s.created_at }
}

/// Effect of `create_user` on the state: the new row and identifier,
/// or the state unchanged beside the error.
pub open spec fn spec_create_user(
    s: StoreView,
    email_lower: Seq<char>,
    username: Option<Seq<char>>,
    password_hash: Seq<char>,
    now: i64,
) -> (StoreView, Result<UserId, StorageError>) {
    if !s.users_ready || s.next_user_id == i64::MAX {
        (s, Err(StorageError::Backend))
    } else if user_email_idx(s.users, email_lower) < s.users.len() {
        (s, Err(StorageError::Conflict))
    } else {
        (
            StoreView {
                users: s.users.push(
                    UserView {
                        id: s.next_user_id,
                        email: email_lower,
                        username,
                        password_hash,
                        created_at: now,
                    },
                ),
                next_user_id: (s.next_user_id + 1) as i64,
                ..s
            },
            Ok(s.next_user_id),
        )
    }
}

/// Effect of `find_user_by_email` on the state `s`.
pub open spec fn spec_find_user_by_email(s: StoreView, email: Seq<char>) -> Result<
    Option<UserView>,
    StorageError,
> {
    if !s.users_ready {
        Err(StorageError::Backend)
    } else {
        Ok(spec_find_user(s.users, lower_of(email)))
    }
}

/// Effect of `create_session` on the state.
pub open spec fn spec_create_session(
    s: StoreView,
    user_id: UserId,
    token: Seq<char>,
    now: i64,
) -> (StoreView, Result<SessionId, StorageError>) {
    if !s.sessions_ready || s.next_session_id == i64::MAX {
        (s, Err(StorageError::Backend))
    } else if session_token_idx(s.sessions, token) < s.sessions.len() {
        (s, Err(StorageError::Conflict))
    } else {
        (
            StoreView {
                sessions: s.sessions.push(
                    SessionView {
                        id: s.next_session_id,
                        user_id,
                        token,
                        created_at: now,
                    },
                ),
                next_session_id: (s.next_session_id + 1) as i64,
                ..s
            },
            Ok(s.next_session_id),
        )
    }
}

/// Effect of `find_session_by_token` on the state `s` at time `now`:
/// an expired row is treated exactly like an absent one.
pub open spec fn spec_find_session_by_token(s: StoreView, token: Seq<char>, now: i64) -> Result<
    Option<SessionView>,
    StorageError,
> {
    if !s.sessions_ready {
        Err(StorageError::Backend)
    } else {
        match spec_find_session(s.sessions, token) {
            Some(sv) => if session_live(sv, now) {
                Ok(Some(sv))
            } else {
                Ok(None)
            },
            None => Ok(None),
        }
    }
}

/// Effect of `add_user` on the state.
pub open spec fn spec_add_user(s: StoreView, user: UserView) -> StoreView {
    let idx = user_email_idx(s.users, user.email);
    if idx < s.users.len() {
        StoreView { users: s.users.update(idx, user), ..s }
    } else {
        StoreView { users: s.users.push(user), ..s }
    }
}

/// Effect of `remove_user` on the state.
pub open spec fn spec_remove_user(s: StoreView, email: Seq<char>) -> (StoreView, Result<
    UserView,
    (),
>) {
    let idx = user_email_idx(s.users, email);
    if idx < s.users.len() {
        (StoreView { users: s.users.remove(idx), ..s }, Ok(s.users[idx]))
    } else {
        (s, Err(()))
    }
}

/// Law (email case-insensitivity): a user created under one spelling
/// of an address is found under every spelling with the same
/// lowercase form, and the lookup returns exactly the created row.
pub proof fn lemma_lookup_case_insensitive(
    s: StoreView,
    email1: Seq<char>,
    email2: Seq<char>,
    username: Option<Seq<char>>,
    password_hash: Seq<char>,
    now: i64,
)
    requires
        lower_of(email1) == lower_of(email2),
        spec_create_user(s, lower_of(email1), username, password_hash, now).1 is Ok,
    ensures
        ({
            let post = spec_create_user(s, lower_of(email1), username, password_hash, now).0;
            spec_find_user_by_email(post, email2) == Ok::<Option<UserView>, StorageError>(
                Some(
                    UserView {
                        id: s.next_user_id,
                        email: lower_of(email1),
                        username,
                        password_hash,
                        created_at: now,
                    },
                ),
            )
        }),
{
    let post = spec_create_user(s, lower_of(email1), username, password_hash, now).0;
    let n = s.users.len() as int;
    let nu = post.users[n];
    assert(post.users == s.users.push(nu));
    lemma_user_email_idx(s.users, lower_of(email1));
    lemma_push_fresh_user_idx(s.users, nu);
    assert(user_email_idx(post.users, lower_of(email2)) == n);
}

} // verus!
