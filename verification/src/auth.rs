//! Sessions: who a token belongs to.

use vstd::prelude::*;
use vstd::utf8::encode_utf8;

use crate::collections::{views, StrMap};
use crate::db::models::{UserRecord, UserRecordModel, UserSessionRecord, UserSessionRecordModel};
use crate::text::{after_prefix, concat, concat3, same_text, strip_prefix, trim, trimmed};
use crate::tokens::{is_random_id, random_id, token_hash};

pub use crate::tokens::hash_session_token;

verus! {

/// How long a session lasts: thirty days.
pub const DEFAULT_SESSION_TTL_MS: u64 = 2_592_000_000;

/// A user whose session was confirmed.
#[derive(Debug, PartialEq, Eq)]
pub struct AuthenticatedUser {
    pub user_id: String,
    pub display_name: String,
    pub auth_provider: String,
}

/// The contents of an [`AuthenticatedUser`].
#[verifier::ext_equal]
pub struct AuthenticatedUserModel {
    pub user_id: Seq<char>,
    pub display_name: Seq<char>,
    pub auth_provider: Seq<char>,
}

impl View for AuthenticatedUser {
    type V = AuthenticatedUserModel;

    open spec fn view(&self) -> AuthenticatedUserModel {
        AuthenticatedUserModel {
            user_id: self.user_id@,
            display_name: self.display_name@,
            auth_provider: self.auth_provider@,
        }
    }
}

impl Clone for AuthenticatedUser {
    fn clone(&self) -> (r: Self)
        ensures
            r@ == self@,
    {
        AuthenticatedUser {
            user_id: self.user_id.clone(),
            display_name: self.display_name.clone(),
            auth_provider: self.auth_provider.clone(),
        }
    }
}

/// A new session, as its user gets it. The token stands here and nowhere else.
#[derive(Debug, PartialEq, Eq)]
pub struct SessionView {
    pub user_id: String,
    pub display_name: String,
    pub session_token: String,
    pub expires_at_unix_ms: u64,
}

/// The contents of a [`SessionView`].
#[verifier::ext_equal]
pub struct SessionViewModel {
    pub user_id: Seq<char>,
    pub display_name: Seq<char>,
    pub session_token: Seq<char>,
    pub expires_at_unix_ms: u64,
}

impl View for SessionView {
    type V = SessionViewModel;

    open spec fn view(&self) -> SessionViewModel {
        SessionViewModel {
            user_id: self.user_id@,
            display_name: self.display_name@,
            session_token: self.session_token@,
            expires_at_unix_ms: self.expires_at_unix_ms,
        }
    }
}

/// Why somebody could not be given or confirmed a session.
#[derive(Debug, PartialEq, Eq)]
pub enum AuthError {
    MissingAuthorization,
    InvalidAuthorization,
    InvalidDisplayName,
    InvalidSession,
    Storage(String),
}

/// The contents of an [`AuthError`].
#[verifier::ext_equal]
pub enum AuthErrorModel {
    MissingAuthorization,
    InvalidAuthorization,
    InvalidDisplayName,
    InvalidSession,
    Storage(Seq<char>),
}

impl View for AuthError {
    type V = AuthErrorModel;

    open spec fn view(&self) -> AuthErrorModel {
        match self {
            AuthError::MissingAuthorization => AuthErrorModel::MissingAuthorization,
            AuthError::InvalidAuthorization => AuthErrorModel::InvalidAuthorization,
            AuthError::InvalidDisplayName => AuthErrorModel::InvalidDisplayName,
            AuthError::InvalidSession => AuthErrorModel::InvalidSession,
            AuthError::Storage(reason) => AuthErrorModel::Storage(reason@),
        }
    }
}

/// The view of an answer.
pub open spec fn auth_result<T: View>(result: Result<T, AuthError>) -> Result<T::V, AuthErrorModel> {
    match result {
        Ok(value) => Ok(value@),
        Err(error) => Err(error@),
    }
}

/// The view of an answer that is nothing but success.
pub open spec fn auth_done(result: Result<(), AuthError>) -> Result<(), AuthErrorModel> {
    match result {
        Ok(_) => Ok(()),
        Err(error) => Err(error@),
    }
}

/// Where users and their sessions are kept. Each repository says of itself which answers it may
/// give, and what becomes of it; one that says nothing may give any.
pub trait AuthRepository: Sized {
    /// Whether a repository may take a new user with a first session so, and be such afterwards.
    open spec fn creates(
        before: Self,
        user: UserRecordModel,
        session: UserSessionRecordModel,
        reply: Result<(), AuthErrorModel>,
        after: Self,
    ) -> bool {
        true
    }

    /// Whether a repository may answer so who a token hash belongs to, and be such afterwards.
    open spec fn confirms(
        before: Self,
        session_token_hash: Seq<char>,
        now_unix_ms: u64,
        reply: Result<AuthenticatedUserModel, AuthErrorModel>,
        after: Self,
    ) -> bool {
        true
    }

    /// Whether a repository may put a new session in the place of an old one so, and be such
    /// afterwards.
    open spec fn rotates(
        before: Self,
        old_session_token_hash: Seq<char>,
        new_session: UserSessionRecordModel,
        now_unix_ms: u64,
        reply: Result<AuthenticatedUserModel, AuthErrorModel>,
        after: Self,
    ) -> bool {
        true
    }

    fn create_guest_session(&mut self, user: UserRecord, session: UserSessionRecord) -> (r: Result<
        (),
        AuthError,
    >)
        ensures
            Self::creates(*old(self), user@, session@, auth_done(r), *final(self)),
    ;

    fn authenticate_session(&mut self, session_token_hash: &str, now_unix_ms: u64) -> (r: Result<
        AuthenticatedUser,
        AuthError,
    >)
        ensures
            Self::confirms(
                *old(self),
                session_token_hash@,
                now_unix_ms,
                auth_result(r),
                *final(self),
            ),
    ;

    fn rotate_session(
        &mut self,
        old_session_token_hash: &str,
        new_session: UserSessionRecord,
        now_unix_ms: u64,
    ) -> (r: Result<AuthenticatedUser, AuthError>)
        ensures
            Self::rotates(
                *old(self),
                old_session_token_hash@,
                new_session@,
                now_unix_ms,
                auth_result(r),
                *final(self),
            ),
    ;
}

/// Users and sessions in memory. No two sessions have the same id.
pub struct InMemoryAuthRepository {
    pub users: StrMap<UserRecord>,
    pub sessions: Vec<UserSessionRecord>,
    pub session_token_index: StrMap<String>,
}

/// The contents of an [`InMemoryAuthRepository`].
#[verifier::ext_equal]
pub struct AuthStoreModel {
    pub users: Map<Seq<char>, UserRecordModel>,
    pub sessions: Seq<UserSessionRecordModel>,
    pub session_token_index: Map<Seq<char>, Seq<char>>,
}

impl View for InMemoryAuthRepository {
    type V = AuthStoreModel;

    open spec fn view(&self) -> AuthStoreModel {
        AuthStoreModel {
            users: self.users@,
            sessions: views(self.sessions@),
            session_token_index: self.session_token_index@,
        }
    }
}

/// The first place at which one of `sessions` belongs to a user and has a token hash.
pub open spec fn session_place(
    sessions: Seq<UserSessionRecordModel>,
    user_id: Seq<char>,
    session_token_hash: Seq<char>,
) -> Option<int>
    decreases sessions.len(),
{
    if sessions.len() == 0 {
        None
    } else if sessions[0].user_id == user_id && sessions[0].session_token_hash
        == session_token_hash {
        Some(0)
    } else {
        match session_place(sessions.drop_first(), user_id, session_token_hash) {
            Some(place) => Some(place + 1),
            None => None,
        }
    }
}

/// The place of the session with an id.
pub open spec fn session_id_place(sessions: Seq<UserSessionRecordModel>, session_id: Seq<char>) -> Option<int>
    decreases sessions.len(),
{
    if sessions.len() == 0 {
        None
    } else if sessions[0].session_id == session_id {
        Some(0)
    } else {
        match session_id_place(sessions.drop_first(), session_id) {
            Some(place) => Some(place + 1),
            None => None,
        }
    }
}

/// The sessions with one more, which takes the place of a session with the same id.
pub open spec fn with_session(
    sessions: Seq<UserSessionRecordModel>,
    session: UserSessionRecordModel,
) -> Seq<UserSessionRecordModel> {
    match session_id_place(sessions, session.session_id) {
        Some(place) => sessions.update(place, session),
        None => sessions.push(session),
    }
}

/// Whether a session can still be used.
pub open spec fn is_live(session: UserSessionRecordModel, now_unix_ms: u64) -> bool {
    session.revoked_at_unix_ms is None && session.expires_at_unix_ms > now_unix_ms
}

/// What is told of a user.
pub open spec fn user_told(user: UserRecordModel) -> AuthenticatedUserModel {
    AuthenticatedUserModel {
        user_id: user.user_id,
        display_name: user.display_name,
        auth_provider: user.auth_provider,
    }
}

/// A user who was just seen.
pub open spec fn user_seen(user: UserRecordModel, now_unix_ms: u64) -> UserRecordModel {
    UserRecordModel {
        last_seen_at_unix_ms: Some(now_unix_ms),
        updated_at_unix_ms: now_unix_ms,
        ..user
    }
}

impl AuthStoreModel {
    /// The place of the session that a token hash leads to.
    pub open spec fn place_of(self, session_token_hash: Seq<char>) -> Option<int> {
        if self.session_token_index.contains_key(session_token_hash) {
            session_place(
                self.sessions,
                self.session_token_index[session_token_hash],
                session_token_hash,
            )
        } else {
            None
        }
    }

    /// The store with a new user and a first session.
    pub open spec fn created(self, user: UserRecordModel, session: UserSessionRecordModel) -> AuthStoreModel {
        AuthStoreModel {
            users: self.users.insert(user.user_id, user),
            sessions: with_session(self.sessions, session),
            session_token_index: self.session_token_index.insert(
                session.session_token_hash,
                user.user_id,
            ),
        }
    }

    /// The store with a user seen, and what is told of the user.
    pub open spec fn seen(self, user_id: Seq<char>, now_unix_ms: u64) -> (
        AuthStoreModel,
        Result<AuthenticatedUserModel, AuthErrorModel>,
    ) {
        if self.users.contains_key(user_id) {
            let user = self.users[user_id];
            (
                AuthStoreModel {
                    users: self.users.insert(user_id, user_seen(user, now_unix_ms)),
                    ..self
                },
                Ok(user_told(user)),
            )
        } else {
            (self, Err(AuthErrorModel::InvalidSession))
        }
    }

    /// Who a token hash belongs to, and the store with that session used once more.
    pub open spec fn authenticated(self, session_token_hash: Seq<char>, now_unix_ms: u64) -> (
        AuthStoreModel,
        Result<AuthenticatedUserModel, AuthErrorModel>,
    ) {
        match self.place_of(session_token_hash) {
            None => (self, Err(AuthErrorModel::InvalidSession)),
            Some(place) => {
                let session = self.sessions[place];
                if !is_live(session, now_unix_ms) {
                    (self, Err(AuthErrorModel::InvalidSession))
                } else {
                    AuthStoreModel {
                        sessions: self.sessions.update(
                            place,
                            UserSessionRecordModel {
                                last_seen_at_unix_ms: Some(now_unix_ms),
                                ..session
                            },
                        ),
                        ..self
                    }.seen(self.session_token_index[session_token_hash], now_unix_ms)
                }
            },
        }
    }

    /// The store with the session of a token hash at an end.
    pub open spec fn revoked(self, place: int, session_token_hash: Seq<char>, now_unix_ms: u64) -> AuthStoreModel {
        AuthStoreModel {
            sessions: self.sessions.update(
                place,
                UserSessionRecordModel {
                    revoked_at_unix_ms: Some(now_unix_ms),
                    last_seen_at_unix_ms: Some(now_unix_ms),
                    ..self.sessions[place]
                },
            ),
            session_token_index: self.session_token_index.remove(session_token_hash),
            ..self
        }
    }

    /// The store with a new session of the same user in the place of an old one.
    pub open spec fn rotated(
        self,
        old_session_token_hash: Seq<char>,
        new_session: UserSessionRecordModel,
        now_unix_ms: u64,
    ) -> (AuthStoreModel, Result<AuthenticatedUserModel, AuthErrorModel>) {
        match self.place_of(old_session_token_hash) {
            None => (self, Err(AuthErrorModel::InvalidSession)),
            Some(place) => if !is_live(self.sessions[place], now_unix_ms) {
                (self, Err(AuthErrorModel::InvalidSession))
            } else {
                let user_id = self.session_token_index[old_session_token_hash];
                let (seen, told) = self.revoked(place, old_session_token_hash, now_unix_ms).seen(
                    user_id,
                    now_unix_ms,
                );
                match told {
                    Err(error) => (seen, Err(error)),
                    Ok(user) => (
                        AuthStoreModel {
                            sessions: with_session(
                                seen.sessions,
                                UserSessionRecordModel { user_id, ..new_session },
                            ),
                            session_token_index: seen.session_token_index.insert(
                                new_session.session_token_hash,
                                user_id,
                            ),
                            ..seen
                        },
                        Ok(user),
                    ),
                }
            },
        }
    }
}

/// A place counted from another start.
pub open spec fn moved_place(place: Option<int>, by: int) -> Option<int> {
    match place {
        Some(place) => Some(place + by),
        None => None,
    }
}

/// A place that is found lies within the sessions, and the session there is the one wanted.
pub proof fn lemma_session_place(
    sessions: Seq<UserSessionRecordModel>,
    user_id: Seq<char>,
    session_token_hash: Seq<char>,
)
    ensures
        session_place(sessions, user_id, session_token_hash) matches Some(place) ==> 0 <= place
            < sessions.len() && sessions[place].user_id == user_id
            && sessions[place].session_token_hash == session_token_hash,
    decreases sessions.len(),
{
    if sessions.len() > 0 {
        lemma_session_place(sessions.drop_first(), user_id, session_token_hash);
    }
}

proof fn lemma_session_id_place(sessions: Seq<UserSessionRecordModel>, session_id: Seq<char>)
    ensures
        session_id_place(sessions, session_id) matches Some(place) ==> 0 <= place < sessions.len()
            && sessions[place].session_id == session_id,
        session_id_place(sessions, session_id) is None ==> forall|i: int|
            0 <= i < sessions.len() ==> #[trigger] sessions[i].session_id != session_id,
    decreases sessions.len(),
{
    if sessions.len() > 0 {
        let rest = sessions.drop_first();
        lemma_session_id_place(rest, session_id);
        if session_id_place(sessions, session_id) is None {
            assert forall|i: int| 0 <= i < sessions.len() implies #[trigger] sessions[i].session_id
                != session_id by {
                if i > 0 {
                    assert(rest[i - 1] == sessions[i]);
                }
            }
        }
    }
}

impl InMemoryAuthRepository {
    /// A repository without users.
    pub fn new() -> (r: InMemoryAuthRepository)
        ensures
            r@ == (AuthStoreModel {
                users: Map::empty(),
                sessions: Seq::empty(),
                session_token_index: Map::empty(),
            }),
    {
        let sessions: Vec<UserSessionRecord> = Vec::new();
        assert(views(sessions@) =~= Seq::<UserSessionRecordModel>::empty());
        InMemoryAuthRepository {
            users: StrMap::new(),
            sessions,
            session_token_index: StrMap::new(),
        }
    }

    fn find_session(&self, user_id: &str, session_token_hash: &str) -> (r: Option<usize>)
        ensures
            session_place(self@.sessions, user_id@, session_token_hash@) == match r {
                Some(place) => Some(place as int),
                None => None,
            },
            r matches Some(place) ==> place < self.sessions@.len(),
    {
        let ghost all = self@.sessions;
        let mut i: usize = 0;
        assert(all.skip(0) =~= all);
        while i < self.sessions.len()
            invariant
                i <= self.sessions.len(),
                all == self@.sessions,
                all.len() == self.sessions@.len(),
                session_place(all, user_id@, session_token_hash@) == moved_place(
                    session_place(all.skip(i as int), user_id@, session_token_hash@),
                    i as int,
                ),
            decreases self.sessions.len() - i,
        {
            let session = &self.sessions[i];
            assert(all.skip(i as int)[0] == session@);
            if same_text(session.user_id.as_str(), user_id) && same_text(
                session.session_token_hash.as_str(),
                session_token_hash,
            ) {
                return Some(i);
            }
            assert(all.skip(i as int).drop_first() =~= all.skip(i + 1));
            i = i + 1;
        }
        None
    }

    fn find_session_id(&self, session_id: &str) -> (r: Option<usize>)
        ensures
            session_id_place(self@.sessions, session_id@) == match r {
                Some(place) => Some(place as int),
                None => None,
            },
            r matches Some(place) ==> place < self.sessions@.len(),
    {
        let ghost all = self@.sessions;
        let mut i: usize = 0;
        assert(all.skip(0) =~= all);
        while i < self.sessions.len()
            invariant
                i <= self.sessions.len(),
                all == self@.sessions,
                all.len() == self.sessions@.len(),
                session_id_place(all, session_id@) == moved_place(
                    session_id_place(all.skip(i as int), session_id@),
                    i as int,
                ),
            decreases self.sessions.len() - i,
        {
            let session = &self.sessions[i];
            assert(all.skip(i as int)[0] == session@);
            if same_text(session.session_id.as_str(), session_id) {
                return Some(i);
            }
            assert(all.skip(i as int).drop_first() =~= all.skip(i + 1));
            i = i + 1;
        }
        None
    }

    fn put_session(&mut self, place: usize, session: UserSessionRecord)
        requires
            place < old(self).sessions@.len(),
        ensures
            final(self)@ == (AuthStoreModel {
                sessions: old(self)@.sessions.update(place as int, session@),
                ..old(self)@
            }),
    {
        let ghost before = self@;
        self.sessions.set(place, session);
        assert(views(self.sessions@) =~= before.sessions.update(place as int, session@));
    }

    fn insert_session(&mut self, session: UserSessionRecord)
        ensures
            final(self)@ == (AuthStoreModel {
                sessions: with_session(old(self)@.sessions, session@),
                ..old(self)@
            }),
    {
        let ghost before = self@;
        match self.find_session_id(session.session_id.as_str()) {
            Some(place) => {
                self.put_session(place, session);
            },
            None => {
                self.sessions.push(session);
                assert(views(self.sessions@) =~= before.sessions.push(session@));
            },
        }
    }

    fn see_user(&mut self, user_id: &str, now_unix_ms: u64) -> (r: Result<AuthenticatedUser, AuthError>)
        ensures
            (final(self)@, auth_result(r)) == old(self)@.seen(user_id@, now_unix_ms),
    {
        let mut user: UserRecord = match self.users.get(user_id) {
            None => {
                return Err(AuthError::InvalidSession);
            },
            Some(user) => user.clone(),
        };
        let told = AuthenticatedUser {
            user_id: user.user_id.clone(),
            display_name: user.display_name.clone(),
            auth_provider: user.auth_provider.clone(),
        };
        user.last_seen_at_unix_ms = Some(now_unix_ms);
        user.updated_at_unix_ms = now_unix_ms;
        self.users.insert(String::from_str(user_id), user);
        Ok(told)
    }

    /// The user that a token hash leads to and the place of the session, where there is one that
    /// can be used.
    fn live_session(&self, session_token_hash: &str, now_unix_ms: u64) -> (r: Option<(String, usize)>)
        ensures
            match r {
                Some((user_id, place)) => {
                    &&& self@.place_of(session_token_hash@) == Some(place as int)
                    &&& place < self.sessions@.len()
                    &&& self@.session_token_index.contains_key(session_token_hash@)
                    &&& user_id@ == self@.session_token_index[session_token_hash@]
                    &&& is_live(self@.sessions[place as int], now_unix_ms)
                },
                None => self@.place_of(session_token_hash@) matches Some(place) ==> !is_live(
                    self@.sessions[place],
                    now_unix_ms,
                ),
            },
    {
        let user_id: String = match self.session_token_index.get(session_token_hash) {
            None => {
                return None;
            },
            Some(user_id) => user_id.clone(),
        };
        match self.find_session(user_id.as_str(), session_token_hash) {
            None => None,
            Some(place) => {
                assert(self@.sessions[place as int] == self.sessions@[place as int]@);
                if self.sessions[place].revoked_at_unix_ms.is_some()
                    || self.sessions[place].expires_at_unix_ms <= now_unix_ms {
                    None
                } else {
                    Some((user_id, place))
                }
            },
        }
    }
}

impl Default for InMemoryAuthRepository {
    fn default() -> (r: Self)
        ensures
            r@ == (AuthStoreModel {
                users: Map::empty(),
                sessions: Seq::empty(),
                session_token_index: Map::empty(),
            }),
    {
        InMemoryAuthRepository::new()
    }
}

impl AuthRepository for InMemoryAuthRepository {
    open spec fn creates(
        before: Self,
        user: UserRecordModel,
        session: UserSessionRecordModel,
        reply: Result<(), AuthErrorModel>,
        after: Self,
    ) -> bool {
        reply is Ok && after@ == before@.created(user, session)
    }

    open spec fn confirms(
        before: Self,
        session_token_hash: Seq<char>,
        now_unix_ms: u64,
        reply: Result<AuthenticatedUserModel, AuthErrorModel>,
        after: Self,
    ) -> bool {
        (after@, reply) == before@.authenticated(session_token_hash, now_unix_ms)
    }

    open spec fn rotates(
        before: Self,
        old_session_token_hash: Seq<char>,
        new_session: UserSessionRecordModel,
        now_unix_ms: u64,
        reply: Result<AuthenticatedUserModel, AuthErrorModel>,
        after: Self,
    ) -> bool {
        (after@, reply) == before@.rotated(old_session_token_hash, new_session, now_unix_ms)
    }

    fn create_guest_session(&mut self, user: UserRecord, session: UserSessionRecord) -> (r: Result<
        (),
        AuthError,
    >) {
        let user_id = user.user_id.clone();
        let session_token_hash = session.session_token_hash.clone();
        self.users.insert(user_id.clone(), user);
        self.insert_session(session);
        self.session_token_index.insert(session_token_hash, user_id);
        Ok(())
    }

    fn authenticate_session(&mut self, session_token_hash: &str, now_unix_ms: u64) -> (r: Result<
        AuthenticatedUser,
        AuthError,
    >) {
        match self.live_session(session_token_hash, now_unix_ms) {
            None => Err(AuthError::InvalidSession),
            Some((user_id, place)) => {
                let mut session = self.sessions[place].clone();
                session.last_seen_at_unix_ms = Some(now_unix_ms);
                self.put_session(place, session);
                self.see_user(user_id.as_str(), now_unix_ms)
            },
        }
    }

    fn rotate_session(
        &mut self,
        old_session_token_hash: &str,
        new_session: UserSessionRecord,
        now_unix_ms: u64,
    ) -> (r: Result<AuthenticatedUser, AuthError>) {
        match self.live_session(old_session_token_hash, now_unix_ms) {
            None => Err(AuthError::InvalidSession),
            Some((user_id, place)) => {
                let mut session = self.sessions[place].clone();
                session.revoked_at_unix_ms = Some(now_unix_ms);
                session.last_seen_at_unix_ms = Some(now_unix_ms);
                self.put_session(place, session);
                self.session_token_index.remove(old_session_token_hash);
                match self.see_user(user_id.as_str(), now_unix_ms) {
                    Err(error) => Err(error),
                    Ok(user) => {
                        let session_token_hash = new_session.session_token_hash.clone();
                        let mut session = new_session;
                        session.user_id = user_id.clone();
                        self.insert_session(session);
                        self.session_token_index.insert(session_token_hash, user_id);
                        Ok(user)
                    },
                }
            },
        }
    }
}

// ---------------------------------------------------------------------------
// The service
// ---------------------------------------------------------------------------

/// The name that a display name is shown as: without the white space around it, and at most
/// thirty-two bytes long. Any other name is refused.
pub open spec fn shown_name(display_name: Seq<char>) -> Option<Seq<char>> {
    let name = trimmed(display_name);
    if name.len() == 0 || encode_utf8(name).len() > 32 {
        None
    } else {
        Some(name)
    }
}

pub fn normalize_display_name(display_name: &str) -> (r: Result<String, AuthError>)
    ensures
        auth_result(r) == match shown_name(display_name@) {
            Some(name) => Ok(name),
            None => Err(AuthErrorModel::InvalidDisplayName),
        },
{
    let name = trim(display_name);
    if name.as_str().is_empty() || name.as_str().as_bytes().len() > 32 {
        Err(AuthError::InvalidDisplayName)
    } else {
        Ok(name)
    }
}

/// A session token made of two random ids.
pub open spec fn session_token_of(first: Seq<char>, second: Seq<char>) -> Seq<char> {
    "gst_"@ + first + second
}

/// Whether a text is a session token as this service makes them.
pub open spec fn is_session_token(token: Seq<char>) -> bool {
    exists|first: Seq<char>, second: Seq<char>|
        is_random_id(first) && is_random_id(second) && token == #[trigger] session_token_of(
            first,
            second,
        )
}

/// Whether a text is a random id behind a prefix.
pub open spec fn is_named_id(text: Seq<char>, prefix: Seq<char>) -> bool {
    exists|id: Seq<char>| is_random_id(id) && text == #[trigger] (prefix + id)
}

fn build_session_token() -> (r: String)
    ensures
        is_session_token(r@),
{
    let first = random_id();
    let second = random_id();
    let token = concat3("gst_", first.as_str(), second.as_str());
    assert(token@ == session_token_of(first@, second@));
    token
}

fn named_id(prefix: &str) -> (r: String)
    ensures
        is_named_id(r@, prefix@),
{
    let id = random_id();
    concat(prefix, id.as_str())
}

/// A new guest.
pub open spec fn guest_user(user_id: Seq<char>, name: Seq<char>, now: u64) -> UserRecordModel {
    UserRecordModel {
        user_id,
        display_name: name,
        auth_provider: "guest"@,
        auth_subject: None,
        created_at_unix_ms: now,
        updated_at_unix_ms: now,
        last_seen_at_unix_ms: Some(now),
    }
}

/// A new session.
pub open spec fn new_session(
    session_id: Seq<char>,
    user_id: Seq<char>,
    session_token: Seq<char>,
    now: u64,
    ttl_ms: u64,
) -> UserSessionRecordModel {
    UserSessionRecordModel {
        session_id,
        user_id,
        session_token_hash: token_hash(session_token),
        issued_at_unix_ms: now,
        expires_at_unix_ms: (now + ttl_ms) as u64,
        revoked_at_unix_ms: None,
        last_seen_at_unix_ms: Some(now),
    }
}

/// The token of an authorization header, or what is wrong with the header.
pub open spec fn bearer_token(header: Option<Seq<char>>) -> Result<Seq<char>, AuthErrorModel> {
    match header {
        None => Err(AuthErrorModel::MissingAuthorization),
        Some(value) => match after_prefix(value, "Bearer "@) {
            None => Err(AuthErrorModel::InvalidAuthorization),
            Some(token) => Ok(trimmed(token)),
        },
    }
}

/// Reads the token of an authorization header.
pub fn read_bearer_token(header: Option<&str>) -> (r: Result<String, AuthError>)
    ensures
        auth_result(r) == bearer_token(
            match header {
                Some(value) => Some(value@),
                None => None,
            },
        ),
{
    match header {
        None => Err(AuthError::MissingAuthorization),
        Some(value) => match strip_prefix(value, "Bearer ") {
            None => Err(AuthError::InvalidAuthorization),
            Some(token) => Ok(trim(token.as_str())),
        },
    }
}

/// Gives out sessions and confirms them.
pub struct AuthService<R> {
    pub repo: R,
    pub session_ttl_ms: u64,
}

impl AuthService<InMemoryAuthRepository> {
    /// A service that keeps everything in memory.
    pub fn in_memory(session_ttl_ms: u64) -> (r: AuthService<InMemoryAuthRepository>)
        ensures
            r.session_ttl_ms == session_ttl_ms,
            r.repo@ == (AuthStoreModel {
                users: Map::empty(),
                sessions: Seq::empty(),
                session_token_index: Map::empty(),
            }),
    {
        AuthService::new(InMemoryAuthRepository::new(), session_ttl_ms)
    }
}

impl Default for AuthService<InMemoryAuthRepository> {
    fn default() -> (r: Self)
        ensures
            r.session_ttl_ms == DEFAULT_SESSION_TTL_MS,
            r.repo@ == (AuthStoreModel {
                users: Map::empty(),
                sessions: Seq::empty(),
                session_token_index: Map::empty(),
            }),
    {
        AuthService::in_memory(DEFAULT_SESSION_TTL_MS)
    }
}

impl<R: AuthRepository> AuthService<R> {
    pub fn new(repo: R, session_ttl_ms: u64) -> (r: AuthService<R>)
        ensures
            r == (AuthService { repo, session_ttl_ms }),
    {
        AuthService { repo, session_ttl_ms }
    }

    /// Creates a guest with given ids and a given token.
    pub fn register_guest_as(
        &mut self,
        display_name: &str,
        user_id: String,
        session_id: String,
        session_token: String,
        now: u64,
    ) -> (r: Result<SessionView, AuthError>)
        requires
            now + old(self).session_ttl_ms <= u64::MAX,
        ensures
            final(self).session_ttl_ms == old(self).session_ttl_ms,
            match shown_name(display_name@) {
                None => auth_result(r) == Err::<SessionViewModel, AuthErrorModel>(
                    AuthErrorModel::InvalidDisplayName,
                ) && *final(self) == *old(self),
                Some(name) => exists|reply: Result<(), AuthErrorModel>|
                    #[trigger] R::creates(
                        old(self).repo,
                        guest_user(user_id@, name, now),
                        new_session(
                            session_id@,
                            user_id@,
                            session_token@,
                            now,
                            old(self).session_ttl_ms,
                        ),
                        reply,
                        final(self).repo,
                    ) && auth_result(r) == match reply {
                        Err(error) => Err(error),
                        Ok(_) => Ok(
                            SessionViewModel {
                                user_id: user_id@,
                                display_name: name,
                                session_token: session_token@,
                                expires_at_unix_ms: (now + old(self).session_ttl_ms) as u64,
                            },
                        ),
                    },
            },
    {
        let display_name = match normalize_display_name(display_name) {
            Err(error) => {
                return Err(error);
            },
            Ok(name) => name,
        };
        let session_token_hash = hash_session_token(session_token.as_str());
        let expires_at_unix_ms: u64 = now + self.session_ttl_ms;
        let user = UserRecord {
            user_id: user_id.clone(),
            display_name: display_name.clone(),
            auth_provider: String::from_str("guest"),
            auth_subject: None,
            created_at_unix_ms: now,
            updated_at_unix_ms: now,
            last_seen_at_unix_ms: Some(now),
        };
        let session = UserSessionRecord {
            session_id,
            user_id: user_id.clone(),
            session_token_hash,
            issued_at_unix_ms: now,
            expires_at_unix_ms,
            revoked_at_unix_ms: None,
            last_seen_at_unix_ms: Some(now),
        };
        let ghost before = self.repo;
        let ghost guest = guest_user(user_id@, display_name@, now);
        let ghost first = new_session(session_id@, user_id@, session_token@, now, self.session_ttl_ms);
        assert(user@ =~= guest);
        assert(session@ =~= first);
        let reply = self.repo.create_guest_session(user, session);
        assert(R::creates(before, guest, first, auth_done(reply), self.repo));
        match reply {
            Err(error) => Err(error),
            Ok(_) => Ok(SessionView { user_id, display_name, session_token, expires_at_unix_ms }),
        }
    }

    /// Creates a guest with random ids, and a first session. The name is the only thing that can
    /// be wrong with a request.
    pub fn register_guest(&mut self, display_name: &str, now: u64) -> (r: Result<
        SessionView,
        AuthError,
    >)
        requires
            now + old(self).session_ttl_ms <= u64::MAX,
        ensures
            final(self).session_ttl_ms == old(self).session_ttl_ms,
            match shown_name(display_name@) {
                None => auth_result(r) == Err::<SessionViewModel, AuthErrorModel>(
                    AuthErrorModel::InvalidDisplayName,
                ) && *final(self) == *old(self),
                Some(name) => exists|
                    user_id: Seq<char>,
                    session_id: Seq<char>,
                    session_token: Seq<char>,
                    reply: Result<(), AuthErrorModel>,
                |
                    {
                        &&& is_named_id(user_id, "usr_"@)
                        &&& is_named_id(session_id, "sess_"@)
                        &&& is_session_token(session_token)
                        &&& #[trigger] R::creates(
                            old(self).repo,
                            guest_user(user_id, name, now),
                            #[trigger] new_session(
                                session_id,
                                user_id,
                                session_token,
                                now,
                                old(self).session_ttl_ms,
                            ),
                            reply,
                            final(self).repo,
                        )
                        &&& auth_result(r) == match reply {
                            Err(error) => Err(error),
                            Ok(_) => Ok(
                                SessionViewModel {
                                    user_id,
                                    display_name: name,
                                    session_token,
                                    expires_at_unix_ms: (now + old(self).session_ttl_ms) as u64,
                                },
                            ),
                        }
                    },
            },
    {
        let user_id = named_id("usr_");
        let session_id = named_id("sess_");
        let session_token = build_session_token();
        self.register_guest_as(display_name, user_id, session_id, session_token, now)
    }

    /// Puts a session with a given id and token in the place of an old one.
    pub fn refresh_session_as(
        &mut self,
        session_token: &str,
        new_session_id: String,
        new_session_token: String,
        now: u64,
    ) -> (r: Result<SessionView, AuthError>)
        requires
            now + old(self).session_ttl_ms <= u64::MAX,
        ensures
            final(self).session_ttl_ms == old(self).session_ttl_ms,
            exists|reply: Result<AuthenticatedUserModel, AuthErrorModel>|
                #[trigger] R::rotates(
                    old(self).repo,
                    token_hash(session_token@),
                    new_session(
                        new_session_id@,
                        Seq::empty(),
                        new_session_token@,
                        now,
                        old(self).session_ttl_ms,
                    ),
                    now,
                    reply,
                    final(self).repo,
                ) && auth_result(r) == match reply {
                    Err(error) => Err(error),
                    Ok(user) => Ok(
                        SessionViewModel {
                            user_id: user.user_id,
                            display_name: user.display_name,
                            session_token: new_session_token@,
                            expires_at_unix_ms: (now + old(self).session_ttl_ms) as u64,
                        },
                    ),
                },
    {
        let session_token_hash = hash_session_token(new_session_token.as_str());
        let expires_at_unix_ms: u64 = now + self.session_ttl_ms;
        let old_session_token_hash = hash_session_token(session_token);
        let session = UserSessionRecord {
            session_id: new_session_id,
            user_id: String::new(),
            session_token_hash,
            issued_at_unix_ms: now,
            expires_at_unix_ms,
            revoked_at_unix_ms: None,
            last_seen_at_unix_ms: Some(now),
        };
        let ghost before = self.repo;
        let ghost next = new_session(
            new_session_id@,
            Seq::empty(),
            new_session_token@,
            now,
            self.session_ttl_ms,
        );
        assert(session@ =~= next);
        let reply = self.repo.rotate_session(old_session_token_hash.as_str(), session, now);
        assert(R::rotates(
            before,
            token_hash(session_token@),
            next,
            now,
            auth_result(reply),
            self.repo,
        ));
        match reply {
            Err(error) => Err(error),
            Ok(user) => Ok(
                SessionView {
                    user_id: user.user_id,
                    display_name: user.display_name,
                    session_token: new_session_token,
                    expires_at_unix_ms,
                },
            ),
        }
    }

    /// Puts a new session in the place of an old one: the old token is void from now on.
    pub fn refresh_session(&mut self, session_token: &str, now: u64) -> (r: Result<
        SessionView,
        AuthError,
    >)
        requires
            now + old(self).session_ttl_ms <= u64::MAX,
        ensures
            final(self).session_ttl_ms == old(self).session_ttl_ms,
            exists|
                session_id: Seq<char>,
                new_session_token: Seq<char>,
                reply: Result<AuthenticatedUserModel, AuthErrorModel>,
            |
                {
                    &&& is_named_id(session_id, "sess_"@)
                    &&& is_session_token(new_session_token)
                    &&& #[trigger] R::rotates(
                        old(self).repo,
                        token_hash(session_token@),
                        #[trigger] new_session(
                            session_id,
                            Seq::empty(),
                            new_session_token,
                            now,
                            old(self).session_ttl_ms,
                        ),
                        now,
                        reply,
                        final(self).repo,
                    )
                    &&& auth_result(r) == match reply {
                        Err(error) => Err(error),
                        Ok(user) => Ok(
                            SessionViewModel {
                                user_id: user.user_id,
                                display_name: user.display_name,
                                session_token: new_session_token,
                                expires_at_unix_ms: (now + old(self).session_ttl_ms) as u64,
                            },
                        ),
                    }
                },
    {
        let session_id = named_id("sess_");
        let new_session_token = build_session_token();
        self.refresh_session_as(session_token, session_id, new_session_token, now)
    }

    /// Tells who a token belongs to.
    pub fn authenticate_session(&mut self, session_token: &str, now: u64) -> (r: Result<
        AuthenticatedUser,
        AuthError,
    >)
        ensures
            final(self).session_ttl_ms == old(self).session_ttl_ms,
            R::confirms(
                old(self).repo,
                token_hash(session_token@),
                now,
                auth_result(r),
                final(self).repo,
            ),
    {
        let session_token_hash = hash_session_token(session_token);
        self.repo.authenticate_session(session_token_hash.as_str(), now)
    }

    /// Tells who the token of an authorization header belongs to.
    pub fn authenticate_bearer(&mut self, header: Option<&str>, now: u64) -> (r: Result<
        AuthenticatedUser,
        AuthError,
    >)
        ensures
            final(self).session_ttl_ms == old(self).session_ttl_ms,
            match bearer_token(
                match header {
                    Some(value) => Some(value@),
                    None => None,
                },
            ) {
                Err(error) => auth_result(r) == Err::<AuthenticatedUserModel, AuthErrorModel>(error)
                    && *final(self) == *old(self),
                Ok(token) => R::confirms(
                    old(self).repo,
                    token_hash(token),
                    now,
                    auth_result(r),
                    final(self).repo,
                ),
            },
    {
        match read_bearer_token(header) {
            Err(error) => Err(error),
            Ok(token) => self.authenticate_session(token.as_str(), now),
        }
    }
}

// ---------------------------------------------------------------------------
// What sessions promise
// ---------------------------------------------------------------------------

/// Whether no session has used a token hash or a session id yet.
pub open spec fn is_fresh(store: AuthStoreModel, session: UserSessionRecordModel) -> bool {
    forall|i: int|
        0 <= i < store.sessions.len() ==> #[trigger] store.sessions[i].session_token_hash
            != session.session_token_hash && store.sessions[i].session_id != session.session_id
}

/// Where nothing matches before the end, the last session is found.
proof fn lemma_pushed_session(sessions: Seq<UserSessionRecordModel>, session: UserSessionRecordModel)
    requires
        forall|i: int|
            0 <= i < sessions.len() ==> #[trigger] sessions[i].session_token_hash
                != session.session_token_hash && sessions[i].session_id != session.session_id,
    ensures
        with_session(sessions, session) == sessions.push(session),
        session_place(sessions.push(session), session.user_id, session.session_token_hash) == Some(
            sessions.len() as int,
        ),
    decreases sessions.len(),
{
    lemma_session_id_place(sessions, session.session_id);
    if let Some(place) = session_id_place(sessions, session.session_id) {
        assert(sessions[place].session_token_hash != session.session_token_hash);
    }
    if sessions.len() > 0 {
        let rest = sessions.drop_first();
        assert forall|i: int| 0 <= i < rest.len() implies #[trigger] rest[i].session_token_hash
            != session.session_token_hash && rest[i].session_id != session.session_id by {
            assert(rest[i] == sessions[i + 1]);
        }
        lemma_pushed_session(rest, session);
        assert(sessions.push(session).drop_first() =~= rest.push(session));
        assert(sessions[0].session_token_hash != session.session_token_hash);
    }
}

/// A guest who was just registered is recognised by the token until the session expires.
pub proof fn law_registered_guest_is_recognised(
    store: AuthStoreModel,
    user: UserRecordModel,
    session: UserSessionRecordModel,
    now: u64,
)
    requires
        session.user_id == user.user_id,
        session.revoked_at_unix_ms is None,
        is_fresh(store, session),
    ensures
        store.created(user, session).authenticated(session.session_token_hash, now).1 == if now
            < session.expires_at_unix_ms {
            Ok(user_told(user))
        } else {
            Err(AuthErrorModel::InvalidSession)
        },
{
    lemma_pushed_session(store.sessions, session);
}

/// Refreshing a session makes the old token void, whether it was known or not, and the new token
/// stands for the same user until it expires.
pub proof fn law_refreshing_replaces_the_token(
    store: AuthStoreModel,
    old_hash: Seq<char>,
    new: UserSessionRecordModel,
    now: u64,
    later: u64,
)
    requires
        new.revoked_at_unix_ms is None,
        new.session_token_hash != old_hash,
        is_fresh(store, new),
    ensures
        ({
            let (after, reply) = store.rotated(old_hash, new, now);
            &&& reply is Err ==> reply == Err::<AuthenticatedUserModel, AuthErrorModel>(
                AuthErrorModel::InvalidSession,
            )
            &&& now <= later ==> after.authenticated(old_hash, later).1 == Err::<
                AuthenticatedUserModel,
                AuthErrorModel,
            >(AuthErrorModel::InvalidSession)
            &&& reply matches Ok(user) ==> after.authenticated(new.session_token_hash, later).1
                == if later < new.expires_at_unix_ms {
                Ok(user)
            } else {
                Err(AuthErrorModel::InvalidSession)
            }
        }),
{
    if let Some(place) = store.place_of(old_hash) {
        let user_id = store.session_token_index[old_hash];
        lemma_session_place(store.sessions, user_id, old_hash);
        if is_live(store.sessions[place], now) {
            let revoked = store.revoked(place, old_hash, now);
            let named = UserSessionRecordModel { user_id, ..new };
            assert forall|i: int|
                0 <= i < revoked.sessions.len() implies #[trigger] revoked.sessions[i].session_token_hash
                != named.session_token_hash && revoked.sessions[i].session_id != named.session_id by {
                assert(store.sessions[i].session_token_hash != new.session_token_hash);
            }
            lemma_pushed_session(revoked.sessions, named);
        }
    }
}

/// A token is exchanged at most once: whatever came of the first attempt, a second one is refused
/// and changes nothing, and so is whoever shows the token. After an exchange that succeeded this
/// holds at any time, after one that was refused it holds from then on.
pub proof fn law_tokens_are_exchanged_once(
    store: AuthStoreModel,
    old_hash: Seq<char>,
    new: UserSessionRecordModel,
    newer: UserSessionRecordModel,
    now: u64,
    later: u64,
)
    requires
        new.session_token_hash != old_hash,
    ensures
        ({
            let (after, reply) = store.rotated(old_hash, new, now);
            &&& reply is Ok || now <= later ==> {
                &&& after.rotated(old_hash, newer, later) == (
                    after,
                    Err::<AuthenticatedUserModel, AuthErrorModel>(AuthErrorModel::InvalidSession),
                )
                &&& after.authenticated(old_hash, later) == (
                    after,
                    Err::<AuthenticatedUserModel, AuthErrorModel>(AuthErrorModel::InvalidSession),
                )
            }
            &&& reply is Ok ==> !after.session_token_index.contains_key(old_hash)
        }),
{
}

/// A token that stands for nobody is refused, and goes on to stand for nobody whatever is done with
/// other tokens.
pub proof fn law_void_tokens_stay_void(
    store: AuthStoreModel,
    void_hash: Seq<char>,
    user: UserRecordModel,
    hash: Seq<char>,
    session: UserSessionRecordModel,
    now: u64,
)
    requires
        !store.session_token_index.contains_key(void_hash),
        session.session_token_hash != void_hash,
    ensures
        store.authenticated(void_hash, now).1 is Err,
        store.rotated(void_hash, session, now).1 is Err,
        !store.created(user, session).session_token_index.contains_key(void_hash),
        !store.authenticated(hash, now).0.session_token_index.contains_key(void_hash),
        !store.rotated(hash, session, now).0.session_token_index.contains_key(void_hash),
{
}

/// A guest who was registered is known by the token that they were given, under the id and the name
/// that they registered with, until the session has lasted its time, and by nobody else's word.
pub proof fn law_guests_are_known_by_their_token(
    store: AuthStoreModel,
    user_id: Seq<char>,
    name: Seq<char>,
    session_id: Seq<char>,
    token: Seq<char>,
    now: u64,
    ttl_ms: u64,
    later: u64,
)
    requires
        now + ttl_ms <= u64::MAX,
        is_fresh(store, new_session(session_id, user_id, token, now, ttl_ms)),
    ensures
        ({
            let reply = store.created(
                guest_user(user_id, name, now),
                new_session(session_id, user_id, token, now, ttl_ms),
            ).authenticated(token_hash(token), later).1;
            &&& reply is Ok <==> later < now + ttl_ms
            &&& reply matches Ok(user) ==> user.user_id == user_id && user.display_name == name
                && user.auth_provider == "guest"@
            &&& reply matches Err(error) ==> error is InvalidSession
        }),
{
    law_registered_guest_is_recognised(
        store,
        guest_user(user_id, name, now),
        new_session(session_id, user_id, token, now, ttl_ms),
        later,
    );
}

/// A display name is shown without the white space around it, if anything is left then and it takes
/// at most thirty-two bytes; any other name is refused.
pub proof fn law_names_are_shown_trimmed(display_name: Seq<char>)
    ensures
        shown_name(display_name) matches Some(name) ==> {
            &&& exists|from: int| crate::text::is_inside(name, display_name, from)
            &&& name.len() > 0 && !crate::text::is_white(name[0]) && !crate::text::is_white(
                name.last(),
            )
            &&& encode_utf8(name).len() <= 32
        },
        shown_name(display_name) is None ==> encode_utf8(display_name).len() > 32 || forall|i: int|
            0 <= i < display_name.len() ==> crate::text::is_white(#[trigger] display_name[i]),
{
    crate::text::law_trimming_takes_white_space(display_name);
    let name = trimmed(display_name);
    let from = choose|from: int| crate::text::is_inside(name, display_name, from);
    if name.len() > 0 && encode_utf8(name).len() > 32 {
        lemma_part_is_shorter(display_name, from, from + name.len());
    }
}

/// A part of a text takes no more bytes than the whole.
proof fn lemma_part_is_shorter(text: Seq<char>, from: int, to: int)
    requires
        0 <= from <= to <= text.len(),
    ensures
        encode_utf8(text.subrange(from, to)).len() <= encode_utf8(text).len(),
{
    let head = text.subrange(0, from);
    let part = text.subrange(from, to);
    let tail = text.subrange(to, text.len() as int);
    assert(text =~= head + part + tail);
    lemma_bytes_add_up(head + part, tail);
    lemma_bytes_add_up(head, part);
}

proof fn lemma_bytes_add_up(a: Seq<char>, b: Seq<char>)
    ensures
        encode_utf8(a + b).len() == encode_utf8(a).len() + encode_utf8(b).len(),
    decreases a.len(),
{
    if a.len() == 0 {
        assert(a + b =~= b);
    } else {
        lemma_bytes_add_up(a.drop_first(), b);
        assert((a + b).drop_first() =~= a.drop_first() + b);
        assert((a + b)[0] == a[0]);
    }
}

/// The token of an authorization header is what stands behind the word for it, without the white space
/// around it; a header without that word is refused, and so is none.
pub proof fn law_tokens_are_read_from_their_header(token: Seq<char>, header: Seq<char>)
    ensures
        bearer_token(Some("Bearer "@ + token)) == Ok::<Seq<char>, AuthErrorModel>(trimmed(token)),
        !("Bearer "@.is_prefix_of(header)) ==> bearer_token(Some(header)) == Err::<
            Seq<char>,
            AuthErrorModel,
        >(AuthErrorModel::InvalidAuthorization),
        bearer_token(None) == Err::<Seq<char>, AuthErrorModel>(AuthErrorModel::MissingAuthorization),
{
    let whole = "Bearer "@ + token;
    assert("Bearer "@.is_prefix_of(whole)) by {
        assert(whole.subrange(0, "Bearer "@.len() as int) =~= "Bearer "@);
    }
    assert(whole.skip("Bearer "@.len() as int) =~= token);
}

/// Whoever is recognised by a token was seen at that time, and so was their session; no other user and no
/// other session is touched. A token that has run out leaves no trace.
pub proof fn law_recognised_users_are_seen(store: AuthStoreModel, hash: Seq<char>, now: u64)
    ensures
        ({
            let (after, reply) = store.authenticated(hash, now);
            let user_id = store.session_token_index[hash];
            &&& reply is Ok ==> {
                &&& after.users.dom() == store.users.dom()
                &&& after.users[user_id].last_seen_at_unix_ms == Some(now)
                &&& after.users[user_id].display_name == store.users[user_id].display_name
                &&& forall|other: Seq<char>|
                    other != user_id && store.users.contains_key(other) ==> #[trigger]
                        after.users[other] == store.users[other]
                &&& after.session_token_index == store.session_token_index
                &&& after.sessions.len() == store.sessions.len()
                &&& forall|i: int|
                    0 <= i < store.sessions.len() ==> (#[trigger] after.sessions[i] == store.sessions[i]
                        || after.sessions[i].last_seen_at_unix_ms == Some(now)
                        && after.sessions[i].session_token_hash
                        == store.sessions[i].session_token_hash
                        && after.sessions[i].expires_at_unix_ms
                        == store.sessions[i].expires_at_unix_ms
                        && after.sessions[i].revoked_at_unix_ms
                        == store.sessions[i].revoked_at_unix_ms)
            }
            &&& reply is Err && store.users.contains_key(user_id) ==> after == store
        }),
{
    let (after, reply) = store.authenticated(hash, now);
    lemma_session_place(store.sessions, store.session_token_index[hash], hash);
    if reply is Ok {
        assert(after.users.dom() =~= store.users.dom());
    }
}

} // verus!
