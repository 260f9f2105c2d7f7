//! Users: the profile, its validation, and the plans that persist it.

use crate::outside::{fresh_id, pattern_accepts, pattern_matches, unix_now};
use crate::reconcile::{missing, reconcile, same_members};
use crate::session::{pick_session, session_for, state_at, token_state, Session, TokenState};
use crate::statement::{join, plan_view, Statement, StatementView};
use crate::text::{clone_opt, opt_view, same_opt};
use vstd::prelude::*;

verus! {

/// How far a user has come: counters for course, unit, sector, level and task.
#[derive(Debug, Clone, Copy, PartialEq, Eq, Structural)]
pub struct UserProgress {
    pub course: u32,
    pub unit: u32,
    pub sector: u32,
    pub level: u32,
    pub task: u32,
}

impl UserProgress {
    /// Every counter at zero.
    pub fn new() -> (progress: UserProgress)
        ensures
            progress == (UserProgress { course: 0, unit: 0, sector: 0, level: 0, task: 0 }),
    {
        UserProgress { course: 0, unit: 0, sector: 0, level: 0, task: 0 }
    }
}

/// A user's level and the experience gathered on it.
#[derive(Debug, Clone, Copy, PartialEq, Eq, Structural)]
pub struct UserLevel {
    pub level: u32,
    pub xp: u32,
}

impl UserLevel {
    /// Level zero, with no experience.
    pub fn new() -> (level: UserLevel)
        ensures
            level == (UserLevel { level: 0, xp: 0 }),
    {
        UserLevel { level: 0, xp: 0 }
    }
}

/// One row of the users table.
#[derive(Debug)]
pub struct UserRow {
    pub id: u128,
    pub password_hash: String,
    pub username: String,
    pub email: Option<String>,
    pub phone: Option<String>,
    pub bio: Option<String>,
    pub level: UserLevel,
}

/// What a users row holds.
pub struct UserRowView {
    pub id: u128,
    pub password_hash: Seq<char>,
    pub username: Seq<char>,
    pub email: Option<Seq<char>>,
    pub phone: Option<Seq<char>>,
    pub bio: Option<Seq<char>>,
    pub level: UserLevel,
}

impl View for UserRow {
    type V = UserRowView;

    open spec fn view(&self) -> UserRowView {
        UserRowView {
            id: self.id,
            password_hash: self.password_hash@,
            username: self.username@,
            email: opt_view(self.email),
            phone: opt_view(self.phone),
            bio: opt_view(self.bio),
            level: self.level,
        }
    }
}

/// A user. `friends` is a set of user ids: order and repetition carry no
/// meaning. `auth_token` is set only on the value that a login hands out.
#[derive(Debug)]
pub struct User {
    pub id: u128,
    pub password_hash: String,
    pub username: String,
    pub email: Option<String>,
    pub phone: Option<String>,
    pub bio: Option<String>,
    pub friends: Vec<u128>,
    pub level: UserLevel,
    pub progress: UserProgress,
    pub auth_token: Option<u128>,
}

/// What a user holds: the row of the users table, the friends, the progress
/// and the session token.
pub struct UserView {
    pub row: UserRowView,
    pub friends: Seq<u128>,
    pub progress: UserProgress,
    pub auth_token: Option<u128>,
}

impl View for User {
    type V = UserView;

    open spec fn view(&self) -> UserView {
        UserView {
            row: UserRowView {
                id: self.id,
                password_hash: self.password_hash@,
                username: self.username@,
                email: opt_view(self.email),
                phone: opt_view(self.phone),
                bio: opt_view(self.bio),
                level: self.level,
            },
            friends: self.friends@,
            progress: self.progress,
            auth_token: self.auth_token,
        }
    }
}

/// A failure of the store itself, with the message it gave.
#[derive(Debug)]
pub struct StorageFailure {
    pub message: String,
}

/// Why a registration or a login was turned down.
#[derive(Debug)]
pub enum UserError {
    UsernameExists,
    NoSuchUser,
    BadCredentials,
    BadEmail,
    BadPhone,
    MissingFields,
    DatabaseError(StorageFailure),
}

/// Why a token does not authorize a request.
#[derive(Debug, Clone, Copy, PartialEq, Eq, Structural)]
pub enum AuthorizationError {
    NoTokenInUser,
    TokenNotInDatabase,
    TokenExpired,
    NotAuthorized,
}

/// Why an entity could not be read.
#[derive(Debug, Clone, Copy, PartialEq, Eq, Structural)]
pub enum ReadError {
    /// No row carries the id.
    NotFound,
    /// The row is there, but its payload is not of the expected variant.
    BadPayload,
}

impl UserRow {
    /// A copy of the row.
    pub fn clone_row(&self) -> (copy: UserRow)
        ensures
            copy == *self,
    {
        UserRow {
            id: self.id,
            password_hash: self.password_hash.clone(),
            username: self.username.clone(),
            email: clone_opt(&self.email),
            phone: clone_opt(&self.phone),
            bio: clone_opt(&self.bio),
            level: self.level,
        }
    }
}

impl User {
    /// The row of the users table that holds this user.
    pub fn row(&self) -> (row: UserRow)
        ensures
            row@ == self@.row,
    {
        UserRow {
            id: self.id,
            password_hash: self.password_hash.clone(),
            username: self.username.clone(),
            email: clone_opt(&self.email),
            phone: clone_opt(&self.phone),
            bio: clone_opt(&self.bio),
            level: self.level,
        }
    }
}

/// The pattern that an email address is held against.
pub const EMAIL_PATTERN: &'static str =
    r#"(?:[a-z0-9!#$%&'*+/=?^_`{|}~-]+(?:\.[a-z0-9!#$%&'*+/=?^_`{|}~-]+)*|"(?:[\x01-\x08\x0b\x0c\x0e-\x1f\x21\x23-\x5b\x5d-\x7f]|\\[\x01-\x09\x0b\x0c\x0e-\x7f])*")@(?:(?:[a-z0-9](?:[a-z0-9-]*[a-z0-9])?\.)+[a-z0-9](?:[a-z0-9-]*[a-z0-9])?|\[(?:(?:25[0-5]|2[0-4][0-9]|[01]?[0-9][0-9]?)\.){3}(?:25[0-5]|2[0-4][0-9]|[01]?[0-9][0-9]?|[a-z0-9-]*[a-z0-9]:(?:[\x01-\x08\x0b\x0c\x0e-\x1f\x21-\x5a\x53-\x7f]|\\[\x01-\x09\x0b\x0c\x0e-\x7f])+)\])"#;

/// The pattern that a phone number is held against: nine digits, with or
/// without the prefix +48.
pub const PHONE_PATTERN: &'static str = r#"^(?:\+48)?[0-9]{9}$"#;

/// The greatest length, in bytes, that an email address may have.
pub const EMAIL_LIMIT: usize = 128;

/// The greatest length, in bytes, that a phone number may have.
pub const PHONE_LIMIT: usize = 32;

/// The length of a text in bytes, as `str::len` gives it.
pub open spec fn byte_length(text: Seq<char>) -> usize {
    vstd::utf8::encode_utf8(text).len() as usize
}

/// What a pattern makes of a contact field, if the field is given.
pub open spec fn match_of(pattern: Seq<char>, text: Option<Seq<char>>) -> Option<bool> {
    match text {
        Some(given) => pattern_accepts(pattern, given),
        None => None,
    }
}

/// Whether a contact field is malformed: it is, unless it matches its pattern
/// and fits within its limit.
pub open spec fn malformed(matches: Option<bool>, text: Seq<char>, limit: usize) -> bool {
    matches != Some(true) || byte_length(text) > limit
}

/// Why a registration is turned down, if it is. The checks run in this order:
/// the lookup of the username failed; the username is taken; neither email
/// nor phone is given; the email is malformed; the phone is malformed.
pub open spec fn refusal(
    lookup: Result<Option<u128>, StorageFailure>,
    email: Option<Seq<char>>,
    phone: Option<Seq<char>>,
    email_matches: Option<bool>,
    phone_matches: Option<bool>,
) -> Option<UserError> {
    match lookup {
        Err(failure) => Some(UserError::DatabaseError(failure)),
        Ok(Some(_)) => Some(UserError::UsernameExists),
        Ok(None) => if email is None && phone is None {
            Some(UserError::MissingFields)
        } else if email matches Some(address) && malformed(email_matches, address, EMAIL_LIMIT) {
            Some(UserError::BadEmail)
        } else if phone matches Some(number) && malformed(phone_matches, number, PHONE_LIMIT) {
            Some(UserError::BadPhone)
        } else {
            None
        },
    }
}

/// The user that a registration creates: no bio, no friends, level and
/// progress at zero, not logged in.
pub open spec fn registered(
    id: u128,
    username: Seq<char>,
    password_hash: Seq<char>,
    email: Option<Seq<char>>,
    phone: Option<Seq<char>>,
) -> UserView {
    UserView {
        row: UserRowView {
            id,
            password_hash,
            username,
            email,
            phone,
            bio: None,
            level: UserLevel { level: 0, xp: 0 },
        },
        friends: Seq::empty(),
        progress: UserProgress { course: 0, unit: 0, sector: 0, level: 0, task: 0 },
        auth_token: None,
    }
}

/// The statements that link a user to each of `friends`.
pub open spec fn friend_links(id: u128, friends: Seq<u128>) -> Seq<StatementView> {
    friends.map_values(|friend: u128| StatementView::InsertFriend(id, friend))
}

/// The statements that take the links of a user to each of `friends` away.
pub open spec fn friend_unlinks(id: u128, friends: Seq<u128>) -> Seq<StatementView> {
    friends.map_values(|friend: u128| StatementView::DeleteFriend(id, friend))
}

/// The plan that stores a new user: the row, the progress, the friends.
pub open spec fn creation_plan(user: UserView) -> Seq<StatementView> {
    seq![
        StatementView::InsertUser(user.row),
        StatementView::InsertProgress(user.row.id, user.progress),
    ] + friend_links(user.row.id, user.friends)
}

/// Whether two users have the same row, the same progress and the same set
/// of friends. The session token is no attribute of the stored user.
pub open spec fn same_user(left: UserView, right: UserView) -> bool {
    left.row == right.row && left.progress == right.progress && left.friends.to_set()
        == right.friends.to_set()
}

/// The plan that brings the stored user `persisted` in line with `user`:
/// nothing if they are the same; otherwise row and progress are written, the
/// friends that only `user` has are linked, and those that only the stored
/// user has are unlinked.
pub open spec fn update_plan(user: UserView, persisted: UserView) -> Seq<StatementView> {
    if same_user(user, persisted) {
        Seq::empty()
    } else {
        seq![
            StatementView::UpdateUser(user.row),
            StatementView::UpdateProgress(user.row.id, user.progress),
        ] + friend_links(user.row.id, missing(user.friends, persisted.friends)) + friend_unlinks(
            user.row.id,
            missing(persisted.friends, user.friends),
        )
    }
}

/// The plan that removes a user: what refers to the user first (progress,
/// links to and from friends, sessions, answers), then the row itself.
pub open spec fn deletion_plan(id: u128) -> Seq<StatementView> {
    seq![
        StatementView::DeleteProgress(id),
        StatementView::DeleteFriendsOf(id),
        StatementView::DeleteSessionsOf(id),
        StatementView::DeleteAnswersOf(id),
        StatementView::DeleteUser(id),
    ]
}

/// Whether a token is good at time `now`, given the session found for it: a
/// user without a token has none to check; a token that no session carries
/// is not in the store; a token whose session has run out has expired.
pub open spec fn validity(auth_token: Option<u128>, session: Option<Session>, now: i64) -> Result<
    (),
    AuthorizationError,
> {
    match auth_token {
        None => Err(AuthorizationError::NoTokenInUser),
        Some(token) => match state_at(session_for(token, session), now) {
            TokenState::Absent => Err(AuthorizationError::TokenNotInDatabase),
            TokenState::Expired => Err(AuthorizationError::TokenExpired),
            TokenState::Valid => Ok(()),
        },
    }
}

/// Whether the session found for a token belongs to the user `user_id`.
pub open spec fn ownership(auth_token: u128, user_id: u128, session: Option<Session>) -> Result<
    (),
    AuthorizationError,
> {
    match session_for(auth_token, session) {
        None => Err(AuthorizationError::TokenNotInDatabase),
        Some(row) => if row.user_id == user_id {
            Ok(())
        } else {
            Err(AuthorizationError::NotAuthorized)
        },
    }
}

/// Whether a token is good at time `now` and belongs to the user `user_id`.
pub open spec fn authorization(
    auth_token: Option<u128>,
    user_id: u128,
    session: Option<Session>,
    now: i64,
) -> Result<(), AuthorizationError> {
    match validity(auth_token, session, now) {
        Err(error) => Err(error),
        Ok(()) => ownership(auth_token->0, user_id, session),
    }
}

/// What a check of authorization at time `now` owes for each input: the
/// failure of the lookup, or else whether the token is good and belongs to
/// the user.
pub open spec fn authorized(
    auth_token: u128,
    user_id: u128,
    lookup: Result<Option<Session>, StorageFailure>,
    now: i64,
    result: Result<Result<(), AuthorizationError>, StorageFailure>,
) -> bool {
    match lookup {
        Err(failure) => result == Err::<Result<(), AuthorizationError>, StorageFailure>(failure),
        Ok(session) => result == Ok::<Result<(), AuthorizationError>, StorageFailure>(
            authorization(Some(auth_token), user_id, session, now),
        ),
    }
}

/// The user that the rows of the store make up: there is one if the row of
/// the users table and the row of user_progress are both there. It is not
/// logged in.
pub open spec fn assembled(
    row: Option<UserRowView>,
    friends: Seq<u128>,
    progress: Option<UserProgress>,
) -> Result<UserView, ReadError> {
    match (row, progress) {
        (Some(found), Some(counters)) => Ok(
            UserView { row: found, friends, progress: counters, auth_token: None },
        ),
        _ => Err(ReadError::NotFound),
    }
}

/// What a users row holds, if there is one.
pub open spec fn row_view(row: Option<UserRow>) -> Option<UserRowView> {
    match row {
        Some(found) => Some(found@),
        None => None,
    }
}

/// What a login at time `now` under `token` comes to: the failure of the
/// lookup; `NoSuchUser` if no user goes by the username; `BadCredentials` if
/// the password hash is not exactly the stored one; otherwise the user with
/// the token attached, and the plan that stores the session.
pub open spec fn login_outcome(
    username: Seq<char>,
    password_hash: Seq<char>,
    lookup: Result<Option<User>, StorageFailure>,
    token: u128,
    now: i64,
    result: Result<(User, Vec<Statement>), UserError>,
) -> bool {
    match lookup {
        Err(failure) => result == Err::<(User, Vec<Statement>), UserError>(
            UserError::DatabaseError(failure),
        ),
        Ok(None) => result == Err::<(User, Vec<Statement>), UserError>(UserError::NoSuchUser),
        Ok(Some(found)) => if found.username@ != username {
            result == Err::<(User, Vec<Statement>), UserError>(UserError::NoSuchUser)
        } else if found.password_hash@ != password_hash {
            result == Err::<(User, Vec<Statement>), UserError>(UserError::BadCredentials)
        } else {
            &&& result matches Ok((user, plan))
            &&& user@ == (UserView { auth_token: Some(token), ..found@ })
            &&& plan_view(plan@) == seq![
                StatementView::InsertSession(Session::issued(found.id, token, now)),
            ]
        },
    }
}

/// Whether a contact field is acceptable, given what its pattern made of it.
fn acceptable(matches: Option<bool>, text: &String, limit: usize) -> (fine: bool)
    ensures
        fine == !malformed(matches, text@, limit),
{
    let matched = match matches {
        Some(verdict) => verdict,
        None => false,
    };
    matched && text.as_str().len() <= limit
}

impl User {
    /// Registers a user. `lookup` is what the store answered when asked for
    /// the id of the user that goes by `username`.
    ///
    /// The registration is turned down as `refusal` says, with the email and
    /// the phone held against their patterns. Otherwise the new user comes
    /// back, under a fresh id.
    pub fn new(
        username: String,
        password_hash: String,
        email: Option<String>,
        phone: Option<String>,
        lookup: Result<Option<u128>, StorageFailure>,
    ) -> (result: Result<User, UserError>)
        ensures
            match refusal(
                lookup,
                opt_view(email),
                opt_view(phone),
                match_of(EMAIL_PATTERN@, opt_view(email)),
                match_of(PHONE_PATTERN@, opt_view(phone)),
            ) {
                Some(error) => result == Err::<User, UserError>(error),
                None => result matches Ok(user) && user@ == registered(
                    user.id,
                    username@,
                    password_hash@,
                    opt_view(email),
                    opt_view(phone),
                ),
            },
    {
        let email_matches = match &email {
            Some(address) => pattern_matches(EMAIL_PATTERN, address.as_str()),
            None => None,
        };
        let phone_matches = match &phone {
            Some(number) => pattern_matches(PHONE_PATTERN, number.as_str()),
            None => None,
        };
        User::register(
            fresh_id(),
            username,
            password_hash,
            email,
            phone,
            lookup,
            email_matches,
            phone_matches,
        )
    }

    /// Registers a user under the given id, given what the patterns made of
    /// the email and of the phone (`Some(true)` for a match).
    pub fn register(
        id: u128,
        username: String,
        password_hash: String,
        email: Option<String>,
        phone: Option<String>,
        lookup: Result<Option<u128>, StorageFailure>,
        email_matches: Option<bool>,
        phone_matches: Option<bool>,
    ) -> (result: Result<User, UserError>)
        ensures
            match refusal(lookup, opt_view(email), opt_view(phone), email_matches, phone_matches) {
                Some(error) => result == Err::<User, UserError>(error),
                None => result matches Ok(user) && user@ == registered(
                    id,
                    username@,
                    password_hash@,
                    opt_view(email),
                    opt_view(phone),
                ),
            },
    {
        match lookup {
            Err(failure) => {
                return Err(UserError::DatabaseError(failure));
            },
            Ok(Some(_)) => {
                return Err(UserError::UsernameExists);
            },
            Ok(None) => {},
        }
        if email.is_none() && phone.is_none() {
            return Err(UserError::MissingFields);
        }
        if let Some(address) = &email {
            if !acceptable(email_matches, address, EMAIL_LIMIT) {
                return Err(UserError::BadEmail);
            }
        }
        if let Some(number) = &phone {
            if !acceptable(phone_matches, number, PHONE_LIMIT) {
                return Err(UserError::BadPhone);
            }
        }
        Ok(
            User {
                id,
                password_hash,
                username,
                email,
                phone,
                bio: None,
                friends: Vec::new(),
                level: UserLevel::new(),
                progress: UserProgress::new(),
                auth_token: None,
            },
        )
    }

    /// A copy of this user.
    pub fn clone_user(&self) -> (copy: User)
        ensures
            copy@ == self@,
    {
        User {
            id: self.id,
            password_hash: self.password_hash.clone(),
            username: self.username.clone(),
            email: clone_opt(&self.email),
            phone: clone_opt(&self.phone),
            bio: clone_opt(&self.bio),
            friends: self.friends.clone(),
            level: self.level,
            progress: self.progress,
            auth_token: self.auth_token,
        }
    }

    /// Whether this user and `other` have the same row.
    pub fn same_row(&self, other: &User) -> (same: bool)
        ensures
            same == (self@.row == other@.row),
    {
        self.id == other.id && self.password_hash == other.password_hash && self.username
            == other.username && same_opt(&self.email, &other.email) && same_opt(
            &self.phone,
            &other.phone,
        ) && same_opt(&self.bio, &other.bio) && self.level.level == other.level.level
            && self.level.xp == other.level.xp
    }

    /// Whether this user and `other` are the same as far as the store holds
    /// them.
    pub fn same_attributes(&self, other: &User) -> (same: bool)
        ensures
            same == same_user(self@, other@),
    {
        self.same_row(other) && self.progress.course == other.progress.course
            && self.progress.unit == other.progress.unit && self.progress.sector
            == other.progress.sector && self.progress.level == other.progress.level
            && self.progress.task == other.progress.task && same_members(
            &self.friends,
            &other.friends,
        )
    }

    /// The plan that stores this user: the row, the progress, and a link to
    /// each friend.
    pub fn create(&self) -> (plan: Vec<Statement>)
        ensures
            plan_view(plan@) == creation_plan(self@),
    {
        let mut plan: Vec<Statement> = Vec::new();
        plan.push(Statement::InsertUser(self.row()));
        plan.push(Statement::InsertProgress(self.id, self.progress));
        assert(plan_view(plan@) =~= seq![
            StatementView::InsertUser(self@.row),
            StatementView::InsertProgress(self.id, self.progress),
        ]);
        join(plan, link_friends(self.id, &self.friends))
    }

    /// Puts together the user that the store holds: the row and the progress,
    /// if they are there, and the friends. The user is not logged in.
    pub fn read(row: Option<UserRow>, friends: Vec<u128>, progress: Option<UserProgress>) -> (user:
        Result<User, ReadError>)
        ensures
            match assembled(row_view(row), friends@, progress) {
                Ok(view) => user matches Ok(read) && read@ == view,
                Err(error) => user == Err::<User, ReadError>(error),
            },
    {
        match (row, progress) {
            (Some(found), Some(counters)) => Ok(
                User {
                    id: found.id,
                    password_hash: found.password_hash,
                    username: found.username,
                    email: found.email,
                    phone: found.phone,
                    bio: found.bio,
                    friends,
                    level: found.level,
                    progress: counters,
                    auth_token: None,
                },
            ),
            _ => Err(ReadError::NotFound),
        }
    }

    /// The plan that brings the store in line with this user, given the user
    /// as the store holds it.
    pub fn update(&self, persisted: &User) -> (plan: Vec<Statement>)
        ensures
            plan_view(plan@) == update_plan(self@, persisted@),
    {
        if self.same_attributes(persisted) {
            let plan: Vec<Statement> = Vec::new();
            assert(plan_view(plan@) =~= Seq::<StatementView>::empty());
            return plan;
        }
        let mut plan: Vec<Statement> = Vec::new();
        plan.push(Statement::UpdateUser(self.row()));
        plan.push(Statement::UpdateProgress(self.id, self.progress));
        assert(plan_view(plan@) =~= seq![
            StatementView::UpdateUser(self@.row),
            StatementView::UpdateProgress(self.id, self.progress),
        ]);
        let delta = reconcile(&self.friends, &persisted.friends);
        let plan = join(plan, link_friends(self.id, &delta.to_add));
        join(plan, unlink_friends(self.id, &delta.to_remove))
    }

    /// The plan that removes the user `id` and all that refers to it.
    pub fn delete(id: u128) -> (plan: Vec<Statement>)
        ensures
            plan_view(plan@) == deletion_plan(id),
    {
        let mut plan: Vec<Statement> = Vec::new();
        plan.push(Statement::DeleteProgress(id));
        plan.push(Statement::DeleteFriendsOf(id));
        plan.push(Statement::DeleteSessionsOf(id));
        plan.push(Statement::DeleteAnswersOf(id));
        plan.push(Statement::DeleteUser(id));
        assert(plan_view(plan@) =~= deletion_plan(id));
        plan
    }

    /// Logs a user in. `lookup` is what the store answered when asked for the
    /// user that goes by `username`.
    ///
    /// The outcome is that of `open_session` under a fresh token at the
    /// current time.
    pub fn login(
        username: String,
        password_hash: String,
        lookup: Result<Option<User>, StorageFailure>,
    ) -> (result: Result<(User, Vec<Statement>), UserError>)
        ensures
            exists|token: u128, now: i64| #[trigger]
                login_outcome(username@, password_hash@, lookup, token, now, result),
    {
        let token = fresh_id();
        let now = unix_now();
        let result = User::open_session(username, password_hash, lookup, token, now);
        assert(login_outcome(username@, password_hash@, lookup, token, now, result));
        result
    }

    /// Logs a user in at time `now` under the given token.
    pub fn open_session(
        username: String,
        password_hash: String,
        lookup: Result<Option<User>, StorageFailure>,
        token: u128,
        now: i64,
    ) -> (result: Result<(User, Vec<Statement>), UserError>)
        ensures
            login_outcome(username@, password_hash@, lookup, token, now, result),
    {
        let mut user = match lookup {
            Err(failure) => {
                return Err(UserError::DatabaseError(failure));
            },
            Ok(None) => {
                return Err(UserError::NoSuchUser);
            },
            Ok(Some(found)) => found,
        };
        if user.username != username {
            return Err(UserError::NoSuchUser);
        }
        if user.password_hash != password_hash {
            return Err(UserError::BadCredentials);
        }
        user.auth_token = Some(token);
        let mut plan: Vec<Statement> = Vec::new();
        plan.push(Statement::InsertSession(Session::issue(user.id, token, now)));
        assert(plan_view(plan@) =~= seq![
            StatementView::InsertSession(Session::issued(user.id, token, now)),
        ]);
        Ok((user, plan))
    }

    /// The plan that ends the session that carries `token`. It removes nothing
    /// if there is no such session.
    pub fn logout(token: u128) -> (plan: Vec<Statement>)
        ensures
            plan_view(plan@) == seq![StatementView::DeleteSession(token)],
    {
        let mut plan: Vec<Statement> = Vec::new();
        plan.push(Statement::DeleteSession(token));
        assert(plan_view(plan@) =~= seq![StatementView::DeleteSession(token)]);
        plan
    }

    /// Checks a token against the current time. `lookup` is what the store
    /// answered when asked for the session that carries the token.
    ///
    /// A token that is not there gives `NoTokenInUser` whatever the lookup
    /// says. Otherwise a failed lookup comes back as it is, and the rest is
    /// `validity` at the time of the call.
    pub fn check_token_validity(
        auth_token: &Option<u128>,
        lookup: Result<Option<Session>, StorageFailure>,
    ) -> (result: Result<Result<(), AuthorizationError>, StorageFailure>)
        ensures
            match (*auth_token, lookup) {
                (None, _) => result == Ok::<Result<(), AuthorizationError>, StorageFailure>(
                    Err(AuthorizationError::NoTokenInUser),
                ),
                (Some(_), Err(failure)) => result == Err::<
                    Result<(), AuthorizationError>,
                    StorageFailure,
                >(failure),
                (Some(_), Ok(session)) => exists|now: i64|
                    result == Ok::<Result<(), AuthorizationError>, StorageFailure>(
                        #[trigger] validity(*auth_token, session, now),
                    ),
            },
    {
        User::token_validity_at(auth_token, lookup, unix_now())
    }

    /// Checks a token against the time `now`.
    pub fn token_validity_at(
        auth_token: &Option<u128>,
        lookup: Result<Option<Session>, StorageFailure>,
        now: i64,
    ) -> (result: Result<Result<(), AuthorizationError>, StorageFailure>)
        ensures
            match (*auth_token, lookup) {
                (None, _) => result == Ok::<Result<(), AuthorizationError>, StorageFailure>(
                    Err(AuthorizationError::NoTokenInUser),
                ),
                (Some(_), Err(failure)) => result == Err::<
                    Result<(), AuthorizationError>,
                    StorageFailure,
                >(failure),
                (Some(_), Ok(session)) => result == Ok::<
                    Result<(), AuthorizationError>,
                    StorageFailure,
                >(validity(*auth_token, session, now)),
            },
    {
        let token = match auth_token {
            None => {
                return Ok(Err(AuthorizationError::NoTokenInUser));
            },
            Some(token) => *token,
        };
        match lookup {
            Err(failure) => Err(failure),
            Ok(found) => match token_state(&pick_session(token, found), now) {
                TokenState::Absent => Ok(Err(AuthorizationError::TokenNotInDatabase)),
                TokenState::Expired => Ok(Err(AuthorizationError::TokenExpired)),
                TokenState::Valid => Ok(Ok(())),
            },
        }
    }

    /// Checks that `auth_token` is good at the current time and belongs to
    /// `user_id`. `lookup` is what the store answered when asked for the
    /// session that carries the token.
    ///
    /// A failed lookup comes back as it is; the rest is `authorization` at the
    /// time of the call: the token is validated first, and only a token that
    /// is good is held against the user.
    pub fn check_authorization(
        auth_token: u128,
        user_id: &u128,
        lookup: Result<Option<Session>, StorageFailure>,
    ) -> (result: Result<Result<(), AuthorizationError>, StorageFailure>)
        ensures
            exists|now: i64| #[trigger] authorized(auth_token, *user_id, lookup, now, result),
    {
        let now = unix_now();
        let result = User::check_authorization_at(auth_token, user_id, lookup, now);
        assert(authorized(auth_token, *user_id, lookup, now, result));
        result
    }

    /// Checks that `auth_token` is good at time `now` and belongs to
    /// `user_id`.
    pub fn check_authorization_at(
        auth_token: u128,
        user_id: &u128,
        lookup: Result<Option<Session>, StorageFailure>,
        now: i64,
    ) -> (result: Result<Result<(), AuthorizationError>, StorageFailure>)
        ensures
            authorized(auth_token, *user_id, lookup, now, result),
    {
        match lookup {
            Err(failure) => Err(failure),
            Ok(found) => {
                let session = pick_session(auth_token, found);
                match token_state(&session, now) {
                    TokenState::Absent => Ok(Err(AuthorizationError::TokenNotInDatabase)),
                    TokenState::Expired => Ok(Err(AuthorizationError::TokenExpired)),
                    TokenState::Valid => match session {
                        None => Ok(Err(AuthorizationError::TokenNotInDatabase)),
                        Some(row) => if row.user_id == *user_id {
                            Ok(Ok(()))
                        } else {
                            Ok(Err(AuthorizationError::NotAuthorized))
                        },
                    },
                }
            },
        }
    }
}

/// The statements that link a user to each of `friends`.
pub fn link_friends(id: u128, friends: &Vec<u128>) -> (plan: Vec<Statement>)
    ensures
        plan_view(plan@) == friend_links(id, friends@),
{
    let mut plan: Vec<Statement> = Vec::new();
    let mut i: usize = 0;
    while i < friends.len()
        invariant
            i <= friends.len(),
            plan@.len() == i,
            forall|j: int| 0 <= j < i ==> plan@[j]@ == StatementView::InsertFriend(id, friends@[j]),
        decreases friends.len() - i,
    {
        plan.push(Statement::InsertFriend(id, friends[i]));
        i += 1;
    }
    assert(plan_view(plan@) =~= friend_links(id, friends@));
    plan
}

/// The statements that take the links of a user to each of `friends` away.
pub fn unlink_friends(id: u128, friends: &Vec<u128>) -> (plan: Vec<Statement>)
    ensures
        plan_view(plan@) == friend_unlinks(id, friends@),
{
    let mut plan: Vec<Statement> = Vec::new();
    let mut i: usize = 0;
    while i < friends.len()
        invariant
            i <= friends.len(),
            plan@.len() == i,
            forall|j: int| 0 <= j < i ==> plan@[j]@ == StatementView::DeleteFriend(id, friends@[j]),
        decreases friends.len() - i,
    {
        plan.push(Statement::DeleteFriend(id, friends[i]));
        i += 1;
    }
    assert(plan_view(plan@) =~= friend_unlinks(id, friends@));
    plan
}

/// Whether two lists hold the same ids in the same order.
pub fn same_ids(left: &Vec<u128>, right: &Vec<u128>) -> (same: bool)
    ensures
        same == (left@ == right@),
{
    if left.len() != right.len() {
        return false;
    }
    let mut i: usize = 0;
    while i < left.len()
        invariant
            i <= left.len(),
            left.len() == right.len(),
            forall|j: int| 0 <= j < i ==> left@[j] == right@[j],
        decreases left.len() - i,
    {
        if left[i] != right[i] {
            return false;
        }
        i += 1;
    }
    assert(left@ =~= right@);
    true
}

impl PartialEq for User {
    /// Two users are equal when every field is: the friends in the same
    /// order, and the session token too.
    fn eq(&self, other: &User) -> (same: bool) {
        self.same_row(other) && same_ids(&self.friends, &other.friends) && self.progress.course
            == other.progress.course && self.progress.unit == other.progress.unit
            && self.progress.sector == other.progress.sector && self.progress.level
            == other.progress.level && self.progress.task == other.progress.task && match (
            self.auth_token,
            other.auth_token,
        ) {
            (Some(a), Some(b)) => a == b,
            (None, None) => true,
            _ => false,
        }
    }
}

impl vstd::std_specs::cmp::PartialEqSpecImpl for User {
    open spec fn obeys_eq_spec() -> bool {
        true
    }

    open spec fn eq_spec(&self, other: &User) -> bool {
        self@ == other@
    }
}

} // verus!
