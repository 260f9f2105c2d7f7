//! Requests on users.

use crate::server::{Grant, Pass, Rejection};
use crate::statement::{plan_view, Statement, StatementView};
use crate::text::opt_view;
use crate::user::{
    creation_plan, deletion_plan, login_outcome, match_of, refusal, registered, update_plan,
    AuthorizationError, ReadError, StorageFailure, User, UserError, UserLevel, UserProgress,
    UserRow, UserRowView, UserView, EMAIL_PATTERN, PHONE_PATTERN,
};
use vstd::prelude::*;

verus! {

/// What a login request carries. `password` is the password verifier.
#[derive(Debug)]
pub struct LoginForm {
    pub username: String,
    pub password: String,
}

/// What a registration request carries. `password` is the password verifier.
#[derive(Debug)]
pub struct RegisterForm {
    pub username: String,
    pub password: String,
    pub email: Option<String>,
    pub phone: Option<String>,
}

/// What is shown of a user, and what a request may set: everything but the
/// id, the password verifier and the session token.
#[derive(Debug)]
pub struct UserInfo {
    pub username: String,
    pub email: Option<String>,
    pub phone: Option<String>,
    pub bio: Option<String>,
    pub friends: Vec<u128>,
    pub level: UserLevel,
    pub progress: UserProgress,
}

impl UserInfo {
    /// What is shown of `user`.
    pub fn from_user(user: User) -> (info: UserInfo)
        ensures
            info.username == user.username,
            info.email == user.email,
            info.phone == user.phone,
            info.bio == user.bio,
            info.friends == user.friends,
            info.level == user.level,
            info.progress == user.progress,
    {
        UserInfo {
            username: user.username,
            email: user.email,
            phone: user.phone,
            bio: user.bio,
            friends: user.friends,
            level: user.level,
            progress: user.progress,
        }
    }

    /// The stored user `persisted` with what this info sets: id, password
    /// verifier and session token stay, everything else is taken from here.
    pub fn to_user(self, persisted: &User) -> (user: User)
        ensures
            user@ == (UserView {
                row: UserRowView {
                    id: persisted.id,
                    password_hash: persisted.password_hash@,
                    username: self.username@,
                    email: opt_view(self.email),
                    phone: opt_view(self.phone),
                    bio: opt_view(self.bio),
                    level: self.level,
                },
                friends: self.friends@,
                progress: self.progress,
                auth_token: persisted.auth_token,
            }),
    {
        User {
            id: persisted.id,
            password_hash: persisted.password_hash.clone(),
            username: self.username,
            email: self.email,
            phone: self.phone,
            bio: self.bio,
            friends: self.friends,
            level: self.level,
            progress: self.progress,
            auth_token: persisted.auth_token,
        }
    }
}

/// Logs in the user of the form. `lookup` is what the store answered when
/// asked for the user that goes by the username of the form.
pub fn login(form: LoginForm, lookup: Result<Option<User>, StorageFailure>) -> (result: Result<
    (User, Vec<Statement>),
    UserError,
>)
    ensures
        exists|token: u128, now: i64| #[trigger]
            login_outcome(form.username@, form.password@, lookup, token, now, result),
{
    User::login(form.username, form.password, lookup)
}

/// Registers the user of the form. `lookup` is what the store answered when
/// asked for the id of the user that goes by the username of the form. On
/// success the new user comes back with the plan that stores it.
pub fn register(form: RegisterForm, lookup: Result<Option<u128>, StorageFailure>) -> (result:
    Result<(User, Vec<Statement>), UserError>)
    ensures
        match refusal(
            lookup,
            opt_view(form.email),
            opt_view(form.phone),
            match_of(EMAIL_PATTERN@, opt_view(form.email)),
            match_of(PHONE_PATTERN@, opt_view(form.phone)),
        ) {
            Some(error) => result == Err::<(User, Vec<Statement>), UserError>(error),
            None => result matches Ok((user, plan)) && user@ == registered(
                user.id,
                form.username@,
                form.password@,
                opt_view(form.email),
                opt_view(form.phone),
            ) && plan_view(plan@) == creation_plan(user@),
        },
{
    match User::new(form.username, form.password, form.email, form.phone, lookup) {
        Err(error) => Err(error),
        Ok(user) => {
            let plan = user.create();
            Ok((user, plan))
        },
    }
}

/// Sets what `user_info` says on the stored user `persisted`, for a request
/// that holds a grant for that user. The changed user comes back with the
/// plan that brings the store in line with it.
pub fn put(grant: &Grant, user_info: UserInfo, persisted: &User) -> (result: Result<
    (User, Vec<Statement>),
    Rejection,
>)
    ensures
        if grant.user_id() == persisted.id {
            &&& result matches Ok((user, plan))
            &&& user@ == (UserView {
                row: UserRowView {
                    id: persisted.id,
                    password_hash: persisted.password_hash@,
                    username: user_info.username@,
                    email: opt_view(user_info.email),
                    phone: opt_view(user_info.phone),
                    bio: opt_view(user_info.bio),
                    level: user_info.level,
                },
                friends: user_info.friends@,
                progress: user_info.progress,
                auth_token: persisted.auth_token,
            })
            &&& plan_view(plan@) == update_plan(user@, persisted@)
        } else {
            result == Err::<(User, Vec<Statement>), Rejection>(
                Rejection::Denied(AuthorizationError::NotAuthorized),
            )
        },
{
    if grant.user_id() != persisted.id {
        return Err(Rejection::Denied(AuthorizationError::NotAuthorized));
    }
    let user = user_info.to_user(persisted);
    let plan = user.update(persisted);
    Ok((user, plan))
}

/// What is shown of the user that the store holds, for a request that holds
/// a pass. The password verifier is no part of it.
pub fn get(
    pass: &Pass,
    row: Option<UserRow>,
    friends: Vec<u128>,
    progress: Option<UserProgress>,
) -> (result: Result<UserInfo, ReadError>)
    ensures
        match (row, progress) {
            (Some(found), Some(counters)) => {
                &&& result matches Ok(info)
                &&& info.username == found.username
                &&& info.email == found.email
                &&& info.phone == found.phone
                &&& info.bio == found.bio
                &&& info.friends == friends
                &&& info.level == found.level
                &&& info.progress == counters
            },
            _ => result == Err::<UserInfo, ReadError>(ReadError::NotFound),
        },
{
    match (row, progress) {
        (Some(found), Some(counters)) => Ok(
            UserInfo {
                username: found.username,
                email: found.email,
                phone: found.phone,
                bio: found.bio,
                friends,
                level: found.level,
                progress: counters,
            },
        ),
        _ => Err(ReadError::NotFound),
    }
}

/// The plan that removes the user `id`, for a request that holds a grant for
/// that user.
pub fn delete(grant: &Grant, id: u128) -> (result: Result<Vec<Statement>, Rejection>)
    ensures
        if grant.user_id() == id {
            result matches Ok(plan) && plan_view(plan@) == deletion_plan(id)
        } else {
            result == Err::<Vec<Statement>, Rejection>(
                Rejection::Denied(AuthorizationError::NotAuthorized),
            )
        },
{
    if grant.user_id() != id {
        return Err(Rejection::Denied(AuthorizationError::NotAuthorized));
    }
    Ok(User::delete(id))
}

/// The plan that ends the session of a request that holds a pass.
pub fn logout(pass: &Pass) -> (plan: Vec<Statement>)
    ensures
        plan_view(plan@) == seq![StatementView::DeleteSession(pass.token())],
{
    User::logout(pass.token())
}

} // verus!
