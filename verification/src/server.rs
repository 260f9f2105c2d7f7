//! What a request is allowed to do, and what it comes to.
//!
//! A request proves who sends it with a session token. Reading needs a token
//! that is good; changing or removing what belongs to a user needs a good
//! token of that very user. The functions here decide; whoever serves the
//! requests looks up the rows, runs the plans and words the replies.

pub mod answer;
pub mod task;
pub mod user;

use crate::outside::{parse_uuid, unix_now, uuid_parsed};
use crate::session::Session;
use crate::user::{authorization, validity, AuthorizationError, StorageFailure, User};
use vstd::prelude::*;

verus! {

/// Why a request is not let through.
#[derive(Debug)]
pub enum Rejection {
    /// The request carries no credential.
    MissingCredential,
    /// The credential is not a token.
    MalformedCredential,
    /// The token does not authorize the request.
    Denied(AuthorizationError),
    /// The store failed while the token was looked up.
    Storage(StorageFailure),
}

/// Held by a request whose token is good. Only `validate_token` and
/// `validate_token_at` hand one out.
#[derive(Debug)]
pub struct Pass {
    token: u128,
}

/// Held by a request whose token is good and belongs to a given user. Only
/// `check_authorization` and `check_authorization_at` hand one out.
#[derive(Debug)]
pub struct Grant {
    token: u128,
    user_id: u128,
}

impl Pass {
    /// The token that was checked.
    pub closed spec fn spec_token(&self) -> u128 {
        self.token
    }

    /// The token that was checked.
    #[verifier::when_used_as_spec(spec_token)]
    pub fn token(&self) -> (token: u128)
        ensures
            token == self.token(),
    {
        self.token
    }
}

impl Grant {
    /// The token that was checked.
    pub closed spec fn spec_token(&self) -> u128 {
        self.token
    }

    /// The user whom the token belongs to.
    pub closed spec fn spec_user_id(&self) -> u128 {
        self.user_id
    }

    /// The token that was checked.
    #[verifier::when_used_as_spec(spec_token)]
    pub fn token(&self) -> (token: u128)
        ensures
            token == self.token(),
    {
        self.token
    }

    /// The user whom the token belongs to.
    #[verifier::when_used_as_spec(spec_user_id)]
    pub fn user_id(&self) -> (user_id: u128)
        ensures
            user_id == self.user_id(),
    {
        self.user_id
    }
}

/// The token that a credential stands for.
pub open spec fn credential_token(credential: Option<Seq<char>>) -> Result<u128, Rejection> {
    match credential {
        None => Err(Rejection::MissingCredential),
        Some(text) => match uuid_parsed(text) {
            Some(token) => Ok(token),
            None => Err(Rejection::MalformedCredential),
        },
    }
}

/// Whether a request with `token` is let through at time `now`, given what
/// the store answered when asked for the session that carries the token.
pub open spec fn admission(
    token: u128,
    lookup: Result<Option<Session>, StorageFailure>,
    now: i64,
) -> Result<(), Rejection> {
    match lookup {
        Err(failure) => Err(Rejection::Storage(failure)),
        Ok(session) => match validity(Some(token), session, now) {
            Ok(()) => Ok(()),
            Err(error) => Err(Rejection::Denied(error)),
        },
    }
}

/// Whether a request with `token` may act on what belongs to `user_id` at
/// time `now`.
pub open spec fn permission(
    token: u128,
    user_id: u128,
    lookup: Result<Option<Session>, StorageFailure>,
    now: i64,
) -> Result<(), Rejection> {
    match lookup {
        Err(failure) => Err(Rejection::Storage(failure)),
        Ok(session) => match authorization(Some(token), user_id, session, now) {
            Ok(()) => Ok(()),
            Err(error) => Err(Rejection::Denied(error)),
        },
    }
}

/// What `validate_token_at` owes for each input.
pub open spec fn admitted(
    token: u128,
    lookup: Result<Option<Session>, StorageFailure>,
    now: i64,
    result: Result<Pass, Rejection>,
) -> bool {
    match admission(token, lookup, now) {
        Ok(()) => result matches Ok(pass) && pass.token() == token,
        Err(rejection) => result == Err::<Pass, Rejection>(rejection),
    }
}

/// What `check_authorization_at` owes for each input.
pub open spec fn permitted(
    token: u128,
    user_id: u128,
    lookup: Result<Option<Session>, StorageFailure>,
    now: i64,
    result: Result<Grant, Rejection>,
) -> bool {
    match permission(token, user_id, lookup, now) {
        Ok(()) => result matches Ok(grant) && grant.token() == token && grant.user_id() == user_id,
        Err(rejection) => result == Err::<Grant, Rejection>(rejection),
    }
}

/// Reads the token out of the credential of a request, if it carries one.
pub fn read_credential(credential: Option<&str>) -> (token: Result<u128, Rejection>)
    ensures
        token == credential_token(
            match credential {
                Some(text) => Some(text@),
                None => None,
            },
        ),
{
    match credential {
        None => Err(Rejection::MissingCredential),
        Some(text) => match parse_uuid(text) {
            Some(token) => Ok(token),
            None => Err(Rejection::MalformedCredential),
        },
    }
}

/// Lets a request through if its token is good at time `now`.
pub fn validate_token_at(
    token: u128,
    lookup: Result<Option<Session>, StorageFailure>,
    now: i64,
) -> (result: Result<Pass, Rejection>)
    ensures
        admitted(token, lookup, now, result),
{
    match User::token_validity_at(&Some(token), lookup, now) {
        Err(failure) => Err(Rejection::Storage(failure)),
        Ok(Err(error)) => Err(Rejection::Denied(error)),
        Ok(Ok(())) => Ok(Pass { token }),
    }
}

/// Lets a request through if its token is good at the current time.
pub fn validate_token(token: u128, lookup: Result<Option<Session>, StorageFailure>) -> (result:
    Result<Pass, Rejection>)
    ensures
        exists|now: i64| #[trigger] admitted(token, lookup, now, result),
{
    let now = unix_now();
    let result = validate_token_at(token, lookup, now);
    assert(admitted(token, lookup, now, result));
    result
}

/// Lets a request act on what belongs to `user_id` if its token is good at
/// time `now` and belongs to that user.
pub fn check_authorization_at(
    token: u128,
    user_id: &u128,
    lookup: Result<Option<Session>, StorageFailure>,
    now: i64,
) -> (result: Result<Grant, Rejection>)
    ensures
        permitted(token, *user_id, lookup, now, result),
{
    match User::check_authorization_at(token, user_id, lookup, now) {
        Err(failure) => Err(Rejection::Storage(failure)),
        Ok(Err(error)) => Err(Rejection::Denied(error)),
        Ok(Ok(())) => Ok(Grant { token, user_id: *user_id }),
    }
}

/// Lets a request act on what belongs to `user_id` if its token is good at
/// the current time and belongs to that user.
pub fn check_authorization(
    token: u128,
    user_id: &u128,
    lookup: Result<Option<Session>, StorageFailure>,
) -> (result: Result<Grant, Rejection>)
    ensures
        exists|now: i64| #[trigger] permitted(token, *user_id, lookup, now, result),
{
    let now = unix_now();
    let result = check_authorization_at(token, user_id, lookup, now);
    assert(permitted(token, *user_id, lookup, now, result));
    result
}

} // verus!
